//! Canonical machine-code encodings of the supported instruction forms.
//!
//! Each decoded instruction has exactly one encoding here: the prefix
//! bytes it needs (0x66 for 16-bit width, a REX byte for 64-bit width or
//! extended registers), its opcode, and its operand bytes, just as the
//! assembler emits them.

use vstd::prelude::*;
use crate::decode::{Instr, Width};

verus! {

/// The two little-endian bytes of the low 16 bits of `v`.
pub open spec fn spec_le_bytes16(v: u64) -> Seq<u8> {
    seq![(v & 0xff) as u8, ((v >> 8) & 0xff) as u8]
}

/// The four little-endian bytes of the low 32 bits of `v`.
pub open spec fn spec_le_bytes32(v: u64) -> Seq<u8> {
    seq![
        (v & 0xff) as u8,
        ((v >> 8) & 0xff) as u8,
        ((v >> 16) & 0xff) as u8,
        ((v >> 24) & 0xff) as u8,
    ]
}

/// The eight little-endian bytes of `v`.
pub open spec fn spec_le_bytes64(v: u64) -> Seq<u8> {
    spec_le_bytes32(v) + spec_le_bytes32(v >> 32)
}

/// A REX prefix byte with the given W, R and B flags.
pub open spec fn spec_rex_byte(w: bool, r: bool, b: bool) -> u8 {
    (0x40 | (if w {
        8u8
    } else {
        0u8
    }) | (if r {
        4u8
    } else {
        0u8
    }) | (if b {
        1u8
    } else {
        0u8
    })) as u8
}

/// A ModRM byte from its three fields.
pub open spec fn spec_modrm_byte(md: u8, reg: u8, rm: u8) -> u8 {
    ((md << 6) | (reg << 3) | rm) as u8
}

/// The prefix bytes an instruction needs: the operand-size override
/// first, then a REX byte if any extension or width bit is set.
pub open spec fn spec_prefix(is16: bool, w64: bool, r: bool, b: bool) -> Seq<u8> {
    (if is16 {
        seq![0x66u8]
    } else {
        Seq::<u8>::empty()
    }) + (if w64 || r || b {
        seq![spec_rex_byte(w64, r, b)]
    } else {
        Seq::<u8>::empty()
    })
}

/// The canonical byte encoding of one instruction, prefixes included.
pub open spec fn spec_encode(i: Instr) -> Seq<u8> {
    match i {
        Instr::JeNear { rel } => seq![0x0fu8, 0x84u8] + spec_le_bytes32((rel as u32) as u64),
        Instr::JeShort { rel } => seq![0x74u8, rel as u8],
        Instr::JmpNear { rel } => seq![0xe9u8] + spec_le_bytes32((rel as u32) as u64),
        Instr::XorReg { w, dst, src } => spec_prefix(
            w == Width::W16,
            w == Width::W64,
            src >= 8,
            dst >= 8,
        ) + seq![0x31u8, spec_modrm_byte(3, (src % 8) as u8, (dst % 8) as u8)],
        Instr::PushRbp => seq![0x55u8],
        Instr::Pop { index } => seq![(0x58 + index) as u8],
        Instr::CmpMemImm { base, disp, imm } => seq![
            0x80u8,
            spec_modrm_byte(1, 7, base),
            disp as u8,
            imm,
        ],
        Instr::SubRegImm { w64, reg, imm } => spec_prefix(false, w64, false, false) + seq![
            0x81u8,
            spec_modrm_byte(3, 5, reg),
        ] + spec_le_bytes32((imm as u32) as u64),
        Instr::MovMemReg8 { base, disp, src } => seq![
            0x88u8,
            spec_modrm_byte(1, src, base),
            disp as u8,
        ],
        Instr::MovRegReg { w64, dst, src } => spec_prefix(false, w64, false, false) + seq![
            0x89u8,
            spec_modrm_byte(3, src, dst),
        ],
        Instr::MovRegMem { dst, base, disp } => seq![
            0x8bu8,
            spec_modrm_byte(1, dst, base),
            disp as u8,
        ],
        Instr::MovMemImm { base, disp, imm } => seq![
            0xc7u8,
            spec_modrm_byte(1, 0, base),
            disp as u8,
        ] + spec_le_bytes32((imm as u32) as u64),
        Instr::MovImm8 { reg, imm } => seq![(0xb0 + reg) as u8, imm],
        Instr::MovImm { w, reg, imm } => spec_prefix(w == Width::W16, w == Width::W64, false, reg >= 8)
            + seq![(0xb8 + (reg % 8)) as u8] + (match w {
            Width::W16 => spec_le_bytes16(imm),
            Width::W32 => spec_le_bytes32(imm),
            Width::W64 => spec_le_bytes64(imm),
        }),
        Instr::MovImmSx { reg, imm } => seq![0x48u8, 0xc7u8, spec_modrm_byte(3, 0, reg)]
            + spec_le_bytes32((imm as u32) as u64),
        Instr::Ret => seq![0xc3u8],
        Instr::Endbr64 => seq![0xf3u8, 0x0fu8, 0x1eu8, 0xfau8],
        Instr::Hlt => seq![0xf4u8],
    }
}

fn push_le16(v: u64, out: &mut Vec<u8>)
    ensures
        final(out)@ == old(out)@ + spec_le_bytes16(v),
{
    out.push((v & 0xff) as u8);
    out.push(((v >> 8) & 0xff) as u8);
    proof {
        assert(out@ =~= old(out)@ + spec_le_bytes16(v));
    }
}

fn push_le32(v: u64, out: &mut Vec<u8>)
    ensures
        final(out)@ == old(out)@ + spec_le_bytes32(v),
{
    out.push((v & 0xff) as u8);
    out.push(((v >> 8) & 0xff) as u8);
    out.push(((v >> 16) & 0xff) as u8);
    out.push(((v >> 24) & 0xff) as u8);
    proof {
        assert(out@ =~= old(out)@ + spec_le_bytes32(v));
    }
}

fn push_le64(v: u64, out: &mut Vec<u8>)
    ensures
        final(out)@ == old(out)@ + spec_le_bytes64(v),
{
    push_le32(v, out);
    push_le32(v >> 32, out);
    proof {
        assert(out@ =~= old(out)@ + spec_le_bytes64(v));
    }
}

fn rex_byte(w: bool, r: bool, b: bool) -> (v: u8)
    ensures
        v == spec_rex_byte(w, r, b),
{
    0x40 | (if w {
        8u8
    } else {
        0u8
    }) | (if r {
        4u8
    } else {
        0u8
    }) | (if b {
        1u8
    } else {
        0u8
    })
}

fn modrm_byte(md: u8, reg: u8, rm: u8) -> (v: u8)
    requires
        md < 4,
        reg < 8,
        rm < 8,
    ensures
        v == spec_modrm_byte(md, reg, rm),
{
    proof {
        let m = md;
        let rg = reg;
        let r = rm;
        assert((m << 6) | (rg << 3) | r < 256) by (bit_vector)
            requires
                m < 4,
                rg < 8,
                r < 8,
        ;
    }
    (md << 6) | (reg << 3) | rm
}

fn push_prefix(is16: bool, w64: bool, r: bool, b: bool, out: &mut Vec<u8>)
    ensures
        final(out)@ == old(out)@ + spec_prefix(is16, w64, r, b),
{
    if is16 {
        out.push(0x66);
    }
    if w64 || r || b {
        out.push(rex_byte(w64, r, b));
    }
    proof {
        assert(out@ =~= old(out)@ + spec_prefix(is16, w64, r, b));
    }
}

/// The canonical byte encoding of `i`, as [`spec_encode`] gives it.
pub fn encode_instr(i: Instr) -> (r: Vec<u8>)
    requires
        i.wf(),
    ensures
        r@ == spec_encode(i),
{
    let mut out: Vec<u8> = Vec::new();
    match i {
        Instr::JeNear { rel } => {
            out.push(0x0f);
            out.push(0x84);
            push_le32((#[verifier::truncate] (rel as u32)) as u64, &mut out);
        },
        Instr::JeShort { rel } => {
            out.push(0x74);
            out.push(#[verifier::truncate] (rel as u8));
        },
        Instr::JmpNear { rel } => {
            out.push(0xe9);
            push_le32((#[verifier::truncate] (rel as u32)) as u64, &mut out);
        },
        Instr::XorReg { w, dst, src } => {
            let w16 = match w {
                Width::W16 => true,
                _ => false,
            };
            let w64 = match w {
                Width::W64 => true,
                _ => false,
            };
            push_prefix(w16, w64, src >= 8, dst >= 8, &mut out);
            out.push(0x31);
            out.push(modrm_byte(3, src % 8, dst % 8));
        },
        Instr::PushRbp => {
            out.push(0x55);
        },
        Instr::Pop { index } => {
            out.push(0x58 + index);
        },
        Instr::CmpMemImm { base, disp, imm } => {
            out.push(0x80);
            out.push(modrm_byte(1, 7, base));
            out.push(#[verifier::truncate] (disp as u8));
            out.push(imm);
        },
        Instr::SubRegImm { w64, reg, imm } => {
            push_prefix(false, w64, false, false, &mut out);
            out.push(0x81);
            out.push(modrm_byte(3, 5, reg));
            push_le32((#[verifier::truncate] (imm as u32)) as u64, &mut out);
        },
        Instr::MovMemReg8 { base, disp, src } => {
            out.push(0x88);
            out.push(modrm_byte(1, src, base));
            out.push(#[verifier::truncate] (disp as u8));
        },
        Instr::MovRegReg { w64, dst, src } => {
            push_prefix(false, w64, false, false, &mut out);
            out.push(0x89);
            out.push(modrm_byte(3, src, dst));
        },
        Instr::MovRegMem { dst, base, disp } => {
            out.push(0x8b);
            out.push(modrm_byte(1, dst, base));
            out.push(#[verifier::truncate] (disp as u8));
        },
        Instr::MovMemImm { base, disp, imm } => {
            out.push(0xc7);
            out.push(modrm_byte(1, 0, base));
            out.push(#[verifier::truncate] (disp as u8));
            push_le32((#[verifier::truncate] (imm as u32)) as u64, &mut out);
        },
        Instr::MovImm8 { reg, imm } => {
            out.push(0xb0 + reg);
            out.push(imm);
        },
        Instr::MovImm { w, reg, imm } => {
            let w16 = match w {
                Width::W16 => true,
                _ => false,
            };
            let w64 = match w {
                Width::W64 => true,
                _ => false,
            };
            push_prefix(w16, w64, false, reg >= 8, &mut out);
            out.push(0xb8 + (reg % 8));
            match w {
                Width::W16 => push_le16(imm, &mut out),
                Width::W32 => push_le32(imm, &mut out),
                Width::W64 => push_le64(imm, &mut out),
            }
        },
        Instr::MovImmSx { reg, imm } => {
            out.push(0x48);
            out.push(0xc7);
            out.push(modrm_byte(3, 0, reg));
            push_le32((#[verifier::truncate] (imm as u32)) as u64, &mut out);
        },
        Instr::Ret => {
            out.push(0xc3);
        },
        Instr::Endbr64 => {
            out.push(0xf3);
            out.push(0x0f);
            out.push(0x1e);
            out.push(0xfa);
        },
        Instr::Hlt => {
            out.push(0xf4);
        },
    }
    proof {
        assert(out@ =~= spec_encode(i));
    }
    out
}

} // verus!
