//! Formatting of decoded instructions as assembler-syntax text.
//!
//! Every semantic handler can record one line of assembly per executed
//! instruction.  The syntax here matches the assembler's own formatting:
//! lower-case register names, memory operands as `[base+disp]` or
//! `[base-disp]`, and `0x`-prefixed hexadecimal immediates for the
//! short-form register moves.

use vstd::prelude::*;
use crate::decode::{Instr, Width};
use crate::numfmt::{spec_dec_u64, spec_dec_i64, spec_hex0x, dec_u64_into, dec_i64_into, hex0x_into};

verus! {

/// The two-letter stem of a legacy register name (`ax`, `cx`, ... `di`).
pub open spec fn spec_base_name(i: u8) -> Seq<u8> {
    if i == 0 {
        seq![0x61u8, 0x78u8]
    } else if i == 1 {
        seq![0x63u8, 0x78u8]
    } else if i == 2 {
        seq![0x64u8, 0x78u8]
    } else if i == 3 {
        seq![0x62u8, 0x78u8]
    } else if i == 4 {
        seq![0x73u8, 0x70u8]
    } else if i == 5 {
        seq![0x62u8, 0x70u8]
    } else if i == 6 {
        seq![0x73u8, 0x69u8]
    } else {
        seq![0x64u8, 0x69u8]
    }
}

/// The digit tail of an extended register name (`8` ... `15`).
pub open spec fn spec_ext_digits(i: u8) -> Seq<u8> {
    if i == 8 {
        seq![0x38u8]
    } else if i == 9 {
        seq![0x39u8]
    } else if i == 10 {
        seq![0x31u8, 0x30u8]
    } else if i == 11 {
        seq![0x31u8, 0x31u8]
    } else if i == 12 {
        seq![0x31u8, 0x32u8]
    } else if i == 13 {
        seq![0x31u8, 0x33u8]
    } else if i == 14 {
        seq![0x31u8, 0x34u8]
    } else {
        seq![0x31u8, 0x35u8]
    }
}

/// The digit tail spells the slot number.
pub proof fn lemma_ext_digits(i: u8)
    requires
        8 <= i < 16,
    ensures
        spec_ext_digits(i) == spec_dec_u64(i as u64),
{
    if i >= 10 {
        assert(spec_dec_u64(i as u64) == spec_dec_u64((i as u64) / 10).push(
            (0x30 + (i as u64) % 10) as u8,
        ));
        assert(spec_dec_u64((i as u64) / 10) == seq![0x31u8]);
        assert(spec_ext_digits(i) =~= spec_dec_u64((i as u64) / 10).push(
            (0x30 + (i as u64) % 10) as u8,
        ));
    } else {
        assert(spec_dec_u64(i as u64) == seq![(0x30 + i as u64) as u8]);
        assert(spec_ext_digits(i) =~= seq![(0x30 + i as u64) as u8]);
    }
}

/// The 64-bit name of slot `i` (`rax` ... `r15`).
pub open spec fn spec_name64(i: u8) -> Seq<u8> {
    if i < 8 {
        seq![0x72u8] + spec_base_name(i)
    } else {
        seq![0x72u8] + spec_ext_digits(i)
    }
}

/// The 32-bit name of slot `i` (`eax` ... `r15d`).
pub open spec fn spec_name32(i: u8) -> Seq<u8> {
    if i < 8 {
        seq![0x65u8] + spec_base_name(i)
    } else {
        seq![0x72u8] + spec_ext_digits(i) + seq![0x64u8]
    }
}

/// The 16-bit name of slot `i` (`ax` ... `r15w`).
pub open spec fn spec_name16(i: u8) -> Seq<u8> {
    if i < 8 {
        spec_base_name(i)
    } else {
        seq![0x72u8] + spec_ext_digits(i) + seq![0x77u8]
    }
}

/// The legacy 8-bit name of identifier `i` (`al` ... `bh`), the group the
/// decoder reaches without a REX prefix.
pub open spec fn spec_name8(i: u8) -> Seq<u8> {
    if i == 0 {
        seq![0x61u8, 0x6cu8]
    } else if i == 1 {
        seq![0x63u8, 0x6cu8]
    } else if i == 2 {
        seq![0x64u8, 0x6cu8]
    } else if i == 3 {
        seq![0x62u8, 0x6cu8]
    } else if i == 4 {
        seq![0x61u8, 0x68u8]
    } else if i == 5 {
        seq![0x63u8, 0x68u8]
    } else if i == 6 {
        seq![0x64u8, 0x68u8]
    } else {
        seq![0x62u8, 0x68u8]
    }
}

/// The name of slot `i` at width `w`.
pub open spec fn spec_name_w(w: Width, i: u8) -> Seq<u8> {
    match w {
        Width::W16 => spec_name16(i),
        Width::W32 => spec_name32(i),
        Width::W64 => spec_name64(i),
    }
}

/// A displacement with its sign always written (`+4`, `-4`).
pub open spec fn spec_disp(d: i8) -> Seq<u8> {
    if d >= 0 {
        seq![0x2bu8] + spec_dec_u64(d as u64)
    } else {
        seq![0x2du8] + spec_dec_u64((-(d as int)) as u64)
    }
}

/// The 64-bit bit pattern a sign-extended 32-bit immediate prints as.
pub open spec fn spec_sx_bits(imm: i32) -> u64 {
    (imm as i64) as u64
}

/// The assembly line the sink receives for instruction `i`.
///
/// The halt sentinel prints nothing: it exists only to end a test run.
pub open spec fn spec_format(i: Instr) -> Seq<u8> {
    match i {
        Instr::JeNear { rel } => seq![0x6au8, 0x65u8, 0x20u8, 0x6eu8, 0x65u8, 0x61u8, 0x72u8, 0x20u8]
            + spec_dec_i64((rel + 4) as i64),
        Instr::JeShort { rel } => seq![0x6au8, 0x65u8, 0x20u8] + spec_dec_i64(rel as i64),
        Instr::JmpNear { rel } => seq![0x6au8, 0x6du8, 0x70u8, 0x20u8, 0x6eu8, 0x65u8, 0x61u8, 0x72u8, 0x20u8]
            + spec_dec_i64((rel + 4) as i64),
        Instr::XorReg { w, dst, src } => seq![0x78u8, 0x6fu8, 0x72u8, 0x20u8] + spec_name_w(w, dst)
            + seq![0x2cu8, 0x20u8] + spec_name_w(w, src),
        Instr::PushRbp => seq![0x70u8, 0x75u8, 0x73u8, 0x68u8, 0x20u8, 0x72u8, 0x62u8, 0x70u8],
        Instr::Pop { index } => seq![0x70u8, 0x6fu8, 0x70u8, 0x20u8] + spec_name64(index),
        Instr::CmpMemImm { base, disp, imm } => seq![0x63u8, 0x6du8, 0x70u8, 0x20u8, 0x62u8, 0x79u8, 0x74u8, 0x65u8, 0x20u8, 0x5bu8]
            + spec_name64(base) + spec_disp(disp) + seq![0x5du8, 0x2cu8, 0x20u8] + spec_dec_u64(imm as u64),
        Instr::SubRegImm { w64, reg, imm } => seq![0x73u8, 0x75u8, 0x62u8, 0x20u8] + (if w64 {
            spec_name64(reg)
        } else {
            spec_name32(reg)
        }) + seq![0x2cu8, 0x20u8] + spec_dec_i64(imm as i64),
        Instr::MovMemReg8 { base, disp, src } => seq![0x6du8, 0x6fu8, 0x76u8, 0x20u8, 0x5bu8]
            + spec_name64(base) + spec_disp(disp) + seq![0x5du8, 0x2cu8, 0x20u8] + spec_name8(src),
        Instr::MovRegReg { w64, dst, src } => seq![0x6du8, 0x6fu8, 0x76u8, 0x20u8] + (if w64 {
            spec_name64(dst)
        } else {
            spec_name32(dst)
        }) + seq![0x2cu8, 0x20u8] + (if w64 {
            spec_name64(src)
        } else {
            spec_name32(src)
        }),
        Instr::MovRegMem { dst, base, disp } => seq![0x6du8, 0x6fu8, 0x76u8, 0x20u8] + spec_name32(dst)
            + seq![0x2cu8, 0x20u8, 0x5bu8] + spec_name64(base) + spec_disp(disp) + seq![0x5du8],
        Instr::MovMemImm { base, disp, imm } => seq![0x6du8, 0x6fu8, 0x76u8, 0x20u8, 0x64u8, 0x77u8, 0x6fu8, 0x72u8, 0x64u8, 0x20u8, 0x5bu8]
            + spec_name64(base) + spec_disp(disp) + seq![0x5du8, 0x2cu8, 0x20u8] + spec_dec_i64(imm as i64),
        Instr::MovImm8 { reg, imm } => seq![0x6du8, 0x6fu8, 0x76u8, 0x20u8] + spec_name8(reg)
            + seq![0x2cu8, 0x20u8] + spec_dec_u64(imm as u64),
        Instr::MovImm { w, reg, imm } => seq![0x6du8, 0x6fu8, 0x76u8, 0x20u8] + spec_name_w(w, reg)
            + seq![0x2cu8, 0x20u8] + spec_hex0x(imm),
        Instr::MovImmSx { reg, imm } => seq![0x6du8, 0x6fu8, 0x76u8, 0x20u8] + spec_name64(reg)
            + seq![0x2cu8, 0x20u8] + spec_hex0x(spec_sx_bits(imm)),
        Instr::Ret => seq![0x72u8, 0x65u8, 0x74u8],
        Instr::Endbr64 => seq![0x65u8, 0x6eu8, 0x64u8, 0x62u8, 0x72u8, 0x36u8, 0x34u8],
        Instr::Hlt => Seq::empty(),
    }
}

/// Appends the two-letter legacy name stem.
fn base_name_into(i: u8, out: &mut Vec<u8>)
    requires
        i < 8,
    ensures
        final(out)@ == old(out)@ + spec_base_name(i),
{
    let (a, b): (u8, u8) = match i {
        0 => (0x61u8, 0x78u8),
        1 => (0x63u8, 0x78u8),
        2 => (0x64u8, 0x78u8),
        3 => (0x62u8, 0x78u8),
        4 => (0x73u8, 0x70u8),
        5 => (0x62u8, 0x70u8),
        6 => (0x73u8, 0x69u8),
        _ => (0x64u8, 0x69u8),
    };
    out.push(a);
    out.push(b);
    proof {
        assert(out@ =~= old(out)@ + spec_base_name(i));
    }
}

/// Appends the digit tail of an extended register name.
fn ext_digits_into(i: u8, out: &mut Vec<u8>)
    requires
        8 <= i < 16,
    ensures
        final(out)@ == old(out)@ + spec_ext_digits(i),
{
    if i < 10 {
        out.push(0x30 + i);
    } else {
        out.push(0x31);
        out.push(0x30 + (i - 10));
    }
    proof {
        assert(out@ =~= old(out)@ + spec_ext_digits(i));
    }
}

/// Appends the 64-bit name of slot `i`.
pub fn name64_into(i: u8, out: &mut Vec<u8>)
    requires
        i < 16,
    ensures
        final(out)@ == old(out)@ + spec_name64(i),
{
    out.push(0x72u8);
    proof {
        assert(out@ =~= old(out)@ + seq![0x72u8]);
    }
    if i < 8 {
        base_name_into(i, out);
    } else {
        ext_digits_into(i, out);
    }
    proof {
        assert(out@ =~= old(out)@ + spec_name64(i));
    }
}

/// Appends the 32-bit name of slot `i`.
pub fn name32_into(i: u8, out: &mut Vec<u8>)
    requires
        i < 16,
    ensures
        final(out)@ == old(out)@ + spec_name32(i),
{
    if i < 8 {
        out.push(0x65u8);
        base_name_into(i, out);
    } else {
        out.push(0x72u8);
        ext_digits_into(i, out);
        out.push(0x64u8);
    }
    proof {
        assert(out@ =~= old(out)@ + spec_name32(i));
    }
}

/// Appends the 16-bit name of slot `i`.
pub fn name16_into(i: u8, out: &mut Vec<u8>)
    requires
        i < 16,
    ensures
        final(out)@ == old(out)@ + spec_name16(i),
{
    if i < 8 {
        base_name_into(i, out);
    } else {
        out.push(0x72u8);
        ext_digits_into(i, out);
        out.push(0x77u8);
    }
    proof {
        assert(out@ =~= old(out)@ + spec_name16(i));
    }
}

/// Appends the legacy 8-bit name of identifier `i`.
pub fn name8_into(i: u8, out: &mut Vec<u8>)
    requires
        i < 8,
    ensures
        final(out)@ == old(out)@ + spec_name8(i),
{
    let (a, b): (u8, u8) = match i {
        0 => (0x61u8, 0x6cu8),
        1 => (0x63u8, 0x6cu8),
        2 => (0x64u8, 0x6cu8),
        3 => (0x62u8, 0x6cu8),
        4 => (0x61u8, 0x68u8),
        5 => (0x63u8, 0x68u8),
        6 => (0x64u8, 0x68u8),
        _ => (0x62u8, 0x68u8),
    };
    out.push(a);
    out.push(b);
    proof {
        assert(out@ =~= old(out)@ + spec_name8(i));
    }
}

/// Appends the name of slot `i` at width `w`.
pub fn name_w_into(w: Width, i: u8, out: &mut Vec<u8>)
    requires
        i < 16,
    ensures
        final(out)@ == old(out)@ + spec_name_w(w, i),
{
    match w {
        Width::W16 => name16_into(i, out),
        Width::W32 => name32_into(i, out),
        Width::W64 => name64_into(i, out),
    }
}

/// Appends the always-signed displacement text.
fn disp_into(d: i8, out: &mut Vec<u8>)
    ensures
        final(out)@ == old(out)@ + spec_disp(d),
{
    if d >= 0 {
        out.push(0x2bu8);
        dec_u64_into(d as u64, out);
    } else {
        out.push(0x2du8);
        let mag: u64 = if d == i8::MIN {
            128
        } else {
            (-d) as u64
        };
        dec_u64_into(mag, out);
    }
    proof {
        assert(out@ =~= old(out)@ + spec_disp(d));
    }
}

/// The assembly-syntax line for one decoded instruction; empty for the
/// halt sentinel, which prints nothing.
#[verifier::rlimit(60)]
#[verifier::spinoff_prover]
pub fn format_instr(i: Instr) -> (r: Vec<u8>)
    requires
        i.wf(),
    ensures
        r@ == spec_format(i),
{
    let mut out: Vec<u8> = Vec::new();
    match i {
        Instr::JeNear { rel } => {
            out.push(0x6au8);
            out.push(0x65u8);
            out.push(0x20u8);
            out.push(0x6eu8);
            out.push(0x65u8);
            out.push(0x61u8);
            out.push(0x72u8);
            out.push(0x20u8);
            dec_i64_into((rel as i64) + 4, &mut out);
        },
        Instr::JeShort { rel } => {
            out.push(0x6au8);
            out.push(0x65u8);
            out.push(0x20u8);
            dec_i64_into(rel as i64, &mut out);
        },
        Instr::JmpNear { rel } => {
            out.push(0x6au8);
            out.push(0x6du8);
            out.push(0x70u8);
            out.push(0x20u8);
            out.push(0x6eu8);
            out.push(0x65u8);
            out.push(0x61u8);
            out.push(0x72u8);
            out.push(0x20u8);
            dec_i64_into((rel as i64) + 4, &mut out);
        },
        Instr::XorReg { w, dst, src } => {
            out.push(0x78u8);
            out.push(0x6fu8);
            out.push(0x72u8);
            out.push(0x20u8);
            name_w_into(w, dst, &mut out);
            out.push(0x2cu8);
            out.push(0x20u8);
            name_w_into(w, src, &mut out);
        },
        Instr::PushRbp => {
            out.push(0x70u8);
            out.push(0x75u8);
            out.push(0x73u8);
            out.push(0x68u8);
            out.push(0x20u8);
            out.push(0x72u8);
            out.push(0x62u8);
            out.push(0x70u8);
        },
        Instr::Pop { index } => {
            out.push(0x70u8);
            out.push(0x6fu8);
            out.push(0x70u8);
            out.push(0x20u8);
            name64_into(index, &mut out);
        },
        Instr::CmpMemImm { base, disp, imm } => {
            out.push(0x63u8);
            out.push(0x6du8);
            out.push(0x70u8);
            out.push(0x20u8);
            out.push(0x62u8);
            out.push(0x79u8);
            out.push(0x74u8);
            out.push(0x65u8);
            out.push(0x20u8);
            out.push(0x5bu8);
            name64_into(base, &mut out);
            disp_into(disp, &mut out);
            out.push(0x5du8);
            out.push(0x2cu8);
            out.push(0x20u8);
            dec_u64_into(imm as u64, &mut out);
        },
        Instr::SubRegImm { w64, reg, imm } => {
            out.push(0x73u8);
            out.push(0x75u8);
            out.push(0x62u8);
            out.push(0x20u8);
            if w64 {
                name64_into(reg, &mut out);
            } else {
                name32_into(reg, &mut out);
            }
            out.push(0x2cu8);
            out.push(0x20u8);
            dec_i64_into(imm as i64, &mut out);
        },
        Instr::MovMemReg8 { base, disp, src } => {
            out.push(0x6du8);
            out.push(0x6fu8);
            out.push(0x76u8);
            out.push(0x20u8);
            out.push(0x5bu8);
            name64_into(base, &mut out);
            disp_into(disp, &mut out);
            out.push(0x5du8);
            out.push(0x2cu8);
            out.push(0x20u8);
            name8_into(src, &mut out);
        },
        Instr::MovRegReg { w64, dst, src } => {
            out.push(0x6du8);
            out.push(0x6fu8);
            out.push(0x76u8);
            out.push(0x20u8);
            if w64 {
                name64_into(dst, &mut out);
            } else {
                name32_into(dst, &mut out);
            }
            out.push(0x2cu8);
            out.push(0x20u8);
            if w64 {
                name64_into(src, &mut out);
            } else {
                name32_into(src, &mut out);
            }
        },
        Instr::MovRegMem { dst, base, disp } => {
            out.push(0x6du8);
            out.push(0x6fu8);
            out.push(0x76u8);
            out.push(0x20u8);
            name32_into(dst, &mut out);
            out.push(0x2cu8);
            out.push(0x20u8);
            out.push(0x5bu8);
            name64_into(base, &mut out);
            disp_into(disp, &mut out);
            out.push(0x5du8);
        },
        Instr::MovMemImm { base, disp, imm } => {
            out.push(0x6du8);
            out.push(0x6fu8);
            out.push(0x76u8);
            out.push(0x20u8);
            out.push(0x64u8);
            out.push(0x77u8);
            out.push(0x6fu8);
            out.push(0x72u8);
            out.push(0x64u8);
            out.push(0x20u8);
            out.push(0x5bu8);
            name64_into(base, &mut out);
            disp_into(disp, &mut out);
            out.push(0x5du8);
            out.push(0x2cu8);
            out.push(0x20u8);
            dec_i64_into(imm as i64, &mut out);
        },
        Instr::MovImm8 { reg, imm } => {
            out.push(0x6du8);
            out.push(0x6fu8);
            out.push(0x76u8);
            out.push(0x20u8);
            name8_into(reg, &mut out);
            out.push(0x2cu8);
            out.push(0x20u8);
            dec_u64_into(imm as u64, &mut out);
        },
        Instr::MovImm { w, reg, imm } => {
            out.push(0x6du8);
            out.push(0x6fu8);
            out.push(0x76u8);
            out.push(0x20u8);
            name_w_into(w, reg, &mut out);
            out.push(0x2cu8);
            out.push(0x20u8);
            hex0x_into(imm, &mut out);
        },
        Instr::MovImmSx { reg, imm } => {
            out.push(0x6du8);
            out.push(0x6fu8);
            out.push(0x76u8);
            out.push(0x20u8);
            name64_into(reg, &mut out);
            out.push(0x2cu8);
            out.push(0x20u8);
            let bits: u64 = sx_bits(imm);
            hex0x_into(bits, &mut out);
        },
        Instr::Ret => {
            out.push(0x72u8);
            out.push(0x65u8);
            out.push(0x74u8);
        },
        Instr::Endbr64 => {
            out.push(0x65u8);
            out.push(0x6eu8);
            out.push(0x64u8);
            out.push(0x62u8);
            out.push(0x72u8);
            out.push(0x36u8);
            out.push(0x34u8);
        },
        Instr::Hlt => {},
    }
    proof {
        assert(out@ =~= spec_format(i));
    }
    out
}

/// The 64-bit bit pattern of a sign-extended 32-bit immediate.
pub fn sx_bits(imm: i32) -> (r: u64)
    ensures
        r == spec_sx_bits(imm),
{
    #[verifier::truncate] ((imm as i64) as u64)
}

} // verus!
