//! Round-trip laws tying the decoder, the encoder and the disassembly
//! text together.
//!
//! Decoding is the inverse of encoding: running the prefix-and-opcode
//! decoder over the canonical encoding of any supported instruction form
//! yields that form back and consumes exactly its bytes.

use vstd::prelude::*;
use crate::decode::{
    spec_decode, spec_decode_full, spec_is_rex, spec_le16, spec_le32, spec_le64, spec_i32,
    spec_op_width, Instr, ModRm, Rex, Width,
};
use crate::encode::{
    spec_encode, spec_le_bytes16, spec_le_bytes32, spec_le_bytes64, spec_modrm_byte,
    spec_prefix, spec_rex_byte,
};
use crate::assembler::{
    spec_parse_name16, spec_parse_name32, spec_parse_name64, spec_parse_name8, spec_strip,
    spec_token_end, spec_tokens,
};
use crate::disasm::{spec_name16, spec_name32, spec_name64, spec_name8};

verus! {

/// A constructed REX byte is recognized as one and carries its flags.
proof fn lemma_rex_fields(w: bool, r: bool, b: bool)
    ensures
        ({
            let x = spec_rex_byte(w, r, b);
            &&& spec_is_rex(x)
            &&& Rex(x).spec_w() == w
            &&& Rex(x).spec_r() == r
            &&& Rex(x).spec_b() == b
        }),
{
    let wb: u8 = if w {
        8
    } else {
        0
    };
    let rb: u8 = if r {
        4
    } else {
        0
    };
    let bb: u8 = if b {
        1
    } else {
        0
    };
    assert((0x40u8 | wb | rb | bb) & 0xf0 == 0x40 && ((0x40u8 | wb | rb | bb) & 0b1000 != 0) == (wb
        == 8) && ((0x40u8 | wb | rb | bb) & 0b100 != 0) == (rb == 4) && ((0x40u8 | wb | rb | bb)
        & 0b1 != 0) == (bb == 1)) by (bit_vector)
        requires
            wb == 8 || wb == 0,
            rb == 4 || rb == 0,
            bb == 1 || bb == 0,
    ;
}

/// A constructed ModRM byte yields its three fields back.
proof fn lemma_modrm_fields(md: u8, reg: u8, rm: u8)
    requires
        md < 4,
        reg < 8,
        rm < 8,
    ensures
        ({
            let m = ModRm(spec_modrm_byte(md, reg, rm));
            &&& m.spec_mod() == md
            &&& m.spec_reg() == reg
            &&& m.spec_rm() == rm
        }),
{
    assert((((md << 6) | (reg << 3) | rm) >> 6) & 0b11 == md && (((md << 6) | (reg << 3) | rm)
        >> 3) & 0b111 == reg && ((md << 6) | (reg << 3) | rm) & 0b111 == rm) by (bit_vector)
        requires
            md < 4,
            reg < 8,
            rm < 8,
    ;
}

/// Reading four little-endian bytes back gives the stored value.
proof fn lemma_le32_at(s: Seq<u8>, k: int, v: u64)
    requires
        0 <= k,
        k + 4 <= s.len(),
        s[k] == spec_le_bytes32(v)[0],
        s[k + 1] == spec_le_bytes32(v)[1],
        s[k + 2] == spec_le_bytes32(v)[2],
        s[k + 3] == spec_le_bytes32(v)[3],
        v < 0x1_0000_0000,
    ensures
        spec_le32(s, k) == v,
{
    assert(((v & 0xff) as u8 as u64) | (((v >> 8) & 0xff) as u8 as u64) << 8 | (((v >> 16) & 0xff)
        as u8 as u64) << 16 | (((v >> 24) & 0xff) as u8 as u64) << 24 == v) by (bit_vector)
        requires
            v < 0x1_0000_0000,
    ;
}

/// Reading two little-endian bytes back gives the stored value.
proof fn lemma_le16_at(s: Seq<u8>, k: int, v: u64)
    requires
        0 <= k,
        k + 2 <= s.len(),
        s[k] == spec_le_bytes16(v)[0],
        s[k + 1] == spec_le_bytes16(v)[1],
        v < 0x10000,
    ensures
        spec_le16(s, k) == v,
{
    assert(((v & 0xff) as u8 as u64) | (((v >> 8) & 0xff) as u8 as u64) << 8 == v) by (bit_vector)
        requires
            v < 0x10000,
    ;
}

/// Reading eight little-endian bytes back gives the stored value.
proof fn lemma_le64_at(s: Seq<u8>, k: int, v: u64)
    requires
        0 <= k,
        k + 8 <= s.len(),
        forall|j: int| 0 <= j < 8 ==> s[k + j] == spec_le_bytes64(v)[j],
    ensures
        spec_le64(s, k) == v,
{
    let lo = v & 0xffff_ffff;
    let hi = v >> 32;
    assert(lo < 0x1_0000_0000 && hi < 0x1_0000_0000) by (bit_vector)
        requires
            lo == v & 0xffff_ffff,
            hi == v >> 32,
    ;
    assert(spec_le_bytes64(v)[0] == spec_le_bytes32(v)[0]);
    assert(spec_le_bytes64(v)[1] == spec_le_bytes32(v)[1]);
    assert(spec_le_bytes64(v)[2] == spec_le_bytes32(v)[2]);
    assert(spec_le_bytes64(v)[3] == spec_le_bytes32(v)[3]);
    assert(spec_le_bytes64(v)[4] == spec_le_bytes32(hi)[0]);
    assert(spec_le_bytes64(v)[5] == spec_le_bytes32(hi)[1]);
    assert(spec_le_bytes64(v)[6] == spec_le_bytes32(hi)[2]);
    assert(spec_le_bytes64(v)[7] == spec_le_bytes32(hi)[3]);
    assert((v & 0xff) == (lo & 0xff) && ((v >> 8) & 0xff) == ((lo >> 8) & 0xff) && ((v >> 16)
        & 0xff) == ((lo >> 16) & 0xff) && ((v >> 24) & 0xff) == ((lo >> 24) & 0xff))
        by (bit_vector)
        requires
            lo == v & 0xffff_ffff,
    ;
    lemma_le32_at(s, k, lo);
    lemma_le32_at(s.subrange(k + 4, k + 8).add(Seq::empty()), 0, hi);
    assert(spec_le32(s, k + 4) == hi) by {
        let t = s.subrange(k + 4, k + 8).add(Seq::empty());
        assert(t[0] == s[k + 4] && t[1] == s[k + 5] && t[2] == s[k + 6] && t[3] == s[k + 7]);
        assert(spec_le32(t, 0) == hi);
    }
    assert((lo | (hi << 32)) == v) by (bit_vector)
        requires
            lo == v & 0xffff_ffff,
            hi == v >> 32,
    ;
}

/// A signed 32-bit value survives the trip through its bit pattern.
proof fn lemma_i32_bits(x: i32)
    ensures
        (((x as u32) as u64) as u32) as i32 == x,
        ((x as u32) as u64) < 0x1_0000_0000,
{
    assert((((x as u32) as u64) as u32) as i32 == x && ((x as u32) as u64) < 0x1_0000_0000)
        by (bit_vector);
}

/// The opcodes of the subset are neither REX prefixes nor the
/// operand-size override, and an absent prefix contributes no flags.
proof fn lemma_fixed_bytes()
    ensures
        !spec_is_rex(0x0f),
        !spec_is_rex(0x31),
        !spec_is_rex(0x55),
        !spec_is_rex(0x66),
        !spec_is_rex(0x74),
        !spec_is_rex(0x80),
        !spec_is_rex(0x81),
        !spec_is_rex(0x88),
        !spec_is_rex(0x89),
        !spec_is_rex(0x8b),
        !spec_is_rex(0xc3),
        !spec_is_rex(0xc7),
        !spec_is_rex(0xe9),
        !spec_is_rex(0xf3),
        !spec_is_rex(0xf4),
        spec_is_rex(0x48),
        Rex(0x48).spec_w(),
        !Rex(0x48).spec_r(),
        !Rex(0x48).spec_b(),
        !Rex(0u8).spec_w(),
        !Rex(0u8).spec_r(),
        !Rex(0u8).spec_b(),
        !Rex(0u8).spec_x(),
{
    assert(0x0fu8 & 0xf0 != 0x40 && 0x31u8 & 0xf0 != 0x40 && 0x55u8 & 0xf0 != 0x40 && 0x66u8
        & 0xf0 != 0x40 && 0x74u8 & 0xf0 != 0x40 && 0x80u8 & 0xf0 != 0x40 && 0x81u8 & 0xf0 != 0x40
        && 0x88u8 & 0xf0 != 0x40 && 0x89u8 & 0xf0 != 0x40 && 0x8bu8 & 0xf0 != 0x40 && 0xc3u8
        & 0xf0 != 0x40 && 0xc7u8 & 0xf0 != 0x40 && 0xe9u8 & 0xf0 != 0x40 && 0xf3u8 & 0xf0 != 0x40
        && 0xf4u8 & 0xf0 != 0x40 && 0x48u8 & 0xf0 == 0x40 && 0x48u8 & 0b1000 != 0 && 0x48u8
        & 0b100 == 0 && 0x48u8 & 0b1 == 0 && 0u8 & 0b1000 == 0 && 0u8 & 0b100 == 0 && 0u8 & 0b10
        == 0 && 0u8 & 0b1 == 0) by (bit_vector);
}

/// Decoding inverts encoding: the prefix-and-opcode decoder, run over the
/// canonical encoding of any well-formed instruction, yields the same
/// instruction and consumes the whole encoding.
#[verifier::rlimit(100)]
#[verifier::spinoff_prover]
pub proof fn lemma_encode_decode(i: Instr)
    requires
        i.wf(),
    ensures
        ({
            let s = spec_encode(i);
            spec_decode_full(s, 0, None, false) matches Ok((j, body_ip, end_ip)) && j == i
                && end_ip == s.len()
        }),
{
    let s = spec_encode(i);
    lemma_fixed_bytes();
    match i {
        Instr::JeNear { rel } => {
            lemma_i32_bits(rel);
            lemma_le32_at(s, 2, (rel as u32) as u64);
        },
        Instr::JeShort { rel } => {
            assert((rel as u8) as i8 == rel) by (bit_vector);
        },
        Instr::JmpNear { rel } => {
            lemma_i32_bits(rel);
            lemma_le32_at(s, 1, (rel as u32) as u64);
        },
        Instr::XorReg { w, dst, src } => {
            let is16 = w == Width::W16;
            let w64 = w == Width::W64;
            let need_rex = w64 || src >= 8 || dst >= 8;
            lemma_rex_fields(w64, src >= 8, dst >= 8);
            lemma_modrm_fields(3, (src % 8) as u8, (dst % 8) as u8);
            assert((src % 8) + (if src >= 8 {
                8u8
            } else {
                0u8
            }) == src) by (bit_vector)
                requires
                    src < 16,
            ;
            assert((dst % 8) + (if dst >= 8 {
                8u8
            } else {
                0u8
            }) == dst) by (bit_vector)
                requires
                    dst < 16,
            ;
            if is16 {
                assert(s[0] == 0x66);
                if need_rex {
                    assert(spec_decode_full(s, 0, None, false) == spec_decode_full(
                        s,
                        1,
                        None,
                        true,
                    ));
                    assert(spec_decode_full(s, 1, None, true) == spec_decode_full(
                        s,
                        2,
                        Some(Rex(s[1])),
                        true,
                    ));
                } else {
                    assert(spec_decode_full(s, 0, None, false) == spec_decode_full(
                        s,
                        1,
                        None,
                        true,
                    ));
                }
            } else {
                if need_rex {
                    assert(spec_decode_full(s, 0, None, false) == spec_decode_full(
                        s,
                        1,
                        Some(Rex(s[0])),
                        false,
                    ));
                }
            }
        },
        Instr::PushRbp => {
        },
        Instr::Pop { index } => {
            let b = (0x58 + index) as u8;
            assert(!spec_is_rex(b) && b != 0x66 && 0x58 <= b <= 0x5f && b - 0x58 == index)
                by (bit_vector)
                requires
                    b == 0x58 + index,
                    index < 8,
            ;
        },
        Instr::CmpMemImm { base, disp, imm } => {
            lemma_modrm_fields(1, 7, base);
            assert((disp as u8) as i8 == disp) by (bit_vector);
        },
        Instr::SubRegImm { w64, reg, imm } => {
            lemma_rex_fields(w64, false, false);
            lemma_modrm_fields(3, 5, reg);
            lemma_i32_bits(imm);
            if w64 {
                assert(spec_decode_full(s, 0, None, false) == spec_decode_full(
                    s,
                    1,
                    Some(Rex(s[0])),
                    false,
                ));
                lemma_le32_at(s, 3, (imm as u32) as u64);
            } else {
                lemma_le32_at(s, 2, (imm as u32) as u64);
            }
        },
        Instr::MovMemReg8 { base, disp, src } => {
            lemma_modrm_fields(1, src, base);
            assert((disp as u8) as i8 == disp) by (bit_vector);
        },
        Instr::MovRegReg { w64, dst, src } => {
            lemma_rex_fields(w64, false, false);
            lemma_modrm_fields(3, src, dst);
            if w64 {
                assert(spec_decode_full(s, 0, None, false) == spec_decode_full(
                    s,
                    1,
                    Some(Rex(s[0])),
                    false,
                ));
            }
        },
        Instr::MovRegMem { dst, base, disp } => {
            lemma_modrm_fields(1, dst, base);
            assert((disp as u8) as i8 == disp) by (bit_vector);
        },
        Instr::MovMemImm { base, disp, imm } => {
            lemma_modrm_fields(1, 0, base);
            lemma_i32_bits(imm);
            assert((disp as u8) as i8 == disp) by (bit_vector);
            lemma_le32_at(s, 3, (imm as u32) as u64);
        },
        Instr::MovImm8 { reg, imm } => {
            let b = (0xb0 + reg) as u8;
            assert(!spec_is_rex(b) && b != 0x66 && 0xb0 <= b <= 0xb7 && b - 0xb0 == reg)
                by (bit_vector)
                requires
                    b == 0xb0 + reg,
                    reg < 8,
            ;
        },
        Instr::MovImm { w, reg, imm } => {
            let is16 = w == Width::W16;
            let w64 = w == Width::W64;
            let need_rex = w64 || reg >= 8;
            lemma_rex_fields(w64, false, reg >= 8);
            let op = (0xb8 + (reg % 8)) as u8;
            assert(!spec_is_rex(op) && op != 0x66 && 0xb8 <= op <= 0xbf && (op - 0xb8) == reg % 8)
                by (bit_vector)
                requires
                    op == 0xb8 + (reg % 8),
                    reg < 16,
            ;
            assert((reg % 8) + (if reg >= 8 {
                8u8
            } else {
                0u8
            }) == reg) by (bit_vector)
                requires
                    reg < 16,
            ;
            let pstart: int = (if is16 {
                1int
            } else {
                0int
            }) + (if need_rex {
                1int
            } else {
                0int
            });
            if is16 {
                assert(s[0] == 0x66);
                assert(spec_decode_full(s, 0, None, false) == spec_decode_full(s, 1, None, true));
                if need_rex {
                    assert(spec_decode_full(s, 1, None, true) == spec_decode_full(
                        s,
                        2,
                        Some(Rex(s[1])),
                        true,
                    ));
                }
                lemma_le16_at(s, pstart + 1, imm);
            } else if w64 {
                assert(spec_decode_full(s, 0, None, false) == spec_decode_full(
                    s,
                    1,
                    Some(Rex(s[0])),
                    false,
                ));
                assert(forall|j: int|
                    0 <= j < 8 ==> s[pstart + 1 + j] == spec_le_bytes64(imm)[j]);
                lemma_le64_at(s, pstart + 1, imm);
            } else {
                if need_rex {
                    assert(spec_decode_full(s, 0, None, false) == spec_decode_full(
                        s,
                        1,
                        Some(Rex(s[0])),
                        false,
                    ));
                }
                lemma_le32_at(s, pstart + 1, imm);
            }
        },
        Instr::MovImmSx { reg, imm } => {
            lemma_rex_fields(true, false, false);
            lemma_modrm_fields(3, 0, reg);
            lemma_i32_bits(imm);
            assert(spec_decode_full(s, 0, None, false) == spec_decode_full(
                s,
                1,
                Some(Rex(0x48)),
                false,
            ));
            lemma_le32_at(s, 3, (imm as u32) as u64);
        },
        Instr::Ret => {
        },
        Instr::Endbr64 => {
        },
        Instr::Hlt => {
        },
    }
}

/// A token as the formatter writes one: non-empty, without spaces or
/// commas.
pub open spec fn spec_plain_token(s: Seq<u8>) -> bool {
    s.len() >= 1 && forall|k: int| 0 <= k < s.len() ==> (#[trigger] s[k]) != 0x20 && s[k] != 0x2c
}

/// A run of non-space bytes ending at a space (or at the end of the
/// line) is one token.
proof fn lemma_token_end_at(line: Seq<u8>, i: int, j: int)
    requires
        0 <= i <= j <= line.len(),
        forall|k: int| i <= k < j ==> (#[trigger] line[k]) != 0x20,
        j == line.len() || line[j] == 0x20,
    ensures
        spec_token_end(line, i) == j,
    decreases j - i,
{
    if i < j {
        lemma_token_end_at(line, i + 1, j);
    }
}

/// Splitting off the first token of a line.
proof fn lemma_tokens_word(line: Seq<u8>, i: int, j: int)
    requires
        0 <= i < j <= line.len(),
        forall|k: int| i <= k < j ==> (#[trigger] line[k]) != 0x20,
        j == line.len() || line[j] == 0x20,
    ensures
        spec_tokens(line, i) == seq![spec_strip(line.subrange(i, j))] + spec_tokens(line, j),
{
    lemma_token_end_at(line, i, j);
}

/// The 64-bit register names are plain tokens that the 64-bit name
/// parser inverts; those of the low eight slots hold no sign bytes.
proof fn lemma_name64_token(i: u8)
    requires
        i < 16,
    ensures
        spec_plain_token(spec_name64(i)),
        spec_clean(spec_name64(i)),
        2 <= spec_name64(i).len() <= 3,
        spec_name64(i).last() != 0x3a,
        spec_parse_name64(spec_name64(i)) == Some(i),
        forall|k: int|
            0 <= k < spec_name64(i).len() ==> (#[trigger] spec_name64(i)[k]) != 0x2b
                && spec_name64(i)[k] != 0x2d && spec_name64(i)[k] != 0x5d,
{
    if i == 0 {
    } else if i == 1 {
            assert(spec_name64(1)[1] != spec_name64(0)[1]);
            assert(spec_name64(1) != spec_name64(0));
    } else if i == 2 {
            assert(spec_name64(2)[1] != spec_name64(0)[1]
                && spec_name64(2)[1] != spec_name64(1)[1]);
            assert(spec_name64(2) != spec_name64(0)
                && spec_name64(2) != spec_name64(1));
    } else if i == 3 {
            assert(spec_name64(3)[1] != spec_name64(0)[1]
                && spec_name64(3)[1] != spec_name64(1)[1]
                && spec_name64(3)[1] != spec_name64(2)[1]);
            assert(spec_name64(3) != spec_name64(0)
                && spec_name64(3) != spec_name64(1)
                && spec_name64(3) != spec_name64(2));
    } else if i == 4 {
            assert(spec_name64(4)[1] != spec_name64(0)[1]
                && spec_name64(4)[1] != spec_name64(1)[1]
                && spec_name64(4)[1] != spec_name64(2)[1]
                && spec_name64(4)[1] != spec_name64(3)[1]);
            assert(spec_name64(4) != spec_name64(0)
                && spec_name64(4) != spec_name64(1)
                && spec_name64(4) != spec_name64(2)
                && spec_name64(4) != spec_name64(3));
    } else if i == 5 {
            assert(spec_name64(5)[1] != spec_name64(0)[1]
                && spec_name64(5)[1] != spec_name64(1)[1]
                && spec_name64(5)[1] != spec_name64(2)[1]
                && spec_name64(5)[2] != spec_name64(3)[2]
                && spec_name64(5)[1] != spec_name64(4)[1]);
            assert(spec_name64(5) != spec_name64(0)
                && spec_name64(5) != spec_name64(1)
                && spec_name64(5) != spec_name64(2)
                && spec_name64(5) != spec_name64(3)
                && spec_name64(5) != spec_name64(4));
    } else if i == 6 {
            assert(spec_name64(6)[1] != spec_name64(0)[1]
                && spec_name64(6)[1] != spec_name64(1)[1]
                && spec_name64(6)[1] != spec_name64(2)[1]
                && spec_name64(6)[1] != spec_name64(3)[1]
                && spec_name64(6)[2] != spec_name64(4)[2]
                && spec_name64(6)[1] != spec_name64(5)[1]);
            assert(spec_name64(6) != spec_name64(0)
                && spec_name64(6) != spec_name64(1)
                && spec_name64(6) != spec_name64(2)
                && spec_name64(6) != spec_name64(3)
                && spec_name64(6) != spec_name64(4)
                && spec_name64(6) != spec_name64(5));
    } else if i == 7 {
            assert(spec_name64(7)[1] != spec_name64(0)[1]
                && spec_name64(7)[1] != spec_name64(1)[1]
                && spec_name64(7)[2] != spec_name64(2)[2]
                && spec_name64(7)[1] != spec_name64(3)[1]
                && spec_name64(7)[1] != spec_name64(4)[1]
                && spec_name64(7)[1] != spec_name64(5)[1]
                && spec_name64(7)[1] != spec_name64(6)[1]);
            assert(spec_name64(7) != spec_name64(0)
                && spec_name64(7) != spec_name64(1)
                && spec_name64(7) != spec_name64(2)
                && spec_name64(7) != spec_name64(3)
                && spec_name64(7) != spec_name64(4)
                && spec_name64(7) != spec_name64(5)
                && spec_name64(7) != spec_name64(6));
    } else if i == 8 {
            assert(spec_name64(8).len() != spec_name64(0).len()
                && spec_name64(8).len() != spec_name64(1).len()
                && spec_name64(8).len() != spec_name64(2).len()
                && spec_name64(8).len() != spec_name64(3).len()
                && spec_name64(8).len() != spec_name64(4).len()
                && spec_name64(8).len() != spec_name64(5).len()
                && spec_name64(8).len() != spec_name64(6).len()
                && spec_name64(8).len() != spec_name64(7).len());
            assert(spec_name64(8) != spec_name64(0)
                && spec_name64(8) != spec_name64(1)
                && spec_name64(8) != spec_name64(2)
                && spec_name64(8) != spec_name64(3)
                && spec_name64(8) != spec_name64(4)
                && spec_name64(8) != spec_name64(5)
                && spec_name64(8) != spec_name64(6)
                && spec_name64(8) != spec_name64(7));
    } else if i == 9 {
            assert(spec_name64(9).len() != spec_name64(0).len()
                && spec_name64(9).len() != spec_name64(1).len()
                && spec_name64(9).len() != spec_name64(2).len()
                && spec_name64(9).len() != spec_name64(3).len()
                && spec_name64(9).len() != spec_name64(4).len()
                && spec_name64(9).len() != spec_name64(5).len()
                && spec_name64(9).len() != spec_name64(6).len()
                && spec_name64(9).len() != spec_name64(7).len());
            assert(spec_name64(9) != spec_name64(0)
                && spec_name64(9) != spec_name64(1)
                && spec_name64(9) != spec_name64(2)
                && spec_name64(9) != spec_name64(3)
                && spec_name64(9) != spec_name64(4)
                && spec_name64(9) != spec_name64(5)
                && spec_name64(9) != spec_name64(6)
                && spec_name64(9) != spec_name64(7));
            assert(spec_name64(9)[1] != spec_name64(8)[1]);
            assert(spec_name64(9) != spec_name64(8));
    } else if i == 10 {
            assert(spec_name64(10)[1] != spec_name64(0)[1]
                && spec_name64(10)[1] != spec_name64(1)[1]
                && spec_name64(10)[1] != spec_name64(2)[1]
                && spec_name64(10)[1] != spec_name64(3)[1]
                && spec_name64(10)[1] != spec_name64(4)[1]
                && spec_name64(10)[1] != spec_name64(5)[1]
                && spec_name64(10)[1] != spec_name64(6)[1]
                && spec_name64(10)[1] != spec_name64(7)[1]);
            assert(spec_name64(10) != spec_name64(0)
                && spec_name64(10) != spec_name64(1)
                && spec_name64(10) != spec_name64(2)
                && spec_name64(10) != spec_name64(3)
                && spec_name64(10) != spec_name64(4)
                && spec_name64(10) != spec_name64(5)
                && spec_name64(10) != spec_name64(6)
                && spec_name64(10) != spec_name64(7));
            assert(spec_name64(10).len() != spec_name64(8).len()
                && spec_name64(10).len() != spec_name64(9).len());
            assert(spec_name64(10) != spec_name64(8)
                && spec_name64(10) != spec_name64(9));
    } else if i == 11 {
            assert(spec_name64(11)[1] != spec_name64(0)[1]
                && spec_name64(11)[1] != spec_name64(1)[1]
                && spec_name64(11)[1] != spec_name64(2)[1]
                && spec_name64(11)[1] != spec_name64(3)[1]
                && spec_name64(11)[1] != spec_name64(4)[1]
                && spec_name64(11)[1] != spec_name64(5)[1]
                && spec_name64(11)[1] != spec_name64(6)[1]
                && spec_name64(11)[1] != spec_name64(7)[1]);
            assert(spec_name64(11) != spec_name64(0)
                && spec_name64(11) != spec_name64(1)
                && spec_name64(11) != spec_name64(2)
                && spec_name64(11) != spec_name64(3)
                && spec_name64(11) != spec_name64(4)
                && spec_name64(11) != spec_name64(5)
                && spec_name64(11) != spec_name64(6)
                && spec_name64(11) != spec_name64(7));
            assert(spec_name64(11).len() != spec_name64(8).len()
                && spec_name64(11).len() != spec_name64(9).len()
                && spec_name64(11)[2] != spec_name64(10)[2]);
            assert(spec_name64(11) != spec_name64(8)
                && spec_name64(11) != spec_name64(9)
                && spec_name64(11) != spec_name64(10));
    } else if i == 12 {
            assert(spec_name64(12)[1] != spec_name64(0)[1]
                && spec_name64(12)[1] != spec_name64(1)[1]
                && spec_name64(12)[1] != spec_name64(2)[1]
                && spec_name64(12)[1] != spec_name64(3)[1]
                && spec_name64(12)[1] != spec_name64(4)[1]
                && spec_name64(12)[1] != spec_name64(5)[1]
                && spec_name64(12)[1] != spec_name64(6)[1]
                && spec_name64(12)[1] != spec_name64(7)[1]);
            assert(spec_name64(12) != spec_name64(0)
                && spec_name64(12) != spec_name64(1)
                && spec_name64(12) != spec_name64(2)
                && spec_name64(12) != spec_name64(3)
                && spec_name64(12) != spec_name64(4)
                && spec_name64(12) != spec_name64(5)
                && spec_name64(12) != spec_name64(6)
                && spec_name64(12) != spec_name64(7));
            assert(spec_name64(12).len() != spec_name64(8).len()
                && spec_name64(12).len() != spec_name64(9).len()
                && spec_name64(12)[2] != spec_name64(10)[2]
                && spec_name64(12)[2] != spec_name64(11)[2]);
            assert(spec_name64(12) != spec_name64(8)
                && spec_name64(12) != spec_name64(9)
                && spec_name64(12) != spec_name64(10)
                && spec_name64(12) != spec_name64(11));
    } else if i == 13 {
            assert(spec_name64(13)[1] != spec_name64(0)[1]
                && spec_name64(13)[1] != spec_name64(1)[1]
                && spec_name64(13)[1] != spec_name64(2)[1]
                && spec_name64(13)[1] != spec_name64(3)[1]
                && spec_name64(13)[1] != spec_name64(4)[1]
                && spec_name64(13)[1] != spec_name64(5)[1]
                && spec_name64(13)[1] != spec_name64(6)[1]
                && spec_name64(13)[1] != spec_name64(7)[1]);
            assert(spec_name64(13) != spec_name64(0)
                && spec_name64(13) != spec_name64(1)
                && spec_name64(13) != spec_name64(2)
                && spec_name64(13) != spec_name64(3)
                && spec_name64(13) != spec_name64(4)
                && spec_name64(13) != spec_name64(5)
                && spec_name64(13) != spec_name64(6)
                && spec_name64(13) != spec_name64(7));
            assert(spec_name64(13).len() != spec_name64(8).len()
                && spec_name64(13).len() != spec_name64(9).len()
                && spec_name64(13)[2] != spec_name64(10)[2]
                && spec_name64(13)[2] != spec_name64(11)[2]
                && spec_name64(13)[2] != spec_name64(12)[2]);
            assert(spec_name64(13) != spec_name64(8)
                && spec_name64(13) != spec_name64(9)
                && spec_name64(13) != spec_name64(10)
                && spec_name64(13) != spec_name64(11)
                && spec_name64(13) != spec_name64(12));
    } else if i == 14 {
            assert(spec_name64(14)[1] != spec_name64(0)[1]
                && spec_name64(14)[1] != spec_name64(1)[1]
                && spec_name64(14)[1] != spec_name64(2)[1]
                && spec_name64(14)[1] != spec_name64(3)[1]
                && spec_name64(14)[1] != spec_name64(4)[1]
                && spec_name64(14)[1] != spec_name64(5)[1]
                && spec_name64(14)[1] != spec_name64(6)[1]
                && spec_name64(14)[1] != spec_name64(7)[1]);
            assert(spec_name64(14) != spec_name64(0)
                && spec_name64(14) != spec_name64(1)
                && spec_name64(14) != spec_name64(2)
                && spec_name64(14) != spec_name64(3)
                && spec_name64(14) != spec_name64(4)
                && spec_name64(14) != spec_name64(5)
                && spec_name64(14) != spec_name64(6)
                && spec_name64(14) != spec_name64(7));
            assert(spec_name64(14).len() != spec_name64(8).len()
                && spec_name64(14).len() != spec_name64(9).len()
                && spec_name64(14)[2] != spec_name64(10)[2]
                && spec_name64(14)[2] != spec_name64(11)[2]
                && spec_name64(14)[2] != spec_name64(12)[2]
                && spec_name64(14)[2] != spec_name64(13)[2]);
            assert(spec_name64(14) != spec_name64(8)
                && spec_name64(14) != spec_name64(9)
                && spec_name64(14) != spec_name64(10)
                && spec_name64(14) != spec_name64(11)
                && spec_name64(14) != spec_name64(12)
                && spec_name64(14) != spec_name64(13));
    } else {
            assert(spec_name64(15)[1] != spec_name64(0)[1]
                && spec_name64(15)[1] != spec_name64(1)[1]
                && spec_name64(15)[1] != spec_name64(2)[1]
                && spec_name64(15)[1] != spec_name64(3)[1]
                && spec_name64(15)[1] != spec_name64(4)[1]
                && spec_name64(15)[1] != spec_name64(5)[1]
                && spec_name64(15)[1] != spec_name64(6)[1]
                && spec_name64(15)[1] != spec_name64(7)[1]);
            assert(spec_name64(15) != spec_name64(0)
                && spec_name64(15) != spec_name64(1)
                && spec_name64(15) != spec_name64(2)
                && spec_name64(15) != spec_name64(3)
                && spec_name64(15) != spec_name64(4)
                && spec_name64(15) != spec_name64(5)
                && spec_name64(15) != spec_name64(6)
                && spec_name64(15) != spec_name64(7));
            assert(spec_name64(15).len() != spec_name64(8).len()
                && spec_name64(15).len() != spec_name64(9).len()
                && spec_name64(15)[2] != spec_name64(10)[2]
                && spec_name64(15)[2] != spec_name64(11)[2]
                && spec_name64(15)[2] != spec_name64(12)[2]
                && spec_name64(15)[2] != spec_name64(13)[2]
                && spec_name64(15)[2] != spec_name64(14)[2]);
            assert(spec_name64(15) != spec_name64(8)
                && spec_name64(15) != spec_name64(9)
                && spec_name64(15) != spec_name64(10)
                && spec_name64(15) != spec_name64(11)
                && spec_name64(15) != spec_name64(12)
                && spec_name64(15) != spec_name64(13)
                && spec_name64(15) != spec_name64(14));
    }
}

/// The 32-bit register names are plain tokens that only the 32-bit name
/// parser accepts.
proof fn lemma_name32_token(i: u8)
    requires
        i < 16,
    ensures
        spec_plain_token(spec_name32(i)),
        spec_clean(spec_name32(i)),
        spec_name32(i).last() != 0x3a,
        spec_parse_name32(spec_name32(i)) == Some(i),
        spec_parse_name64(spec_name32(i)) is None,
{
    if i == 0 {
            assert(spec_name32(0)[0] != spec_name64(0)[0]
                && spec_name32(0)[0] != spec_name64(1)[0]
                && spec_name32(0)[0] != spec_name64(2)[0]
                && spec_name32(0)[0] != spec_name64(3)[0]
                && spec_name32(0)[0] != spec_name64(4)[0]
                && spec_name32(0)[0] != spec_name64(5)[0]
                && spec_name32(0)[0] != spec_name64(6)[0]
                && spec_name32(0)[0] != spec_name64(7)[0]);
            assert(spec_name32(0) != spec_name64(0)
                && spec_name32(0) != spec_name64(1)
                && spec_name32(0) != spec_name64(2)
                && spec_name32(0) != spec_name64(3)
                && spec_name32(0) != spec_name64(4)
                && spec_name32(0) != spec_name64(5)
                && spec_name32(0) != spec_name64(6)
                && spec_name32(0) != spec_name64(7));
            assert(spec_name32(0).len() != spec_name64(8).len()
                && spec_name32(0).len() != spec_name64(9).len()
                && spec_name32(0)[0] != spec_name64(10)[0]
                && spec_name32(0)[0] != spec_name64(11)[0]
                && spec_name32(0)[0] != spec_name64(12)[0]
                && spec_name32(0)[0] != spec_name64(13)[0]
                && spec_name32(0)[0] != spec_name64(14)[0]
                && spec_name32(0)[0] != spec_name64(15)[0]);
            assert(spec_name32(0) != spec_name64(8)
                && spec_name32(0) != spec_name64(9)
                && spec_name32(0) != spec_name64(10)
                && spec_name32(0) != spec_name64(11)
                && spec_name32(0) != spec_name64(12)
                && spec_name32(0) != spec_name64(13)
                && spec_name32(0) != spec_name64(14)
                && spec_name32(0) != spec_name64(15));
    } else if i == 1 {
            assert(spec_name32(1)[1] != spec_name32(0)[1]
                && spec_name32(1)[0] != spec_name64(0)[0]
                && spec_name32(1)[0] != spec_name64(1)[0]
                && spec_name32(1)[0] != spec_name64(2)[0]
                && spec_name32(1)[0] != spec_name64(3)[0]
                && spec_name32(1)[0] != spec_name64(4)[0]
                && spec_name32(1)[0] != spec_name64(5)[0]
                && spec_name32(1)[0] != spec_name64(6)[0]);
            assert(spec_name32(1) != spec_name32(0)
                && spec_name32(1) != spec_name64(0)
                && spec_name32(1) != spec_name64(1)
                && spec_name32(1) != spec_name64(2)
                && spec_name32(1) != spec_name64(3)
                && spec_name32(1) != spec_name64(4)
                && spec_name32(1) != spec_name64(5)
                && spec_name32(1) != spec_name64(6));
            assert(spec_name32(1)[0] != spec_name64(7)[0]
                && spec_name32(1).len() != spec_name64(8).len()
                && spec_name32(1).len() != spec_name64(9).len()
                && spec_name32(1)[0] != spec_name64(10)[0]
                && spec_name32(1)[0] != spec_name64(11)[0]
                && spec_name32(1)[0] != spec_name64(12)[0]
                && spec_name32(1)[0] != spec_name64(13)[0]
                && spec_name32(1)[0] != spec_name64(14)[0]);
            assert(spec_name32(1) != spec_name64(7)
                && spec_name32(1) != spec_name64(8)
                && spec_name32(1) != spec_name64(9)
                && spec_name32(1) != spec_name64(10)
                && spec_name32(1) != spec_name64(11)
                && spec_name32(1) != spec_name64(12)
                && spec_name32(1) != spec_name64(13)
                && spec_name32(1) != spec_name64(14));
            assert(spec_name32(1)[0] != spec_name64(15)[0]);
            assert(spec_name32(1) != spec_name64(15));
    } else if i == 2 {
            assert(spec_name32(2)[1] != spec_name32(0)[1]
                && spec_name32(2)[1] != spec_name32(1)[1]
                && spec_name32(2)[0] != spec_name64(0)[0]
                && spec_name32(2)[0] != spec_name64(1)[0]
                && spec_name32(2)[0] != spec_name64(2)[0]
                && spec_name32(2)[0] != spec_name64(3)[0]
                && spec_name32(2)[0] != spec_name64(4)[0]
                && spec_name32(2)[0] != spec_name64(5)[0]);
            assert(spec_name32(2) != spec_name32(0)
                && spec_name32(2) != spec_name32(1)
                && spec_name32(2) != spec_name64(0)
                && spec_name32(2) != spec_name64(1)
                && spec_name32(2) != spec_name64(2)
                && spec_name32(2) != spec_name64(3)
                && spec_name32(2) != spec_name64(4)
                && spec_name32(2) != spec_name64(5));
            assert(spec_name32(2)[0] != spec_name64(6)[0]
                && spec_name32(2)[0] != spec_name64(7)[0]
                && spec_name32(2).len() != spec_name64(8).len()
                && spec_name32(2).len() != spec_name64(9).len()
                && spec_name32(2)[0] != spec_name64(10)[0]
                && spec_name32(2)[0] != spec_name64(11)[0]
                && spec_name32(2)[0] != spec_name64(12)[0]
                && spec_name32(2)[0] != spec_name64(13)[0]);
            assert(spec_name32(2) != spec_name64(6)
                && spec_name32(2) != spec_name64(7)
                && spec_name32(2) != spec_name64(8)
                && spec_name32(2) != spec_name64(9)
                && spec_name32(2) != spec_name64(10)
                && spec_name32(2) != spec_name64(11)
                && spec_name32(2) != spec_name64(12)
                && spec_name32(2) != spec_name64(13));
            assert(spec_name32(2)[0] != spec_name64(14)[0]
                && spec_name32(2)[0] != spec_name64(15)[0]);
            assert(spec_name32(2) != spec_name64(14)
                && spec_name32(2) != spec_name64(15));
    } else if i == 3 {
            assert(spec_name32(3)[1] != spec_name32(0)[1]
                && spec_name32(3)[1] != spec_name32(1)[1]
                && spec_name32(3)[1] != spec_name32(2)[1]
                && spec_name32(3)[0] != spec_name64(0)[0]
                && spec_name32(3)[0] != spec_name64(1)[0]
                && spec_name32(3)[0] != spec_name64(2)[0]
                && spec_name32(3)[0] != spec_name64(3)[0]
                && spec_name32(3)[0] != spec_name64(4)[0]);
            assert(spec_name32(3) != spec_name32(0)
                && spec_name32(3) != spec_name32(1)
                && spec_name32(3) != spec_name32(2)
                && spec_name32(3) != spec_name64(0)
                && spec_name32(3) != spec_name64(1)
                && spec_name32(3) != spec_name64(2)
                && spec_name32(3) != spec_name64(3)
                && spec_name32(3) != spec_name64(4));
            assert(spec_name32(3)[0] != spec_name64(5)[0]
                && spec_name32(3)[0] != spec_name64(6)[0]
                && spec_name32(3)[0] != spec_name64(7)[0]
                && spec_name32(3).len() != spec_name64(8).len()
                && spec_name32(3).len() != spec_name64(9).len()
                && spec_name32(3)[0] != spec_name64(10)[0]
                && spec_name32(3)[0] != spec_name64(11)[0]
                && spec_name32(3)[0] != spec_name64(12)[0]);
            assert(spec_name32(3) != spec_name64(5)
                && spec_name32(3) != spec_name64(6)
                && spec_name32(3) != spec_name64(7)
                && spec_name32(3) != spec_name64(8)
                && spec_name32(3) != spec_name64(9)
                && spec_name32(3) != spec_name64(10)
                && spec_name32(3) != spec_name64(11)
                && spec_name32(3) != spec_name64(12));
            assert(spec_name32(3)[0] != spec_name64(13)[0]
                && spec_name32(3)[0] != spec_name64(14)[0]
                && spec_name32(3)[0] != spec_name64(15)[0]);
            assert(spec_name32(3) != spec_name64(13)
                && spec_name32(3) != spec_name64(14)
                && spec_name32(3) != spec_name64(15));
    } else if i == 4 {
            assert(spec_name32(4)[1] != spec_name32(0)[1]
                && spec_name32(4)[1] != spec_name32(1)[1]
                && spec_name32(4)[1] != spec_name32(2)[1]
                && spec_name32(4)[1] != spec_name32(3)[1]
                && spec_name32(4)[0] != spec_name64(0)[0]
                && spec_name32(4)[0] != spec_name64(1)[0]
                && spec_name32(4)[0] != spec_name64(2)[0]
                && spec_name32(4)[0] != spec_name64(3)[0]);
            assert(spec_name32(4) != spec_name32(0)
                && spec_name32(4) != spec_name32(1)
                && spec_name32(4) != spec_name32(2)
                && spec_name32(4) != spec_name32(3)
                && spec_name32(4) != spec_name64(0)
                && spec_name32(4) != spec_name64(1)
                && spec_name32(4) != spec_name64(2)
                && spec_name32(4) != spec_name64(3));
            assert(spec_name32(4)[0] != spec_name64(4)[0]
                && spec_name32(4)[0] != spec_name64(5)[0]
                && spec_name32(4)[0] != spec_name64(6)[0]
                && spec_name32(4)[0] != spec_name64(7)[0]
                && spec_name32(4).len() != spec_name64(8).len()
                && spec_name32(4).len() != spec_name64(9).len()
                && spec_name32(4)[0] != spec_name64(10)[0]
                && spec_name32(4)[0] != spec_name64(11)[0]);
            assert(spec_name32(4) != spec_name64(4)
                && spec_name32(4) != spec_name64(5)
                && spec_name32(4) != spec_name64(6)
                && spec_name32(4) != spec_name64(7)
                && spec_name32(4) != spec_name64(8)
                && spec_name32(4) != spec_name64(9)
                && spec_name32(4) != spec_name64(10)
                && spec_name32(4) != spec_name64(11));
            assert(spec_name32(4)[0] != spec_name64(12)[0]
                && spec_name32(4)[0] != spec_name64(13)[0]
                && spec_name32(4)[0] != spec_name64(14)[0]
                && spec_name32(4)[0] != spec_name64(15)[0]);
            assert(spec_name32(4) != spec_name64(12)
                && spec_name32(4) != spec_name64(13)
                && spec_name32(4) != spec_name64(14)
                && spec_name32(4) != spec_name64(15));
    } else if i == 5 {
            assert(spec_name32(5)[1] != spec_name32(0)[1]
                && spec_name32(5)[1] != spec_name32(1)[1]
                && spec_name32(5)[1] != spec_name32(2)[1]
                && spec_name32(5)[2] != spec_name32(3)[2]
                && spec_name32(5)[1] != spec_name32(4)[1]
                && spec_name32(5)[0] != spec_name64(0)[0]
                && spec_name32(5)[0] != spec_name64(1)[0]
                && spec_name32(5)[0] != spec_name64(2)[0]);
            assert(spec_name32(5) != spec_name32(0)
                && spec_name32(5) != spec_name32(1)
                && spec_name32(5) != spec_name32(2)
                && spec_name32(5) != spec_name32(3)
                && spec_name32(5) != spec_name32(4)
                && spec_name32(5) != spec_name64(0)
                && spec_name32(5) != spec_name64(1)
                && spec_name32(5) != spec_name64(2));
            assert(spec_name32(5)[0] != spec_name64(3)[0]
                && spec_name32(5)[0] != spec_name64(4)[0]
                && spec_name32(5)[0] != spec_name64(5)[0]
                && spec_name32(5)[0] != spec_name64(6)[0]
                && spec_name32(5)[0] != spec_name64(7)[0]
                && spec_name32(5).len() != spec_name64(8).len()
                && spec_name32(5).len() != spec_name64(9).len()
                && spec_name32(5)[0] != spec_name64(10)[0]);
            assert(spec_name32(5) != spec_name64(3)
                && spec_name32(5) != spec_name64(4)
                && spec_name32(5) != spec_name64(5)
                && spec_name32(5) != spec_name64(6)
                && spec_name32(5) != spec_name64(7)
                && spec_name32(5) != spec_name64(8)
                && spec_name32(5) != spec_name64(9)
                && spec_name32(5) != spec_name64(10));
            assert(spec_name32(5)[0] != spec_name64(11)[0]
                && spec_name32(5)[0] != spec_name64(12)[0]
                && spec_name32(5)[0] != spec_name64(13)[0]
                && spec_name32(5)[0] != spec_name64(14)[0]
                && spec_name32(5)[0] != spec_name64(15)[0]);
            assert(spec_name32(5) != spec_name64(11)
                && spec_name32(5) != spec_name64(12)
                && spec_name32(5) != spec_name64(13)
                && spec_name32(5) != spec_name64(14)
                && spec_name32(5) != spec_name64(15));
    } else if i == 6 {
            assert(spec_name32(6)[1] != spec_name32(0)[1]
                && spec_name32(6)[1] != spec_name32(1)[1]
                && spec_name32(6)[1] != spec_name32(2)[1]
                && spec_name32(6)[1] != spec_name32(3)[1]
                && spec_name32(6)[2] != spec_name32(4)[2]
                && spec_name32(6)[1] != spec_name32(5)[1]
                && spec_name32(6)[0] != spec_name64(0)[0]
                && spec_name32(6)[0] != spec_name64(1)[0]);
            assert(spec_name32(6) != spec_name32(0)
                && spec_name32(6) != spec_name32(1)
                && spec_name32(6) != spec_name32(2)
                && spec_name32(6) != spec_name32(3)
                && spec_name32(6) != spec_name32(4)
                && spec_name32(6) != spec_name32(5)
                && spec_name32(6) != spec_name64(0)
                && spec_name32(6) != spec_name64(1));
            assert(spec_name32(6)[0] != spec_name64(2)[0]
                && spec_name32(6)[0] != spec_name64(3)[0]
                && spec_name32(6)[0] != spec_name64(4)[0]
                && spec_name32(6)[0] != spec_name64(5)[0]
                && spec_name32(6)[0] != spec_name64(6)[0]
                && spec_name32(6)[0] != spec_name64(7)[0]
                && spec_name32(6).len() != spec_name64(8).len()
                && spec_name32(6).len() != spec_name64(9).len());
            assert(spec_name32(6) != spec_name64(2)
                && spec_name32(6) != spec_name64(3)
                && spec_name32(6) != spec_name64(4)
                && spec_name32(6) != spec_name64(5)
                && spec_name32(6) != spec_name64(6)
                && spec_name32(6) != spec_name64(7)
                && spec_name32(6) != spec_name64(8)
                && spec_name32(6) != spec_name64(9));
            assert(spec_name32(6)[0] != spec_name64(10)[0]
                && spec_name32(6)[0] != spec_name64(11)[0]
                && spec_name32(6)[0] != spec_name64(12)[0]
                && spec_name32(6)[0] != spec_name64(13)[0]
                && spec_name32(6)[0] != spec_name64(14)[0]
                && spec_name32(6)[0] != spec_name64(15)[0]);
            assert(spec_name32(6) != spec_name64(10)
                && spec_name32(6) != spec_name64(11)
                && spec_name32(6) != spec_name64(12)
                && spec_name32(6) != spec_name64(13)
                && spec_name32(6) != spec_name64(14)
                && spec_name32(6) != spec_name64(15));
    } else if i == 7 {
            assert(spec_name32(7)[1] != spec_name32(0)[1]
                && spec_name32(7)[1] != spec_name32(1)[1]
                && spec_name32(7)[2] != spec_name32(2)[2]
                && spec_name32(7)[1] != spec_name32(3)[1]
                && spec_name32(7)[1] != spec_name32(4)[1]
                && spec_name32(7)[1] != spec_name32(5)[1]
                && spec_name32(7)[1] != spec_name32(6)[1]
                && spec_name32(7)[0] != spec_name64(0)[0]);
            assert(spec_name32(7) != spec_name32(0)
                && spec_name32(7) != spec_name32(1)
                && spec_name32(7) != spec_name32(2)
                && spec_name32(7) != spec_name32(3)
                && spec_name32(7) != spec_name32(4)
                && spec_name32(7) != spec_name32(5)
                && spec_name32(7) != spec_name32(6)
                && spec_name32(7) != spec_name64(0));
            assert(spec_name32(7)[0] != spec_name64(1)[0]
                && spec_name32(7)[0] != spec_name64(2)[0]
                && spec_name32(7)[0] != spec_name64(3)[0]
                && spec_name32(7)[0] != spec_name64(4)[0]
                && spec_name32(7)[0] != spec_name64(5)[0]
                && spec_name32(7)[0] != spec_name64(6)[0]
                && spec_name32(7)[0] != spec_name64(7)[0]
                && spec_name32(7).len() != spec_name64(8).len());
            assert(spec_name32(7) != spec_name64(1)
                && spec_name32(7) != spec_name64(2)
                && spec_name32(7) != spec_name64(3)
                && spec_name32(7) != spec_name64(4)
                && spec_name32(7) != spec_name64(5)
                && spec_name32(7) != spec_name64(6)
                && spec_name32(7) != spec_name64(7)
                && spec_name32(7) != spec_name64(8));
            assert(spec_name32(7).len() != spec_name64(9).len()
                && spec_name32(7)[0] != spec_name64(10)[0]
                && spec_name32(7)[0] != spec_name64(11)[0]
                && spec_name32(7)[0] != spec_name64(12)[0]
                && spec_name32(7)[0] != spec_name64(13)[0]
                && spec_name32(7)[0] != spec_name64(14)[0]
                && spec_name32(7)[0] != spec_name64(15)[0]);
            assert(spec_name32(7) != spec_name64(9)
                && spec_name32(7) != spec_name64(10)
                && spec_name32(7) != spec_name64(11)
                && spec_name32(7) != spec_name64(12)
                && spec_name32(7) != spec_name64(13)
                && spec_name32(7) != spec_name64(14)
                && spec_name32(7) != spec_name64(15));
    } else if i == 8 {
            assert(spec_name32(8)[0] != spec_name32(0)[0]
                && spec_name32(8)[0] != spec_name32(1)[0]
                && spec_name32(8)[0] != spec_name32(2)[0]
                && spec_name32(8)[0] != spec_name32(3)[0]
                && spec_name32(8)[0] != spec_name32(4)[0]
                && spec_name32(8)[0] != spec_name32(5)[0]
                && spec_name32(8)[0] != spec_name32(6)[0]
                && spec_name32(8)[0] != spec_name32(7)[0]);
            assert(spec_name32(8) != spec_name32(0)
                && spec_name32(8) != spec_name32(1)
                && spec_name32(8) != spec_name32(2)
                && spec_name32(8) != spec_name32(3)
                && spec_name32(8) != spec_name32(4)
                && spec_name32(8) != spec_name32(5)
                && spec_name32(8) != spec_name32(6)
                && spec_name32(8) != spec_name32(7));
            assert(spec_name32(8)[1] != spec_name64(0)[1]
                && spec_name32(8)[1] != spec_name64(1)[1]
                && spec_name32(8)[1] != spec_name64(2)[1]
                && spec_name32(8)[1] != spec_name64(3)[1]
                && spec_name32(8)[1] != spec_name64(4)[1]
                && spec_name32(8)[1] != spec_name64(5)[1]
                && spec_name32(8)[1] != spec_name64(6)[1]
                && spec_name32(8)[1] != spec_name64(7)[1]);
            assert(spec_name32(8) != spec_name64(0)
                && spec_name32(8) != spec_name64(1)
                && spec_name32(8) != spec_name64(2)
                && spec_name32(8) != spec_name64(3)
                && spec_name32(8) != spec_name64(4)
                && spec_name32(8) != spec_name64(5)
                && spec_name32(8) != spec_name64(6)
                && spec_name32(8) != spec_name64(7));
            assert(spec_name32(8).len() != spec_name64(8).len()
                && spec_name32(8).len() != spec_name64(9).len()
                && spec_name32(8)[1] != spec_name64(10)[1]
                && spec_name32(8)[1] != spec_name64(11)[1]
                && spec_name32(8)[1] != spec_name64(12)[1]
                && spec_name32(8)[1] != spec_name64(13)[1]
                && spec_name32(8)[1] != spec_name64(14)[1]
                && spec_name32(8)[1] != spec_name64(15)[1]);
            assert(spec_name32(8) != spec_name64(8)
                && spec_name32(8) != spec_name64(9)
                && spec_name32(8) != spec_name64(10)
                && spec_name32(8) != spec_name64(11)
                && spec_name32(8) != spec_name64(12)
                && spec_name32(8) != spec_name64(13)
                && spec_name32(8) != spec_name64(14)
                && spec_name32(8) != spec_name64(15));
    } else if i == 9 {
            assert(spec_name32(9)[0] != spec_name32(0)[0]
                && spec_name32(9)[0] != spec_name32(1)[0]
                && spec_name32(9)[0] != spec_name32(2)[0]
                && spec_name32(9)[0] != spec_name32(3)[0]
                && spec_name32(9)[0] != spec_name32(4)[0]
                && spec_name32(9)[0] != spec_name32(5)[0]
                && spec_name32(9)[0] != spec_name32(6)[0]
                && spec_name32(9)[0] != spec_name32(7)[0]);
            assert(spec_name32(9) != spec_name32(0)
                && spec_name32(9) != spec_name32(1)
                && spec_name32(9) != spec_name32(2)
                && spec_name32(9) != spec_name32(3)
                && spec_name32(9) != spec_name32(4)
                && spec_name32(9) != spec_name32(5)
                && spec_name32(9) != spec_name32(6)
                && spec_name32(9) != spec_name32(7));
            assert(spec_name32(9)[1] != spec_name32(8)[1]
                && spec_name32(9)[1] != spec_name64(0)[1]
                && spec_name32(9)[1] != spec_name64(1)[1]
                && spec_name32(9)[1] != spec_name64(2)[1]
                && spec_name32(9)[1] != spec_name64(3)[1]
                && spec_name32(9)[1] != spec_name64(4)[1]
                && spec_name32(9)[1] != spec_name64(5)[1]
                && spec_name32(9)[1] != spec_name64(6)[1]);
            assert(spec_name32(9) != spec_name32(8)
                && spec_name32(9) != spec_name64(0)
                && spec_name32(9) != spec_name64(1)
                && spec_name32(9) != spec_name64(2)
                && spec_name32(9) != spec_name64(3)
                && spec_name32(9) != spec_name64(4)
                && spec_name32(9) != spec_name64(5)
                && spec_name32(9) != spec_name64(6));
            assert(spec_name32(9)[1] != spec_name64(7)[1]
                && spec_name32(9).len() != spec_name64(8).len()
                && spec_name32(9).len() != spec_name64(9).len()
                && spec_name32(9)[1] != spec_name64(10)[1]
                && spec_name32(9)[1] != spec_name64(11)[1]
                && spec_name32(9)[1] != spec_name64(12)[1]
                && spec_name32(9)[1] != spec_name64(13)[1]
                && spec_name32(9)[1] != spec_name64(14)[1]);
            assert(spec_name32(9) != spec_name64(7)
                && spec_name32(9) != spec_name64(8)
                && spec_name32(9) != spec_name64(9)
                && spec_name32(9) != spec_name64(10)
                && spec_name32(9) != spec_name64(11)
                && spec_name32(9) != spec_name64(12)
                && spec_name32(9) != spec_name64(13)
                && spec_name32(9) != spec_name64(14));
            assert(spec_name32(9)[1] != spec_name64(15)[1]);
            assert(spec_name32(9) != spec_name64(15));
    } else if i == 10 {
            assert(spec_name32(10).len() != spec_name32(0).len()
                && spec_name32(10).len() != spec_name32(1).len()
                && spec_name32(10).len() != spec_name32(2).len()
                && spec_name32(10).len() != spec_name32(3).len()
                && spec_name32(10).len() != spec_name32(4).len()
                && spec_name32(10).len() != spec_name32(5).len()
                && spec_name32(10).len() != spec_name32(6).len()
                && spec_name32(10).len() != spec_name32(7).len());
            assert(spec_name32(10) != spec_name32(0)
                && spec_name32(10) != spec_name32(1)
                && spec_name32(10) != spec_name32(2)
                && spec_name32(10) != spec_name32(3)
                && spec_name32(10) != spec_name32(4)
                && spec_name32(10) != spec_name32(5)
                && spec_name32(10) != spec_name32(6)
                && spec_name32(10) != spec_name32(7));
            assert(spec_name32(10).len() != spec_name32(8).len()
                && spec_name32(10).len() != spec_name32(9).len()
                && spec_name32(10).len() != spec_name64(0).len()
                && spec_name32(10).len() != spec_name64(1).len()
                && spec_name32(10).len() != spec_name64(2).len()
                && spec_name32(10).len() != spec_name64(3).len()
                && spec_name32(10).len() != spec_name64(4).len()
                && spec_name32(10).len() != spec_name64(5).len());
            assert(spec_name32(10) != spec_name32(8)
                && spec_name32(10) != spec_name32(9)
                && spec_name32(10) != spec_name64(0)
                && spec_name32(10) != spec_name64(1)
                && spec_name32(10) != spec_name64(2)
                && spec_name32(10) != spec_name64(3)
                && spec_name32(10) != spec_name64(4)
                && spec_name32(10) != spec_name64(5));
            assert(spec_name32(10).len() != spec_name64(6).len()
                && spec_name32(10).len() != spec_name64(7).len()
                && spec_name32(10).len() != spec_name64(8).len()
                && spec_name32(10).len() != spec_name64(9).len()
                && spec_name32(10).len() != spec_name64(10).len()
                && spec_name32(10).len() != spec_name64(11).len()
                && spec_name32(10).len() != spec_name64(12).len()
                && spec_name32(10).len() != spec_name64(13).len());
            assert(spec_name32(10) != spec_name64(6)
                && spec_name32(10) != spec_name64(7)
                && spec_name32(10) != spec_name64(8)
                && spec_name32(10) != spec_name64(9)
                && spec_name32(10) != spec_name64(10)
                && spec_name32(10) != spec_name64(11)
                && spec_name32(10) != spec_name64(12)
                && spec_name32(10) != spec_name64(13));
            assert(spec_name32(10).len() != spec_name64(14).len()
                && spec_name32(10).len() != spec_name64(15).len());
            assert(spec_name32(10) != spec_name64(14)
                && spec_name32(10) != spec_name64(15));
    } else if i == 11 {
            assert(spec_name32(11).len() != spec_name32(0).len()
                && spec_name32(11).len() != spec_name32(1).len()
                && spec_name32(11).len() != spec_name32(2).len()
                && spec_name32(11).len() != spec_name32(3).len()
                && spec_name32(11).len() != spec_name32(4).len()
                && spec_name32(11).len() != spec_name32(5).len()
                && spec_name32(11).len() != spec_name32(6).len()
                && spec_name32(11).len() != spec_name32(7).len());
            assert(spec_name32(11) != spec_name32(0)
                && spec_name32(11) != spec_name32(1)
                && spec_name32(11) != spec_name32(2)
                && spec_name32(11) != spec_name32(3)
                && spec_name32(11) != spec_name32(4)
                && spec_name32(11) != spec_name32(5)
                && spec_name32(11) != spec_name32(6)
                && spec_name32(11) != spec_name32(7));
            assert(spec_name32(11).len() != spec_name32(8).len()
                && spec_name32(11).len() != spec_name32(9).len()
                && spec_name32(11)[2] != spec_name32(10)[2]
                && spec_name32(11).len() != spec_name64(0).len()
                && spec_name32(11).len() != spec_name64(1).len()
                && spec_name32(11).len() != spec_name64(2).len()
                && spec_name32(11).len() != spec_name64(3).len()
                && spec_name32(11).len() != spec_name64(4).len());
            assert(spec_name32(11) != spec_name32(8)
                && spec_name32(11) != spec_name32(9)
                && spec_name32(11) != spec_name32(10)
                && spec_name32(11) != spec_name64(0)
                && spec_name32(11) != spec_name64(1)
                && spec_name32(11) != spec_name64(2)
                && spec_name32(11) != spec_name64(3)
                && spec_name32(11) != spec_name64(4));
            assert(spec_name32(11).len() != spec_name64(5).len()
                && spec_name32(11).len() != spec_name64(6).len()
                && spec_name32(11).len() != spec_name64(7).len()
                && spec_name32(11).len() != spec_name64(8).len()
                && spec_name32(11).len() != spec_name64(9).len()
                && spec_name32(11).len() != spec_name64(10).len()
                && spec_name32(11).len() != spec_name64(11).len()
                && spec_name32(11).len() != spec_name64(12).len());
            assert(spec_name32(11) != spec_name64(5)
                && spec_name32(11) != spec_name64(6)
                && spec_name32(11) != spec_name64(7)
                && spec_name32(11) != spec_name64(8)
                && spec_name32(11) != spec_name64(9)
                && spec_name32(11) != spec_name64(10)
                && spec_name32(11) != spec_name64(11)
                && spec_name32(11) != spec_name64(12));
            assert(spec_name32(11).len() != spec_name64(13).len()
                && spec_name32(11).len() != spec_name64(14).len()
                && spec_name32(11).len() != spec_name64(15).len());
            assert(spec_name32(11) != spec_name64(13)
                && spec_name32(11) != spec_name64(14)
                && spec_name32(11) != spec_name64(15));
    } else if i == 12 {
            assert(spec_name32(12).len() != spec_name32(0).len()
                && spec_name32(12).len() != spec_name32(1).len()
                && spec_name32(12).len() != spec_name32(2).len()
                && spec_name32(12).len() != spec_name32(3).len()
                && spec_name32(12).len() != spec_name32(4).len()
                && spec_name32(12).len() != spec_name32(5).len()
                && spec_name32(12).len() != spec_name32(6).len()
                && spec_name32(12).len() != spec_name32(7).len());
            assert(spec_name32(12) != spec_name32(0)
                && spec_name32(12) != spec_name32(1)
                && spec_name32(12) != spec_name32(2)
                && spec_name32(12) != spec_name32(3)
                && spec_name32(12) != spec_name32(4)
                && spec_name32(12) != spec_name32(5)
                && spec_name32(12) != spec_name32(6)
                && spec_name32(12) != spec_name32(7));
            assert(spec_name32(12).len() != spec_name32(8).len()
                && spec_name32(12).len() != spec_name32(9).len()
                && spec_name32(12)[2] != spec_name32(10)[2]
                && spec_name32(12)[2] != spec_name32(11)[2]
                && spec_name32(12).len() != spec_name64(0).len()
                && spec_name32(12).len() != spec_name64(1).len()
                && spec_name32(12).len() != spec_name64(2).len()
                && spec_name32(12).len() != spec_name64(3).len());
            assert(spec_name32(12) != spec_name32(8)
                && spec_name32(12) != spec_name32(9)
                && spec_name32(12) != spec_name32(10)
                && spec_name32(12) != spec_name32(11)
                && spec_name32(12) != spec_name64(0)
                && spec_name32(12) != spec_name64(1)
                && spec_name32(12) != spec_name64(2)
                && spec_name32(12) != spec_name64(3));
            assert(spec_name32(12).len() != spec_name64(4).len()
                && spec_name32(12).len() != spec_name64(5).len()
                && spec_name32(12).len() != spec_name64(6).len()
                && spec_name32(12).len() != spec_name64(7).len()
                && spec_name32(12).len() != spec_name64(8).len()
                && spec_name32(12).len() != spec_name64(9).len()
                && spec_name32(12).len() != spec_name64(10).len()
                && spec_name32(12).len() != spec_name64(11).len());
            assert(spec_name32(12) != spec_name64(4)
                && spec_name32(12) != spec_name64(5)
                && spec_name32(12) != spec_name64(6)
                && spec_name32(12) != spec_name64(7)
                && spec_name32(12) != spec_name64(8)
                && spec_name32(12) != spec_name64(9)
                && spec_name32(12) != spec_name64(10)
                && spec_name32(12) != spec_name64(11));
            assert(spec_name32(12).len() != spec_name64(12).len()
                && spec_name32(12).len() != spec_name64(13).len()
                && spec_name32(12).len() != spec_name64(14).len()
                && spec_name32(12).len() != spec_name64(15).len());
            assert(spec_name32(12) != spec_name64(12)
                && spec_name32(12) != spec_name64(13)
                && spec_name32(12) != spec_name64(14)
                && spec_name32(12) != spec_name64(15));
    } else if i == 13 {
            assert(spec_name32(13).len() != spec_name32(0).len()
                && spec_name32(13).len() != spec_name32(1).len()
                && spec_name32(13).len() != spec_name32(2).len()
                && spec_name32(13).len() != spec_name32(3).len()
                && spec_name32(13).len() != spec_name32(4).len()
                && spec_name32(13).len() != spec_name32(5).len()
                && spec_name32(13).len() != spec_name32(6).len()
                && spec_name32(13).len() != spec_name32(7).len());
            assert(spec_name32(13) != spec_name32(0)
                && spec_name32(13) != spec_name32(1)
                && spec_name32(13) != spec_name32(2)
                && spec_name32(13) != spec_name32(3)
                && spec_name32(13) != spec_name32(4)
                && spec_name32(13) != spec_name32(5)
                && spec_name32(13) != spec_name32(6)
                && spec_name32(13) != spec_name32(7));
            assert(spec_name32(13).len() != spec_name32(8).len()
                && spec_name32(13).len() != spec_name32(9).len()
                && spec_name32(13)[2] != spec_name32(10)[2]
                && spec_name32(13)[2] != spec_name32(11)[2]
                && spec_name32(13)[2] != spec_name32(12)[2]
                && spec_name32(13).len() != spec_name64(0).len()
                && spec_name32(13).len() != spec_name64(1).len()
                && spec_name32(13).len() != spec_name64(2).len());
            assert(spec_name32(13) != spec_name32(8)
                && spec_name32(13) != spec_name32(9)
                && spec_name32(13) != spec_name32(10)
                && spec_name32(13) != spec_name32(11)
                && spec_name32(13) != spec_name32(12)
                && spec_name32(13) != spec_name64(0)
                && spec_name32(13) != spec_name64(1)
                && spec_name32(13) != spec_name64(2));
            assert(spec_name32(13).len() != spec_name64(3).len()
                && spec_name32(13).len() != spec_name64(4).len()
                && spec_name32(13).len() != spec_name64(5).len()
                && spec_name32(13).len() != spec_name64(6).len()
                && spec_name32(13).len() != spec_name64(7).len()
                && spec_name32(13).len() != spec_name64(8).len()
                && spec_name32(13).len() != spec_name64(9).len()
                && spec_name32(13).len() != spec_name64(10).len());
            assert(spec_name32(13) != spec_name64(3)
                && spec_name32(13) != spec_name64(4)
                && spec_name32(13) != spec_name64(5)
                && spec_name32(13) != spec_name64(6)
                && spec_name32(13) != spec_name64(7)
                && spec_name32(13) != spec_name64(8)
                && spec_name32(13) != spec_name64(9)
                && spec_name32(13) != spec_name64(10));
            assert(spec_name32(13).len() != spec_name64(11).len()
                && spec_name32(13).len() != spec_name64(12).len()
                && spec_name32(13).len() != spec_name64(13).len()
                && spec_name32(13).len() != spec_name64(14).len()
                && spec_name32(13).len() != spec_name64(15).len());
            assert(spec_name32(13) != spec_name64(11)
                && spec_name32(13) != spec_name64(12)
                && spec_name32(13) != spec_name64(13)
                && spec_name32(13) != spec_name64(14)
                && spec_name32(13) != spec_name64(15));
    } else if i == 14 {
            assert(spec_name32(14).len() != spec_name32(0).len()
                && spec_name32(14).len() != spec_name32(1).len()
                && spec_name32(14).len() != spec_name32(2).len()
                && spec_name32(14).len() != spec_name32(3).len()
                && spec_name32(14).len() != spec_name32(4).len()
                && spec_name32(14).len() != spec_name32(5).len()
                && spec_name32(14).len() != spec_name32(6).len()
                && spec_name32(14).len() != spec_name32(7).len());
            assert(spec_name32(14) != spec_name32(0)
                && spec_name32(14) != spec_name32(1)
                && spec_name32(14) != spec_name32(2)
                && spec_name32(14) != spec_name32(3)
                && spec_name32(14) != spec_name32(4)
                && spec_name32(14) != spec_name32(5)
                && spec_name32(14) != spec_name32(6)
                && spec_name32(14) != spec_name32(7));
            assert(spec_name32(14).len() != spec_name32(8).len()
                && spec_name32(14).len() != spec_name32(9).len()
                && spec_name32(14)[2] != spec_name32(10)[2]
                && spec_name32(14)[2] != spec_name32(11)[2]
                && spec_name32(14)[2] != spec_name32(12)[2]
                && spec_name32(14)[2] != spec_name32(13)[2]
                && spec_name32(14).len() != spec_name64(0).len()
                && spec_name32(14).len() != spec_name64(1).len());
            assert(spec_name32(14) != spec_name32(8)
                && spec_name32(14) != spec_name32(9)
                && spec_name32(14) != spec_name32(10)
                && spec_name32(14) != spec_name32(11)
                && spec_name32(14) != spec_name32(12)
                && spec_name32(14) != spec_name32(13)
                && spec_name32(14) != spec_name64(0)
                && spec_name32(14) != spec_name64(1));
            assert(spec_name32(14).len() != spec_name64(2).len()
                && spec_name32(14).len() != spec_name64(3).len()
                && spec_name32(14).len() != spec_name64(4).len()
                && spec_name32(14).len() != spec_name64(5).len()
                && spec_name32(14).len() != spec_name64(6).len()
                && spec_name32(14).len() != spec_name64(7).len()
                && spec_name32(14).len() != spec_name64(8).len()
                && spec_name32(14).len() != spec_name64(9).len());
            assert(spec_name32(14) != spec_name64(2)
                && spec_name32(14) != spec_name64(3)
                && spec_name32(14) != spec_name64(4)
                && spec_name32(14) != spec_name64(5)
                && spec_name32(14) != spec_name64(6)
                && spec_name32(14) != spec_name64(7)
                && spec_name32(14) != spec_name64(8)
                && spec_name32(14) != spec_name64(9));
            assert(spec_name32(14).len() != spec_name64(10).len()
                && spec_name32(14).len() != spec_name64(11).len()
                && spec_name32(14).len() != spec_name64(12).len()
                && spec_name32(14).len() != spec_name64(13).len()
                && spec_name32(14).len() != spec_name64(14).len()
                && spec_name32(14).len() != spec_name64(15).len());
            assert(spec_name32(14) != spec_name64(10)
                && spec_name32(14) != spec_name64(11)
                && spec_name32(14) != spec_name64(12)
                && spec_name32(14) != spec_name64(13)
                && spec_name32(14) != spec_name64(14)
                && spec_name32(14) != spec_name64(15));
    } else {
            assert(spec_name32(15).len() != spec_name32(0).len()
                && spec_name32(15).len() != spec_name32(1).len()
                && spec_name32(15).len() != spec_name32(2).len()
                && spec_name32(15).len() != spec_name32(3).len()
                && spec_name32(15).len() != spec_name32(4).len()
                && spec_name32(15).len() != spec_name32(5).len()
                && spec_name32(15).len() != spec_name32(6).len()
                && spec_name32(15).len() != spec_name32(7).len());
            assert(spec_name32(15) != spec_name32(0)
                && spec_name32(15) != spec_name32(1)
                && spec_name32(15) != spec_name32(2)
                && spec_name32(15) != spec_name32(3)
                && spec_name32(15) != spec_name32(4)
                && spec_name32(15) != spec_name32(5)
                && spec_name32(15) != spec_name32(6)
                && spec_name32(15) != spec_name32(7));
            assert(spec_name32(15).len() != spec_name32(8).len()
                && spec_name32(15).len() != spec_name32(9).len()
                && spec_name32(15)[2] != spec_name32(10)[2]
                && spec_name32(15)[2] != spec_name32(11)[2]
                && spec_name32(15)[2] != spec_name32(12)[2]
                && spec_name32(15)[2] != spec_name32(13)[2]
                && spec_name32(15)[2] != spec_name32(14)[2]
                && spec_name32(15).len() != spec_name64(0).len());
            assert(spec_name32(15) != spec_name32(8)
                && spec_name32(15) != spec_name32(9)
                && spec_name32(15) != spec_name32(10)
                && spec_name32(15) != spec_name32(11)
                && spec_name32(15) != spec_name32(12)
                && spec_name32(15) != spec_name32(13)
                && spec_name32(15) != spec_name32(14)
                && spec_name32(15) != spec_name64(0));
            assert(spec_name32(15).len() != spec_name64(1).len()
                && spec_name32(15).len() != spec_name64(2).len()
                && spec_name32(15).len() != spec_name64(3).len()
                && spec_name32(15).len() != spec_name64(4).len()
                && spec_name32(15).len() != spec_name64(5).len()
                && spec_name32(15).len() != spec_name64(6).len()
                && spec_name32(15).len() != spec_name64(7).len()
                && spec_name32(15).len() != spec_name64(8).len());
            assert(spec_name32(15) != spec_name64(1)
                && spec_name32(15) != spec_name64(2)
                && spec_name32(15) != spec_name64(3)
                && spec_name32(15) != spec_name64(4)
                && spec_name32(15) != spec_name64(5)
                && spec_name32(15) != spec_name64(6)
                && spec_name32(15) != spec_name64(7)
                && spec_name32(15) != spec_name64(8));
            assert(spec_name32(15).len() != spec_name64(9).len()
                && spec_name32(15).len() != spec_name64(10).len()
                && spec_name32(15).len() != spec_name64(11).len()
                && spec_name32(15).len() != spec_name64(12).len()
                && spec_name32(15).len() != spec_name64(13).len()
                && spec_name32(15).len() != spec_name64(14).len()
                && spec_name32(15).len() != spec_name64(15).len());
            assert(spec_name32(15) != spec_name64(9)
                && spec_name32(15) != spec_name64(10)
                && spec_name32(15) != spec_name64(11)
                && spec_name32(15) != spec_name64(12)
                && spec_name32(15) != spec_name64(13)
                && spec_name32(15) != spec_name64(14)
                && spec_name32(15) != spec_name64(15));
    }
}

/// The 16-bit register names are plain tokens that neither wider name
/// parser accepts.
proof fn lemma_name16_token(i: u8)
    requires
        i < 16,
    ensures
        spec_plain_token(spec_name16(i)),
        spec_clean(spec_name16(i)),
        spec_name16(i).last() != 0x3a,
        spec_parse_name16(spec_name16(i)) == Some(i),
        spec_parse_name64(spec_name16(i)) is None,
        spec_parse_name32(spec_name16(i)) is None,
{
    if i == 0 {
            assert(spec_name16(0).len() != spec_name64(0).len()
                && spec_name16(0).len() != spec_name64(1).len()
                && spec_name16(0).len() != spec_name64(2).len()
                && spec_name16(0).len() != spec_name64(3).len()
                && spec_name16(0).len() != spec_name64(4).len()
                && spec_name16(0).len() != spec_name64(5).len()
                && spec_name16(0).len() != spec_name64(6).len()
                && spec_name16(0).len() != spec_name64(7).len());
            assert(spec_name16(0) != spec_name64(0)
                && spec_name16(0) != spec_name64(1)
                && spec_name16(0) != spec_name64(2)
                && spec_name16(0) != spec_name64(3)
                && spec_name16(0) != spec_name64(4)
                && spec_name16(0) != spec_name64(5)
                && spec_name16(0) != spec_name64(6)
                && spec_name16(0) != spec_name64(7));
            assert(spec_name16(0)[0] != spec_name64(8)[0]
                && spec_name16(0)[0] != spec_name64(9)[0]
                && spec_name16(0).len() != spec_name64(10).len()
                && spec_name16(0).len() != spec_name64(11).len()
                && spec_name16(0).len() != spec_name64(12).len()
                && spec_name16(0).len() != spec_name64(13).len()
                && spec_name16(0).len() != spec_name64(14).len()
                && spec_name16(0).len() != spec_name64(15).len());
            assert(spec_name16(0) != spec_name64(8)
                && spec_name16(0) != spec_name64(9)
                && spec_name16(0) != spec_name64(10)
                && spec_name16(0) != spec_name64(11)
                && spec_name16(0) != spec_name64(12)
                && spec_name16(0) != spec_name64(13)
                && spec_name16(0) != spec_name64(14)
                && spec_name16(0) != spec_name64(15));
            assert(spec_name16(0).len() != spec_name32(0).len()
                && spec_name16(0).len() != spec_name32(1).len()
                && spec_name16(0).len() != spec_name32(2).len()
                && spec_name16(0).len() != spec_name32(3).len()
                && spec_name16(0).len() != spec_name32(4).len()
                && spec_name16(0).len() != spec_name32(5).len()
                && spec_name16(0).len() != spec_name32(6).len()
                && spec_name16(0).len() != spec_name32(7).len());
            assert(spec_name16(0) != spec_name32(0)
                && spec_name16(0) != spec_name32(1)
                && spec_name16(0) != spec_name32(2)
                && spec_name16(0) != spec_name32(3)
                && spec_name16(0) != spec_name32(4)
                && spec_name16(0) != spec_name32(5)
                && spec_name16(0) != spec_name32(6)
                && spec_name16(0) != spec_name32(7));
            assert(spec_name16(0).len() != spec_name32(8).len()
                && spec_name16(0).len() != spec_name32(9).len()
                && spec_name16(0).len() != spec_name32(10).len()
                && spec_name16(0).len() != spec_name32(11).len()
                && spec_name16(0).len() != spec_name32(12).len()
                && spec_name16(0).len() != spec_name32(13).len()
                && spec_name16(0).len() != spec_name32(14).len()
                && spec_name16(0).len() != spec_name32(15).len());
            assert(spec_name16(0) != spec_name32(8)
                && spec_name16(0) != spec_name32(9)
                && spec_name16(0) != spec_name32(10)
                && spec_name16(0) != spec_name32(11)
                && spec_name16(0) != spec_name32(12)
                && spec_name16(0) != spec_name32(13)
                && spec_name16(0) != spec_name32(14)
                && spec_name16(0) != spec_name32(15));
    } else if i == 1 {
            assert(spec_name16(1)[0] != spec_name16(0)[0]
                && spec_name16(1).len() != spec_name64(0).len()
                && spec_name16(1).len() != spec_name64(1).len()
                && spec_name16(1).len() != spec_name64(2).len()
                && spec_name16(1).len() != spec_name64(3).len()
                && spec_name16(1).len() != spec_name64(4).len()
                && spec_name16(1).len() != spec_name64(5).len()
                && spec_name16(1).len() != spec_name64(6).len());
            assert(spec_name16(1) != spec_name16(0)
                && spec_name16(1) != spec_name64(0)
                && spec_name16(1) != spec_name64(1)
                && spec_name16(1) != spec_name64(2)
                && spec_name16(1) != spec_name64(3)
                && spec_name16(1) != spec_name64(4)
                && spec_name16(1) != spec_name64(5)
                && spec_name16(1) != spec_name64(6));
            assert(spec_name16(1).len() != spec_name64(7).len()
                && spec_name16(1)[0] != spec_name64(8)[0]
                && spec_name16(1)[0] != spec_name64(9)[0]
                && spec_name16(1).len() != spec_name64(10).len()
                && spec_name16(1).len() != spec_name64(11).len()
                && spec_name16(1).len() != spec_name64(12).len()
                && spec_name16(1).len() != spec_name64(13).len()
                && spec_name16(1).len() != spec_name64(14).len());
            assert(spec_name16(1) != spec_name64(7)
                && spec_name16(1) != spec_name64(8)
                && spec_name16(1) != spec_name64(9)
                && spec_name16(1) != spec_name64(10)
                && spec_name16(1) != spec_name64(11)
                && spec_name16(1) != spec_name64(12)
                && spec_name16(1) != spec_name64(13)
                && spec_name16(1) != spec_name64(14));
            assert(spec_name16(1).len() != spec_name64(15).len()
                && spec_name16(1).len() != spec_name32(0).len()
                && spec_name16(1).len() != spec_name32(1).len()
                && spec_name16(1).len() != spec_name32(2).len()
                && spec_name16(1).len() != spec_name32(3).len()
                && spec_name16(1).len() != spec_name32(4).len()
                && spec_name16(1).len() != spec_name32(5).len()
                && spec_name16(1).len() != spec_name32(6).len());
            assert(spec_name16(1) != spec_name64(15)
                && spec_name16(1) != spec_name32(0)
                && spec_name16(1) != spec_name32(1)
                && spec_name16(1) != spec_name32(2)
                && spec_name16(1) != spec_name32(3)
                && spec_name16(1) != spec_name32(4)
                && spec_name16(1) != spec_name32(5)
                && spec_name16(1) != spec_name32(6));
            assert(spec_name16(1).len() != spec_name32(7).len()
                && spec_name16(1).len() != spec_name32(8).len()
                && spec_name16(1).len() != spec_name32(9).len()
                && spec_name16(1).len() != spec_name32(10).len()
                && spec_name16(1).len() != spec_name32(11).len()
                && spec_name16(1).len() != spec_name32(12).len()
                && spec_name16(1).len() != spec_name32(13).len()
                && spec_name16(1).len() != spec_name32(14).len());
            assert(spec_name16(1) != spec_name32(7)
                && spec_name16(1) != spec_name32(8)
                && spec_name16(1) != spec_name32(9)
                && spec_name16(1) != spec_name32(10)
                && spec_name16(1) != spec_name32(11)
                && spec_name16(1) != spec_name32(12)
                && spec_name16(1) != spec_name32(13)
                && spec_name16(1) != spec_name32(14));
            assert(spec_name16(1).len() != spec_name32(15).len());
            assert(spec_name16(1) != spec_name32(15));
    } else if i == 2 {
            assert(spec_name16(2)[0] != spec_name16(0)[0]
                && spec_name16(2)[0] != spec_name16(1)[0]
                && spec_name16(2).len() != spec_name64(0).len()
                && spec_name16(2).len() != spec_name64(1).len()
                && spec_name16(2).len() != spec_name64(2).len()
                && spec_name16(2).len() != spec_name64(3).len()
                && spec_name16(2).len() != spec_name64(4).len()
                && spec_name16(2).len() != spec_name64(5).len());
            assert(spec_name16(2) != spec_name16(0)
                && spec_name16(2) != spec_name16(1)
                && spec_name16(2) != spec_name64(0)
                && spec_name16(2) != spec_name64(1)
                && spec_name16(2) != spec_name64(2)
                && spec_name16(2) != spec_name64(3)
                && spec_name16(2) != spec_name64(4)
                && spec_name16(2) != spec_name64(5));
            assert(spec_name16(2).len() != spec_name64(6).len()
                && spec_name16(2).len() != spec_name64(7).len()
                && spec_name16(2)[0] != spec_name64(8)[0]
                && spec_name16(2)[0] != spec_name64(9)[0]
                && spec_name16(2).len() != spec_name64(10).len()
                && spec_name16(2).len() != spec_name64(11).len()
                && spec_name16(2).len() != spec_name64(12).len()
                && spec_name16(2).len() != spec_name64(13).len());
            assert(spec_name16(2) != spec_name64(6)
                && spec_name16(2) != spec_name64(7)
                && spec_name16(2) != spec_name64(8)
                && spec_name16(2) != spec_name64(9)
                && spec_name16(2) != spec_name64(10)
                && spec_name16(2) != spec_name64(11)
                && spec_name16(2) != spec_name64(12)
                && spec_name16(2) != spec_name64(13));
            assert(spec_name16(2).len() != spec_name64(14).len()
                && spec_name16(2).len() != spec_name64(15).len()
                && spec_name16(2).len() != spec_name32(0).len()
                && spec_name16(2).len() != spec_name32(1).len()
                && spec_name16(2).len() != spec_name32(2).len()
                && spec_name16(2).len() != spec_name32(3).len()
                && spec_name16(2).len() != spec_name32(4).len()
                && spec_name16(2).len() != spec_name32(5).len());
            assert(spec_name16(2) != spec_name64(14)
                && spec_name16(2) != spec_name64(15)
                && spec_name16(2) != spec_name32(0)
                && spec_name16(2) != spec_name32(1)
                && spec_name16(2) != spec_name32(2)
                && spec_name16(2) != spec_name32(3)
                && spec_name16(2) != spec_name32(4)
                && spec_name16(2) != spec_name32(5));
            assert(spec_name16(2).len() != spec_name32(6).len()
                && spec_name16(2).len() != spec_name32(7).len()
                && spec_name16(2).len() != spec_name32(8).len()
                && spec_name16(2).len() != spec_name32(9).len()
                && spec_name16(2).len() != spec_name32(10).len()
                && spec_name16(2).len() != spec_name32(11).len()
                && spec_name16(2).len() != spec_name32(12).len()
                && spec_name16(2).len() != spec_name32(13).len());
            assert(spec_name16(2) != spec_name32(6)
                && spec_name16(2) != spec_name32(7)
                && spec_name16(2) != spec_name32(8)
                && spec_name16(2) != spec_name32(9)
                && spec_name16(2) != spec_name32(10)
                && spec_name16(2) != spec_name32(11)
                && spec_name16(2) != spec_name32(12)
                && spec_name16(2) != spec_name32(13));
            assert(spec_name16(2).len() != spec_name32(14).len()
                && spec_name16(2).len() != spec_name32(15).len());
            assert(spec_name16(2) != spec_name32(14)
                && spec_name16(2) != spec_name32(15));
    } else if i == 3 {
            assert(spec_name16(3)[0] != spec_name16(0)[0]
                && spec_name16(3)[0] != spec_name16(1)[0]
                && spec_name16(3)[0] != spec_name16(2)[0]
                && spec_name16(3).len() != spec_name64(0).len()
                && spec_name16(3).len() != spec_name64(1).len()
                && spec_name16(3).len() != spec_name64(2).len()
                && spec_name16(3).len() != spec_name64(3).len()
                && spec_name16(3).len() != spec_name64(4).len());
            assert(spec_name16(3) != spec_name16(0)
                && spec_name16(3) != spec_name16(1)
                && spec_name16(3) != spec_name16(2)
                && spec_name16(3) != spec_name64(0)
                && spec_name16(3) != spec_name64(1)
                && spec_name16(3) != spec_name64(2)
                && spec_name16(3) != spec_name64(3)
                && spec_name16(3) != spec_name64(4));
            assert(spec_name16(3).len() != spec_name64(5).len()
                && spec_name16(3).len() != spec_name64(6).len()
                && spec_name16(3).len() != spec_name64(7).len()
                && spec_name16(3)[0] != spec_name64(8)[0]
                && spec_name16(3)[0] != spec_name64(9)[0]
                && spec_name16(3).len() != spec_name64(10).len()
                && spec_name16(3).len() != spec_name64(11).len()
                && spec_name16(3).len() != spec_name64(12).len());
            assert(spec_name16(3) != spec_name64(5)
                && spec_name16(3) != spec_name64(6)
                && spec_name16(3) != spec_name64(7)
                && spec_name16(3) != spec_name64(8)
                && spec_name16(3) != spec_name64(9)
                && spec_name16(3) != spec_name64(10)
                && spec_name16(3) != spec_name64(11)
                && spec_name16(3) != spec_name64(12));
            assert(spec_name16(3).len() != spec_name64(13).len()
                && spec_name16(3).len() != spec_name64(14).len()
                && spec_name16(3).len() != spec_name64(15).len()
                && spec_name16(3).len() != spec_name32(0).len()
                && spec_name16(3).len() != spec_name32(1).len()
                && spec_name16(3).len() != spec_name32(2).len()
                && spec_name16(3).len() != spec_name32(3).len()
                && spec_name16(3).len() != spec_name32(4).len());
            assert(spec_name16(3) != spec_name64(13)
                && spec_name16(3) != spec_name64(14)
                && spec_name16(3) != spec_name64(15)
                && spec_name16(3) != spec_name32(0)
                && spec_name16(3) != spec_name32(1)
                && spec_name16(3) != spec_name32(2)
                && spec_name16(3) != spec_name32(3)
                && spec_name16(3) != spec_name32(4));
            assert(spec_name16(3).len() != spec_name32(5).len()
                && spec_name16(3).len() != spec_name32(6).len()
                && spec_name16(3).len() != spec_name32(7).len()
                && spec_name16(3).len() != spec_name32(8).len()
                && spec_name16(3).len() != spec_name32(9).len()
                && spec_name16(3).len() != spec_name32(10).len()
                && spec_name16(3).len() != spec_name32(11).len()
                && spec_name16(3).len() != spec_name32(12).len());
            assert(spec_name16(3) != spec_name32(5)
                && spec_name16(3) != spec_name32(6)
                && spec_name16(3) != spec_name32(7)
                && spec_name16(3) != spec_name32(8)
                && spec_name16(3) != spec_name32(9)
                && spec_name16(3) != spec_name32(10)
                && spec_name16(3) != spec_name32(11)
                && spec_name16(3) != spec_name32(12));
            assert(spec_name16(3).len() != spec_name32(13).len()
                && spec_name16(3).len() != spec_name32(14).len()
                && spec_name16(3).len() != spec_name32(15).len());
            assert(spec_name16(3) != spec_name32(13)
                && spec_name16(3) != spec_name32(14)
                && spec_name16(3) != spec_name32(15));
    } else if i == 4 {
            assert(spec_name16(4)[0] != spec_name16(0)[0]
                && spec_name16(4)[0] != spec_name16(1)[0]
                && spec_name16(4)[0] != spec_name16(2)[0]
                && spec_name16(4)[0] != spec_name16(3)[0]
                && spec_name16(4).len() != spec_name64(0).len()
                && spec_name16(4).len() != spec_name64(1).len()
                && spec_name16(4).len() != spec_name64(2).len()
                && spec_name16(4).len() != spec_name64(3).len());
            assert(spec_name16(4) != spec_name16(0)
                && spec_name16(4) != spec_name16(1)
                && spec_name16(4) != spec_name16(2)
                && spec_name16(4) != spec_name16(3)
                && spec_name16(4) != spec_name64(0)
                && spec_name16(4) != spec_name64(1)
                && spec_name16(4) != spec_name64(2)
                && spec_name16(4) != spec_name64(3));
            assert(spec_name16(4).len() != spec_name64(4).len()
                && spec_name16(4).len() != spec_name64(5).len()
                && spec_name16(4).len() != spec_name64(6).len()
                && spec_name16(4).len() != spec_name64(7).len()
                && spec_name16(4)[0] != spec_name64(8)[0]
                && spec_name16(4)[0] != spec_name64(9)[0]
                && spec_name16(4).len() != spec_name64(10).len()
                && spec_name16(4).len() != spec_name64(11).len());
            assert(spec_name16(4) != spec_name64(4)
                && spec_name16(4) != spec_name64(5)
                && spec_name16(4) != spec_name64(6)
                && spec_name16(4) != spec_name64(7)
                && spec_name16(4) != spec_name64(8)
                && spec_name16(4) != spec_name64(9)
                && spec_name16(4) != spec_name64(10)
                && spec_name16(4) != spec_name64(11));
            assert(spec_name16(4).len() != spec_name64(12).len()
                && spec_name16(4).len() != spec_name64(13).len()
                && spec_name16(4).len() != spec_name64(14).len()
                && spec_name16(4).len() != spec_name64(15).len()
                && spec_name16(4).len() != spec_name32(0).len()
                && spec_name16(4).len() != spec_name32(1).len()
                && spec_name16(4).len() != spec_name32(2).len()
                && spec_name16(4).len() != spec_name32(3).len());
            assert(spec_name16(4) != spec_name64(12)
                && spec_name16(4) != spec_name64(13)
                && spec_name16(4) != spec_name64(14)
                && spec_name16(4) != spec_name64(15)
                && spec_name16(4) != spec_name32(0)
                && spec_name16(4) != spec_name32(1)
                && spec_name16(4) != spec_name32(2)
                && spec_name16(4) != spec_name32(3));
            assert(spec_name16(4).len() != spec_name32(4).len()
                && spec_name16(4).len() != spec_name32(5).len()
                && spec_name16(4).len() != spec_name32(6).len()
                && spec_name16(4).len() != spec_name32(7).len()
                && spec_name16(4).len() != spec_name32(8).len()
                && spec_name16(4).len() != spec_name32(9).len()
                && spec_name16(4).len() != spec_name32(10).len()
                && spec_name16(4).len() != spec_name32(11).len());
            assert(spec_name16(4) != spec_name32(4)
                && spec_name16(4) != spec_name32(5)
                && spec_name16(4) != spec_name32(6)
                && spec_name16(4) != spec_name32(7)
                && spec_name16(4) != spec_name32(8)
                && spec_name16(4) != spec_name32(9)
                && spec_name16(4) != spec_name32(10)
                && spec_name16(4) != spec_name32(11));
            assert(spec_name16(4).len() != spec_name32(12).len()
                && spec_name16(4).len() != spec_name32(13).len()
                && spec_name16(4).len() != spec_name32(14).len()
                && spec_name16(4).len() != spec_name32(15).len());
            assert(spec_name16(4) != spec_name32(12)
                && spec_name16(4) != spec_name32(13)
                && spec_name16(4) != spec_name32(14)
                && spec_name16(4) != spec_name32(15));
    } else if i == 5 {
            assert(spec_name16(5)[0] != spec_name16(0)[0]
                && spec_name16(5)[0] != spec_name16(1)[0]
                && spec_name16(5)[0] != spec_name16(2)[0]
                && spec_name16(5)[1] != spec_name16(3)[1]
                && spec_name16(5)[0] != spec_name16(4)[0]
                && spec_name16(5).len() != spec_name64(0).len()
                && spec_name16(5).len() != spec_name64(1).len()
                && spec_name16(5).len() != spec_name64(2).len());
            assert(spec_name16(5) != spec_name16(0)
                && spec_name16(5) != spec_name16(1)
                && spec_name16(5) != spec_name16(2)
                && spec_name16(5) != spec_name16(3)
                && spec_name16(5) != spec_name16(4)
                && spec_name16(5) != spec_name64(0)
                && spec_name16(5) != spec_name64(1)
                && spec_name16(5) != spec_name64(2));
            assert(spec_name16(5).len() != spec_name64(3).len()
                && spec_name16(5).len() != spec_name64(4).len()
                && spec_name16(5).len() != spec_name64(5).len()
                && spec_name16(5).len() != spec_name64(6).len()
                && spec_name16(5).len() != spec_name64(7).len()
                && spec_name16(5)[0] != spec_name64(8)[0]
                && spec_name16(5)[0] != spec_name64(9)[0]
                && spec_name16(5).len() != spec_name64(10).len());
            assert(spec_name16(5) != spec_name64(3)
                && spec_name16(5) != spec_name64(4)
                && spec_name16(5) != spec_name64(5)
                && spec_name16(5) != spec_name64(6)
                && spec_name16(5) != spec_name64(7)
                && spec_name16(5) != spec_name64(8)
                && spec_name16(5) != spec_name64(9)
                && spec_name16(5) != spec_name64(10));
            assert(spec_name16(5).len() != spec_name64(11).len()
                && spec_name16(5).len() != spec_name64(12).len()
                && spec_name16(5).len() != spec_name64(13).len()
                && spec_name16(5).len() != spec_name64(14).len()
                && spec_name16(5).len() != spec_name64(15).len()
                && spec_name16(5).len() != spec_name32(0).len()
                && spec_name16(5).len() != spec_name32(1).len()
                && spec_name16(5).len() != spec_name32(2).len());
            assert(spec_name16(5) != spec_name64(11)
                && spec_name16(5) != spec_name64(12)
                && spec_name16(5) != spec_name64(13)
                && spec_name16(5) != spec_name64(14)
                && spec_name16(5) != spec_name64(15)
                && spec_name16(5) != spec_name32(0)
                && spec_name16(5) != spec_name32(1)
                && spec_name16(5) != spec_name32(2));
            assert(spec_name16(5).len() != spec_name32(3).len()
                && spec_name16(5).len() != spec_name32(4).len()
                && spec_name16(5).len() != spec_name32(5).len()
                && spec_name16(5).len() != spec_name32(6).len()
                && spec_name16(5).len() != spec_name32(7).len()
                && spec_name16(5).len() != spec_name32(8).len()
                && spec_name16(5).len() != spec_name32(9).len()
                && spec_name16(5).len() != spec_name32(10).len());
            assert(spec_name16(5) != spec_name32(3)
                && spec_name16(5) != spec_name32(4)
                && spec_name16(5) != spec_name32(5)
                && spec_name16(5) != spec_name32(6)
                && spec_name16(5) != spec_name32(7)
                && spec_name16(5) != spec_name32(8)
                && spec_name16(5) != spec_name32(9)
                && spec_name16(5) != spec_name32(10));
            assert(spec_name16(5).len() != spec_name32(11).len()
                && spec_name16(5).len() != spec_name32(12).len()
                && spec_name16(5).len() != spec_name32(13).len()
                && spec_name16(5).len() != spec_name32(14).len()
                && spec_name16(5).len() != spec_name32(15).len());
            assert(spec_name16(5) != spec_name32(11)
                && spec_name16(5) != spec_name32(12)
                && spec_name16(5) != spec_name32(13)
                && spec_name16(5) != spec_name32(14)
                && spec_name16(5) != spec_name32(15));
    } else if i == 6 {
            assert(spec_name16(6)[0] != spec_name16(0)[0]
                && spec_name16(6)[0] != spec_name16(1)[0]
                && spec_name16(6)[0] != spec_name16(2)[0]
                && spec_name16(6)[0] != spec_name16(3)[0]
                && spec_name16(6)[1] != spec_name16(4)[1]
                && spec_name16(6)[0] != spec_name16(5)[0]
                && spec_name16(6).len() != spec_name64(0).len()
                && spec_name16(6).len() != spec_name64(1).len());
            assert(spec_name16(6) != spec_name16(0)
                && spec_name16(6) != spec_name16(1)
                && spec_name16(6) != spec_name16(2)
                && spec_name16(6) != spec_name16(3)
                && spec_name16(6) != spec_name16(4)
                && spec_name16(6) != spec_name16(5)
                && spec_name16(6) != spec_name64(0)
                && spec_name16(6) != spec_name64(1));
            assert(spec_name16(6).len() != spec_name64(2).len()
                && spec_name16(6).len() != spec_name64(3).len()
                && spec_name16(6).len() != spec_name64(4).len()
                && spec_name16(6).len() != spec_name64(5).len()
                && spec_name16(6).len() != spec_name64(6).len()
                && spec_name16(6).len() != spec_name64(7).len()
                && spec_name16(6)[0] != spec_name64(8)[0]
                && spec_name16(6)[0] != spec_name64(9)[0]);
            assert(spec_name16(6) != spec_name64(2)
                && spec_name16(6) != spec_name64(3)
                && spec_name16(6) != spec_name64(4)
                && spec_name16(6) != spec_name64(5)
                && spec_name16(6) != spec_name64(6)
                && spec_name16(6) != spec_name64(7)
                && spec_name16(6) != spec_name64(8)
                && spec_name16(6) != spec_name64(9));
            assert(spec_name16(6).len() != spec_name64(10).len()
                && spec_name16(6).len() != spec_name64(11).len()
                && spec_name16(6).len() != spec_name64(12).len()
                && spec_name16(6).len() != spec_name64(13).len()
                && spec_name16(6).len() != spec_name64(14).len()
                && spec_name16(6).len() != spec_name64(15).len()
                && spec_name16(6).len() != spec_name32(0).len()
                && spec_name16(6).len() != spec_name32(1).len());
            assert(spec_name16(6) != spec_name64(10)
                && spec_name16(6) != spec_name64(11)
                && spec_name16(6) != spec_name64(12)
                && spec_name16(6) != spec_name64(13)
                && spec_name16(6) != spec_name64(14)
                && spec_name16(6) != spec_name64(15)
                && spec_name16(6) != spec_name32(0)
                && spec_name16(6) != spec_name32(1));
            assert(spec_name16(6).len() != spec_name32(2).len()
                && spec_name16(6).len() != spec_name32(3).len()
                && spec_name16(6).len() != spec_name32(4).len()
                && spec_name16(6).len() != spec_name32(5).len()
                && spec_name16(6).len() != spec_name32(6).len()
                && spec_name16(6).len() != spec_name32(7).len()
                && spec_name16(6).len() != spec_name32(8).len()
                && spec_name16(6).len() != spec_name32(9).len());
            assert(spec_name16(6) != spec_name32(2)
                && spec_name16(6) != spec_name32(3)
                && spec_name16(6) != spec_name32(4)
                && spec_name16(6) != spec_name32(5)
                && spec_name16(6) != spec_name32(6)
                && spec_name16(6) != spec_name32(7)
                && spec_name16(6) != spec_name32(8)
                && spec_name16(6) != spec_name32(9));
            assert(spec_name16(6).len() != spec_name32(10).len()
                && spec_name16(6).len() != spec_name32(11).len()
                && spec_name16(6).len() != spec_name32(12).len()
                && spec_name16(6).len() != spec_name32(13).len()
                && spec_name16(6).len() != spec_name32(14).len()
                && spec_name16(6).len() != spec_name32(15).len());
            assert(spec_name16(6) != spec_name32(10)
                && spec_name16(6) != spec_name32(11)
                && spec_name16(6) != spec_name32(12)
                && spec_name16(6) != spec_name32(13)
                && spec_name16(6) != spec_name32(14)
                && spec_name16(6) != spec_name32(15));
    } else if i == 7 {
            assert(spec_name16(7)[0] != spec_name16(0)[0]
                && spec_name16(7)[0] != spec_name16(1)[0]
                && spec_name16(7)[1] != spec_name16(2)[1]
                && spec_name16(7)[0] != spec_name16(3)[0]
                && spec_name16(7)[0] != spec_name16(4)[0]
                && spec_name16(7)[0] != spec_name16(5)[0]
                && spec_name16(7)[0] != spec_name16(6)[0]
                && spec_name16(7).len() != spec_name64(0).len());
            assert(spec_name16(7) != spec_name16(0)
                && spec_name16(7) != spec_name16(1)
                && spec_name16(7) != spec_name16(2)
                && spec_name16(7) != spec_name16(3)
                && spec_name16(7) != spec_name16(4)
                && spec_name16(7) != spec_name16(5)
                && spec_name16(7) != spec_name16(6)
                && spec_name16(7) != spec_name64(0));
            assert(spec_name16(7).len() != spec_name64(1).len()
                && spec_name16(7).len() != spec_name64(2).len()
                && spec_name16(7).len() != spec_name64(3).len()
                && spec_name16(7).len() != spec_name64(4).len()
                && spec_name16(7).len() != spec_name64(5).len()
                && spec_name16(7).len() != spec_name64(6).len()
                && spec_name16(7).len() != spec_name64(7).len()
                && spec_name16(7)[0] != spec_name64(8)[0]);
            assert(spec_name16(7) != spec_name64(1)
                && spec_name16(7) != spec_name64(2)
                && spec_name16(7) != spec_name64(3)
                && spec_name16(7) != spec_name64(4)
                && spec_name16(7) != spec_name64(5)
                && spec_name16(7) != spec_name64(6)
                && spec_name16(7) != spec_name64(7)
                && spec_name16(7) != spec_name64(8));
            assert(spec_name16(7)[0] != spec_name64(9)[0]
                && spec_name16(7).len() != spec_name64(10).len()
                && spec_name16(7).len() != spec_name64(11).len()
                && spec_name16(7).len() != spec_name64(12).len()
                && spec_name16(7).len() != spec_name64(13).len()
                && spec_name16(7).len() != spec_name64(14).len()
                && spec_name16(7).len() != spec_name64(15).len()
                && spec_name16(7).len() != spec_name32(0).len());
            assert(spec_name16(7) != spec_name64(9)
                && spec_name16(7) != spec_name64(10)
                && spec_name16(7) != spec_name64(11)
                && spec_name16(7) != spec_name64(12)
                && spec_name16(7) != spec_name64(13)
                && spec_name16(7) != spec_name64(14)
                && spec_name16(7) != spec_name64(15)
                && spec_name16(7) != spec_name32(0));
            assert(spec_name16(7).len() != spec_name32(1).len()
                && spec_name16(7).len() != spec_name32(2).len()
                && spec_name16(7).len() != spec_name32(3).len()
                && spec_name16(7).len() != spec_name32(4).len()
                && spec_name16(7).len() != spec_name32(5).len()
                && spec_name16(7).len() != spec_name32(6).len()
                && spec_name16(7).len() != spec_name32(7).len()
                && spec_name16(7).len() != spec_name32(8).len());
            assert(spec_name16(7) != spec_name32(1)
                && spec_name16(7) != spec_name32(2)
                && spec_name16(7) != spec_name32(3)
                && spec_name16(7) != spec_name32(4)
                && spec_name16(7) != spec_name32(5)
                && spec_name16(7) != spec_name32(6)
                && spec_name16(7) != spec_name32(7)
                && spec_name16(7) != spec_name32(8));
            assert(spec_name16(7).len() != spec_name32(9).len()
                && spec_name16(7).len() != spec_name32(10).len()
                && spec_name16(7).len() != spec_name32(11).len()
                && spec_name16(7).len() != spec_name32(12).len()
                && spec_name16(7).len() != spec_name32(13).len()
                && spec_name16(7).len() != spec_name32(14).len()
                && spec_name16(7).len() != spec_name32(15).len());
            assert(spec_name16(7) != spec_name32(9)
                && spec_name16(7) != spec_name32(10)
                && spec_name16(7) != spec_name32(11)
                && spec_name16(7) != spec_name32(12)
                && spec_name16(7) != spec_name32(13)
                && spec_name16(7) != spec_name32(14)
                && spec_name16(7) != spec_name32(15));
    } else if i == 8 {
            assert(spec_name16(8).len() != spec_name16(0).len()
                && spec_name16(8).len() != spec_name16(1).len()
                && spec_name16(8).len() != spec_name16(2).len()
                && spec_name16(8).len() != spec_name16(3).len()
                && spec_name16(8).len() != spec_name16(4).len()
                && spec_name16(8).len() != spec_name16(5).len()
                && spec_name16(8).len() != spec_name16(6).len()
                && spec_name16(8).len() != spec_name16(7).len());
            assert(spec_name16(8) != spec_name16(0)
                && spec_name16(8) != spec_name16(1)
                && spec_name16(8) != spec_name16(2)
                && spec_name16(8) != spec_name16(3)
                && spec_name16(8) != spec_name16(4)
                && spec_name16(8) != spec_name16(5)
                && spec_name16(8) != spec_name16(6)
                && spec_name16(8) != spec_name16(7));
            assert(spec_name16(8)[1] != spec_name64(0)[1]
                && spec_name16(8)[1] != spec_name64(1)[1]
                && spec_name16(8)[1] != spec_name64(2)[1]
                && spec_name16(8)[1] != spec_name64(3)[1]
                && spec_name16(8)[1] != spec_name64(4)[1]
                && spec_name16(8)[1] != spec_name64(5)[1]
                && spec_name16(8)[1] != spec_name64(6)[1]
                && spec_name16(8)[1] != spec_name64(7)[1]);
            assert(spec_name16(8) != spec_name64(0)
                && spec_name16(8) != spec_name64(1)
                && spec_name16(8) != spec_name64(2)
                && spec_name16(8) != spec_name64(3)
                && spec_name16(8) != spec_name64(4)
                && spec_name16(8) != spec_name64(5)
                && spec_name16(8) != spec_name64(6)
                && spec_name16(8) != spec_name64(7));
            assert(spec_name16(8).len() != spec_name64(8).len()
                && spec_name16(8).len() != spec_name64(9).len()
                && spec_name16(8)[1] != spec_name64(10)[1]
                && spec_name16(8)[1] != spec_name64(11)[1]
                && spec_name16(8)[1] != spec_name64(12)[1]
                && spec_name16(8)[1] != spec_name64(13)[1]
                && spec_name16(8)[1] != spec_name64(14)[1]
                && spec_name16(8)[1] != spec_name64(15)[1]);
            assert(spec_name16(8) != spec_name64(8)
                && spec_name16(8) != spec_name64(9)
                && spec_name16(8) != spec_name64(10)
                && spec_name16(8) != spec_name64(11)
                && spec_name16(8) != spec_name64(12)
                && spec_name16(8) != spec_name64(13)
                && spec_name16(8) != spec_name64(14)
                && spec_name16(8) != spec_name64(15));
            assert(spec_name16(8)[0] != spec_name32(0)[0]
                && spec_name16(8)[0] != spec_name32(1)[0]
                && spec_name16(8)[0] != spec_name32(2)[0]
                && spec_name16(8)[0] != spec_name32(3)[0]
                && spec_name16(8)[0] != spec_name32(4)[0]
                && spec_name16(8)[0] != spec_name32(5)[0]
                && spec_name16(8)[0] != spec_name32(6)[0]
                && spec_name16(8)[0] != spec_name32(7)[0]);
            assert(spec_name16(8) != spec_name32(0)
                && spec_name16(8) != spec_name32(1)
                && spec_name16(8) != spec_name32(2)
                && spec_name16(8) != spec_name32(3)
                && spec_name16(8) != spec_name32(4)
                && spec_name16(8) != spec_name32(5)
                && spec_name16(8) != spec_name32(6)
                && spec_name16(8) != spec_name32(7));
            assert(spec_name16(8)[2] != spec_name32(8)[2]
                && spec_name16(8)[1] != spec_name32(9)[1]
                && spec_name16(8).len() != spec_name32(10).len()
                && spec_name16(8).len() != spec_name32(11).len()
                && spec_name16(8).len() != spec_name32(12).len()
                && spec_name16(8).len() != spec_name32(13).len()
                && spec_name16(8).len() != spec_name32(14).len()
                && spec_name16(8).len() != spec_name32(15).len());
            assert(spec_name16(8) != spec_name32(8)
                && spec_name16(8) != spec_name32(9)
                && spec_name16(8) != spec_name32(10)
                && spec_name16(8) != spec_name32(11)
                && spec_name16(8) != spec_name32(12)
                && spec_name16(8) != spec_name32(13)
                && spec_name16(8) != spec_name32(14)
                && spec_name16(8) != spec_name32(15));
    } else if i == 9 {
            assert(spec_name16(9).len() != spec_name16(0).len()
                && spec_name16(9).len() != spec_name16(1).len()
                && spec_name16(9).len() != spec_name16(2).len()
                && spec_name16(9).len() != spec_name16(3).len()
                && spec_name16(9).len() != spec_name16(4).len()
                && spec_name16(9).len() != spec_name16(5).len()
                && spec_name16(9).len() != spec_name16(6).len()
                && spec_name16(9).len() != spec_name16(7).len());
            assert(spec_name16(9) != spec_name16(0)
                && spec_name16(9) != spec_name16(1)
                && spec_name16(9) != spec_name16(2)
                && spec_name16(9) != spec_name16(3)
                && spec_name16(9) != spec_name16(4)
                && spec_name16(9) != spec_name16(5)
                && spec_name16(9) != spec_name16(6)
                && spec_name16(9) != spec_name16(7));
            assert(spec_name16(9)[1] != spec_name16(8)[1]
                && spec_name16(9)[1] != spec_name64(0)[1]
                && spec_name16(9)[1] != spec_name64(1)[1]
                && spec_name16(9)[1] != spec_name64(2)[1]
                && spec_name16(9)[1] != spec_name64(3)[1]
                && spec_name16(9)[1] != spec_name64(4)[1]
                && spec_name16(9)[1] != spec_name64(5)[1]
                && spec_name16(9)[1] != spec_name64(6)[1]);
            assert(spec_name16(9) != spec_name16(8)
                && spec_name16(9) != spec_name64(0)
                && spec_name16(9) != spec_name64(1)
                && spec_name16(9) != spec_name64(2)
                && spec_name16(9) != spec_name64(3)
                && spec_name16(9) != spec_name64(4)
                && spec_name16(9) != spec_name64(5)
                && spec_name16(9) != spec_name64(6));
            assert(spec_name16(9)[1] != spec_name64(7)[1]
                && spec_name16(9).len() != spec_name64(8).len()
                && spec_name16(9).len() != spec_name64(9).len()
                && spec_name16(9)[1] != spec_name64(10)[1]
                && spec_name16(9)[1] != spec_name64(11)[1]
                && spec_name16(9)[1] != spec_name64(12)[1]
                && spec_name16(9)[1] != spec_name64(13)[1]
                && spec_name16(9)[1] != spec_name64(14)[1]);
            assert(spec_name16(9) != spec_name64(7)
                && spec_name16(9) != spec_name64(8)
                && spec_name16(9) != spec_name64(9)
                && spec_name16(9) != spec_name64(10)
                && spec_name16(9) != spec_name64(11)
                && spec_name16(9) != spec_name64(12)
                && spec_name16(9) != spec_name64(13)
                && spec_name16(9) != spec_name64(14));
            assert(spec_name16(9)[1] != spec_name64(15)[1]
                && spec_name16(9)[0] != spec_name32(0)[0]
                && spec_name16(9)[0] != spec_name32(1)[0]
                && spec_name16(9)[0] != spec_name32(2)[0]
                && spec_name16(9)[0] != spec_name32(3)[0]
                && spec_name16(9)[0] != spec_name32(4)[0]
                && spec_name16(9)[0] != spec_name32(5)[0]
                && spec_name16(9)[0] != spec_name32(6)[0]);
            assert(spec_name16(9) != spec_name64(15)
                && spec_name16(9) != spec_name32(0)
                && spec_name16(9) != spec_name32(1)
                && spec_name16(9) != spec_name32(2)
                && spec_name16(9) != spec_name32(3)
                && spec_name16(9) != spec_name32(4)
                && spec_name16(9) != spec_name32(5)
                && spec_name16(9) != spec_name32(6));
            assert(spec_name16(9)[0] != spec_name32(7)[0]
                && spec_name16(9)[1] != spec_name32(8)[1]
                && spec_name16(9)[2] != spec_name32(9)[2]
                && spec_name16(9).len() != spec_name32(10).len()
                && spec_name16(9).len() != spec_name32(11).len()
                && spec_name16(9).len() != spec_name32(12).len()
                && spec_name16(9).len() != spec_name32(13).len()
                && spec_name16(9).len() != spec_name32(14).len());
            assert(spec_name16(9) != spec_name32(7)
                && spec_name16(9) != spec_name32(8)
                && spec_name16(9) != spec_name32(9)
                && spec_name16(9) != spec_name32(10)
                && spec_name16(9) != spec_name32(11)
                && spec_name16(9) != spec_name32(12)
                && spec_name16(9) != spec_name32(13)
                && spec_name16(9) != spec_name32(14));
            assert(spec_name16(9).len() != spec_name32(15).len());
            assert(spec_name16(9) != spec_name32(15));
    } else if i == 10 {
            assert(spec_name16(10).len() != spec_name16(0).len()
                && spec_name16(10).len() != spec_name16(1).len()
                && spec_name16(10).len() != spec_name16(2).len()
                && spec_name16(10).len() != spec_name16(3).len()
                && spec_name16(10).len() != spec_name16(4).len()
                && spec_name16(10).len() != spec_name16(5).len()
                && spec_name16(10).len() != spec_name16(6).len()
                && spec_name16(10).len() != spec_name16(7).len());
            assert(spec_name16(10) != spec_name16(0)
                && spec_name16(10) != spec_name16(1)
                && spec_name16(10) != spec_name16(2)
                && spec_name16(10) != spec_name16(3)
                && spec_name16(10) != spec_name16(4)
                && spec_name16(10) != spec_name16(5)
                && spec_name16(10) != spec_name16(6)
                && spec_name16(10) != spec_name16(7));
            assert(spec_name16(10).len() != spec_name16(8).len()
                && spec_name16(10).len() != spec_name16(9).len()
                && spec_name16(10).len() != spec_name64(0).len()
                && spec_name16(10).len() != spec_name64(1).len()
                && spec_name16(10).len() != spec_name64(2).len()
                && spec_name16(10).len() != spec_name64(3).len()
                && spec_name16(10).len() != spec_name64(4).len()
                && spec_name16(10).len() != spec_name64(5).len());
            assert(spec_name16(10) != spec_name16(8)
                && spec_name16(10) != spec_name16(9)
                && spec_name16(10) != spec_name64(0)
                && spec_name16(10) != spec_name64(1)
                && spec_name16(10) != spec_name64(2)
                && spec_name16(10) != spec_name64(3)
                && spec_name16(10) != spec_name64(4)
                && spec_name16(10) != spec_name64(5));
            assert(spec_name16(10).len() != spec_name64(6).len()
                && spec_name16(10).len() != spec_name64(7).len()
                && spec_name16(10).len() != spec_name64(8).len()
                && spec_name16(10).len() != spec_name64(9).len()
                && spec_name16(10).len() != spec_name64(10).len()
                && spec_name16(10).len() != spec_name64(11).len()
                && spec_name16(10).len() != spec_name64(12).len()
                && spec_name16(10).len() != spec_name64(13).len());
            assert(spec_name16(10) != spec_name64(6)
                && spec_name16(10) != spec_name64(7)
                && spec_name16(10) != spec_name64(8)
                && spec_name16(10) != spec_name64(9)
                && spec_name16(10) != spec_name64(10)
                && spec_name16(10) != spec_name64(11)
                && spec_name16(10) != spec_name64(12)
                && spec_name16(10) != spec_name64(13));
            assert(spec_name16(10).len() != spec_name64(14).len()
                && spec_name16(10).len() != spec_name64(15).len()
                && spec_name16(10).len() != spec_name32(0).len()
                && spec_name16(10).len() != spec_name32(1).len()
                && spec_name16(10).len() != spec_name32(2).len()
                && spec_name16(10).len() != spec_name32(3).len()
                && spec_name16(10).len() != spec_name32(4).len()
                && spec_name16(10).len() != spec_name32(5).len());
            assert(spec_name16(10) != spec_name64(14)
                && spec_name16(10) != spec_name64(15)
                && spec_name16(10) != spec_name32(0)
                && spec_name16(10) != spec_name32(1)
                && spec_name16(10) != spec_name32(2)
                && spec_name16(10) != spec_name32(3)
                && spec_name16(10) != spec_name32(4)
                && spec_name16(10) != spec_name32(5));
            assert(spec_name16(10).len() != spec_name32(6).len()
                && spec_name16(10).len() != spec_name32(7).len()
                && spec_name16(10).len() != spec_name32(8).len()
                && spec_name16(10).len() != spec_name32(9).len()
                && spec_name16(10)[3] != spec_name32(10)[3]
                && spec_name16(10)[2] != spec_name32(11)[2]
                && spec_name16(10)[2] != spec_name32(12)[2]
                && spec_name16(10)[2] != spec_name32(13)[2]);
            assert(spec_name16(10) != spec_name32(6)
                && spec_name16(10) != spec_name32(7)
                && spec_name16(10) != spec_name32(8)
                && spec_name16(10) != spec_name32(9)
                && spec_name16(10) != spec_name32(10)
                && spec_name16(10) != spec_name32(11)
                && spec_name16(10) != spec_name32(12)
                && spec_name16(10) != spec_name32(13));
            assert(spec_name16(10)[2] != spec_name32(14)[2]
                && spec_name16(10)[2] != spec_name32(15)[2]);
            assert(spec_name16(10) != spec_name32(14)
                && spec_name16(10) != spec_name32(15));
    } else if i == 11 {
            assert(spec_name16(11).len() != spec_name16(0).len()
                && spec_name16(11).len() != spec_name16(1).len()
                && spec_name16(11).len() != spec_name16(2).len()
                && spec_name16(11).len() != spec_name16(3).len()
                && spec_name16(11).len() != spec_name16(4).len()
                && spec_name16(11).len() != spec_name16(5).len()
                && spec_name16(11).len() != spec_name16(6).len()
                && spec_name16(11).len() != spec_name16(7).len());
            assert(spec_name16(11) != spec_name16(0)
                && spec_name16(11) != spec_name16(1)
                && spec_name16(11) != spec_name16(2)
                && spec_name16(11) != spec_name16(3)
                && spec_name16(11) != spec_name16(4)
                && spec_name16(11) != spec_name16(5)
                && spec_name16(11) != spec_name16(6)
                && spec_name16(11) != spec_name16(7));
            assert(spec_name16(11).len() != spec_name16(8).len()
                && spec_name16(11).len() != spec_name16(9).len()
                && spec_name16(11)[2] != spec_name16(10)[2]
                && spec_name16(11).len() != spec_name64(0).len()
                && spec_name16(11).len() != spec_name64(1).len()
                && spec_name16(11).len() != spec_name64(2).len()
                && spec_name16(11).len() != spec_name64(3).len()
                && spec_name16(11).len() != spec_name64(4).len());
            assert(spec_name16(11) != spec_name16(8)
                && spec_name16(11) != spec_name16(9)
                && spec_name16(11) != spec_name16(10)
                && spec_name16(11) != spec_name64(0)
                && spec_name16(11) != spec_name64(1)
                && spec_name16(11) != spec_name64(2)
                && spec_name16(11) != spec_name64(3)
                && spec_name16(11) != spec_name64(4));
            assert(spec_name16(11).len() != spec_name64(5).len()
                && spec_name16(11).len() != spec_name64(6).len()
                && spec_name16(11).len() != spec_name64(7).len()
                && spec_name16(11).len() != spec_name64(8).len()
                && spec_name16(11).len() != spec_name64(9).len()
                && spec_name16(11).len() != spec_name64(10).len()
                && spec_name16(11).len() != spec_name64(11).len()
                && spec_name16(11).len() != spec_name64(12).len());
            assert(spec_name16(11) != spec_name64(5)
                && spec_name16(11) != spec_name64(6)
                && spec_name16(11) != spec_name64(7)
                && spec_name16(11) != spec_name64(8)
                && spec_name16(11) != spec_name64(9)
                && spec_name16(11) != spec_name64(10)
                && spec_name16(11) != spec_name64(11)
                && spec_name16(11) != spec_name64(12));
            assert(spec_name16(11).len() != spec_name64(13).len()
                && spec_name16(11).len() != spec_name64(14).len()
                && spec_name16(11).len() != spec_name64(15).len()
                && spec_name16(11).len() != spec_name32(0).len()
                && spec_name16(11).len() != spec_name32(1).len()
                && spec_name16(11).len() != spec_name32(2).len()
                && spec_name16(11).len() != spec_name32(3).len()
                && spec_name16(11).len() != spec_name32(4).len());
            assert(spec_name16(11) != spec_name64(13)
                && spec_name16(11) != spec_name64(14)
                && spec_name16(11) != spec_name64(15)
                && spec_name16(11) != spec_name32(0)
                && spec_name16(11) != spec_name32(1)
                && spec_name16(11) != spec_name32(2)
                && spec_name16(11) != spec_name32(3)
                && spec_name16(11) != spec_name32(4));
            assert(spec_name16(11).len() != spec_name32(5).len()
                && spec_name16(11).len() != spec_name32(6).len()
                && spec_name16(11).len() != spec_name32(7).len()
                && spec_name16(11).len() != spec_name32(8).len()
                && spec_name16(11).len() != spec_name32(9).len()
                && spec_name16(11)[2] != spec_name32(10)[2]
                && spec_name16(11)[3] != spec_name32(11)[3]
                && spec_name16(11)[2] != spec_name32(12)[2]);
            assert(spec_name16(11) != spec_name32(5)
                && spec_name16(11) != spec_name32(6)
                && spec_name16(11) != spec_name32(7)
                && spec_name16(11) != spec_name32(8)
                && spec_name16(11) != spec_name32(9)
                && spec_name16(11) != spec_name32(10)
                && spec_name16(11) != spec_name32(11)
                && spec_name16(11) != spec_name32(12));
            assert(spec_name16(11)[2] != spec_name32(13)[2]
                && spec_name16(11)[2] != spec_name32(14)[2]
                && spec_name16(11)[2] != spec_name32(15)[2]);
            assert(spec_name16(11) != spec_name32(13)
                && spec_name16(11) != spec_name32(14)
                && spec_name16(11) != spec_name32(15));
    } else if i == 12 {
            assert(spec_name16(12).len() != spec_name16(0).len()
                && spec_name16(12).len() != spec_name16(1).len()
                && spec_name16(12).len() != spec_name16(2).len()
                && spec_name16(12).len() != spec_name16(3).len()
                && spec_name16(12).len() != spec_name16(4).len()
                && spec_name16(12).len() != spec_name16(5).len()
                && spec_name16(12).len() != spec_name16(6).len()
                && spec_name16(12).len() != spec_name16(7).len());
            assert(spec_name16(12) != spec_name16(0)
                && spec_name16(12) != spec_name16(1)
                && spec_name16(12) != spec_name16(2)
                && spec_name16(12) != spec_name16(3)
                && spec_name16(12) != spec_name16(4)
                && spec_name16(12) != spec_name16(5)
                && spec_name16(12) != spec_name16(6)
                && spec_name16(12) != spec_name16(7));
            assert(spec_name16(12).len() != spec_name16(8).len()
                && spec_name16(12).len() != spec_name16(9).len()
                && spec_name16(12)[2] != spec_name16(10)[2]
                && spec_name16(12)[2] != spec_name16(11)[2]
                && spec_name16(12).len() != spec_name64(0).len()
                && spec_name16(12).len() != spec_name64(1).len()
                && spec_name16(12).len() != spec_name64(2).len()
                && spec_name16(12).len() != spec_name64(3).len());
            assert(spec_name16(12) != spec_name16(8)
                && spec_name16(12) != spec_name16(9)
                && spec_name16(12) != spec_name16(10)
                && spec_name16(12) != spec_name16(11)
                && spec_name16(12) != spec_name64(0)
                && spec_name16(12) != spec_name64(1)
                && spec_name16(12) != spec_name64(2)
                && spec_name16(12) != spec_name64(3));
            assert(spec_name16(12).len() != spec_name64(4).len()
                && spec_name16(12).len() != spec_name64(5).len()
                && spec_name16(12).len() != spec_name64(6).len()
                && spec_name16(12).len() != spec_name64(7).len()
                && spec_name16(12).len() != spec_name64(8).len()
                && spec_name16(12).len() != spec_name64(9).len()
                && spec_name16(12).len() != spec_name64(10).len()
                && spec_name16(12).len() != spec_name64(11).len());
            assert(spec_name16(12) != spec_name64(4)
                && spec_name16(12) != spec_name64(5)
                && spec_name16(12) != spec_name64(6)
                && spec_name16(12) != spec_name64(7)
                && spec_name16(12) != spec_name64(8)
                && spec_name16(12) != spec_name64(9)
                && spec_name16(12) != spec_name64(10)
                && spec_name16(12) != spec_name64(11));
            assert(spec_name16(12).len() != spec_name64(12).len()
                && spec_name16(12).len() != spec_name64(13).len()
                && spec_name16(12).len() != spec_name64(14).len()
                && spec_name16(12).len() != spec_name64(15).len()
                && spec_name16(12).len() != spec_name32(0).len()
                && spec_name16(12).len() != spec_name32(1).len()
                && spec_name16(12).len() != spec_name32(2).len()
                && spec_name16(12).len() != spec_name32(3).len());
            assert(spec_name16(12) != spec_name64(12)
                && spec_name16(12) != spec_name64(13)
                && spec_name16(12) != spec_name64(14)
                && spec_name16(12) != spec_name64(15)
                && spec_name16(12) != spec_name32(0)
                && spec_name16(12) != spec_name32(1)
                && spec_name16(12) != spec_name32(2)
                && spec_name16(12) != spec_name32(3));
            assert(spec_name16(12).len() != spec_name32(4).len()
                && spec_name16(12).len() != spec_name32(5).len()
                && spec_name16(12).len() != spec_name32(6).len()
                && spec_name16(12).len() != spec_name32(7).len()
                && spec_name16(12).len() != spec_name32(8).len()
                && spec_name16(12).len() != spec_name32(9).len()
                && spec_name16(12)[2] != spec_name32(10)[2]
                && spec_name16(12)[2] != spec_name32(11)[2]);
            assert(spec_name16(12) != spec_name32(4)
                && spec_name16(12) != spec_name32(5)
                && spec_name16(12) != spec_name32(6)
                && spec_name16(12) != spec_name32(7)
                && spec_name16(12) != spec_name32(8)
                && spec_name16(12) != spec_name32(9)
                && spec_name16(12) != spec_name32(10)
                && spec_name16(12) != spec_name32(11));
            assert(spec_name16(12)[3] != spec_name32(12)[3]
                && spec_name16(12)[2] != spec_name32(13)[2]
                && spec_name16(12)[2] != spec_name32(14)[2]
                && spec_name16(12)[2] != spec_name32(15)[2]);
            assert(spec_name16(12) != spec_name32(12)
                && spec_name16(12) != spec_name32(13)
                && spec_name16(12) != spec_name32(14)
                && spec_name16(12) != spec_name32(15));
    } else if i == 13 {
            assert(spec_name16(13).len() != spec_name16(0).len()
                && spec_name16(13).len() != spec_name16(1).len()
                && spec_name16(13).len() != spec_name16(2).len()
                && spec_name16(13).len() != spec_name16(3).len()
                && spec_name16(13).len() != spec_name16(4).len()
                && spec_name16(13).len() != spec_name16(5).len()
                && spec_name16(13).len() != spec_name16(6).len()
                && spec_name16(13).len() != spec_name16(7).len());
            assert(spec_name16(13) != spec_name16(0)
                && spec_name16(13) != spec_name16(1)
                && spec_name16(13) != spec_name16(2)
                && spec_name16(13) != spec_name16(3)
                && spec_name16(13) != spec_name16(4)
                && spec_name16(13) != spec_name16(5)
                && spec_name16(13) != spec_name16(6)
                && spec_name16(13) != spec_name16(7));
            assert(spec_name16(13).len() != spec_name16(8).len()
                && spec_name16(13).len() != spec_name16(9).len()
                && spec_name16(13)[2] != spec_name16(10)[2]
                && spec_name16(13)[2] != spec_name16(11)[2]
                && spec_name16(13)[2] != spec_name16(12)[2]
                && spec_name16(13).len() != spec_name64(0).len()
                && spec_name16(13).len() != spec_name64(1).len()
                && spec_name16(13).len() != spec_name64(2).len());
            assert(spec_name16(13) != spec_name16(8)
                && spec_name16(13) != spec_name16(9)
                && spec_name16(13) != spec_name16(10)
                && spec_name16(13) != spec_name16(11)
                && spec_name16(13) != spec_name16(12)
                && spec_name16(13) != spec_name64(0)
                && spec_name16(13) != spec_name64(1)
                && spec_name16(13) != spec_name64(2));
            assert(spec_name16(13).len() != spec_name64(3).len()
                && spec_name16(13).len() != spec_name64(4).len()
                && spec_name16(13).len() != spec_name64(5).len()
                && spec_name16(13).len() != spec_name64(6).len()
                && spec_name16(13).len() != spec_name64(7).len()
                && spec_name16(13).len() != spec_name64(8).len()
                && spec_name16(13).len() != spec_name64(9).len()
                && spec_name16(13).len() != spec_name64(10).len());
            assert(spec_name16(13) != spec_name64(3)
                && spec_name16(13) != spec_name64(4)
                && spec_name16(13) != spec_name64(5)
                && spec_name16(13) != spec_name64(6)
                && spec_name16(13) != spec_name64(7)
                && spec_name16(13) != spec_name64(8)
                && spec_name16(13) != spec_name64(9)
                && spec_name16(13) != spec_name64(10));
            assert(spec_name16(13).len() != spec_name64(11).len()
                && spec_name16(13).len() != spec_name64(12).len()
                && spec_name16(13).len() != spec_name64(13).len()
                && spec_name16(13).len() != spec_name64(14).len()
                && spec_name16(13).len() != spec_name64(15).len()
                && spec_name16(13).len() != spec_name32(0).len()
                && spec_name16(13).len() != spec_name32(1).len()
                && spec_name16(13).len() != spec_name32(2).len());
            assert(spec_name16(13) != spec_name64(11)
                && spec_name16(13) != spec_name64(12)
                && spec_name16(13) != spec_name64(13)
                && spec_name16(13) != spec_name64(14)
                && spec_name16(13) != spec_name64(15)
                && spec_name16(13) != spec_name32(0)
                && spec_name16(13) != spec_name32(1)
                && spec_name16(13) != spec_name32(2));
            assert(spec_name16(13).len() != spec_name32(3).len()
                && spec_name16(13).len() != spec_name32(4).len()
                && spec_name16(13).len() != spec_name32(5).len()
                && spec_name16(13).len() != spec_name32(6).len()
                && spec_name16(13).len() != spec_name32(7).len()
                && spec_name16(13).len() != spec_name32(8).len()
                && spec_name16(13).len() != spec_name32(9).len()
                && spec_name16(13)[2] != spec_name32(10)[2]);
            assert(spec_name16(13) != spec_name32(3)
                && spec_name16(13) != spec_name32(4)
                && spec_name16(13) != spec_name32(5)
                && spec_name16(13) != spec_name32(6)
                && spec_name16(13) != spec_name32(7)
                && spec_name16(13) != spec_name32(8)
                && spec_name16(13) != spec_name32(9)
                && spec_name16(13) != spec_name32(10));
            assert(spec_name16(13)[2] != spec_name32(11)[2]
                && spec_name16(13)[2] != spec_name32(12)[2]
                && spec_name16(13)[3] != spec_name32(13)[3]
                && spec_name16(13)[2] != spec_name32(14)[2]
                && spec_name16(13)[2] != spec_name32(15)[2]);
            assert(spec_name16(13) != spec_name32(11)
                && spec_name16(13) != spec_name32(12)
                && spec_name16(13) != spec_name32(13)
                && spec_name16(13) != spec_name32(14)
                && spec_name16(13) != spec_name32(15));
    } else if i == 14 {
            assert(spec_name16(14).len() != spec_name16(0).len()
                && spec_name16(14).len() != spec_name16(1).len()
                && spec_name16(14).len() != spec_name16(2).len()
                && spec_name16(14).len() != spec_name16(3).len()
                && spec_name16(14).len() != spec_name16(4).len()
                && spec_name16(14).len() != spec_name16(5).len()
                && spec_name16(14).len() != spec_name16(6).len()
                && spec_name16(14).len() != spec_name16(7).len());
            assert(spec_name16(14) != spec_name16(0)
                && spec_name16(14) != spec_name16(1)
                && spec_name16(14) != spec_name16(2)
                && spec_name16(14) != spec_name16(3)
                && spec_name16(14) != spec_name16(4)
                && spec_name16(14) != spec_name16(5)
                && spec_name16(14) != spec_name16(6)
                && spec_name16(14) != spec_name16(7));
            assert(spec_name16(14).len() != spec_name16(8).len()
                && spec_name16(14).len() != spec_name16(9).len()
                && spec_name16(14)[2] != spec_name16(10)[2]
                && spec_name16(14)[2] != spec_name16(11)[2]
                && spec_name16(14)[2] != spec_name16(12)[2]
                && spec_name16(14)[2] != spec_name16(13)[2]
                && spec_name16(14).len() != spec_name64(0).len()
                && spec_name16(14).len() != spec_name64(1).len());
            assert(spec_name16(14) != spec_name16(8)
                && spec_name16(14) != spec_name16(9)
                && spec_name16(14) != spec_name16(10)
                && spec_name16(14) != spec_name16(11)
                && spec_name16(14) != spec_name16(12)
                && spec_name16(14) != spec_name16(13)
                && spec_name16(14) != spec_name64(0)
                && spec_name16(14) != spec_name64(1));
            assert(spec_name16(14).len() != spec_name64(2).len()
                && spec_name16(14).len() != spec_name64(3).len()
                && spec_name16(14).len() != spec_name64(4).len()
                && spec_name16(14).len() != spec_name64(5).len()
                && spec_name16(14).len() != spec_name64(6).len()
                && spec_name16(14).len() != spec_name64(7).len()
                && spec_name16(14).len() != spec_name64(8).len()
                && spec_name16(14).len() != spec_name64(9).len());
            assert(spec_name16(14) != spec_name64(2)
                && spec_name16(14) != spec_name64(3)
                && spec_name16(14) != spec_name64(4)
                && spec_name16(14) != spec_name64(5)
                && spec_name16(14) != spec_name64(6)
                && spec_name16(14) != spec_name64(7)
                && spec_name16(14) != spec_name64(8)
                && spec_name16(14) != spec_name64(9));
            assert(spec_name16(14).len() != spec_name64(10).len()
                && spec_name16(14).len() != spec_name64(11).len()
                && spec_name16(14).len() != spec_name64(12).len()
                && spec_name16(14).len() != spec_name64(13).len()
                && spec_name16(14).len() != spec_name64(14).len()
                && spec_name16(14).len() != spec_name64(15).len()
                && spec_name16(14).len() != spec_name32(0).len()
                && spec_name16(14).len() != spec_name32(1).len());
            assert(spec_name16(14) != spec_name64(10)
                && spec_name16(14) != spec_name64(11)
                && spec_name16(14) != spec_name64(12)
                && spec_name16(14) != spec_name64(13)
                && spec_name16(14) != spec_name64(14)
                && spec_name16(14) != spec_name64(15)
                && spec_name16(14) != spec_name32(0)
                && spec_name16(14) != spec_name32(1));
            assert(spec_name16(14).len() != spec_name32(2).len()
                && spec_name16(14).len() != spec_name32(3).len()
                && spec_name16(14).len() != spec_name32(4).len()
                && spec_name16(14).len() != spec_name32(5).len()
                && spec_name16(14).len() != spec_name32(6).len()
                && spec_name16(14).len() != spec_name32(7).len()
                && spec_name16(14).len() != spec_name32(8).len()
                && spec_name16(14).len() != spec_name32(9).len());
            assert(spec_name16(14) != spec_name32(2)
                && spec_name16(14) != spec_name32(3)
                && spec_name16(14) != spec_name32(4)
                && spec_name16(14) != spec_name32(5)
                && spec_name16(14) != spec_name32(6)
                && spec_name16(14) != spec_name32(7)
                && spec_name16(14) != spec_name32(8)
                && spec_name16(14) != spec_name32(9));
            assert(spec_name16(14)[2] != spec_name32(10)[2]
                && spec_name16(14)[2] != spec_name32(11)[2]
                && spec_name16(14)[2] != spec_name32(12)[2]
                && spec_name16(14)[2] != spec_name32(13)[2]
                && spec_name16(14)[3] != spec_name32(14)[3]
                && spec_name16(14)[2] != spec_name32(15)[2]);
            assert(spec_name16(14) != spec_name32(10)
                && spec_name16(14) != spec_name32(11)
                && spec_name16(14) != spec_name32(12)
                && spec_name16(14) != spec_name32(13)
                && spec_name16(14) != spec_name32(14)
                && spec_name16(14) != spec_name32(15));
    } else {
            assert(spec_name16(15).len() != spec_name16(0).len()
                && spec_name16(15).len() != spec_name16(1).len()
                && spec_name16(15).len() != spec_name16(2).len()
                && spec_name16(15).len() != spec_name16(3).len()
                && spec_name16(15).len() != spec_name16(4).len()
                && spec_name16(15).len() != spec_name16(5).len()
                && spec_name16(15).len() != spec_name16(6).len()
                && spec_name16(15).len() != spec_name16(7).len());
            assert(spec_name16(15) != spec_name16(0)
                && spec_name16(15) != spec_name16(1)
                && spec_name16(15) != spec_name16(2)
                && spec_name16(15) != spec_name16(3)
                && spec_name16(15) != spec_name16(4)
                && spec_name16(15) != spec_name16(5)
                && spec_name16(15) != spec_name16(6)
                && spec_name16(15) != spec_name16(7));
            assert(spec_name16(15).len() != spec_name16(8).len()
                && spec_name16(15).len() != spec_name16(9).len()
                && spec_name16(15)[2] != spec_name16(10)[2]
                && spec_name16(15)[2] != spec_name16(11)[2]
                && spec_name16(15)[2] != spec_name16(12)[2]
                && spec_name16(15)[2] != spec_name16(13)[2]
                && spec_name16(15)[2] != spec_name16(14)[2]
                && spec_name16(15).len() != spec_name64(0).len());
            assert(spec_name16(15) != spec_name16(8)
                && spec_name16(15) != spec_name16(9)
                && spec_name16(15) != spec_name16(10)
                && spec_name16(15) != spec_name16(11)
                && spec_name16(15) != spec_name16(12)
                && spec_name16(15) != spec_name16(13)
                && spec_name16(15) != spec_name16(14)
                && spec_name16(15) != spec_name64(0));
            assert(spec_name16(15).len() != spec_name64(1).len()
                && spec_name16(15).len() != spec_name64(2).len()
                && spec_name16(15).len() != spec_name64(3).len()
                && spec_name16(15).len() != spec_name64(4).len()
                && spec_name16(15).len() != spec_name64(5).len()
                && spec_name16(15).len() != spec_name64(6).len()
                && spec_name16(15).len() != spec_name64(7).len()
                && spec_name16(15).len() != spec_name64(8).len());
            assert(spec_name16(15) != spec_name64(1)
                && spec_name16(15) != spec_name64(2)
                && spec_name16(15) != spec_name64(3)
                && spec_name16(15) != spec_name64(4)
                && spec_name16(15) != spec_name64(5)
                && spec_name16(15) != spec_name64(6)
                && spec_name16(15) != spec_name64(7)
                && spec_name16(15) != spec_name64(8));
            assert(spec_name16(15).len() != spec_name64(9).len()
                && spec_name16(15).len() != spec_name64(10).len()
                && spec_name16(15).len() != spec_name64(11).len()
                && spec_name16(15).len() != spec_name64(12).len()
                && spec_name16(15).len() != spec_name64(13).len()
                && spec_name16(15).len() != spec_name64(14).len()
                && spec_name16(15).len() != spec_name64(15).len()
                && spec_name16(15).len() != spec_name32(0).len());
            assert(spec_name16(15) != spec_name64(9)
                && spec_name16(15) != spec_name64(10)
                && spec_name16(15) != spec_name64(11)
                && spec_name16(15) != spec_name64(12)
                && spec_name16(15) != spec_name64(13)
                && spec_name16(15) != spec_name64(14)
                && spec_name16(15) != spec_name64(15)
                && spec_name16(15) != spec_name32(0));
            assert(spec_name16(15).len() != spec_name32(1).len()
                && spec_name16(15).len() != spec_name32(2).len()
                && spec_name16(15).len() != spec_name32(3).len()
                && spec_name16(15).len() != spec_name32(4).len()
                && spec_name16(15).len() != spec_name32(5).len()
                && spec_name16(15).len() != spec_name32(6).len()
                && spec_name16(15).len() != spec_name32(7).len()
                && spec_name16(15).len() != spec_name32(8).len());
            assert(spec_name16(15) != spec_name32(1)
                && spec_name16(15) != spec_name32(2)
                && spec_name16(15) != spec_name32(3)
                && spec_name16(15) != spec_name32(4)
                && spec_name16(15) != spec_name32(5)
                && spec_name16(15) != spec_name32(6)
                && spec_name16(15) != spec_name32(7)
                && spec_name16(15) != spec_name32(8));
            assert(spec_name16(15).len() != spec_name32(9).len()
                && spec_name16(15)[2] != spec_name32(10)[2]
                && spec_name16(15)[2] != spec_name32(11)[2]
                && spec_name16(15)[2] != spec_name32(12)[2]
                && spec_name16(15)[2] != spec_name32(13)[2]
                && spec_name16(15)[2] != spec_name32(14)[2]
                && spec_name16(15)[3] != spec_name32(15)[3]);
            assert(spec_name16(15) != spec_name32(9)
                && spec_name16(15) != spec_name32(10)
                && spec_name16(15) != spec_name32(11)
                && spec_name16(15) != spec_name32(12)
                && spec_name16(15) != spec_name32(13)
                && spec_name16(15) != spec_name32(14)
                && spec_name16(15) != spec_name32(15));
    }
}

/// The legacy byte-register names are plain tokens that only the 8-bit
/// name parser accepts.
proof fn lemma_name8_token(i: u8)
    requires
        i < 8,
    ensures
        spec_plain_token(spec_name8(i)),
        spec_clean(spec_name8(i)),
        spec_name8(i).last() != 0x3a,
        spec_parse_name8(spec_name8(i)) == Some(i),
        spec_parse_name64(spec_name8(i)) is None,
        spec_parse_name32(spec_name8(i)) is None,
        spec_parse_name16(spec_name8(i)) is None,
{
    if i == 0 {
            assert(spec_name8(0).len() != spec_name64(0).len()
                && spec_name8(0).len() != spec_name64(1).len()
                && spec_name8(0).len() != spec_name64(2).len()
                && spec_name8(0).len() != spec_name64(3).len()
                && spec_name8(0).len() != spec_name64(4).len()
                && spec_name8(0).len() != spec_name64(5).len()
                && spec_name8(0).len() != spec_name64(6).len()
                && spec_name8(0).len() != spec_name64(7).len());
            assert(spec_name8(0) != spec_name64(0)
                && spec_name8(0) != spec_name64(1)
                && spec_name8(0) != spec_name64(2)
                && spec_name8(0) != spec_name64(3)
                && spec_name8(0) != spec_name64(4)
                && spec_name8(0) != spec_name64(5)
                && spec_name8(0) != spec_name64(6)
                && spec_name8(0) != spec_name64(7));
            assert(spec_name8(0)[0] != spec_name64(8)[0]
                && spec_name8(0)[0] != spec_name64(9)[0]
                && spec_name8(0).len() != spec_name64(10).len()
                && spec_name8(0).len() != spec_name64(11).len()
                && spec_name8(0).len() != spec_name64(12).len()
                && spec_name8(0).len() != spec_name64(13).len()
                && spec_name8(0).len() != spec_name64(14).len()
                && spec_name8(0).len() != spec_name64(15).len());
            assert(spec_name8(0) != spec_name64(8)
                && spec_name8(0) != spec_name64(9)
                && spec_name8(0) != spec_name64(10)
                && spec_name8(0) != spec_name64(11)
                && spec_name8(0) != spec_name64(12)
                && spec_name8(0) != spec_name64(13)
                && spec_name8(0) != spec_name64(14)
                && spec_name8(0) != spec_name64(15));
            assert(spec_name8(0).len() != spec_name32(0).len()
                && spec_name8(0).len() != spec_name32(1).len()
                && spec_name8(0).len() != spec_name32(2).len()
                && spec_name8(0).len() != spec_name32(3).len()
                && spec_name8(0).len() != spec_name32(4).len()
                && spec_name8(0).len() != spec_name32(5).len()
                && spec_name8(0).len() != spec_name32(6).len()
                && spec_name8(0).len() != spec_name32(7).len());
            assert(spec_name8(0) != spec_name32(0)
                && spec_name8(0) != spec_name32(1)
                && spec_name8(0) != spec_name32(2)
                && spec_name8(0) != spec_name32(3)
                && spec_name8(0) != spec_name32(4)
                && spec_name8(0) != spec_name32(5)
                && spec_name8(0) != spec_name32(6)
                && spec_name8(0) != spec_name32(7));
            assert(spec_name8(0).len() != spec_name32(8).len()
                && spec_name8(0).len() != spec_name32(9).len()
                && spec_name8(0).len() != spec_name32(10).len()
                && spec_name8(0).len() != spec_name32(11).len()
                && spec_name8(0).len() != spec_name32(12).len()
                && spec_name8(0).len() != spec_name32(13).len()
                && spec_name8(0).len() != spec_name32(14).len()
                && spec_name8(0).len() != spec_name32(15).len());
            assert(spec_name8(0) != spec_name32(8)
                && spec_name8(0) != spec_name32(9)
                && spec_name8(0) != spec_name32(10)
                && spec_name8(0) != spec_name32(11)
                && spec_name8(0) != spec_name32(12)
                && spec_name8(0) != spec_name32(13)
                && spec_name8(0) != spec_name32(14)
                && spec_name8(0) != spec_name32(15));
            assert(spec_name8(0)[1] != spec_name16(0)[1]
                && spec_name8(0)[0] != spec_name16(1)[0]
                && spec_name8(0)[0] != spec_name16(2)[0]
                && spec_name8(0)[0] != spec_name16(3)[0]
                && spec_name8(0)[0] != spec_name16(4)[0]
                && spec_name8(0)[0] != spec_name16(5)[0]
                && spec_name8(0)[0] != spec_name16(6)[0]
                && spec_name8(0)[0] != spec_name16(7)[0]);
            assert(spec_name8(0) != spec_name16(0)
                && spec_name8(0) != spec_name16(1)
                && spec_name8(0) != spec_name16(2)
                && spec_name8(0) != spec_name16(3)
                && spec_name8(0) != spec_name16(4)
                && spec_name8(0) != spec_name16(5)
                && spec_name8(0) != spec_name16(6)
                && spec_name8(0) != spec_name16(7));
            assert(spec_name8(0).len() != spec_name16(8).len()
                && spec_name8(0).len() != spec_name16(9).len()
                && spec_name8(0).len() != spec_name16(10).len()
                && spec_name8(0).len() != spec_name16(11).len()
                && spec_name8(0).len() != spec_name16(12).len()
                && spec_name8(0).len() != spec_name16(13).len()
                && spec_name8(0).len() != spec_name16(14).len()
                && spec_name8(0).len() != spec_name16(15).len());
            assert(spec_name8(0) != spec_name16(8)
                && spec_name8(0) != spec_name16(9)
                && spec_name8(0) != spec_name16(10)
                && spec_name8(0) != spec_name16(11)
                && spec_name8(0) != spec_name16(12)
                && spec_name8(0) != spec_name16(13)
                && spec_name8(0) != spec_name16(14)
                && spec_name8(0) != spec_name16(15));
    } else if i == 1 {
            assert(spec_name8(1)[0] != spec_name8(0)[0]
                && spec_name8(1).len() != spec_name64(0).len()
                && spec_name8(1).len() != spec_name64(1).len()
                && spec_name8(1).len() != spec_name64(2).len()
                && spec_name8(1).len() != spec_name64(3).len()
                && spec_name8(1).len() != spec_name64(4).len()
                && spec_name8(1).len() != spec_name64(5).len()
                && spec_name8(1).len() != spec_name64(6).len());
            assert(spec_name8(1) != spec_name8(0)
                && spec_name8(1) != spec_name64(0)
                && spec_name8(1) != spec_name64(1)
                && spec_name8(1) != spec_name64(2)
                && spec_name8(1) != spec_name64(3)
                && spec_name8(1) != spec_name64(4)
                && spec_name8(1) != spec_name64(5)
                && spec_name8(1) != spec_name64(6));
            assert(spec_name8(1).len() != spec_name64(7).len()
                && spec_name8(1)[0] != spec_name64(8)[0]
                && spec_name8(1)[0] != spec_name64(9)[0]
                && spec_name8(1).len() != spec_name64(10).len()
                && spec_name8(1).len() != spec_name64(11).len()
                && spec_name8(1).len() != spec_name64(12).len()
                && spec_name8(1).len() != spec_name64(13).len()
                && spec_name8(1).len() != spec_name64(14).len());
            assert(spec_name8(1) != spec_name64(7)
                && spec_name8(1) != spec_name64(8)
                && spec_name8(1) != spec_name64(9)
                && spec_name8(1) != spec_name64(10)
                && spec_name8(1) != spec_name64(11)
                && spec_name8(1) != spec_name64(12)
                && spec_name8(1) != spec_name64(13)
                && spec_name8(1) != spec_name64(14));
            assert(spec_name8(1).len() != spec_name64(15).len()
                && spec_name8(1).len() != spec_name32(0).len()
                && spec_name8(1).len() != spec_name32(1).len()
                && spec_name8(1).len() != spec_name32(2).len()
                && spec_name8(1).len() != spec_name32(3).len()
                && spec_name8(1).len() != spec_name32(4).len()
                && spec_name8(1).len() != spec_name32(5).len()
                && spec_name8(1).len() != spec_name32(6).len());
            assert(spec_name8(1) != spec_name64(15)
                && spec_name8(1) != spec_name32(0)
                && spec_name8(1) != spec_name32(1)
                && spec_name8(1) != spec_name32(2)
                && spec_name8(1) != spec_name32(3)
                && spec_name8(1) != spec_name32(4)
                && spec_name8(1) != spec_name32(5)
                && spec_name8(1) != spec_name32(6));
            assert(spec_name8(1).len() != spec_name32(7).len()
                && spec_name8(1).len() != spec_name32(8).len()
                && spec_name8(1).len() != spec_name32(9).len()
                && spec_name8(1).len() != spec_name32(10).len()
                && spec_name8(1).len() != spec_name32(11).len()
                && spec_name8(1).len() != spec_name32(12).len()
                && spec_name8(1).len() != spec_name32(13).len()
                && spec_name8(1).len() != spec_name32(14).len());
            assert(spec_name8(1) != spec_name32(7)
                && spec_name8(1) != spec_name32(8)
                && spec_name8(1) != spec_name32(9)
                && spec_name8(1) != spec_name32(10)
                && spec_name8(1) != spec_name32(11)
                && spec_name8(1) != spec_name32(12)
                && spec_name8(1) != spec_name32(13)
                && spec_name8(1) != spec_name32(14));
            assert(spec_name8(1).len() != spec_name32(15).len()
                && spec_name8(1)[0] != spec_name16(0)[0]
                && spec_name8(1)[1] != spec_name16(1)[1]
                && spec_name8(1)[0] != spec_name16(2)[0]
                && spec_name8(1)[0] != spec_name16(3)[0]
                && spec_name8(1)[0] != spec_name16(4)[0]
                && spec_name8(1)[0] != spec_name16(5)[0]
                && spec_name8(1)[0] != spec_name16(6)[0]);
            assert(spec_name8(1) != spec_name32(15)
                && spec_name8(1) != spec_name16(0)
                && spec_name8(1) != spec_name16(1)
                && spec_name8(1) != spec_name16(2)
                && spec_name8(1) != spec_name16(3)
                && spec_name8(1) != spec_name16(4)
                && spec_name8(1) != spec_name16(5)
                && spec_name8(1) != spec_name16(6));
            assert(spec_name8(1)[0] != spec_name16(7)[0]
                && spec_name8(1).len() != spec_name16(8).len()
                && spec_name8(1).len() != spec_name16(9).len()
                && spec_name8(1).len() != spec_name16(10).len()
                && spec_name8(1).len() != spec_name16(11).len()
                && spec_name8(1).len() != spec_name16(12).len()
                && spec_name8(1).len() != spec_name16(13).len()
                && spec_name8(1).len() != spec_name16(14).len());
            assert(spec_name8(1) != spec_name16(7)
                && spec_name8(1) != spec_name16(8)
                && spec_name8(1) != spec_name16(9)
                && spec_name8(1) != spec_name16(10)
                && spec_name8(1) != spec_name16(11)
                && spec_name8(1) != spec_name16(12)
                && spec_name8(1) != spec_name16(13)
                && spec_name8(1) != spec_name16(14));
            assert(spec_name8(1).len() != spec_name16(15).len());
            assert(spec_name8(1) != spec_name16(15));
    } else if i == 2 {
            assert(spec_name8(2)[0] != spec_name8(0)[0]
                && spec_name8(2)[0] != spec_name8(1)[0]
                && spec_name8(2).len() != spec_name64(0).len()
                && spec_name8(2).len() != spec_name64(1).len()
                && spec_name8(2).len() != spec_name64(2).len()
                && spec_name8(2).len() != spec_name64(3).len()
                && spec_name8(2).len() != spec_name64(4).len()
                && spec_name8(2).len() != spec_name64(5).len());
            assert(spec_name8(2) != spec_name8(0)
                && spec_name8(2) != spec_name8(1)
                && spec_name8(2) != spec_name64(0)
                && spec_name8(2) != spec_name64(1)
                && spec_name8(2) != spec_name64(2)
                && spec_name8(2) != spec_name64(3)
                && spec_name8(2) != spec_name64(4)
                && spec_name8(2) != spec_name64(5));
            assert(spec_name8(2).len() != spec_name64(6).len()
                && spec_name8(2).len() != spec_name64(7).len()
                && spec_name8(2)[0] != spec_name64(8)[0]
                && spec_name8(2)[0] != spec_name64(9)[0]
                && spec_name8(2).len() != spec_name64(10).len()
                && spec_name8(2).len() != spec_name64(11).len()
                && spec_name8(2).len() != spec_name64(12).len()
                && spec_name8(2).len() != spec_name64(13).len());
            assert(spec_name8(2) != spec_name64(6)
                && spec_name8(2) != spec_name64(7)
                && spec_name8(2) != spec_name64(8)
                && spec_name8(2) != spec_name64(9)
                && spec_name8(2) != spec_name64(10)
                && spec_name8(2) != spec_name64(11)
                && spec_name8(2) != spec_name64(12)
                && spec_name8(2) != spec_name64(13));
            assert(spec_name8(2).len() != spec_name64(14).len()
                && spec_name8(2).len() != spec_name64(15).len()
                && spec_name8(2).len() != spec_name32(0).len()
                && spec_name8(2).len() != spec_name32(1).len()
                && spec_name8(2).len() != spec_name32(2).len()
                && spec_name8(2).len() != spec_name32(3).len()
                && spec_name8(2).len() != spec_name32(4).len()
                && spec_name8(2).len() != spec_name32(5).len());
            assert(spec_name8(2) != spec_name64(14)
                && spec_name8(2) != spec_name64(15)
                && spec_name8(2) != spec_name32(0)
                && spec_name8(2) != spec_name32(1)
                && spec_name8(2) != spec_name32(2)
                && spec_name8(2) != spec_name32(3)
                && spec_name8(2) != spec_name32(4)
                && spec_name8(2) != spec_name32(5));
            assert(spec_name8(2).len() != spec_name32(6).len()
                && spec_name8(2).len() != spec_name32(7).len()
                && spec_name8(2).len() != spec_name32(8).len()
                && spec_name8(2).len() != spec_name32(9).len()
                && spec_name8(2).len() != spec_name32(10).len()
                && spec_name8(2).len() != spec_name32(11).len()
                && spec_name8(2).len() != spec_name32(12).len()
                && spec_name8(2).len() != spec_name32(13).len());
            assert(spec_name8(2) != spec_name32(6)
                && spec_name8(2) != spec_name32(7)
                && spec_name8(2) != spec_name32(8)
                && spec_name8(2) != spec_name32(9)
                && spec_name8(2) != spec_name32(10)
                && spec_name8(2) != spec_name32(11)
                && spec_name8(2) != spec_name32(12)
                && spec_name8(2) != spec_name32(13));
            assert(spec_name8(2).len() != spec_name32(14).len()
                && spec_name8(2).len() != spec_name32(15).len()
                && spec_name8(2)[0] != spec_name16(0)[0]
                && spec_name8(2)[0] != spec_name16(1)[0]
                && spec_name8(2)[1] != spec_name16(2)[1]
                && spec_name8(2)[0] != spec_name16(3)[0]
                && spec_name8(2)[0] != spec_name16(4)[0]
                && spec_name8(2)[0] != spec_name16(5)[0]);
            assert(spec_name8(2) != spec_name32(14)
                && spec_name8(2) != spec_name32(15)
                && spec_name8(2) != spec_name16(0)
                && spec_name8(2) != spec_name16(1)
                && spec_name8(2) != spec_name16(2)
                && spec_name8(2) != spec_name16(3)
                && spec_name8(2) != spec_name16(4)
                && spec_name8(2) != spec_name16(5));
            assert(spec_name8(2)[0] != spec_name16(6)[0]
                && spec_name8(2)[1] != spec_name16(7)[1]
                && spec_name8(2).len() != spec_name16(8).len()
                && spec_name8(2).len() != spec_name16(9).len()
                && spec_name8(2).len() != spec_name16(10).len()
                && spec_name8(2).len() != spec_name16(11).len()
                && spec_name8(2).len() != spec_name16(12).len()
                && spec_name8(2).len() != spec_name16(13).len());
            assert(spec_name8(2) != spec_name16(6)
                && spec_name8(2) != spec_name16(7)
                && spec_name8(2) != spec_name16(8)
                && spec_name8(2) != spec_name16(9)
                && spec_name8(2) != spec_name16(10)
                && spec_name8(2) != spec_name16(11)
                && spec_name8(2) != spec_name16(12)
                && spec_name8(2) != spec_name16(13));
            assert(spec_name8(2).len() != spec_name16(14).len()
                && spec_name8(2).len() != spec_name16(15).len());
            assert(spec_name8(2) != spec_name16(14)
                && spec_name8(2) != spec_name16(15));
    } else if i == 3 {
            assert(spec_name8(3)[0] != spec_name8(0)[0]
                && spec_name8(3)[0] != spec_name8(1)[0]
                && spec_name8(3)[0] != spec_name8(2)[0]
                && spec_name8(3).len() != spec_name64(0).len()
                && spec_name8(3).len() != spec_name64(1).len()
                && spec_name8(3).len() != spec_name64(2).len()
                && spec_name8(3).len() != spec_name64(3).len()
                && spec_name8(3).len() != spec_name64(4).len());
            assert(spec_name8(3) != spec_name8(0)
                && spec_name8(3) != spec_name8(1)
                && spec_name8(3) != spec_name8(2)
                && spec_name8(3) != spec_name64(0)
                && spec_name8(3) != spec_name64(1)
                && spec_name8(3) != spec_name64(2)
                && spec_name8(3) != spec_name64(3)
                && spec_name8(3) != spec_name64(4));
            assert(spec_name8(3).len() != spec_name64(5).len()
                && spec_name8(3).len() != spec_name64(6).len()
                && spec_name8(3).len() != spec_name64(7).len()
                && spec_name8(3)[0] != spec_name64(8)[0]
                && spec_name8(3)[0] != spec_name64(9)[0]
                && spec_name8(3).len() != spec_name64(10).len()
                && spec_name8(3).len() != spec_name64(11).len()
                && spec_name8(3).len() != spec_name64(12).len());
            assert(spec_name8(3) != spec_name64(5)
                && spec_name8(3) != spec_name64(6)
                && spec_name8(3) != spec_name64(7)
                && spec_name8(3) != spec_name64(8)
                && spec_name8(3) != spec_name64(9)
                && spec_name8(3) != spec_name64(10)
                && spec_name8(3) != spec_name64(11)
                && spec_name8(3) != spec_name64(12));
            assert(spec_name8(3).len() != spec_name64(13).len()
                && spec_name8(3).len() != spec_name64(14).len()
                && spec_name8(3).len() != spec_name64(15).len()
                && spec_name8(3).len() != spec_name32(0).len()
                && spec_name8(3).len() != spec_name32(1).len()
                && spec_name8(3).len() != spec_name32(2).len()
                && spec_name8(3).len() != spec_name32(3).len()
                && spec_name8(3).len() != spec_name32(4).len());
            assert(spec_name8(3) != spec_name64(13)
                && spec_name8(3) != spec_name64(14)
                && spec_name8(3) != spec_name64(15)
                && spec_name8(3) != spec_name32(0)
                && spec_name8(3) != spec_name32(1)
                && spec_name8(3) != spec_name32(2)
                && spec_name8(3) != spec_name32(3)
                && spec_name8(3) != spec_name32(4));
            assert(spec_name8(3).len() != spec_name32(5).len()
                && spec_name8(3).len() != spec_name32(6).len()
                && spec_name8(3).len() != spec_name32(7).len()
                && spec_name8(3).len() != spec_name32(8).len()
                && spec_name8(3).len() != spec_name32(9).len()
                && spec_name8(3).len() != spec_name32(10).len()
                && spec_name8(3).len() != spec_name32(11).len()
                && spec_name8(3).len() != spec_name32(12).len());
            assert(spec_name8(3) != spec_name32(5)
                && spec_name8(3) != spec_name32(6)
                && spec_name8(3) != spec_name32(7)
                && spec_name8(3) != spec_name32(8)
                && spec_name8(3) != spec_name32(9)
                && spec_name8(3) != spec_name32(10)
                && spec_name8(3) != spec_name32(11)
                && spec_name8(3) != spec_name32(12));
            assert(spec_name8(3).len() != spec_name32(13).len()
                && spec_name8(3).len() != spec_name32(14).len()
                && spec_name8(3).len() != spec_name32(15).len()
                && spec_name8(3)[0] != spec_name16(0)[0]
                && spec_name8(3)[0] != spec_name16(1)[0]
                && spec_name8(3)[0] != spec_name16(2)[0]
                && spec_name8(3)[1] != spec_name16(3)[1]
                && spec_name8(3)[0] != spec_name16(4)[0]);
            assert(spec_name8(3) != spec_name32(13)
                && spec_name8(3) != spec_name32(14)
                && spec_name8(3) != spec_name32(15)
                && spec_name8(3) != spec_name16(0)
                && spec_name8(3) != spec_name16(1)
                && spec_name8(3) != spec_name16(2)
                && spec_name8(3) != spec_name16(3)
                && spec_name8(3) != spec_name16(4));
            assert(spec_name8(3)[1] != spec_name16(5)[1]
                && spec_name8(3)[0] != spec_name16(6)[0]
                && spec_name8(3)[0] != spec_name16(7)[0]
                && spec_name8(3).len() != spec_name16(8).len()
                && spec_name8(3).len() != spec_name16(9).len()
                && spec_name8(3).len() != spec_name16(10).len()
                && spec_name8(3).len() != spec_name16(11).len()
                && spec_name8(3).len() != spec_name16(12).len());
            assert(spec_name8(3) != spec_name16(5)
                && spec_name8(3) != spec_name16(6)
                && spec_name8(3) != spec_name16(7)
                && spec_name8(3) != spec_name16(8)
                && spec_name8(3) != spec_name16(9)
                && spec_name8(3) != spec_name16(10)
                && spec_name8(3) != spec_name16(11)
                && spec_name8(3) != spec_name16(12));
            assert(spec_name8(3).len() != spec_name16(13).len()
                && spec_name8(3).len() != spec_name16(14).len()
                && spec_name8(3).len() != spec_name16(15).len());
            assert(spec_name8(3) != spec_name16(13)
                && spec_name8(3) != spec_name16(14)
                && spec_name8(3) != spec_name16(15));
    } else if i == 4 {
            assert(spec_name8(4)[1] != spec_name8(0)[1]
                && spec_name8(4)[0] != spec_name8(1)[0]
                && spec_name8(4)[0] != spec_name8(2)[0]
                && spec_name8(4)[0] != spec_name8(3)[0]
                && spec_name8(4).len() != spec_name64(0).len()
                && spec_name8(4).len() != spec_name64(1).len()
                && spec_name8(4).len() != spec_name64(2).len()
                && spec_name8(4).len() != spec_name64(3).len());
            assert(spec_name8(4) != spec_name8(0)
                && spec_name8(4) != spec_name8(1)
                && spec_name8(4) != spec_name8(2)
                && spec_name8(4) != spec_name8(3)
                && spec_name8(4) != spec_name64(0)
                && spec_name8(4) != spec_name64(1)
                && spec_name8(4) != spec_name64(2)
                && spec_name8(4) != spec_name64(3));
            assert(spec_name8(4).len() != spec_name64(4).len()
                && spec_name8(4).len() != spec_name64(5).len()
                && spec_name8(4).len() != spec_name64(6).len()
                && spec_name8(4).len() != spec_name64(7).len()
                && spec_name8(4)[0] != spec_name64(8)[0]
                && spec_name8(4)[0] != spec_name64(9)[0]
                && spec_name8(4).len() != spec_name64(10).len()
                && spec_name8(4).len() != spec_name64(11).len());
            assert(spec_name8(4) != spec_name64(4)
                && spec_name8(4) != spec_name64(5)
                && spec_name8(4) != spec_name64(6)
                && spec_name8(4) != spec_name64(7)
                && spec_name8(4) != spec_name64(8)
                && spec_name8(4) != spec_name64(9)
                && spec_name8(4) != spec_name64(10)
                && spec_name8(4) != spec_name64(11));
            assert(spec_name8(4).len() != spec_name64(12).len()
                && spec_name8(4).len() != spec_name64(13).len()
                && spec_name8(4).len() != spec_name64(14).len()
                && spec_name8(4).len() != spec_name64(15).len()
                && spec_name8(4).len() != spec_name32(0).len()
                && spec_name8(4).len() != spec_name32(1).len()
                && spec_name8(4).len() != spec_name32(2).len()
                && spec_name8(4).len() != spec_name32(3).len());
            assert(spec_name8(4) != spec_name64(12)
                && spec_name8(4) != spec_name64(13)
                && spec_name8(4) != spec_name64(14)
                && spec_name8(4) != spec_name64(15)
                && spec_name8(4) != spec_name32(0)
                && spec_name8(4) != spec_name32(1)
                && spec_name8(4) != spec_name32(2)
                && spec_name8(4) != spec_name32(3));
            assert(spec_name8(4).len() != spec_name32(4).len()
                && spec_name8(4).len() != spec_name32(5).len()
                && spec_name8(4).len() != spec_name32(6).len()
                && spec_name8(4).len() != spec_name32(7).len()
                && spec_name8(4).len() != spec_name32(8).len()
                && spec_name8(4).len() != spec_name32(9).len()
                && spec_name8(4).len() != spec_name32(10).len()
                && spec_name8(4).len() != spec_name32(11).len());
            assert(spec_name8(4) != spec_name32(4)
                && spec_name8(4) != spec_name32(5)
                && spec_name8(4) != spec_name32(6)
                && spec_name8(4) != spec_name32(7)
                && spec_name8(4) != spec_name32(8)
                && spec_name8(4) != spec_name32(9)
                && spec_name8(4) != spec_name32(10)
                && spec_name8(4) != spec_name32(11));
            assert(spec_name8(4).len() != spec_name32(12).len()
                && spec_name8(4).len() != spec_name32(13).len()
                && spec_name8(4).len() != spec_name32(14).len()
                && spec_name8(4).len() != spec_name32(15).len()
                && spec_name8(4)[1] != spec_name16(0)[1]
                && spec_name8(4)[0] != spec_name16(1)[0]
                && spec_name8(4)[0] != spec_name16(2)[0]
                && spec_name8(4)[0] != spec_name16(3)[0]);
            assert(spec_name8(4) != spec_name32(12)
                && spec_name8(4) != spec_name32(13)
                && spec_name8(4) != spec_name32(14)
                && spec_name8(4) != spec_name32(15)
                && spec_name8(4) != spec_name16(0)
                && spec_name8(4) != spec_name16(1)
                && spec_name8(4) != spec_name16(2)
                && spec_name8(4) != spec_name16(3));
            assert(spec_name8(4)[0] != spec_name16(4)[0]
                && spec_name8(4)[0] != spec_name16(5)[0]
                && spec_name8(4)[0] != spec_name16(6)[0]
                && spec_name8(4)[0] != spec_name16(7)[0]
                && spec_name8(4).len() != spec_name16(8).len()
                && spec_name8(4).len() != spec_name16(9).len()
                && spec_name8(4).len() != spec_name16(10).len()
                && spec_name8(4).len() != spec_name16(11).len());
            assert(spec_name8(4) != spec_name16(4)
                && spec_name8(4) != spec_name16(5)
                && spec_name8(4) != spec_name16(6)
                && spec_name8(4) != spec_name16(7)
                && spec_name8(4) != spec_name16(8)
                && spec_name8(4) != spec_name16(9)
                && spec_name8(4) != spec_name16(10)
                && spec_name8(4) != spec_name16(11));
            assert(spec_name8(4).len() != spec_name16(12).len()
                && spec_name8(4).len() != spec_name16(13).len()
                && spec_name8(4).len() != spec_name16(14).len()
                && spec_name8(4).len() != spec_name16(15).len());
            assert(spec_name8(4) != spec_name16(12)
                && spec_name8(4) != spec_name16(13)
                && spec_name8(4) != spec_name16(14)
                && spec_name8(4) != spec_name16(15));
    } else if i == 5 {
            assert(spec_name8(5)[0] != spec_name8(0)[0]
                && spec_name8(5)[1] != spec_name8(1)[1]
                && spec_name8(5)[0] != spec_name8(2)[0]
                && spec_name8(5)[0] != spec_name8(3)[0]
                && spec_name8(5)[0] != spec_name8(4)[0]
                && spec_name8(5).len() != spec_name64(0).len()
                && spec_name8(5).len() != spec_name64(1).len()
                && spec_name8(5).len() != spec_name64(2).len());
            assert(spec_name8(5) != spec_name8(0)
                && spec_name8(5) != spec_name8(1)
                && spec_name8(5) != spec_name8(2)
                && spec_name8(5) != spec_name8(3)
                && spec_name8(5) != spec_name8(4)
                && spec_name8(5) != spec_name64(0)
                && spec_name8(5) != spec_name64(1)
                && spec_name8(5) != spec_name64(2));
            assert(spec_name8(5).len() != spec_name64(3).len()
                && spec_name8(5).len() != spec_name64(4).len()
                && spec_name8(5).len() != spec_name64(5).len()
                && spec_name8(5).len() != spec_name64(6).len()
                && spec_name8(5).len() != spec_name64(7).len()
                && spec_name8(5)[0] != spec_name64(8)[0]
                && spec_name8(5)[0] != spec_name64(9)[0]
                && spec_name8(5).len() != spec_name64(10).len());
            assert(spec_name8(5) != spec_name64(3)
                && spec_name8(5) != spec_name64(4)
                && spec_name8(5) != spec_name64(5)
                && spec_name8(5) != spec_name64(6)
                && spec_name8(5) != spec_name64(7)
                && spec_name8(5) != spec_name64(8)
                && spec_name8(5) != spec_name64(9)
                && spec_name8(5) != spec_name64(10));
            assert(spec_name8(5).len() != spec_name64(11).len()
                && spec_name8(5).len() != spec_name64(12).len()
                && spec_name8(5).len() != spec_name64(13).len()
                && spec_name8(5).len() != spec_name64(14).len()
                && spec_name8(5).len() != spec_name64(15).len()
                && spec_name8(5).len() != spec_name32(0).len()
                && spec_name8(5).len() != spec_name32(1).len()
                && spec_name8(5).len() != spec_name32(2).len());
            assert(spec_name8(5) != spec_name64(11)
                && spec_name8(5) != spec_name64(12)
                && spec_name8(5) != spec_name64(13)
                && spec_name8(5) != spec_name64(14)
                && spec_name8(5) != spec_name64(15)
                && spec_name8(5) != spec_name32(0)
                && spec_name8(5) != spec_name32(1)
                && spec_name8(5) != spec_name32(2));
            assert(spec_name8(5).len() != spec_name32(3).len()
                && spec_name8(5).len() != spec_name32(4).len()
                && spec_name8(5).len() != spec_name32(5).len()
                && spec_name8(5).len() != spec_name32(6).len()
                && spec_name8(5).len() != spec_name32(7).len()
                && spec_name8(5).len() != spec_name32(8).len()
                && spec_name8(5).len() != spec_name32(9).len()
                && spec_name8(5).len() != spec_name32(10).len());
            assert(spec_name8(5) != spec_name32(3)
                && spec_name8(5) != spec_name32(4)
                && spec_name8(5) != spec_name32(5)
                && spec_name8(5) != spec_name32(6)
                && spec_name8(5) != spec_name32(7)
                && spec_name8(5) != spec_name32(8)
                && spec_name8(5) != spec_name32(9)
                && spec_name8(5) != spec_name32(10));
            assert(spec_name8(5).len() != spec_name32(11).len()
                && spec_name8(5).len() != spec_name32(12).len()
                && spec_name8(5).len() != spec_name32(13).len()
                && spec_name8(5).len() != spec_name32(14).len()
                && spec_name8(5).len() != spec_name32(15).len()
                && spec_name8(5)[0] != spec_name16(0)[0]
                && spec_name8(5)[1] != spec_name16(1)[1]
                && spec_name8(5)[0] != spec_name16(2)[0]);
            assert(spec_name8(5) != spec_name32(11)
                && spec_name8(5) != spec_name32(12)
                && spec_name8(5) != spec_name32(13)
                && spec_name8(5) != spec_name32(14)
                && spec_name8(5) != spec_name32(15)
                && spec_name8(5) != spec_name16(0)
                && spec_name8(5) != spec_name16(1)
                && spec_name8(5) != spec_name16(2));
            assert(spec_name8(5)[0] != spec_name16(3)[0]
                && spec_name8(5)[0] != spec_name16(4)[0]
                && spec_name8(5)[0] != spec_name16(5)[0]
                && spec_name8(5)[0] != spec_name16(6)[0]
                && spec_name8(5)[0] != spec_name16(7)[0]
                && spec_name8(5).len() != spec_name16(8).len()
                && spec_name8(5).len() != spec_name16(9).len()
                && spec_name8(5).len() != spec_name16(10).len());
            assert(spec_name8(5) != spec_name16(3)
                && spec_name8(5) != spec_name16(4)
                && spec_name8(5) != spec_name16(5)
                && spec_name8(5) != spec_name16(6)
                && spec_name8(5) != spec_name16(7)
                && spec_name8(5) != spec_name16(8)
                && spec_name8(5) != spec_name16(9)
                && spec_name8(5) != spec_name16(10));
            assert(spec_name8(5).len() != spec_name16(11).len()
                && spec_name8(5).len() != spec_name16(12).len()
                && spec_name8(5).len() != spec_name16(13).len()
                && spec_name8(5).len() != spec_name16(14).len()
                && spec_name8(5).len() != spec_name16(15).len());
            assert(spec_name8(5) != spec_name16(11)
                && spec_name8(5) != spec_name16(12)
                && spec_name8(5) != spec_name16(13)
                && spec_name8(5) != spec_name16(14)
                && spec_name8(5) != spec_name16(15));
    } else if i == 6 {
            assert(spec_name8(6)[0] != spec_name8(0)[0]
                && spec_name8(6)[0] != spec_name8(1)[0]
                && spec_name8(6)[1] != spec_name8(2)[1]
                && spec_name8(6)[0] != spec_name8(3)[0]
                && spec_name8(6)[0] != spec_name8(4)[0]
                && spec_name8(6)[0] != spec_name8(5)[0]
                && spec_name8(6).len() != spec_name64(0).len()
                && spec_name8(6).len() != spec_name64(1).len());
            assert(spec_name8(6) != spec_name8(0)
                && spec_name8(6) != spec_name8(1)
                && spec_name8(6) != spec_name8(2)
                && spec_name8(6) != spec_name8(3)
                && spec_name8(6) != spec_name8(4)
                && spec_name8(6) != spec_name8(5)
                && spec_name8(6) != spec_name64(0)
                && spec_name8(6) != spec_name64(1));
            assert(spec_name8(6).len() != spec_name64(2).len()
                && spec_name8(6).len() != spec_name64(3).len()
                && spec_name8(6).len() != spec_name64(4).len()
                && spec_name8(6).len() != spec_name64(5).len()
                && spec_name8(6).len() != spec_name64(6).len()
                && spec_name8(6).len() != spec_name64(7).len()
                && spec_name8(6)[0] != spec_name64(8)[0]
                && spec_name8(6)[0] != spec_name64(9)[0]);
            assert(spec_name8(6) != spec_name64(2)
                && spec_name8(6) != spec_name64(3)
                && spec_name8(6) != spec_name64(4)
                && spec_name8(6) != spec_name64(5)
                && spec_name8(6) != spec_name64(6)
                && spec_name8(6) != spec_name64(7)
                && spec_name8(6) != spec_name64(8)
                && spec_name8(6) != spec_name64(9));
            assert(spec_name8(6).len() != spec_name64(10).len()
                && spec_name8(6).len() != spec_name64(11).len()
                && spec_name8(6).len() != spec_name64(12).len()
                && spec_name8(6).len() != spec_name64(13).len()
                && spec_name8(6).len() != spec_name64(14).len()
                && spec_name8(6).len() != spec_name64(15).len()
                && spec_name8(6).len() != spec_name32(0).len()
                && spec_name8(6).len() != spec_name32(1).len());
            assert(spec_name8(6) != spec_name64(10)
                && spec_name8(6) != spec_name64(11)
                && spec_name8(6) != spec_name64(12)
                && spec_name8(6) != spec_name64(13)
                && spec_name8(6) != spec_name64(14)
                && spec_name8(6) != spec_name64(15)
                && spec_name8(6) != spec_name32(0)
                && spec_name8(6) != spec_name32(1));
            assert(spec_name8(6).len() != spec_name32(2).len()
                && spec_name8(6).len() != spec_name32(3).len()
                && spec_name8(6).len() != spec_name32(4).len()
                && spec_name8(6).len() != spec_name32(5).len()
                && spec_name8(6).len() != spec_name32(6).len()
                && spec_name8(6).len() != spec_name32(7).len()
                && spec_name8(6).len() != spec_name32(8).len()
                && spec_name8(6).len() != spec_name32(9).len());
            assert(spec_name8(6) != spec_name32(2)
                && spec_name8(6) != spec_name32(3)
                && spec_name8(6) != spec_name32(4)
                && spec_name8(6) != spec_name32(5)
                && spec_name8(6) != spec_name32(6)
                && spec_name8(6) != spec_name32(7)
                && spec_name8(6) != spec_name32(8)
                && spec_name8(6) != spec_name32(9));
            assert(spec_name8(6).len() != spec_name32(10).len()
                && spec_name8(6).len() != spec_name32(11).len()
                && spec_name8(6).len() != spec_name32(12).len()
                && spec_name8(6).len() != spec_name32(13).len()
                && spec_name8(6).len() != spec_name32(14).len()
                && spec_name8(6).len() != spec_name32(15).len()
                && spec_name8(6)[0] != spec_name16(0)[0]
                && spec_name8(6)[0] != spec_name16(1)[0]);
            assert(spec_name8(6) != spec_name32(10)
                && spec_name8(6) != spec_name32(11)
                && spec_name8(6) != spec_name32(12)
                && spec_name8(6) != spec_name32(13)
                && spec_name8(6) != spec_name32(14)
                && spec_name8(6) != spec_name32(15)
                && spec_name8(6) != spec_name16(0)
                && spec_name8(6) != spec_name16(1));
            assert(spec_name8(6)[1] != spec_name16(2)[1]
                && spec_name8(6)[0] != spec_name16(3)[0]
                && spec_name8(6)[0] != spec_name16(4)[0]
                && spec_name8(6)[0] != spec_name16(5)[0]
                && spec_name8(6)[0] != spec_name16(6)[0]
                && spec_name8(6)[1] != spec_name16(7)[1]
                && spec_name8(6).len() != spec_name16(8).len()
                && spec_name8(6).len() != spec_name16(9).len());
            assert(spec_name8(6) != spec_name16(2)
                && spec_name8(6) != spec_name16(3)
                && spec_name8(6) != spec_name16(4)
                && spec_name8(6) != spec_name16(5)
                && spec_name8(6) != spec_name16(6)
                && spec_name8(6) != spec_name16(7)
                && spec_name8(6) != spec_name16(8)
                && spec_name8(6) != spec_name16(9));
            assert(spec_name8(6).len() != spec_name16(10).len()
                && spec_name8(6).len() != spec_name16(11).len()
                && spec_name8(6).len() != spec_name16(12).len()
                && spec_name8(6).len() != spec_name16(13).len()
                && spec_name8(6).len() != spec_name16(14).len()
                && spec_name8(6).len() != spec_name16(15).len());
            assert(spec_name8(6) != spec_name16(10)
                && spec_name8(6) != spec_name16(11)
                && spec_name8(6) != spec_name16(12)
                && spec_name8(6) != spec_name16(13)
                && spec_name8(6) != spec_name16(14)
                && spec_name8(6) != spec_name16(15));
    } else {
            assert(spec_name8(7)[0] != spec_name8(0)[0]
                && spec_name8(7)[0] != spec_name8(1)[0]
                && spec_name8(7)[0] != spec_name8(2)[0]
                && spec_name8(7)[1] != spec_name8(3)[1]
                && spec_name8(7)[0] != spec_name8(4)[0]
                && spec_name8(7)[0] != spec_name8(5)[0]
                && spec_name8(7)[0] != spec_name8(6)[0]
                && spec_name8(7).len() != spec_name64(0).len());
            assert(spec_name8(7) != spec_name8(0)
                && spec_name8(7) != spec_name8(1)
                && spec_name8(7) != spec_name8(2)
                && spec_name8(7) != spec_name8(3)
                && spec_name8(7) != spec_name8(4)
                && spec_name8(7) != spec_name8(5)
                && spec_name8(7) != spec_name8(6)
                && spec_name8(7) != spec_name64(0));
            assert(spec_name8(7).len() != spec_name64(1).len()
                && spec_name8(7).len() != spec_name64(2).len()
                && spec_name8(7).len() != spec_name64(3).len()
                && spec_name8(7).len() != spec_name64(4).len()
                && spec_name8(7).len() != spec_name64(5).len()
                && spec_name8(7).len() != spec_name64(6).len()
                && spec_name8(7).len() != spec_name64(7).len()
                && spec_name8(7)[0] != spec_name64(8)[0]);
            assert(spec_name8(7) != spec_name64(1)
                && spec_name8(7) != spec_name64(2)
                && spec_name8(7) != spec_name64(3)
                && spec_name8(7) != spec_name64(4)
                && spec_name8(7) != spec_name64(5)
                && spec_name8(7) != spec_name64(6)
                && spec_name8(7) != spec_name64(7)
                && spec_name8(7) != spec_name64(8));
            assert(spec_name8(7)[0] != spec_name64(9)[0]
                && spec_name8(7).len() != spec_name64(10).len()
                && spec_name8(7).len() != spec_name64(11).len()
                && spec_name8(7).len() != spec_name64(12).len()
                && spec_name8(7).len() != spec_name64(13).len()
                && spec_name8(7).len() != spec_name64(14).len()
                && spec_name8(7).len() != spec_name64(15).len()
                && spec_name8(7).len() != spec_name32(0).len());
            assert(spec_name8(7) != spec_name64(9)
                && spec_name8(7) != spec_name64(10)
                && spec_name8(7) != spec_name64(11)
                && spec_name8(7) != spec_name64(12)
                && spec_name8(7) != spec_name64(13)
                && spec_name8(7) != spec_name64(14)
                && spec_name8(7) != spec_name64(15)
                && spec_name8(7) != spec_name32(0));
            assert(spec_name8(7).len() != spec_name32(1).len()
                && spec_name8(7).len() != spec_name32(2).len()
                && spec_name8(7).len() != spec_name32(3).len()
                && spec_name8(7).len() != spec_name32(4).len()
                && spec_name8(7).len() != spec_name32(5).len()
                && spec_name8(7).len() != spec_name32(6).len()
                && spec_name8(7).len() != spec_name32(7).len()
                && spec_name8(7).len() != spec_name32(8).len());
            assert(spec_name8(7) != spec_name32(1)
                && spec_name8(7) != spec_name32(2)
                && spec_name8(7) != spec_name32(3)
                && spec_name8(7) != spec_name32(4)
                && spec_name8(7) != spec_name32(5)
                && spec_name8(7) != spec_name32(6)
                && spec_name8(7) != spec_name32(7)
                && spec_name8(7) != spec_name32(8));
            assert(spec_name8(7).len() != spec_name32(9).len()
                && spec_name8(7).len() != spec_name32(10).len()
                && spec_name8(7).len() != spec_name32(11).len()
                && spec_name8(7).len() != spec_name32(12).len()
                && spec_name8(7).len() != spec_name32(13).len()
                && spec_name8(7).len() != spec_name32(14).len()
                && spec_name8(7).len() != spec_name32(15).len()
                && spec_name8(7)[0] != spec_name16(0)[0]);
            assert(spec_name8(7) != spec_name32(9)
                && spec_name8(7) != spec_name32(10)
                && spec_name8(7) != spec_name32(11)
                && spec_name8(7) != spec_name32(12)
                && spec_name8(7) != spec_name32(13)
                && spec_name8(7) != spec_name32(14)
                && spec_name8(7) != spec_name32(15)
                && spec_name8(7) != spec_name16(0));
            assert(spec_name8(7)[0] != spec_name16(1)[0]
                && spec_name8(7)[0] != spec_name16(2)[0]
                && spec_name8(7)[1] != spec_name16(3)[1]
                && spec_name8(7)[0] != spec_name16(4)[0]
                && spec_name8(7)[1] != spec_name16(5)[1]
                && spec_name8(7)[0] != spec_name16(6)[0]
                && spec_name8(7)[0] != spec_name16(7)[0]
                && spec_name8(7).len() != spec_name16(8).len());
            assert(spec_name8(7) != spec_name16(1)
                && spec_name8(7) != spec_name16(2)
                && spec_name8(7) != spec_name16(3)
                && spec_name8(7) != spec_name16(4)
                && spec_name8(7) != spec_name16(5)
                && spec_name8(7) != spec_name16(6)
                && spec_name8(7) != spec_name16(7)
                && spec_name8(7) != spec_name16(8));
            assert(spec_name8(7).len() != spec_name16(9).len()
                && spec_name8(7).len() != spec_name16(10).len()
                && spec_name8(7).len() != spec_name16(11).len()
                && spec_name8(7).len() != spec_name16(12).len()
                && spec_name8(7).len() != spec_name16(13).len()
                && spec_name8(7).len() != spec_name16(14).len()
                && spec_name8(7).len() != spec_name16(15).len());
            assert(spec_name8(7) != spec_name16(9)
                && spec_name8(7) != spec_name16(10)
                && spec_name8(7) != spec_name16(11)
                && spec_name8(7) != spec_name16(12)
                && spec_name8(7) != spec_name16(13)
                && spec_name8(7) != spec_name16(14)
                && spec_name8(7) != spec_name16(15));
    }
}

/// The mnemonic and keyword tokens of the formatter, as the line
/// parser classifies them.
proof fn lemma_mnemonics()
    ensures
        crate::assembler::spec_is_ret(seq![0x72u8, 0x65u8, 0x74u8]),
        !crate::assembler::spec_is_ret(seq![0x65u8, 0x6eu8, 0x64u8, 0x62u8, 0x72u8, 0x36u8, 0x34u8]),
        !crate::assembler::spec_is_hlt(seq![0x65u8, 0x6eu8, 0x64u8, 0x62u8, 0x72u8, 0x36u8, 0x34u8]),
        crate::assembler::spec_is_endbr64(seq![0x65u8, 0x6eu8, 0x64u8, 0x62u8, 0x72u8, 0x36u8, 0x34u8]),
        !crate::assembler::spec_is_ret(seq![0x70u8, 0x75u8, 0x73u8, 0x68u8]),
        !crate::assembler::spec_is_hlt(seq![0x70u8, 0x75u8, 0x73u8, 0x68u8]),
        !crate::assembler::spec_is_endbr64(seq![0x70u8, 0x75u8, 0x73u8, 0x68u8]),
        crate::assembler::spec_is_push(seq![0x70u8, 0x75u8, 0x73u8, 0x68u8]),
        !crate::assembler::spec_is_ret(seq![0x70u8, 0x6fu8, 0x70u8]),
        !crate::assembler::spec_is_hlt(seq![0x70u8, 0x6fu8, 0x70u8]),
        !crate::assembler::spec_is_endbr64(seq![0x70u8, 0x6fu8, 0x70u8]),
        !crate::assembler::spec_is_push(seq![0x70u8, 0x6fu8, 0x70u8]),
        crate::assembler::spec_is_pop(seq![0x70u8, 0x6fu8, 0x70u8]),
        !crate::assembler::spec_is_ret(seq![0x78u8, 0x6fu8, 0x72u8]),
        !crate::assembler::spec_is_hlt(seq![0x78u8, 0x6fu8, 0x72u8]),
        !crate::assembler::spec_is_endbr64(seq![0x78u8, 0x6fu8, 0x72u8]),
        !crate::assembler::spec_is_push(seq![0x78u8, 0x6fu8, 0x72u8]),
        !crate::assembler::spec_is_pop(seq![0x78u8, 0x6fu8, 0x72u8]),
        crate::assembler::spec_is_xor(seq![0x78u8, 0x6fu8, 0x72u8]),
        !crate::assembler::spec_is_ret(seq![0x73u8, 0x75u8, 0x62u8]),
        !crate::assembler::spec_is_hlt(seq![0x73u8, 0x75u8, 0x62u8]),
        !crate::assembler::spec_is_endbr64(seq![0x73u8, 0x75u8, 0x62u8]),
        !crate::assembler::spec_is_push(seq![0x73u8, 0x75u8, 0x62u8]),
        !crate::assembler::spec_is_pop(seq![0x73u8, 0x75u8, 0x62u8]),
        !crate::assembler::spec_is_xor(seq![0x73u8, 0x75u8, 0x62u8]),
        crate::assembler::spec_is_sub(seq![0x73u8, 0x75u8, 0x62u8]),
        !crate::assembler::spec_is_ret(seq![0x63u8, 0x6du8, 0x70u8]),
        !crate::assembler::spec_is_hlt(seq![0x63u8, 0x6du8, 0x70u8]),
        !crate::assembler::spec_is_endbr64(seq![0x63u8, 0x6du8, 0x70u8]),
        !crate::assembler::spec_is_push(seq![0x63u8, 0x6du8, 0x70u8]),
        !crate::assembler::spec_is_pop(seq![0x63u8, 0x6du8, 0x70u8]),
        !crate::assembler::spec_is_xor(seq![0x63u8, 0x6du8, 0x70u8]),
        !crate::assembler::spec_is_sub(seq![0x63u8, 0x6du8, 0x70u8]),
        crate::assembler::spec_is_cmp(seq![0x63u8, 0x6du8, 0x70u8]),
        !crate::assembler::spec_is_ret(seq![0x6au8, 0x65u8]),
        !crate::assembler::spec_is_hlt(seq![0x6au8, 0x65u8]),
        !crate::assembler::spec_is_endbr64(seq![0x6au8, 0x65u8]),
        !crate::assembler::spec_is_push(seq![0x6au8, 0x65u8]),
        !crate::assembler::spec_is_pop(seq![0x6au8, 0x65u8]),
        !crate::assembler::spec_is_xor(seq![0x6au8, 0x65u8]),
        !crate::assembler::spec_is_sub(seq![0x6au8, 0x65u8]),
        !crate::assembler::spec_is_cmp(seq![0x6au8, 0x65u8]),
        crate::assembler::spec_is_je(seq![0x6au8, 0x65u8]),
        !crate::assembler::spec_is_ret(seq![0x6au8, 0x6du8, 0x70u8]),
        !crate::assembler::spec_is_hlt(seq![0x6au8, 0x6du8, 0x70u8]),
        !crate::assembler::spec_is_endbr64(seq![0x6au8, 0x6du8, 0x70u8]),
        !crate::assembler::spec_is_push(seq![0x6au8, 0x6du8, 0x70u8]),
        !crate::assembler::spec_is_pop(seq![0x6au8, 0x6du8, 0x70u8]),
        !crate::assembler::spec_is_xor(seq![0x6au8, 0x6du8, 0x70u8]),
        !crate::assembler::spec_is_sub(seq![0x6au8, 0x6du8, 0x70u8]),
        !crate::assembler::spec_is_cmp(seq![0x6au8, 0x6du8, 0x70u8]),
        !crate::assembler::spec_is_je(seq![0x6au8, 0x6du8, 0x70u8]),
        crate::assembler::spec_is_jmp(seq![0x6au8, 0x6du8, 0x70u8]),
        !crate::assembler::spec_is_ret(seq![0x6du8, 0x6fu8, 0x76u8]),
        !crate::assembler::spec_is_hlt(seq![0x6du8, 0x6fu8, 0x76u8]),
        !crate::assembler::spec_is_endbr64(seq![0x6du8, 0x6fu8, 0x76u8]),
        !crate::assembler::spec_is_push(seq![0x6du8, 0x6fu8, 0x76u8]),
        !crate::assembler::spec_is_pop(seq![0x6du8, 0x6fu8, 0x76u8]),
        !crate::assembler::spec_is_xor(seq![0x6du8, 0x6fu8, 0x76u8]),
        !crate::assembler::spec_is_sub(seq![0x6du8, 0x6fu8, 0x76u8]),
        !crate::assembler::spec_is_cmp(seq![0x6du8, 0x6fu8, 0x76u8]),
        !crate::assembler::spec_is_je(seq![0x6du8, 0x6fu8, 0x76u8]),
        !crate::assembler::spec_is_jmp(seq![0x6du8, 0x6fu8, 0x76u8]),
        crate::assembler::spec_is_mov(seq![0x6du8, 0x6fu8, 0x76u8]),
        crate::assembler::spec_is_near(seq![0x6eu8, 0x65u8, 0x61u8, 0x72u8]),
        crate::assembler::spec_is_rbp(seq![0x72u8, 0x62u8, 0x70u8]),
        crate::assembler::spec_is_byte_kw(seq![0x62u8, 0x79u8, 0x74u8, 0x65u8]),
        crate::assembler::spec_is_dword_kw(seq![0x64u8, 0x77u8, 0x6fu8, 0x72u8, 0x64u8]),
        !crate::assembler::spec_is_byte_kw(seq![0x64u8, 0x77u8, 0x6fu8, 0x72u8, 0x64u8]),
{
    assert(seq![0x65u8, 0x6eu8, 0x64u8, 0x62u8, 0x72u8, 0x36u8, 0x34u8].len() != seq![0x72u8, 0x65u8, 0x74u8].len()
        && seq![0x65u8, 0x6eu8, 0x64u8, 0x62u8, 0x72u8, 0x36u8, 0x34u8].len() != seq![0x68u8, 0x6cu8, 0x74u8].len()
        && seq![0x70u8, 0x75u8, 0x73u8, 0x68u8].len() != seq![0x72u8, 0x65u8, 0x74u8].len()
        && seq![0x70u8, 0x75u8, 0x73u8, 0x68u8].len() != seq![0x68u8, 0x6cu8, 0x74u8].len()
        && seq![0x70u8, 0x75u8, 0x73u8, 0x68u8].len() != seq![0x65u8, 0x6eu8, 0x64u8, 0x62u8, 0x72u8, 0x36u8, 0x34u8].len()
        && seq![0x70u8, 0x6fu8, 0x70u8][0] != seq![0x72u8, 0x65u8, 0x74u8][0]);
    assert(seq![0x70u8, 0x6fu8, 0x70u8][0] != seq![0x68u8, 0x6cu8, 0x74u8][0]
        && seq![0x70u8, 0x6fu8, 0x70u8].len() != seq![0x65u8, 0x6eu8, 0x64u8, 0x62u8, 0x72u8, 0x36u8, 0x34u8].len()
        && seq![0x70u8, 0x6fu8, 0x70u8].len() != seq![0x70u8, 0x75u8, 0x73u8, 0x68u8].len()
        && seq![0x78u8, 0x6fu8, 0x72u8][0] != seq![0x72u8, 0x65u8, 0x74u8][0]
        && seq![0x78u8, 0x6fu8, 0x72u8][0] != seq![0x68u8, 0x6cu8, 0x74u8][0]
        && seq![0x78u8, 0x6fu8, 0x72u8].len() != seq![0x65u8, 0x6eu8, 0x64u8, 0x62u8, 0x72u8, 0x36u8, 0x34u8].len());
    assert(seq![0x78u8, 0x6fu8, 0x72u8].len() != seq![0x70u8, 0x75u8, 0x73u8, 0x68u8].len()
        && seq![0x78u8, 0x6fu8, 0x72u8][0] != seq![0x70u8, 0x6fu8, 0x70u8][0]
        && seq![0x73u8, 0x75u8, 0x62u8][0] != seq![0x72u8, 0x65u8, 0x74u8][0]
        && seq![0x73u8, 0x75u8, 0x62u8][0] != seq![0x68u8, 0x6cu8, 0x74u8][0]
        && seq![0x73u8, 0x75u8, 0x62u8].len() != seq![0x65u8, 0x6eu8, 0x64u8, 0x62u8, 0x72u8, 0x36u8, 0x34u8].len()
        && seq![0x73u8, 0x75u8, 0x62u8].len() != seq![0x70u8, 0x75u8, 0x73u8, 0x68u8].len());
    assert(seq![0x73u8, 0x75u8, 0x62u8][0] != seq![0x70u8, 0x6fu8, 0x70u8][0]
        && seq![0x73u8, 0x75u8, 0x62u8][0] != seq![0x78u8, 0x6fu8, 0x72u8][0]
        && seq![0x63u8, 0x6du8, 0x70u8][0] != seq![0x72u8, 0x65u8, 0x74u8][0]
        && seq![0x63u8, 0x6du8, 0x70u8][0] != seq![0x68u8, 0x6cu8, 0x74u8][0]
        && seq![0x63u8, 0x6du8, 0x70u8].len() != seq![0x65u8, 0x6eu8, 0x64u8, 0x62u8, 0x72u8, 0x36u8, 0x34u8].len()
        && seq![0x63u8, 0x6du8, 0x70u8].len() != seq![0x70u8, 0x75u8, 0x73u8, 0x68u8].len());
    assert(seq![0x63u8, 0x6du8, 0x70u8][0] != seq![0x70u8, 0x6fu8, 0x70u8][0]
        && seq![0x63u8, 0x6du8, 0x70u8][0] != seq![0x78u8, 0x6fu8, 0x72u8][0]
        && seq![0x63u8, 0x6du8, 0x70u8][0] != seq![0x73u8, 0x75u8, 0x62u8][0]
        && seq![0x6au8, 0x65u8].len() != seq![0x72u8, 0x65u8, 0x74u8].len()
        && seq![0x6au8, 0x65u8].len() != seq![0x68u8, 0x6cu8, 0x74u8].len()
        && seq![0x6au8, 0x65u8].len() != seq![0x65u8, 0x6eu8, 0x64u8, 0x62u8, 0x72u8, 0x36u8, 0x34u8].len());
    assert(seq![0x6au8, 0x65u8].len() != seq![0x70u8, 0x75u8, 0x73u8, 0x68u8].len()
        && seq![0x6au8, 0x65u8].len() != seq![0x70u8, 0x6fu8, 0x70u8].len()
        && seq![0x6au8, 0x65u8].len() != seq![0x78u8, 0x6fu8, 0x72u8].len()
        && seq![0x6au8, 0x65u8].len() != seq![0x73u8, 0x75u8, 0x62u8].len()
        && seq![0x6au8, 0x65u8].len() != seq![0x63u8, 0x6du8, 0x70u8].len()
        && seq![0x6au8, 0x6du8, 0x70u8][0] != seq![0x72u8, 0x65u8, 0x74u8][0]);
    assert(seq![0x6au8, 0x6du8, 0x70u8][0] != seq![0x68u8, 0x6cu8, 0x74u8][0]
        && seq![0x6au8, 0x6du8, 0x70u8].len() != seq![0x65u8, 0x6eu8, 0x64u8, 0x62u8, 0x72u8, 0x36u8, 0x34u8].len()
        && seq![0x6au8, 0x6du8, 0x70u8].len() != seq![0x70u8, 0x75u8, 0x73u8, 0x68u8].len()
        && seq![0x6au8, 0x6du8, 0x70u8][0] != seq![0x70u8, 0x6fu8, 0x70u8][0]
        && seq![0x6au8, 0x6du8, 0x70u8][0] != seq![0x78u8, 0x6fu8, 0x72u8][0]
        && seq![0x6au8, 0x6du8, 0x70u8][0] != seq![0x73u8, 0x75u8, 0x62u8][0]);
    assert(seq![0x6au8, 0x6du8, 0x70u8][0] != seq![0x63u8, 0x6du8, 0x70u8][0]
        && seq![0x6au8, 0x6du8, 0x70u8].len() != seq![0x6au8, 0x65u8].len()
        && seq![0x6du8, 0x6fu8, 0x76u8][0] != seq![0x72u8, 0x65u8, 0x74u8][0]
        && seq![0x6du8, 0x6fu8, 0x76u8][0] != seq![0x68u8, 0x6cu8, 0x74u8][0]
        && seq![0x6du8, 0x6fu8, 0x76u8].len() != seq![0x65u8, 0x6eu8, 0x64u8, 0x62u8, 0x72u8, 0x36u8, 0x34u8].len()
        && seq![0x6du8, 0x6fu8, 0x76u8].len() != seq![0x70u8, 0x75u8, 0x73u8, 0x68u8].len());
    assert(seq![0x6du8, 0x6fu8, 0x76u8][0] != seq![0x70u8, 0x6fu8, 0x70u8][0]
        && seq![0x6du8, 0x6fu8, 0x76u8][0] != seq![0x78u8, 0x6fu8, 0x72u8][0]
        && seq![0x6du8, 0x6fu8, 0x76u8][0] != seq![0x73u8, 0x75u8, 0x62u8][0]
        && seq![0x6du8, 0x6fu8, 0x76u8][0] != seq![0x63u8, 0x6du8, 0x70u8][0]
        && seq![0x6du8, 0x6fu8, 0x76u8].len() != seq![0x6au8, 0x65u8].len()
        && seq![0x6du8, 0x6fu8, 0x76u8][0] != seq![0x6au8, 0x6du8, 0x70u8][0]);
    assert(seq![0x64u8, 0x77u8, 0x6fu8, 0x72u8, 0x64u8].len() != seq![0x62u8, 0x79u8, 0x74u8, 0x65u8].len()
        && seq![0x64u8, 0x77u8, 0x6fu8, 0x72u8, 0x64u8].len() != seq![0x42u8, 0x59u8, 0x54u8, 0x45u8].len());
    assert(seq![0x65u8, 0x6eu8, 0x64u8, 0x62u8, 0x72u8, 0x36u8, 0x34u8] != seq![0x72u8, 0x65u8, 0x74u8]
        && seq![0x65u8, 0x6eu8, 0x64u8, 0x62u8, 0x72u8, 0x36u8, 0x34u8] != seq![0x68u8, 0x6cu8, 0x74u8]
        && seq![0x70u8, 0x75u8, 0x73u8, 0x68u8] != seq![0x72u8, 0x65u8, 0x74u8]
        && seq![0x70u8, 0x75u8, 0x73u8, 0x68u8] != seq![0x68u8, 0x6cu8, 0x74u8]
        && seq![0x70u8, 0x75u8, 0x73u8, 0x68u8] != seq![0x65u8, 0x6eu8, 0x64u8, 0x62u8, 0x72u8, 0x36u8, 0x34u8]
        && seq![0x70u8, 0x6fu8, 0x70u8] != seq![0x72u8, 0x65u8, 0x74u8]);
    assert(seq![0x70u8, 0x6fu8, 0x70u8] != seq![0x68u8, 0x6cu8, 0x74u8]
        && seq![0x70u8, 0x6fu8, 0x70u8] != seq![0x65u8, 0x6eu8, 0x64u8, 0x62u8, 0x72u8, 0x36u8, 0x34u8]
        && seq![0x70u8, 0x6fu8, 0x70u8] != seq![0x70u8, 0x75u8, 0x73u8, 0x68u8]
        && seq![0x78u8, 0x6fu8, 0x72u8] != seq![0x72u8, 0x65u8, 0x74u8]
        && seq![0x78u8, 0x6fu8, 0x72u8] != seq![0x68u8, 0x6cu8, 0x74u8]
        && seq![0x78u8, 0x6fu8, 0x72u8] != seq![0x65u8, 0x6eu8, 0x64u8, 0x62u8, 0x72u8, 0x36u8, 0x34u8]);
    assert(seq![0x78u8, 0x6fu8, 0x72u8] != seq![0x70u8, 0x75u8, 0x73u8, 0x68u8]
        && seq![0x78u8, 0x6fu8, 0x72u8] != seq![0x70u8, 0x6fu8, 0x70u8]
        && seq![0x73u8, 0x75u8, 0x62u8] != seq![0x72u8, 0x65u8, 0x74u8]
        && seq![0x73u8, 0x75u8, 0x62u8] != seq![0x68u8, 0x6cu8, 0x74u8]
        && seq![0x73u8, 0x75u8, 0x62u8] != seq![0x65u8, 0x6eu8, 0x64u8, 0x62u8, 0x72u8, 0x36u8, 0x34u8]
        && seq![0x73u8, 0x75u8, 0x62u8] != seq![0x70u8, 0x75u8, 0x73u8, 0x68u8]);
    assert(seq![0x73u8, 0x75u8, 0x62u8] != seq![0x70u8, 0x6fu8, 0x70u8]
        && seq![0x73u8, 0x75u8, 0x62u8] != seq![0x78u8, 0x6fu8, 0x72u8]
        && seq![0x63u8, 0x6du8, 0x70u8] != seq![0x72u8, 0x65u8, 0x74u8]
        && seq![0x63u8, 0x6du8, 0x70u8] != seq![0x68u8, 0x6cu8, 0x74u8]
        && seq![0x63u8, 0x6du8, 0x70u8] != seq![0x65u8, 0x6eu8, 0x64u8, 0x62u8, 0x72u8, 0x36u8, 0x34u8]
        && seq![0x63u8, 0x6du8, 0x70u8] != seq![0x70u8, 0x75u8, 0x73u8, 0x68u8]);
    assert(seq![0x63u8, 0x6du8, 0x70u8] != seq![0x70u8, 0x6fu8, 0x70u8]
        && seq![0x63u8, 0x6du8, 0x70u8] != seq![0x78u8, 0x6fu8, 0x72u8]
        && seq![0x63u8, 0x6du8, 0x70u8] != seq![0x73u8, 0x75u8, 0x62u8]
        && seq![0x6au8, 0x65u8] != seq![0x72u8, 0x65u8, 0x74u8]
        && seq![0x6au8, 0x65u8] != seq![0x68u8, 0x6cu8, 0x74u8]
        && seq![0x6au8, 0x65u8] != seq![0x65u8, 0x6eu8, 0x64u8, 0x62u8, 0x72u8, 0x36u8, 0x34u8]);
    assert(seq![0x6au8, 0x65u8] != seq![0x70u8, 0x75u8, 0x73u8, 0x68u8]
        && seq![0x6au8, 0x65u8] != seq![0x70u8, 0x6fu8, 0x70u8]
        && seq![0x6au8, 0x65u8] != seq![0x78u8, 0x6fu8, 0x72u8]
        && seq![0x6au8, 0x65u8] != seq![0x73u8, 0x75u8, 0x62u8]
        && seq![0x6au8, 0x65u8] != seq![0x63u8, 0x6du8, 0x70u8]
        && seq![0x6au8, 0x6du8, 0x70u8] != seq![0x72u8, 0x65u8, 0x74u8]);
    assert(seq![0x6au8, 0x6du8, 0x70u8] != seq![0x68u8, 0x6cu8, 0x74u8]
        && seq![0x6au8, 0x6du8, 0x70u8] != seq![0x65u8, 0x6eu8, 0x64u8, 0x62u8, 0x72u8, 0x36u8, 0x34u8]
        && seq![0x6au8, 0x6du8, 0x70u8] != seq![0x70u8, 0x75u8, 0x73u8, 0x68u8]
        && seq![0x6au8, 0x6du8, 0x70u8] != seq![0x70u8, 0x6fu8, 0x70u8]
        && seq![0x6au8, 0x6du8, 0x70u8] != seq![0x78u8, 0x6fu8, 0x72u8]
        && seq![0x6au8, 0x6du8, 0x70u8] != seq![0x73u8, 0x75u8, 0x62u8]);
    assert(seq![0x6au8, 0x6du8, 0x70u8] != seq![0x63u8, 0x6du8, 0x70u8]
        && seq![0x6au8, 0x6du8, 0x70u8] != seq![0x6au8, 0x65u8]
        && seq![0x6du8, 0x6fu8, 0x76u8] != seq![0x72u8, 0x65u8, 0x74u8]
        && seq![0x6du8, 0x6fu8, 0x76u8] != seq![0x68u8, 0x6cu8, 0x74u8]
        && seq![0x6du8, 0x6fu8, 0x76u8] != seq![0x65u8, 0x6eu8, 0x64u8, 0x62u8, 0x72u8, 0x36u8, 0x34u8]
        && seq![0x6du8, 0x6fu8, 0x76u8] != seq![0x70u8, 0x75u8, 0x73u8, 0x68u8]);
    assert(seq![0x6du8, 0x6fu8, 0x76u8] != seq![0x70u8, 0x6fu8, 0x70u8]
        && seq![0x6du8, 0x6fu8, 0x76u8] != seq![0x78u8, 0x6fu8, 0x72u8]
        && seq![0x6du8, 0x6fu8, 0x76u8] != seq![0x73u8, 0x75u8, 0x62u8]
        && seq![0x6du8, 0x6fu8, 0x76u8] != seq![0x63u8, 0x6du8, 0x70u8]
        && seq![0x6du8, 0x6fu8, 0x76u8] != seq![0x6au8, 0x65u8]
        && seq![0x6du8, 0x6fu8, 0x76u8] != seq![0x6au8, 0x6du8, 0x70u8]);
    assert(seq![0x64u8, 0x77u8, 0x6fu8, 0x72u8, 0x64u8] != seq![0x62u8, 0x79u8, 0x74u8, 0x65u8]
        && seq![0x64u8, 0x77u8, 0x6fu8, 0x72u8, 0x64u8] != seq![0x42u8, 0x59u8, 0x54u8, 0x45u8]);
}

/// The hexadecimal immediate text: a plain token that only the number
/// parsers accept, and they return the printed value.
proof fn lemma_hex_token(n: u64)
    ensures
        ({
            let t = crate::numfmt::spec_hex0x(n);
            &&& spec_plain_token(t)
            &&& t.len() >= 3
            &&& t[0] == 0x30
            &&& t.last() != 0x3a
            &&& crate::assembler::spec_parse_hex(t) == Some(n)
            &&& spec_parse_name64(t) is None
            &&& spec_parse_name32(t) is None
            &&& spec_parse_name16(t) is None
            &&& crate::assembler::spec_parse_mem(t) is None
            &&& (forall|w: Width|
                crate::assembler::spec_imm_bits(t, w) == (if n < crate::machine::spec_view(
                    w,
                    0xffff_ffff_ffff_ffff,
                ) + 1 {
                    Some(n)
                } else {
                    None::<u64>
                }))
        }),
{
    let t = crate::numfmt::spec_hex0x(n);
    let h = crate::numfmt::spec_hex_u64(n);
    crate::numfmt::lemma_hex_roundtrip(n);
    assert(t =~= seq![0x30u8, 0x78u8] + h);
    assert(forall|k: int|
        0 <= k < h.len() ==> crate::numfmt::spec_is_hex_digit(#[trigger] h[k]));
    assert forall|k: int| 0 <= k < t.len() implies (#[trigger] t[k]) != 0x20 && t[k] != 0x2c by {
        if k >= 2 {
            assert(crate::numfmt::spec_is_hex_digit(h[k - 2]));
        }
    }
    assert(crate::numfmt::spec_is_hex_digit(h[h.len() - 1]));
    assert(t.subrange(2, t.len() as int) =~= h);
    assert(spec_name64(0)[0] >= 0x61 && spec_name64(1)[0] >= 0x61 && spec_name64(2)[0] >= 0x61 && spec_name64(3)[0] >= 0x61 && spec_name64(4)[0] >= 0x61 && spec_name64(5)[0] >= 0x61 && spec_name64(6)[0] >= 0x61 && spec_name64(7)[0] >= 0x61 && spec_name64(8)[0] >= 0x61 && spec_name64(9)[0] >= 0x61 && spec_name64(10)[0] >= 0x61 && spec_name64(11)[0] >= 0x61 && spec_name64(12)[0] >= 0x61 && spec_name64(13)[0] >= 0x61 && spec_name64(14)[0] >= 0x61 && spec_name64(15)[0] >= 0x61);
    assert(t != spec_name64(0) && t != spec_name64(1) && t != spec_name64(2) && t != spec_name64(3) && t != spec_name64(4) && t != spec_name64(5) && t != spec_name64(6) && t != spec_name64(7) && t != spec_name64(8) && t != spec_name64(9) && t != spec_name64(10) && t != spec_name64(11) && t != spec_name64(12) && t != spec_name64(13) && t != spec_name64(14) && t != spec_name64(15));
    assert(spec_name32(0)[0] >= 0x61 && spec_name32(1)[0] >= 0x61 && spec_name32(2)[0] >= 0x61 && spec_name32(3)[0] >= 0x61 && spec_name32(4)[0] >= 0x61 && spec_name32(5)[0] >= 0x61 && spec_name32(6)[0] >= 0x61 && spec_name32(7)[0] >= 0x61 && spec_name32(8)[0] >= 0x61 && spec_name32(9)[0] >= 0x61 && spec_name32(10)[0] >= 0x61 && spec_name32(11)[0] >= 0x61 && spec_name32(12)[0] >= 0x61 && spec_name32(13)[0] >= 0x61 && spec_name32(14)[0] >= 0x61 && spec_name32(15)[0] >= 0x61);
    assert(t != spec_name32(0) && t != spec_name32(1) && t != spec_name32(2) && t != spec_name32(3) && t != spec_name32(4) && t != spec_name32(5) && t != spec_name32(6) && t != spec_name32(7) && t != spec_name32(8) && t != spec_name32(9) && t != spec_name32(10) && t != spec_name32(11) && t != spec_name32(12) && t != spec_name32(13) && t != spec_name32(14) && t != spec_name32(15));
    assert(spec_name16(0)[0] >= 0x61 && spec_name16(1)[0] >= 0x61 && spec_name16(2)[0] >= 0x61 && spec_name16(3)[0] >= 0x61 && spec_name16(4)[0] >= 0x61 && spec_name16(5)[0] >= 0x61 && spec_name16(6)[0] >= 0x61 && spec_name16(7)[0] >= 0x61 && spec_name16(8)[0] >= 0x61 && spec_name16(9)[0] >= 0x61 && spec_name16(10)[0] >= 0x61 && spec_name16(11)[0] >= 0x61 && spec_name16(12)[0] >= 0x61 && spec_name16(13)[0] >= 0x61 && spec_name16(14)[0] >= 0x61 && spec_name16(15)[0] >= 0x61);
    assert(t != spec_name16(0) && t != spec_name16(1) && t != spec_name16(2) && t != spec_name16(3) && t != spec_name16(4) && t != spec_name16(5) && t != spec_name16(6) && t != spec_name16(7) && t != spec_name16(8) && t != spec_name16(9) && t != spec_name16(10) && t != spec_name16(11) && t != spec_name16(12) && t != spec_name16(13) && t != spec_name16(14) && t != spec_name16(15));
    assert(spec_name8(0)[0] >= 0x61 && spec_name8(1)[0] >= 0x61 && spec_name8(2)[0] >= 0x61 && spec_name8(3)[0] >= 0x61 && spec_name8(4)[0] >= 0x61 && spec_name8(5)[0] >= 0x61 && spec_name8(6)[0] >= 0x61 && spec_name8(7)[0] >= 0x61);
    assert(t != spec_name8(0) && t != spec_name8(1) && t != spec_name8(2) && t != spec_name8(3) && t != spec_name8(4) && t != spec_name8(5) && t != spec_name8(6) && t != spec_name8(7));

    assert forall|w: Width|
        crate::assembler::spec_imm_bits(t, w) == (if n < crate::machine::spec_view(
            w,
            0xffff_ffff_ffff_ffff,
        ) + 1 {
            Some(n)
        } else {
            None::<u64>
        }) by {
        assert(0xffff_ffff_ffff_ffffu64 & 0xffff == 0xffff) by (bit_vector);
        assert(0xffff_ffff_ffff_ffffu64 & 0xffff_ffff == 0xffff_ffff) by (bit_vector);
    }
}

/// The signed decimal immediate text: a plain token the signed-integer
/// parser inverts.
proof fn lemma_int_token(v: i64)
    ensures
        ({
            let t = crate::numfmt::spec_dec_i64(v);
            &&& spec_plain_token(t)
            &&& t.last() != 0x3a
            &&& crate::assembler::spec_parse_int(t) == Some(v)
        }),
{
    let t = crate::numfmt::spec_dec_i64(v);
    if v >= 0 {
        crate::numfmt::lemma_dec_roundtrip(v as u64);
        assert(crate::numfmt::spec_is_digit(t[t.len() - 1]));
        assert forall|k: int| 0 <= k < t.len() implies (#[trigger] t[k]) != 0x20 && t[k] != 0x2c
            by {
            assert(crate::numfmt::spec_is_digit(t[k]));
        }
        assert(!crate::numfmt::spec_is_digit(0x2d));
        assert(t[0] != 0x2d);
    } else {
        let mag = (-(v as int)) as u64;
        crate::numfmt::lemma_dec_roundtrip(mag);
        let d = crate::numfmt::spec_dec_u64(mag);
        assert(t =~= seq![0x2du8] + d);
        assert forall|k: int| 0 <= k < t.len() implies (#[trigger] t[k]) != 0x20 && t[k] != 0x2c
            by {
            if k >= 1 {
                assert(crate::numfmt::spec_is_digit(d[k - 1]));
            }
        }
        assert(crate::numfmt::spec_is_digit(d[d.len() - 1]));
        assert(t.subrange(1, t.len() as int) =~= d);
        assert(crate::numfmt::spec_dec_val(d) == mag);
        assert(mag <= 0x8000_0000_0000_0000);
    }
}

/// The first position at or after `i` that holds a sign byte.
proof fn lemma_find_sign_at(t: Seq<u8>, i: int, j: int)
    requires
        0 <= i <= j < t.len(),
        forall|k: int| i <= k < j ==> (#[trigger] t[k]) != 0x2b && t[k] != 0x2d,
        t[j] == 0x2b || t[j] == 0x2d,
    ensures
        crate::assembler::spec_find_sign(t, i) == j,
    decreases j - i,
{
    if i < j {
        lemma_find_sign_at(t, i + 1, j);
    }
}

/// The memory-operand text `[base+disp]` / `[base-disp]`: a plain token
/// that only the memory-operand parser accepts, and it returns the
/// printed base and displacement.
proof fn lemma_mem_token(base: u8, disp: i8)
    requires
        base < 8,
    ensures
        ({
            let t = seq![0x5bu8] + spec_name64(base) + crate::disasm::spec_disp(disp) + seq![
                0x5du8,
            ];
            &&& spec_plain_token(t)
            &&& t[0] == 0x5b
            &&& t.last() == 0x5d
            &&& spec_parse_name64(t) is None
            &&& spec_parse_name32(t) is None
            &&& spec_parse_name16(t) is None
            &&& spec_parse_name8(t) is None
            &&& crate::assembler::spec_parse_mem(t) == Some((base, disp))
        }),
{
    let nm = spec_name64(base);
    let dd = crate::disasm::spec_disp(disp);
    let t = seq![0x5bu8] + nm + dd + seq![0x5du8];
    lemma_name64_token(base);
    let mag: u64 = if disp >= 0 {
        disp as u64
    } else {
        (-(disp as int)) as u64
    };
    let digits = crate::numfmt::spec_dec_u64(mag);
    crate::numfmt::lemma_dec_roundtrip(mag);
    assert(dd =~= seq![if disp >= 0 { 0x2bu8 } else { 0x2du8 }] + digits);
    assert forall|k: int| 0 <= k < t.len() implies (#[trigger] t[k]) != 0x20 && t[k] != 0x2c by {
        if 1 <= k < 1 + nm.len() {
            assert(t[k] == nm[k - 1]);
        } else if 1 + nm.len() + 1 <= k < t.len() - 1 {
            assert(crate::numfmt::spec_is_digit(digits[k - (2 + nm.len())]));
        }
    }
    assert(spec_name64(0)[0] >= 0x61 && spec_name64(1)[0] >= 0x61 && spec_name64(2)[0] >= 0x61 && spec_name64(3)[0] >= 0x61 && spec_name64(4)[0] >= 0x61 && spec_name64(5)[0] >= 0x61 && spec_name64(6)[0] >= 0x61 && spec_name64(7)[0] >= 0x61 && spec_name64(8)[0] >= 0x61 && spec_name64(9)[0] >= 0x61 && spec_name64(10)[0] >= 0x61 && spec_name64(11)[0] >= 0x61 && spec_name64(12)[0] >= 0x61 && spec_name64(13)[0] >= 0x61 && spec_name64(14)[0] >= 0x61 && spec_name64(15)[0] >= 0x61);
    assert(t != spec_name64(0) && t != spec_name64(1) && t != spec_name64(2) && t != spec_name64(3) && t != spec_name64(4) && t != spec_name64(5) && t != spec_name64(6) && t != spec_name64(7) && t != spec_name64(8) && t != spec_name64(9) && t != spec_name64(10) && t != spec_name64(11) && t != spec_name64(12) && t != spec_name64(13) && t != spec_name64(14) && t != spec_name64(15));
    assert(spec_name32(0)[0] >= 0x61 && spec_name32(1)[0] >= 0x61 && spec_name32(2)[0] >= 0x61 && spec_name32(3)[0] >= 0x61 && spec_name32(4)[0] >= 0x61 && spec_name32(5)[0] >= 0x61 && spec_name32(6)[0] >= 0x61 && spec_name32(7)[0] >= 0x61 && spec_name32(8)[0] >= 0x61 && spec_name32(9)[0] >= 0x61 && spec_name32(10)[0] >= 0x61 && spec_name32(11)[0] >= 0x61 && spec_name32(12)[0] >= 0x61 && spec_name32(13)[0] >= 0x61 && spec_name32(14)[0] >= 0x61 && spec_name32(15)[0] >= 0x61);
    assert(t != spec_name32(0) && t != spec_name32(1) && t != spec_name32(2) && t != spec_name32(3) && t != spec_name32(4) && t != spec_name32(5) && t != spec_name32(6) && t != spec_name32(7) && t != spec_name32(8) && t != spec_name32(9) && t != spec_name32(10) && t != spec_name32(11) && t != spec_name32(12) && t != spec_name32(13) && t != spec_name32(14) && t != spec_name32(15));
    assert(spec_name16(0)[0] >= 0x61 && spec_name16(1)[0] >= 0x61 && spec_name16(2)[0] >= 0x61 && spec_name16(3)[0] >= 0x61 && spec_name16(4)[0] >= 0x61 && spec_name16(5)[0] >= 0x61 && spec_name16(6)[0] >= 0x61 && spec_name16(7)[0] >= 0x61 && spec_name16(8)[0] >= 0x61 && spec_name16(9)[0] >= 0x61 && spec_name16(10)[0] >= 0x61 && spec_name16(11)[0] >= 0x61 && spec_name16(12)[0] >= 0x61 && spec_name16(13)[0] >= 0x61 && spec_name16(14)[0] >= 0x61 && spec_name16(15)[0] >= 0x61);
    assert(t != spec_name16(0) && t != spec_name16(1) && t != spec_name16(2) && t != spec_name16(3) && t != spec_name16(4) && t != spec_name16(5) && t != spec_name16(6) && t != spec_name16(7) && t != spec_name16(8) && t != spec_name16(9) && t != spec_name16(10) && t != spec_name16(11) && t != spec_name16(12) && t != spec_name16(13) && t != spec_name16(14) && t != spec_name16(15));
    assert(spec_name8(0)[0] >= 0x61 && spec_name8(1)[0] >= 0x61 && spec_name8(2)[0] >= 0x61 && spec_name8(3)[0] >= 0x61 && spec_name8(4)[0] >= 0x61 && spec_name8(5)[0] >= 0x61 && spec_name8(6)[0] >= 0x61 && spec_name8(7)[0] >= 0x61);
    assert(t != spec_name8(0) && t != spec_name8(1) && t != spec_name8(2) && t != spec_name8(3) && t != spec_name8(4) && t != spec_name8(5) && t != spec_name8(6) && t != spec_name8(7));

    let sp = 1 + nm.len() as int;
    assert forall|k: int| 1 <= k < sp implies (#[trigger] t[k]) != 0x2b && t[k] != 0x2d by {
        assert(t[k] == nm[k - 1]);
    }
    lemma_find_sign_at(t, 1, sp);
    assert(t.subrange(1, sp) =~= nm);
    let d2 = t.subrange(sp + 1, t.len() - 1);
    assert(d2 =~= digits);
    assert(crate::numfmt::spec_dec_val(digits) == mag);
    if disp >= 0 {
        assert(mag <= 127);
        assert(crate::assembler::spec_parse_mem(t) == Some((base, disp)));
    } else {
        assert(mag <= 128);
        assert((-(mag as int)) as i8 == disp);
        assert(crate::assembler::spec_parse_mem(t) == Some((base, disp)));
    }
}

/// One word alone on a line is its one token.
proof fn lemma_tokens_one(m: Seq<u8>)
    requires
        spec_plain_token(m),
    ensures
        spec_tokens(m, 0) == seq![m],
{
    lemma_tokens_word(m, 0, m.len() as int);
    assert(m.subrange(0, m.len() as int) =~= m);
    assert(spec_tokens(m, 0) =~= seq![m]);
}

/// A mnemonic and one operand split into two tokens.
proof fn lemma_tokens_two(m: Seq<u8>, a: Seq<u8>)
    requires
        spec_plain_token(m),
        spec_plain_token(a),
    ensures
        spec_tokens(m + seq![0x20u8] + a, 0) == seq![m, a],
{
    let line = m + seq![0x20u8] + a;
    let j1 = m.len() as int;
    lemma_tokens_word(line, 0, j1);
    assert(line.subrange(0, j1) =~= m);
    lemma_tokens_word(line, j1 + 1, line.len() as int);
    assert(line.subrange(j1 + 1, line.len() as int) =~= a);
    assert(spec_tokens(line, 0) =~= seq![m, a]);
}

/// A mnemonic and two space-separated operands split into three tokens.
proof fn lemma_tokens_three_nc(m: Seq<u8>, a: Seq<u8>, b: Seq<u8>)
    requires
        spec_plain_token(m),
        spec_plain_token(a),
        spec_plain_token(b),
    ensures
        spec_tokens(m + seq![0x20u8] + a + seq![0x20u8] + b, 0) == seq![m, a, b],
{
    let line = m + seq![0x20u8] + a + seq![0x20u8] + b;
    let j1 = m.len() as int;
    let j2 = j1 + 1 + a.len() as int;
    lemma_tokens_word(line, 0, j1);
    assert(line.subrange(0, j1) =~= m);
    lemma_tokens_word(line, j1 + 1, j2);
    assert(line.subrange(j1 + 1, j2) =~= a);
    lemma_tokens_word(line, j2 + 1, line.len() as int);
    assert(line.subrange(j2 + 1, line.len() as int) =~= b);
    assert(spec_tokens(line, 0) =~= seq![m, a, b]);
}

/// A mnemonic and two comma-separated operands split into three tokens,
/// the separator comma stripped.
proof fn lemma_tokens_three(m: Seq<u8>, a: Seq<u8>, b: Seq<u8>)
    requires
        spec_plain_token(m),
        spec_plain_token(a),
        spec_plain_token(b),
    ensures
        spec_tokens(m + seq![0x20u8] + a + seq![0x2cu8, 0x20u8] + b, 0) == seq![m, a, b],
{
    let line = m + seq![0x20u8] + a + seq![0x2cu8, 0x20u8] + b;
    let j1 = m.len() as int;
    let j2 = j1 + 1 + a.len() as int + 1;
    lemma_tokens_word(line, 0, j1);
    assert(line.subrange(0, j1) =~= m);
    lemma_tokens_word(line, j1 + 1, j2);
    assert(line.subrange(j1 + 1, j2) =~= a.push(0x2c));
    assert(spec_strip(a.push(0x2c)) =~= a);
    lemma_tokens_word(line, j2 + 1, line.len() as int);
    assert(line.subrange(j2 + 1, line.len() as int) =~= b);
    assert(spec_tokens(line, 0) =~= seq![m, a, b]);
}

/// A mnemonic, a size keyword, and two comma-separated operands split
/// into four tokens.
proof fn lemma_tokens_four(m: Seq<u8>, kw: Seq<u8>, a: Seq<u8>, b: Seq<u8>)
    requires
        spec_plain_token(m),
        spec_plain_token(kw),
        spec_plain_token(a),
        spec_plain_token(b),
    ensures
        spec_tokens(m + seq![0x20u8] + kw + seq![0x20u8] + a + seq![0x2cu8, 0x20u8] + b, 0)
            == seq![m, kw, a, b],
{
    let line = m + seq![0x20u8] + kw + seq![0x20u8] + a + seq![0x2cu8, 0x20u8] + b;
    let j1 = m.len() as int;
    let j2 = j1 + 1 + kw.len() as int;
    let j3 = j2 + 1 + a.len() as int + 1;
    lemma_tokens_word(line, 0, j1);
    assert(line.subrange(0, j1) =~= m);
    lemma_tokens_word(line, j1 + 1, j2);
    assert(line.subrange(j1 + 1, j2) =~= kw);
    lemma_tokens_word(line, j2 + 1, j3);
    assert(line.subrange(j2 + 1, j3) =~= a.push(0x2c));
    assert(spec_strip(a.push(0x2c)) =~= a);
    lemma_tokens_word(line, j3 + 1, line.len() as int);
    assert(line.subrange(j3 + 1, line.len() as int) =~= b);
    assert(spec_tokens(line, 0) =~= seq![m, kw, a, b]);
}

/// One form of [`lemma_format_parses_back`], as are the lemmas below it.
#[verifier::rlimit(100)]
#[verifier::spinoff_prover]
proof fn lemma_fpb_jenear(rel: i32)
    requires
        (Instr::JeNear { rel }).wf(),
    ensures
        crate::assembler::spec_parse_line(spec_tokens(crate::disasm::spec_format(Instr::JeNear { rel }), 0)) == Ok::<
            crate::assembler::SpecItem,
            crate::assembler::AsmError,
        >(crate::assembler::SpecItem::Ins { instr: Instr::JeNear { rel } }),
{
    lemma_mnemonics();
    let i = Instr::JeNear { rel };
    let line = crate::disasm::spec_format(i);
    let m = seq![0x6au8, 0x65u8];
            let k = seq![0x6eu8, 0x65u8, 0x61u8, 0x72u8];
            let b = crate::numfmt::spec_dec_i64((rel + 4) as i64);
            lemma_int_token((rel + 4) as i64);
            assert(line =~= m + seq![0x20u8] + k + seq![0x20u8] + b);
            lemma_tokens_three_nc(m, k, b);
}

#[verifier::rlimit(100)]
#[verifier::spinoff_prover]
proof fn lemma_fpb_jeshort(rel: i8)
    requires
        (Instr::JeShort { rel }).wf(),
    ensures
        crate::assembler::spec_parse_line(spec_tokens(crate::disasm::spec_format(Instr::JeShort { rel }), 0)) == Ok::<
            crate::assembler::SpecItem,
            crate::assembler::AsmError,
        >(crate::assembler::SpecItem::Ins { instr: Instr::JeShort { rel } }),
{
    lemma_mnemonics();
    let i = Instr::JeShort { rel };
    let line = crate::disasm::spec_format(i);
    let m = seq![0x6au8, 0x65u8];
            let b = crate::numfmt::spec_dec_i64(rel as i64);
            lemma_int_token(rel as i64);
            assert(line =~= m + seq![0x20u8] + b);
            lemma_tokens_two(m, b);
}

#[verifier::rlimit(100)]
#[verifier::spinoff_prover]
proof fn lemma_fpb_jmpnear(rel: i32)
    requires
        (Instr::JmpNear { rel }).wf(),
    ensures
        crate::assembler::spec_parse_line(spec_tokens(crate::disasm::spec_format(Instr::JmpNear { rel }), 0)) == Ok::<
            crate::assembler::SpecItem,
            crate::assembler::AsmError,
        >(crate::assembler::SpecItem::Ins { instr: Instr::JmpNear { rel } }),
{
    lemma_mnemonics();
    let i = Instr::JmpNear { rel };
    let line = crate::disasm::spec_format(i);
    let m = seq![0x6au8, 0x6du8, 0x70u8];
            let k = seq![0x6eu8, 0x65u8, 0x61u8, 0x72u8];
            let b = crate::numfmt::spec_dec_i64((rel + 4) as i64);
            lemma_int_token((rel + 4) as i64);
            assert(line =~= m + seq![0x20u8] + k + seq![0x20u8] + b);
            lemma_tokens_three_nc(m, k, b);
}

#[verifier::rlimit(100)]
#[verifier::spinoff_prover]
proof fn lemma_fpb_xorreg(w: Width, dst: u8, src: u8)
    requires
        (Instr::XorReg { w, dst, src }).wf(),
    ensures
        crate::assembler::spec_parse_line(spec_tokens(crate::disasm::spec_format(Instr::XorReg { w, dst, src }), 0)) == Ok::<
            crate::assembler::SpecItem,
            crate::assembler::AsmError,
        >(crate::assembler::SpecItem::Ins { instr: Instr::XorReg { w, dst, src } }),
{
    lemma_mnemonics();
    let i = Instr::XorReg { w, dst, src };
    let line = crate::disasm::spec_format(i);
    let m = seq![0x78u8, 0x6fu8, 0x72u8];
            let a = crate::disasm::spec_name_w(w, dst);
            let b = crate::disasm::spec_name_w(w, src);
            match w {
                Width::W16 => {
                    lemma_name16_token(dst);
                    lemma_name16_token(src);
                },
                Width::W32 => {
                    lemma_name32_token(dst);
                    lemma_name32_token(src);
                },
                Width::W64 => {
                    lemma_name64_token(dst);
                    lemma_name64_token(src);
                },
            }
            assert(line =~= m + seq![0x20u8] + a + seq![0x2cu8, 0x20u8] + b);
            lemma_tokens_three(m, a, b);
}

#[verifier::rlimit(100)]
#[verifier::spinoff_prover]
proof fn lemma_fpb_pushrbp()
    requires
        (Instr::PushRbp).wf(),
    ensures
        crate::assembler::spec_parse_line(spec_tokens(crate::disasm::spec_format(Instr::PushRbp), 0)) == Ok::<
            crate::assembler::SpecItem,
            crate::assembler::AsmError,
        >(crate::assembler::SpecItem::Ins { instr: Instr::PushRbp }),
{
    lemma_mnemonics();
    let i = Instr::PushRbp;
    let line = crate::disasm::spec_format(i);
    let m = seq![0x70u8, 0x75u8, 0x73u8, 0x68u8];
            let a = seq![0x72u8, 0x62u8, 0x70u8];
            assert(line =~= m + seq![0x20u8] + a);
            lemma_tokens_two(m, a);
}

#[verifier::rlimit(100)]
#[verifier::spinoff_prover]
proof fn lemma_fpb_pop(index: u8)
    requires
        (Instr::Pop { index }).wf(),
    ensures
        crate::assembler::spec_parse_line(spec_tokens(crate::disasm::spec_format(Instr::Pop { index }), 0)) == Ok::<
            crate::assembler::SpecItem,
            crate::assembler::AsmError,
        >(crate::assembler::SpecItem::Ins { instr: Instr::Pop { index } }),
{
    lemma_mnemonics();
    let i = Instr::Pop { index };
    let line = crate::disasm::spec_format(i);
    let m = seq![0x70u8, 0x6fu8, 0x70u8];
            let a = spec_name64(index);
            lemma_name64_token(index);
            assert(line =~= m + seq![0x20u8] + a);
            lemma_tokens_two(m, a);
}

#[verifier::rlimit(100)]
#[verifier::spinoff_prover]
proof fn lemma_fpb_cmpmemimm_shape(base: u8, disp: i8, imm: u8)
    requires
        base < 8,
    ensures
        ({
            let m = seq![0x63u8, 0x6du8, 0x70u8];
            let kw = seq![0x62u8, 0x79u8, 0x74u8, 0x65u8];
            let a = seq![0x5bu8] + spec_name64(base) + crate::disasm::spec_disp(disp) + seq![
                0x5du8,
            ];
            let b = crate::numfmt::spec_dec_i64(imm as i64);
            crate::disasm::spec_format(Instr::CmpMemImm { base, disp, imm }) == m + seq![0x20u8]
                + kw + seq![0x20u8] + a + seq![0x2cu8, 0x20u8] + b
        }),
{
    let i = Instr::CmpMemImm { base, disp, imm };
    let line = crate::disasm::spec_format(i);
    let m = seq![0x63u8, 0x6du8, 0x70u8];
    let kw = seq![0x62u8, 0x79u8, 0x74u8, 0x65u8];
    let a = seq![0x5bu8] + spec_name64(base) + crate::disasm::spec_disp(disp) + seq![0x5du8];
    let b = crate::numfmt::spec_dec_i64(imm as i64);
    assert(crate::numfmt::spec_dec_u64(imm as u64) == b);
    assert(line =~= m + seq![0x20u8] + kw + seq![0x20u8] + a + seq![0x2cu8, 0x20u8] + b);
}

#[verifier::rlimit(100)]
#[verifier::spinoff_prover]
proof fn lemma_fpb_cmpmemimm_tokens(base: u8, disp: i8, imm: u8)
    requires
        (Instr::CmpMemImm { base, disp, imm }).wf(),
    ensures
        ({
            let a = seq![0x5bu8] + spec_name64(base) + crate::disasm::spec_disp(disp) + seq![
                0x5du8,
            ];
            let b = crate::numfmt::spec_dec_i64(imm as i64);
            spec_tokens(crate::disasm::spec_format(Instr::CmpMemImm { base, disp, imm }), 0)
                == seq![seq![0x63u8, 0x6du8, 0x70u8], seq![0x62u8, 0x79u8, 0x74u8, 0x65u8], a, b]
        }),
{
    let i = Instr::CmpMemImm { base, disp, imm };
    let m = seq![0x63u8, 0x6du8, 0x70u8];
    let kw = seq![0x62u8, 0x79u8, 0x74u8, 0x65u8];
    let a = seq![0x5bu8] + spec_name64(base) + crate::disasm::spec_disp(disp) + seq![0x5du8];
    let b = crate::numfmt::spec_dec_i64(imm as i64);
    lemma_fpb_cmpmemimm_shape(base, disp, imm);
    lemma_mem_token(base, disp);
    lemma_int_token(imm as i64);
    lemma_tokens_four(m, kw, a, b);
}

#[verifier::rlimit(100)]
#[verifier::spinoff_prover]
proof fn lemma_fpb_cmpmemimm(base: u8, disp: i8, imm: u8)
    requires
        (Instr::CmpMemImm { base, disp, imm }).wf(),
    ensures
        crate::assembler::spec_parse_line(spec_tokens(crate::disasm::spec_format(Instr::CmpMemImm { base, disp, imm }), 0)) == Ok::<
            crate::assembler::SpecItem,
            crate::assembler::AsmError,
        >(crate::assembler::SpecItem::Ins { instr: Instr::CmpMemImm { base, disp, imm } }),
{
    lemma_mnemonics();
    let i = Instr::CmpMemImm { base, disp, imm };
    lemma_fpb_cmpmemimm_tokens(base, disp, imm);
    let m = seq![0x63u8, 0x6du8, 0x70u8];
    let kw = seq![0x62u8, 0x79u8, 0x74u8, 0x65u8];
    let a = seq![0x5bu8] + spec_name64(base) + crate::disasm::spec_disp(disp) + seq![0x5du8];
    let b = crate::numfmt::spec_dec_i64(imm as i64);
    lemma_mem_token(base, disp);
    lemma_int_token(imm as i64);
    let ts = seq![m, kw, a, b];
    assert(ts[0] == m && ts[1] == kw && ts[2] == a && ts[3] == b);
    assert(crate::assembler::spec_parse_line(ts) == Ok::<
        crate::assembler::SpecItem,
        crate::assembler::AsmError,
    >(crate::assembler::SpecItem::Ins { instr: i }));
}

#[verifier::rlimit(100)]
#[verifier::spinoff_prover]
proof fn lemma_fpb_subregimm(w64: bool, reg: u8, imm: i32)
    requires
        (Instr::SubRegImm { w64, reg, imm }).wf(),
    ensures
        crate::assembler::spec_parse_line(spec_tokens(crate::disasm::spec_format(Instr::SubRegImm { w64, reg, imm }), 0)) == Ok::<
            crate::assembler::SpecItem,
            crate::assembler::AsmError,
        >(crate::assembler::SpecItem::Ins { instr: Instr::SubRegImm { w64, reg, imm } }),
{
    lemma_mnemonics();
    let i = Instr::SubRegImm { w64, reg, imm };
    let line = crate::disasm::spec_format(i);
    let m = seq![0x73u8, 0x75u8, 0x62u8];
            let a = if w64 {
                spec_name64(reg)
            } else {
                spec_name32(reg)
            };
            let b = crate::numfmt::spec_dec_i64(imm as i64);
            if w64 {
                lemma_name64_token(reg);
            } else {
                lemma_name32_token(reg);
            }
            lemma_int_token(imm as i64);
            assert(line =~= m + seq![0x20u8] + a + seq![0x2cu8, 0x20u8] + b);
            lemma_tokens_three(m, a, b);
}

#[verifier::rlimit(100)]
#[verifier::spinoff_prover]
proof fn lemma_fpb_movmemreg8(base: u8, disp: i8, src: u8)
    requires
        (Instr::MovMemReg8 { base, disp, src }).wf(),
    ensures
        crate::assembler::spec_parse_line(spec_tokens(crate::disasm::spec_format(Instr::MovMemReg8 { base, disp, src }), 0)) == Ok::<
            crate::assembler::SpecItem,
            crate::assembler::AsmError,
        >(crate::assembler::SpecItem::Ins { instr: Instr::MovMemReg8 { base, disp, src } }),
{
    lemma_mnemonics();
    let i = Instr::MovMemReg8 { base, disp, src };
    let line = crate::disasm::spec_format(i);
    let m = seq![0x6du8, 0x6fu8, 0x76u8];
            let a = seq![0x5bu8] + spec_name64(base) + crate::disasm::spec_disp(disp) + seq![
                0x5du8,
            ];
            let b = spec_name8(src);
            lemma_mem_token(base, disp);
            lemma_name8_token(src);
            assert(line =~= m + seq![0x20u8] + a + seq![0x2cu8, 0x20u8] + b);
            lemma_tokens_three(m, a, b);
}

#[verifier::rlimit(100)]
#[verifier::spinoff_prover]
proof fn lemma_fpb_movregreg(w64: bool, dst: u8, src: u8)
    requires
        (Instr::MovRegReg { w64, dst, src }).wf(),
    ensures
        crate::assembler::spec_parse_line(spec_tokens(crate::disasm::spec_format(Instr::MovRegReg { w64, dst, src }), 0)) == Ok::<
            crate::assembler::SpecItem,
            crate::assembler::AsmError,
        >(crate::assembler::SpecItem::Ins { instr: Instr::MovRegReg { w64, dst, src } }),
{
    lemma_mnemonics();
    let i = Instr::MovRegReg { w64, dst, src };
    let line = crate::disasm::spec_format(i);
    let m = seq![0x6du8, 0x6fu8, 0x76u8];
            let a = if w64 {
                spec_name64(dst)
            } else {
                spec_name32(dst)
            };
            let b = if w64 {
                spec_name64(src)
            } else {
                spec_name32(src)
            };
            if w64 {
                lemma_name64_token(dst);
                lemma_name64_token(src);
            } else {
                lemma_name32_token(dst);
                lemma_name32_token(src);
            }
            assert(line =~= m + seq![0x20u8] + a + seq![0x2cu8, 0x20u8] + b);
            lemma_tokens_three(m, a, b);
}

#[verifier::rlimit(100)]
#[verifier::spinoff_prover]
proof fn lemma_fpb_movregmem(dst: u8, base: u8, disp: i8)
    requires
        (Instr::MovRegMem { dst, base, disp }).wf(),
    ensures
        crate::assembler::spec_parse_line(spec_tokens(crate::disasm::spec_format(Instr::MovRegMem { dst, base, disp }), 0)) == Ok::<
            crate::assembler::SpecItem,
            crate::assembler::AsmError,
        >(crate::assembler::SpecItem::Ins { instr: Instr::MovRegMem { dst, base, disp } }),
{
    lemma_mnemonics();
    let i = Instr::MovRegMem { dst, base, disp };
    let line = crate::disasm::spec_format(i);
    let m = seq![0x6du8, 0x6fu8, 0x76u8];
            let a = spec_name32(dst);
            let b = seq![0x5bu8] + spec_name64(base) + crate::disasm::spec_disp(disp) + seq![
                0x5du8,
            ];
            lemma_name32_token(dst);
            lemma_mem_token(base, disp);
            assert(line =~= m + seq![0x20u8] + a + seq![0x2cu8, 0x20u8] + b);
            lemma_tokens_three(m, a, b);
}

#[verifier::rlimit(100)]
#[verifier::spinoff_prover]
proof fn lemma_fpb_movmemimm_tokens(base: u8, disp: i8, imm: i32)
    requires
        (Instr::MovMemImm { base, disp, imm }).wf(),
    ensures
        ({
            let a = seq![0x5bu8] + spec_name64(base) + crate::disasm::spec_disp(disp) + seq![
                0x5du8,
            ];
            let b = crate::numfmt::spec_dec_i64(imm as i64);
            spec_tokens(crate::disasm::spec_format(Instr::MovMemImm { base, disp, imm }), 0) == seq![seq![0x6du8, 0x6fu8, 0x76u8], seq![0x64u8, 0x77u8, 0x6fu8, 0x72u8, 0x64u8], a, b]
        }),
{
    let i = Instr::MovMemImm { base, disp, imm };
    let line = crate::disasm::spec_format(i);
    let m = seq![0x6du8, 0x6fu8, 0x76u8];
    let kw = seq![0x64u8, 0x77u8, 0x6fu8, 0x72u8, 0x64u8];
    let a = seq![0x5bu8] + spec_name64(base) + crate::disasm::spec_disp(disp) + seq![0x5du8];
    let b = crate::numfmt::spec_dec_i64(imm as i64);
    lemma_mem_token(base, disp);
    lemma_int_token(imm as i64);
    assert(line =~= m + seq![0x20u8] + kw + seq![0x20u8] + a + seq![0x2cu8, 0x20u8] + b);
    lemma_tokens_four(m, kw, a, b);
}

#[verifier::rlimit(100)]
#[verifier::spinoff_prover]
proof fn lemma_fpb_movmemimm(base: u8, disp: i8, imm: i32)
    requires
        (Instr::MovMemImm { base, disp, imm }).wf(),
    ensures
        crate::assembler::spec_parse_line(spec_tokens(crate::disasm::spec_format(Instr::MovMemImm { base, disp, imm }), 0)) == Ok::<
            crate::assembler::SpecItem,
            crate::assembler::AsmError,
        >(crate::assembler::SpecItem::Ins { instr: Instr::MovMemImm { base, disp, imm } }),
{
    lemma_mnemonics();
    let i = Instr::MovMemImm { base, disp, imm };
    lemma_fpb_movmemimm_tokens(base, disp, imm);
    let m = seq![0x6du8, 0x6fu8, 0x76u8];
    let kw = seq![0x64u8, 0x77u8, 0x6fu8, 0x72u8, 0x64u8];
    let a = seq![0x5bu8] + spec_name64(base) + crate::disasm::spec_disp(disp) + seq![0x5du8];
    let b = crate::numfmt::spec_dec_i64(imm as i64);
    lemma_mem_token(base, disp);
    lemma_int_token(imm as i64);
    let ts = seq![m, kw, a, b];
    assert(ts[0] == m && ts[1] == kw && ts[2] == a && ts[3] == b);
    assert(crate::assembler::spec_parse_line(ts) == Ok::<
        crate::assembler::SpecItem,
        crate::assembler::AsmError,
    >(crate::assembler::SpecItem::Ins { instr: i }));
}

#[verifier::rlimit(100)]
#[verifier::spinoff_prover]
proof fn lemma_fpb_movimm8(reg: u8, imm: u8)
    requires
        (Instr::MovImm8 { reg, imm }).wf(),
    ensures
        crate::assembler::spec_parse_line(spec_tokens(crate::disasm::spec_format(Instr::MovImm8 { reg, imm }), 0)) == Ok::<
            crate::assembler::SpecItem,
            crate::assembler::AsmError,
        >(crate::assembler::SpecItem::Ins { instr: Instr::MovImm8 { reg, imm } }),
{
    lemma_mnemonics();
    let i = Instr::MovImm8 { reg, imm };
    let line = crate::disasm::spec_format(i);
    let m = seq![0x6du8, 0x6fu8, 0x76u8];
            let a = spec_name8(reg);
            let b = crate::numfmt::spec_dec_i64(imm as i64);
            lemma_name8_token(reg);
            lemma_int_token(imm as i64);
            assert(crate::numfmt::spec_dec_u64(imm as u64) == b);
            assert(line =~= m + seq![0x20u8] + a + seq![0x2cu8, 0x20u8] + b);
            lemma_tokens_three(m, a, b);
}

#[verifier::rlimit(100)]
#[verifier::spinoff_prover]
proof fn lemma_fpb_movimm(w: Width, reg: u8, imm: u64)
    requires
        (Instr::MovImm { w, reg, imm }).wf(),
    ensures
        crate::assembler::spec_parse_line(spec_tokens(crate::disasm::spec_format(Instr::MovImm { w, reg, imm }), 0)) == Ok::<
            crate::assembler::SpecItem,
            crate::assembler::AsmError,
        >(crate::assembler::SpecItem::Ins { instr: Instr::MovImm { w, reg, imm } }),
{
    lemma_mnemonics();
    let i = Instr::MovImm { w, reg, imm };
    let line = crate::disasm::spec_format(i);
    let m = seq![0x6du8, 0x6fu8, 0x76u8];
            let a = crate::disasm::spec_name_w(w, reg);
            let b = crate::numfmt::spec_hex0x(imm);
            match w {
                Width::W16 => {
                    lemma_name16_token(reg);
                },
                Width::W32 => {
                    lemma_name32_token(reg);
                },
                Width::W64 => {
                    lemma_name64_token(reg);
                },
            }
            lemma_hex_token(imm);
            assert(0xffff_ffff_ffff_ffffu64 & 0xffff == 0xffff) by (bit_vector);
            assert(0xffff_ffff_ffff_ffffu64 & 0xffff_ffff == 0xffff_ffff) by (bit_vector);
            assert(line =~= m + seq![0x20u8] + a + seq![0x2cu8, 0x20u8] + b);
            lemma_tokens_three(m, a, b);
}

#[verifier::rlimit(100)]
#[verifier::spinoff_prover]
proof fn lemma_fpb_ret()
    requires
        (Instr::Ret).wf(),
    ensures
        crate::assembler::spec_parse_line(spec_tokens(crate::disasm::spec_format(Instr::Ret), 0)) == Ok::<
            crate::assembler::SpecItem,
            crate::assembler::AsmError,
        >(crate::assembler::SpecItem::Ins { instr: Instr::Ret }),
{
    lemma_mnemonics();
    let i = Instr::Ret;
    let line = crate::disasm::spec_format(i);
    let m = seq![0x72u8, 0x65u8, 0x74u8];
            assert(line =~= m);
            lemma_tokens_one(m);
}

#[verifier::rlimit(100)]
#[verifier::spinoff_prover]
proof fn lemma_fpb_endbr64()
    requires
        (Instr::Endbr64).wf(),
    ensures
        crate::assembler::spec_parse_line(spec_tokens(crate::disasm::spec_format(Instr::Endbr64), 0)) == Ok::<
            crate::assembler::SpecItem,
            crate::assembler::AsmError,
        >(crate::assembler::SpecItem::Ins { instr: Instr::Endbr64 }),
{
    lemma_mnemonics();
    let i = Instr::Endbr64;
    let line = crate::disasm::spec_format(i);
    let m = seq![0x65u8, 0x6eu8, 0x64u8, 0x62u8, 0x72u8, 0x36u8, 0x34u8];
    assert(line =~= m);
    lemma_tokens_one(m);
}

/// Parsing what the sink printed yields the instruction back: for every
/// supported form that records a line, except the ModRM-addressed
/// immediate-to-register move (whose text is that of the short form and
/// re-assembles to it), the assembler's line parser reads the formatted
/// text as exactly the original instruction.
pub proof fn lemma_format_parses_back(i: Instr)
    requires
        i.wf(),
        !(i is Hlt),
        !(i is MovImmSx),
    ensures
        crate::assembler::spec_parse_line(spec_tokens(crate::disasm::spec_format(i), 0)) == Ok::<
            crate::assembler::SpecItem,
            crate::assembler::AsmError,
        >(crate::assembler::SpecItem::Ins { instr: i }),
{
    match i {
        Instr::JeNear { rel } => {
            lemma_fpb_jenear(rel);
        },
        Instr::JeShort { rel } => {
            lemma_fpb_jeshort(rel);
        },
        Instr::JmpNear { rel } => {
            lemma_fpb_jmpnear(rel);
        },
        Instr::XorReg { w, dst, src } => {
            lemma_fpb_xorreg(w, dst, src);
        },
        Instr::PushRbp => {
            lemma_fpb_pushrbp();
        },
        Instr::Pop { index } => {
            lemma_fpb_pop(index);
        },
        Instr::CmpMemImm { base, disp, imm } => {
            lemma_fpb_cmpmemimm(base, disp, imm);
        },
        Instr::SubRegImm { w64, reg, imm } => {
            lemma_fpb_subregimm(w64, reg, imm);
        },
        Instr::MovMemReg8 { base, disp, src } => {
            lemma_fpb_movmemreg8(base, disp, src);
        },
        Instr::MovRegReg { w64, dst, src } => {
            lemma_fpb_movregreg(w64, dst, src);
        },
        Instr::MovRegMem { dst, base, disp } => {
            lemma_fpb_movregmem(dst, base, disp);
        },
        Instr::MovMemImm { base, disp, imm } => {
            lemma_fpb_movmemimm(base, disp, imm);
        },
        Instr::MovImm8 { reg, imm } => {
            lemma_fpb_movimm8(reg, imm);
        },
        Instr::MovImm { w, reg, imm } => {
            lemma_fpb_movimm(w, reg, imm);
        },
        Instr::Ret => {
            lemma_fpb_ret();
        },
        Instr::Endbr64 => {
            lemma_fpb_endbr64();
        },
        _ => {},
    }
}

/// Round-trip disassembly: for every supported instruction form that
/// records a line (the halt sentinel records none, and the
/// ModRM-addressed immediate-to-register move re-assembles to the short
/// form carrying the same value), the line the sink records parses back
/// to the very instruction, and the instruction's canonical encoding
/// decodes back to it, consuming every byte.
pub proof fn lemma_round_trip(i: Instr)
    requires
        i.wf(),
        !(i is Hlt),
        !(i is MovImmSx),
    ensures
        crate::assembler::spec_parse_line(spec_tokens(crate::disasm::spec_format(i), 0)) == Ok::<
            crate::assembler::SpecItem,
            crate::assembler::AsmError,
        >(crate::assembler::SpecItem::Ins { instr: i }),
        spec_decode_full(spec_encode(i), 0, None, false) matches Ok((j, body_ip, end_ip)) && j == i
            && end_ip == spec_encode(i).len(),
{
    lemma_format_parses_back(i);
    lemma_encode_decode(i);
}

/// A byte string free of line breaks: it stays one line of text.
pub open spec fn spec_clean(s: Seq<u8>) -> bool {
    forall|k: int| 0 <= k < s.len() ==> (#[trigger] s[k]) != 0x0a
}

/// Two clean pieces concatenate to a clean piece.
proof fn lemma_clean_concat(a: Seq<u8>, b: Seq<u8>)
    requires
        spec_clean(a),
        spec_clean(b),
    ensures
        spec_clean(a + b),
{
    assert forall|k: int| 0 <= k < (a + b).len() implies ((a + b)[k]) != 0x0a by {
        if k < a.len() {
            assert((a + b)[k] == a[k]);
        } else {
            assert((a + b)[k] == b[k - a.len()]);
        }
    }
}

/// Decimal digit runs are clean.
proof fn lemma_clean_dec(n: u64)
    ensures
        spec_clean(crate::numfmt::spec_dec_u64(n)),
{
    crate::numfmt::lemma_dec_roundtrip(n);
    assert forall|k: int| 0 <= k < crate::numfmt::spec_dec_u64(n).len() implies (
    crate::numfmt::spec_dec_u64(n)[k]) != 0x0a by {
        assert(crate::numfmt::spec_is_digit(crate::numfmt::spec_dec_u64(n)[k]));
    }
}

/// Signed decimal text is clean.
proof fn lemma_clean_int(v: i64)
    ensures
        spec_clean(crate::numfmt::spec_dec_i64(v)),
{
    if v >= 0 {
        lemma_clean_dec(v as u64);
    } else {
        lemma_clean_dec((-(v as int)) as u64);
        lemma_clean_concat(seq![0x2du8], crate::numfmt::spec_dec_u64((-(v as int)) as u64));
    }
}

/// Hexadecimal immediate text is clean.
proof fn lemma_clean_hex(n: u64)
    ensures
        spec_clean(crate::numfmt::spec_hex0x(n)),
{
    crate::numfmt::lemma_hex_roundtrip(n);
    let h = crate::numfmt::spec_hex_u64(n);
    assert forall|k: int| 0 <= k < h.len() implies (h[k]) != 0x0a by {
        assert(crate::numfmt::spec_is_hex_digit(h[k]));
    }
    lemma_clean_concat(seq![0x30u8, 0x78u8], h);
}

/// Displacement text is clean.
proof fn lemma_clean_disp(d: i8)
    ensures
        spec_clean(crate::disasm::spec_disp(d)),
{
    if d >= 0 {
        lemma_clean_dec(d as u64);
        lemma_clean_concat(seq![0x2bu8], crate::numfmt::spec_dec_u64(d as u64));
    } else {
        lemma_clean_dec((-(d as int)) as u64);
        lemma_clean_concat(seq![0x2du8], crate::numfmt::spec_dec_u64((-(d as int)) as u64));
    }
}

/// Register-name text is clean.
proof fn lemma_clean_name_w(w: Width, i: u8)
    requires
        i < 16,
    ensures
        spec_clean(crate::disasm::spec_name_w(w, i)),
{
    match w {
        Width::W16 => lemma_name16_token(i),
        Width::W32 => lemma_name32_token(i),
        Width::W64 => lemma_name64_token(i),
    }
}

/// Every formatted instruction line is one line: it holds no newline.
pub proof fn lemma_format_clean(i: Instr)
    requires
        i.wf(),
    ensures
        spec_clean(crate::disasm::spec_format(i)),
{
    let line = crate::disasm::spec_format(i);
    match i {
        Instr::JeNear { rel } => {
            lemma_clean_int((rel + 4) as i64);
            lemma_clean_concat(
                seq![0x6au8, 0x65u8, 0x20u8, 0x6eu8, 0x65u8, 0x61u8, 0x72u8, 0x20u8],
                crate::numfmt::spec_dec_i64((rel + 4) as i64),
            );
        },
        Instr::JeShort { rel } => {
            lemma_clean_int(rel as i64);
            lemma_clean_concat(
                seq![0x6au8, 0x65u8, 0x20u8],
                crate::numfmt::spec_dec_i64(rel as i64),
            );
        },
        Instr::JmpNear { rel } => {
            lemma_clean_int((rel + 4) as i64);
            lemma_clean_concat(
                seq![0x6au8, 0x6du8, 0x70u8, 0x20u8, 0x6eu8, 0x65u8, 0x61u8, 0x72u8, 0x20u8],
                crate::numfmt::spec_dec_i64((rel + 4) as i64),
            );
        },
        Instr::XorReg { w, dst, src } => {
            lemma_clean_name_w(w, dst);
            lemma_clean_name_w(w, src);
            lemma_clean_concat(
                seq![0x78u8, 0x6fu8, 0x72u8, 0x20u8],
                crate::disasm::spec_name_w(w, dst),
            );
            lemma_clean_concat(
                seq![0x78u8, 0x6fu8, 0x72u8, 0x20u8] + crate::disasm::spec_name_w(w, dst),
                seq![0x2cu8, 0x20u8],
            );
            lemma_clean_concat(
                seq![0x78u8, 0x6fu8, 0x72u8, 0x20u8] + crate::disasm::spec_name_w(w, dst) + seq![
                    0x2cu8,
                    0x20u8,
                ],
                crate::disasm::spec_name_w(w, src),
            );
        },
        Instr::PushRbp => {},
        Instr::Pop { index } => {
            lemma_name64_token(index);
            lemma_clean_concat(seq![0x70u8, 0x6fu8, 0x70u8, 0x20u8], spec_name64(index));
        },
        Instr::CmpMemImm { base, disp, imm } => {
            lemma_name64_token(base);
            lemma_clean_disp(disp);
            lemma_clean_dec(imm as u64);
            let p1 = seq![
                0x63u8,
                0x6du8,
                0x70u8,
                0x20u8,
                0x62u8,
                0x79u8,
                0x74u8,
                0x65u8,
                0x20u8,
                0x5bu8,
            ];
            lemma_clean_concat(p1, spec_name64(base));
            lemma_clean_concat(p1 + spec_name64(base), crate::disasm::spec_disp(disp));
            lemma_clean_concat(
                p1 + spec_name64(base) + crate::disasm::spec_disp(disp),
                seq![0x5du8, 0x2cu8, 0x20u8],
            );
            lemma_clean_concat(
                p1 + spec_name64(base) + crate::disasm::spec_disp(disp) + seq![
                    0x5du8,
                    0x2cu8,
                    0x20u8,
                ],
                crate::numfmt::spec_dec_u64(imm as u64),
            );
        },
        Instr::SubRegImm { w64, reg, imm } => {
            if w64 {
                lemma_name64_token(reg);
            } else {
                lemma_name32_token(reg);
            }
            let nm = if w64 {
                spec_name64(reg)
            } else {
                spec_name32(reg)
            };
            lemma_clean_int(imm as i64);
            lemma_clean_concat(seq![0x73u8, 0x75u8, 0x62u8, 0x20u8], nm);
            lemma_clean_concat(seq![0x73u8, 0x75u8, 0x62u8, 0x20u8] + nm, seq![0x2cu8, 0x20u8]);
            lemma_clean_concat(
                seq![0x73u8, 0x75u8, 0x62u8, 0x20u8] + nm + seq![0x2cu8, 0x20u8],
                crate::numfmt::spec_dec_i64(imm as i64),
            );
        },
        Instr::MovMemReg8 { base, disp, src } => {
            lemma_name64_token(base);
            lemma_name8_token(src);
            lemma_clean_disp(disp);
            let p1 = seq![0x6du8, 0x6fu8, 0x76u8, 0x20u8, 0x5bu8];
            lemma_clean_concat(p1, spec_name64(base));
            lemma_clean_concat(p1 + spec_name64(base), crate::disasm::spec_disp(disp));
            lemma_clean_concat(
                p1 + spec_name64(base) + crate::disasm::spec_disp(disp),
                seq![0x5du8, 0x2cu8, 0x20u8],
            );
            lemma_clean_concat(
                p1 + spec_name64(base) + crate::disasm::spec_disp(disp) + seq![
                    0x5du8,
                    0x2cu8,
                    0x20u8,
                ],
                spec_name8(src),
            );
        },
        Instr::MovRegReg { w64, dst, src } => {
            if w64 {
                lemma_name64_token(dst);
                lemma_name64_token(src);
            } else {
                lemma_name32_token(dst);
                lemma_name32_token(src);
            }
            let a = if w64 {
                spec_name64(dst)
            } else {
                spec_name32(dst)
            };
            let b = if w64 {
                spec_name64(src)
            } else {
                spec_name32(src)
            };
            lemma_clean_concat(seq![0x6du8, 0x6fu8, 0x76u8, 0x20u8], a);
            lemma_clean_concat(seq![0x6du8, 0x6fu8, 0x76u8, 0x20u8] + a, seq![0x2cu8, 0x20u8]);
            lemma_clean_concat(
                seq![0x6du8, 0x6fu8, 0x76u8, 0x20u8] + a + seq![0x2cu8, 0x20u8],
                b,
            );
        },
        Instr::MovRegMem { dst, base, disp } => {
            lemma_name32_token(dst);
            lemma_name64_token(base);
            lemma_clean_disp(disp);
            let p1 = seq![0x6du8, 0x6fu8, 0x76u8, 0x20u8];
            lemma_clean_concat(p1, spec_name32(dst));
            lemma_clean_concat(p1 + spec_name32(dst), seq![0x2cu8, 0x20u8, 0x5bu8]);
            lemma_clean_concat(
                p1 + spec_name32(dst) + seq![0x2cu8, 0x20u8, 0x5bu8],
                spec_name64(base),
            );
            lemma_clean_concat(
                p1 + spec_name32(dst) + seq![0x2cu8, 0x20u8, 0x5bu8] + spec_name64(base),
                crate::disasm::spec_disp(disp),
            );
            lemma_clean_concat(
                p1 + spec_name32(dst) + seq![0x2cu8, 0x20u8, 0x5bu8] + spec_name64(base)
                    + crate::disasm::spec_disp(disp),
                seq![0x5du8],
            );
        },
        Instr::MovMemImm { base, disp, imm } => {
            lemma_name64_token(base);
            lemma_clean_disp(disp);
            lemma_clean_int(imm as i64);
            let p1 = seq![
                0x6du8,
                0x6fu8,
                0x76u8,
                0x20u8,
                0x64u8,
                0x77u8,
                0x6fu8,
                0x72u8,
                0x64u8,
                0x20u8,
                0x5bu8,
            ];
            lemma_clean_concat(p1, spec_name64(base));
            lemma_clean_concat(p1 + spec_name64(base), crate::disasm::spec_disp(disp));
            lemma_clean_concat(
                p1 + spec_name64(base) + crate::disasm::spec_disp(disp),
                seq![0x5du8, 0x2cu8, 0x20u8],
            );
            lemma_clean_concat(
                p1 + spec_name64(base) + crate::disasm::spec_disp(disp) + seq![
                    0x5du8,
                    0x2cu8,
                    0x20u8,
                ],
                crate::numfmt::spec_dec_i64(imm as i64),
            );
        },
        Instr::MovImm8 { reg, imm } => {
            lemma_name8_token(reg);
            lemma_clean_dec(imm as u64);
            let p1 = seq![0x6du8, 0x6fu8, 0x76u8, 0x20u8];
            lemma_clean_concat(p1, spec_name8(reg));
            lemma_clean_concat(p1 + spec_name8(reg), seq![0x2cu8, 0x20u8]);
            lemma_clean_concat(
                p1 + spec_name8(reg) + seq![0x2cu8, 0x20u8],
                crate::numfmt::spec_dec_u64(imm as u64),
            );
        },
        Instr::MovImm { w, reg, imm } => {
            lemma_clean_name_w(w, reg);
            lemma_clean_hex(imm);
            let p1 = seq![0x6du8, 0x6fu8, 0x76u8, 0x20u8];
            lemma_clean_concat(p1, crate::disasm::spec_name_w(w, reg));
            lemma_clean_concat(p1 + crate::disasm::spec_name_w(w, reg), seq![0x2cu8, 0x20u8]);
            lemma_clean_concat(
                p1 + crate::disasm::spec_name_w(w, reg) + seq![0x2cu8, 0x20u8],
                crate::numfmt::spec_hex0x(imm),
            );
        },
        Instr::MovImmSx { reg, imm } => {
            lemma_name64_token(reg);
            lemma_clean_hex(crate::disasm::spec_sx_bits(imm));
            let p1 = seq![0x6du8, 0x6fu8, 0x76u8, 0x20u8];
            lemma_clean_concat(p1, spec_name64(reg));
            lemma_clean_concat(p1 + spec_name64(reg), seq![0x2cu8, 0x20u8]);
            lemma_clean_concat(
                p1 + spec_name64(reg) + seq![0x2cu8, 0x20u8],
                crate::numfmt::spec_hex0x(crate::disasm::spec_sx_bits(imm)),
            );
        },
        Instr::Ret => {},
        Instr::Endbr64 => {},
        Instr::Hlt => {},
    }
}

use crate::machine::spec_join_lines;

/// A run of non-newline bytes ending at a newline is one line.
proof fn lemma_line_break_at(text: Seq<u8>, i: int, j: int)
    requires
        0 <= i <= j <= text.len(),
        forall|k: int| i <= k < j ==> (#[trigger] text[k]) != 0x0a,
        j == text.len() || text[j] == 0x0a,
    ensures
        crate::assembler::spec_line_break(text, i) == j,
    decreases j - i,
{
    if i < j {
        lemma_line_break_at(text, i + 1, j);
    }
}

/// Splitting a join of clean lines gives the lines back, plus the empty
/// line after the final newline.
proof fn lemma_split_join_at(ls: Seq<Seq<u8>>, text: Seq<u8>, i: int)
    requires
        0 <= i <= text.len(),
        text.skip(i) == spec_join_lines(ls),
        forall|k: int| 0 <= k < ls.len() ==> spec_clean(#[trigger] ls[k]),
    ensures
        crate::assembler::spec_split_lines(text, i) == ls + seq![Seq::<u8>::empty()],
    decreases ls.len(),
{
    if ls.len() == 0 {
        assert(text.skip(i).len() == 0);
        assert(i == text.len());
        lemma_line_break_at(text, i, i);
        assert(text.subrange(i, i) =~= Seq::<u8>::empty());
        assert(crate::assembler::spec_split_lines(text, i + 1) =~= Seq::<Seq<u8>>::empty());
        assert(crate::assembler::spec_split_lines(text, i) =~= ls + seq![Seq::<u8>::empty()]);
    } else {
        let l0 = ls[0];
        let rest = ls.drop_first();
        let j = i + l0.len() as int;
        assert(text.skip(i).len() == text.len() - i);
        assert(j + 1 <= text.len());
        assert forall|k: int| i <= k < j implies (#[trigger] text[k]) != 0x0a by {
            assert(text[k] == text.skip(i)[k - i]);
            assert(text.skip(i)[k - i] == l0[k - i]);
        }
        assert(text[j] == text.skip(i)[j - i]);
        assert(text[j] == 0x0a);
        lemma_line_break_at(text, i, j);
        assert(text.subrange(i, j) =~= l0);
        assert(text.skip(i).len() == l0.len() + 1 + spec_join_lines(rest).len());
        assert forall|m: int| 0 <= m < spec_join_lines(rest).len() implies text.skip(j + 1)[m]
            == spec_join_lines(rest)[m] by {
            assert(text.skip(j + 1)[m] == text[j + 1 + m]);
            assert(text[j + 1 + m] == text.skip(i)[l0.len() + 1 + m]);
            assert(text.skip(i)[l0.len() + 1 + m] == spec_join_lines(ls)[l0.len() + 1 + m]);
            assert(spec_join_lines(ls)[l0.len() + 1 + m] == spec_join_lines(rest)[m]);
        }
        assert(text.skip(j + 1).len() == spec_join_lines(rest).len());
        assert(text.skip(j + 1) =~= spec_join_lines(rest));
        lemma_split_join_at(rest, text, j + 1);
        assert(crate::assembler::spec_split_lines(text, i) == seq![l0]
            + crate::assembler::spec_split_lines(text, j + 1));
        assert(seq![l0] + (rest + seq![Seq::<u8>::empty()]) =~= ls + seq![Seq::<u8>::empty()]);
    }
}

/// The lines a run of instructions prints, in order.
pub open spec fn spec_trace_lines(instrs: Seq<Instr>) -> Seq<Seq<u8>> {
    Seq::new(instrs.len(), |k: int| crate::disasm::spec_format(instrs[k]))
}

/// The canonical encodings of a run of instructions, concatenated from
/// index `k` on.
pub open spec fn spec_cat_encodings(instrs: Seq<Instr>, k: int) -> Seq<u8>
    decreases instrs.len() - k,
{
    if k < 0 || k >= instrs.len() {
        Seq::empty()
    } else {
        spec_encode(instrs[k]) + spec_cat_encodings(instrs, k + 1)
    }
}

/// The parsed items of a trace's lines: one instruction per line, and
/// the empty item of the line after the final newline.
spec fn spec_trace_items(instrs: Seq<Instr>, k: int) -> Seq<crate::assembler::SpecItem>
    decreases instrs.len() - k,
{
    if k < 0 || k >= instrs.len() {
        seq![crate::assembler::SpecItem::Empty]
    } else {
        seq![crate::assembler::SpecItem::Ins { instr: instrs[k] }] + spec_trace_items(
            instrs,
            k + 1,
        )
    }
}

proof fn lemma_trace_items_index(instrs: Seq<Instr>, k: int, j: int)
    requires
        0 <= k <= instrs.len(),
        k <= j <= instrs.len(),
    ensures
        spec_trace_items(instrs, k).len() == instrs.len() - k + 1,
        j < instrs.len() ==> spec_trace_items(instrs, k)[j - k]
            == (crate::assembler::SpecItem::Ins { instr: instrs[j] }),
        spec_trace_items(instrs, k)[instrs.len() - k] == crate::assembler::SpecItem::Empty,
    decreases instrs.len() - k,
{
    if k < instrs.len() {
        if j <= k + 1 {
            lemma_trace_items_index(instrs, k + 1, k + 1);
        } else {
            lemma_trace_items_index(instrs, k + 1, j);
        }
        if k < j < instrs.len() {
            assert(spec_trace_items(instrs, k)[j - k] == spec_trace_items(instrs, k + 1)[j - (k
                + 1)]);
        }
    }
}

proof fn lemma_items_trace(instrs: Seq<Instr>, k: int)
    requires
        forall|m: int|
            0 <= m < instrs.len() ==> (#[trigger] instrs[m]).wf() && !(instrs[m] is Hlt) && !(
            instrs[m] is MovImmSx),
        0 <= k <= instrs.len(),
    ensures
        crate::assembler::spec_items(
            spec_trace_lines(instrs) + seq![Seq::<u8>::empty()],
            k,
        ) == Ok::<Seq<crate::assembler::SpecItem>, crate::assembler::AsmError>(
            spec_trace_items(instrs, k),
        ),
    decreases instrs.len() - k,
{
    let lines = spec_trace_lines(instrs) + seq![Seq::<u8>::empty()];
    if k == instrs.len() {
        assert(lines[k] =~= Seq::<u8>::empty());
        assert(spec_tokens(lines[k], 0) =~= Seq::<Seq<u8>>::empty());
        assert(crate::assembler::spec_parse_line(spec_tokens(lines[k], 0)) == Ok::<
            crate::assembler::SpecItem,
            crate::assembler::AsmError,
        >(crate::assembler::SpecItem::Empty));
        assert(crate::assembler::spec_items(lines, k + 1) == Ok::<
            Seq<crate::assembler::SpecItem>,
            crate::assembler::AsmError,
        >(Seq::empty()));
        assert(seq![crate::assembler::SpecItem::Empty] + Seq::<
            crate::assembler::SpecItem,
        >::empty() =~= spec_trace_items(instrs, k));
    } else {
        assert(lines[k] == crate::disasm::spec_format(instrs[k]));
        lemma_format_parses_back(instrs[k]);
        lemma_items_trace(instrs, k + 1);
        assert(seq![crate::assembler::SpecItem::Ins { instr: instrs[k] }] + spec_trace_items(
            instrs,
            k + 1,
        ) =~= spec_trace_items(instrs, k));
    }
}

proof fn lemma_emit_trace(instrs: Seq<Instr>, k: int, pos: int)
    requires
        forall|m: int|
            0 <= m < instrs.len() ==> (#[trigger] instrs[m]).wf() && !(instrs[m] is Hlt) && !(
            instrs[m] is MovImmSx),
        0 <= k <= instrs.len() + 1,
    ensures
        crate::assembler::spec_emit(spec_trace_items(instrs, 0), k, pos) == Ok::<
            Seq<u8>,
            crate::assembler::AsmError,
        >(spec_cat_encodings(instrs, k)),
    decreases instrs.len() + 1 - k,
{
    let items = spec_trace_items(instrs, 0);
    lemma_trace_items_index(instrs, 0, 0);
    if k >= items.len() {
        assert(spec_cat_encodings(instrs, k) =~= Seq::<u8>::empty());
    } else {
        if k < instrs.len() {
            lemma_trace_items_index(instrs, 0, k);
            assert(items[k] == (crate::assembler::SpecItem::Ins { instr: instrs[k] }));
        } else {
            assert(items[k] == crate::assembler::SpecItem::Empty);
        }
        lemma_emit_trace(instrs, k + 1, pos + crate::assembler::spec_item_size(items[k]));
        if k < instrs.len() {
            assert(spec_encode(instrs[k]) + spec_cat_encodings(instrs, k + 1) =~= spec_cat_encodings(
                instrs,
                k,
            ));
        } else {
            assert(Seq::<u8>::empty() + spec_cat_encodings(instrs, k + 1) =~= spec_cat_encodings(
                instrs,
                k,
            ));
        }
    }
}

/// Round-trip disassembly of a whole trace: for any sequence of
/// instructions the engine can print (each supported, none the halt
/// sentinel nor the ModRM-addressed immediate move), re-assembling the
/// accumulated sink text --- every line followed by its newline, exactly
/// as the accumulating sink builds it --- yields byte for byte the
/// concatenation of the instructions' canonical encodings.
///
/// Together with the engine's own contracts this covers a full run: a
/// run's sink ends with the formatted lines of the executed instructions
/// in order, and the accumulating sink's text is their newline join.
pub proof fn lemma_trace_reassembles(instrs: Seq<Instr>)
    requires
        forall|m: int|
            0 <= m < instrs.len() ==> (#[trigger] instrs[m]).wf() && !(instrs[m] is Hlt) && !(
            instrs[m] is MovImmSx),
        spec_join_lines(spec_trace_lines(instrs)).len() <= 4096,
    ensures
        crate::assembler::spec_assemble(spec_join_lines(spec_trace_lines(instrs))) == Ok::<
            Seq<u8>,
            crate::assembler::AsmError,
        >(spec_cat_encodings(instrs, 0)),
{
    let lines = spec_trace_lines(instrs);
    let text = spec_join_lines(lines);
    assert forall|k: int| 0 <= k < lines.len() implies spec_clean(#[trigger] lines[k]) by {
        lemma_format_clean(instrs[k]);
    }
    assert(text.skip(0) =~= text);
    lemma_split_join_at(lines, text, 0);
    lemma_items_trace(instrs, 0);
    lemma_emit_trace(instrs, 0, 0);
}

} // verus!
