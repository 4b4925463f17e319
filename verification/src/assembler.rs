//! The textual assembler for the supported subset.
//!
//! It reads the same syntax the disassembly sink emits (and the
//! upper-case size keywords and label forms that hand-written sources
//! use), resolves labels in a second pass, and emits the canonical
//! encodings of [`crate::encode`].  A numeric operand of a near jump is
//! the printed displacement-plus-four, so assembling a disassembly line
//! reproduces the original jump bytes.

use vstd::prelude::*;
use crate::decode::{Instr, Width};
use crate::encode::{encode_instr, spec_encode, spec_prefix};
use crate::disasm::{spec_name16, spec_name32, spec_name64, spec_name8};
use crate::numfmt::{
    parse_dec_u64, parse_hex_u64, spec_all_digits, spec_all_hex_digits, spec_dec_val, spec_hex_val,
};

verus! {

/// A reason a piece of assembly text is refused.
#[derive(Clone, Copy, PartialEq, Eq, Structural, Debug)]
pub enum AsmError {
    /// A mnemonic or operand shape outside the supported subset.
    Unsupported,
    /// An operand that cannot be read (a bad number, register or memory
    /// operand, or one out of range).
    BadOperand,
    /// A jump to a label that no line defines.
    UnknownLabel,
}

/// Whether a token is the word `mov`.
pub open spec fn spec_is_mov(t: Seq<u8>) -> bool {
    t == seq![0x6du8, 0x6fu8, 0x76u8]
}

fn is_mov(t: &Vec<u8>) -> (r: bool)
    ensures
        r == spec_is_mov(t@),
{
    if t.len() == 3 && t[0] == 0x6d && t[1] == 0x6f && t[2] == 0x76 {
        proof {
            assert(t@ =~= seq![0x6du8, 0x6fu8, 0x76u8]);
        }
        true
    } else {
        false
    }
}

/// Whether a token is the word `xor`.
pub open spec fn spec_is_xor(t: Seq<u8>) -> bool {
    t == seq![0x78u8, 0x6fu8, 0x72u8]
}

fn is_xor(t: &Vec<u8>) -> (r: bool)
    ensures
        r == spec_is_xor(t@),
{
    if t.len() == 3 && t[0] == 0x78 && t[1] == 0x6f && t[2] == 0x72 {
        proof {
            assert(t@ =~= seq![0x78u8, 0x6fu8, 0x72u8]);
        }
        true
    } else {
        false
    }
}

/// Whether a token is the word `sub`.
pub open spec fn spec_is_sub(t: Seq<u8>) -> bool {
    t == seq![0x73u8, 0x75u8, 0x62u8]
}

fn is_sub(t: &Vec<u8>) -> (r: bool)
    ensures
        r == spec_is_sub(t@),
{
    if t.len() == 3 && t[0] == 0x73 && t[1] == 0x75 && t[2] == 0x62 {
        proof {
            assert(t@ =~= seq![0x73u8, 0x75u8, 0x62u8]);
        }
        true
    } else {
        false
    }
}

/// Whether a token is the word `cmp`.
pub open spec fn spec_is_cmp(t: Seq<u8>) -> bool {
    t == seq![0x63u8, 0x6du8, 0x70u8]
}

fn is_cmp(t: &Vec<u8>) -> (r: bool)
    ensures
        r == spec_is_cmp(t@),
{
    if t.len() == 3 && t[0] == 0x63 && t[1] == 0x6d && t[2] == 0x70 {
        proof {
            assert(t@ =~= seq![0x63u8, 0x6du8, 0x70u8]);
        }
        true
    } else {
        false
    }
}

/// Whether a token is the word `push`.
pub open spec fn spec_is_push(t: Seq<u8>) -> bool {
    t == seq![0x70u8, 0x75u8, 0x73u8, 0x68u8]
}

fn is_push(t: &Vec<u8>) -> (r: bool)
    ensures
        r == spec_is_push(t@),
{
    if t.len() == 4 && t[0] == 0x70 && t[1] == 0x75 && t[2] == 0x73 && t[3] == 0x68 {
        proof {
            assert(t@ =~= seq![0x70u8, 0x75u8, 0x73u8, 0x68u8]);
        }
        true
    } else {
        false
    }
}

/// Whether a token is the word `pop`.
pub open spec fn spec_is_pop(t: Seq<u8>) -> bool {
    t == seq![0x70u8, 0x6fu8, 0x70u8]
}

fn is_pop(t: &Vec<u8>) -> (r: bool)
    ensures
        r == spec_is_pop(t@),
{
    if t.len() == 3 && t[0] == 0x70 && t[1] == 0x6f && t[2] == 0x70 {
        proof {
            assert(t@ =~= seq![0x70u8, 0x6fu8, 0x70u8]);
        }
        true
    } else {
        false
    }
}

/// Whether a token is the word `ret`.
pub open spec fn spec_is_ret(t: Seq<u8>) -> bool {
    t == seq![0x72u8, 0x65u8, 0x74u8]
}

fn is_ret(t: &Vec<u8>) -> (r: bool)
    ensures
        r == spec_is_ret(t@),
{
    if t.len() == 3 && t[0] == 0x72 && t[1] == 0x65 && t[2] == 0x74 {
        proof {
            assert(t@ =~= seq![0x72u8, 0x65u8, 0x74u8]);
        }
        true
    } else {
        false
    }
}

/// Whether a token is the word `hlt`.
pub open spec fn spec_is_hlt(t: Seq<u8>) -> bool {
    t == seq![0x68u8, 0x6cu8, 0x74u8]
}

fn is_hlt(t: &Vec<u8>) -> (r: bool)
    ensures
        r == spec_is_hlt(t@),
{
    if t.len() == 3 && t[0] == 0x68 && t[1] == 0x6c && t[2] == 0x74 {
        proof {
            assert(t@ =~= seq![0x68u8, 0x6cu8, 0x74u8]);
        }
        true
    } else {
        false
    }
}

/// Whether a token is the word `endbr64`.
pub open spec fn spec_is_endbr64(t: Seq<u8>) -> bool {
    t == seq![0x65u8, 0x6eu8, 0x64u8, 0x62u8, 0x72u8, 0x36u8, 0x34u8]
}

fn is_endbr64(t: &Vec<u8>) -> (r: bool)
    ensures
        r == spec_is_endbr64(t@),
{
    if t.len() == 7 && t[0] == 0x65 && t[1] == 0x6e && t[2] == 0x64 && t[3] == 0x62 && t[4] == 0x72 && t[5] == 0x36 && t[6] == 0x34 {
        proof {
            assert(t@ =~= seq![0x65u8, 0x6eu8, 0x64u8, 0x62u8, 0x72u8, 0x36u8, 0x34u8]);
        }
        true
    } else {
        false
    }
}

/// Whether a token is the word `je`.
pub open spec fn spec_is_je(t: Seq<u8>) -> bool {
    t == seq![0x6au8, 0x65u8]
}

fn is_je(t: &Vec<u8>) -> (r: bool)
    ensures
        r == spec_is_je(t@),
{
    if t.len() == 2 && t[0] == 0x6a && t[1] == 0x65 {
        proof {
            assert(t@ =~= seq![0x6au8, 0x65u8]);
        }
        true
    } else {
        false
    }
}

/// Whether a token is the word `jmp`.
pub open spec fn spec_is_jmp(t: Seq<u8>) -> bool {
    t == seq![0x6au8, 0x6du8, 0x70u8]
}

fn is_jmp(t: &Vec<u8>) -> (r: bool)
    ensures
        r == spec_is_jmp(t@),
{
    if t.len() == 3 && t[0] == 0x6a && t[1] == 0x6d && t[2] == 0x70 {
        proof {
            assert(t@ =~= seq![0x6au8, 0x6du8, 0x70u8]);
        }
        true
    } else {
        false
    }
}

/// Whether a token is the word `near`.
pub open spec fn spec_is_near(t: Seq<u8>) -> bool {
    t == seq![0x6eu8, 0x65u8, 0x61u8, 0x72u8]
}

fn is_near(t: &Vec<u8>) -> (r: bool)
    ensures
        r == spec_is_near(t@),
{
    if t.len() == 4 && t[0] == 0x6e && t[1] == 0x65 && t[2] == 0x61 && t[3] == 0x72 {
        proof {
            assert(t@ =~= seq![0x6eu8, 0x65u8, 0x61u8, 0x72u8]);
        }
        true
    } else {
        false
    }
}

/// Whether a token is the word `rbp`.
pub open spec fn spec_is_rbp(t: Seq<u8>) -> bool {
    t == seq![0x72u8, 0x62u8, 0x70u8]
}

fn is_rbp(t: &Vec<u8>) -> (r: bool)
    ensures
        r == spec_is_rbp(t@),
{
    if t.len() == 3 && t[0] == 0x72 && t[1] == 0x62 && t[2] == 0x70 {
        proof {
            assert(t@ =~= seq![0x72u8, 0x62u8, 0x70u8]);
        }
        true
    } else {
        false
    }
}

/// Whether a token is the `byte` size keyword in either case.
pub open spec fn spec_is_byte_kw(t: Seq<u8>) -> bool {
    t == seq![0x62u8, 0x79u8, 0x74u8, 0x65u8] || t == seq![0x42u8, 0x59u8, 0x54u8, 0x45u8]
}

fn is_byte_kw(t: &Vec<u8>) -> (r: bool)
    ensures
        r == spec_is_byte_kw(t@),
{

    if t.len() == 4 && t[0] == 0x62 && t[1] == 0x79 && t[2] == 0x74 && t[3] == 0x65 {
        proof {
            assert(t@ =~= seq![0x62u8, 0x79u8, 0x74u8, 0x65u8]);
        }
        return true;
    }

    if t.len() == 4 && t[0] == 0x42 && t[1] == 0x59 && t[2] == 0x54 && t[3] == 0x45 {
        proof {
            assert(t@ =~= seq![0x42u8, 0x59u8, 0x54u8, 0x45u8]);
        }
        return true;
    }

    false
}

/// Whether a token is the `dword` size keyword in either case.
pub open spec fn spec_is_dword_kw(t: Seq<u8>) -> bool {
    t == seq![0x64u8, 0x77u8, 0x6fu8, 0x72u8, 0x64u8] || t == seq![0x44u8, 0x57u8, 0x4fu8, 0x52u8, 0x44u8]
}

fn is_dword_kw(t: &Vec<u8>) -> (r: bool)
    ensures
        r == spec_is_dword_kw(t@),
{

    if t.len() == 5 && t[0] == 0x64 && t[1] == 0x77 && t[2] == 0x6f && t[3] == 0x72 && t[4] == 0x64 {
        proof {
            assert(t@ =~= seq![0x64u8, 0x77u8, 0x6fu8, 0x72u8, 0x64u8]);
        }
        return true;
    }

    if t.len() == 5 && t[0] == 0x44 && t[1] == 0x57 && t[2] == 0x4f && t[3] == 0x52 && t[4] == 0x44 {
        proof {
            assert(t@ =~= seq![0x44u8, 0x57u8, 0x4fu8, 0x52u8, 0x44u8]);
        }
        return true;
    }

    false
}

/// The register number a token names in the name64 family, if any.
pub open spec fn spec_parse_name64(t: Seq<u8>) -> Option<u8> {
    if t == spec_name64(0) {
        Some(0u8)
    } else if t == spec_name64(1) {
        Some(1u8)
    } else if t == spec_name64(2) {
        Some(2u8)
    } else if t == spec_name64(3) {
        Some(3u8)
    } else if t == spec_name64(4) {
        Some(4u8)
    } else if t == spec_name64(5) {
        Some(5u8)
    } else if t == spec_name64(6) {
        Some(6u8)
    } else if t == spec_name64(7) {
        Some(7u8)
    } else if t == spec_name64(8) {
        Some(8u8)
    } else if t == spec_name64(9) {
        Some(9u8)
    } else if t == spec_name64(10) {
        Some(10u8)
    } else if t == spec_name64(11) {
        Some(11u8)
    } else if t == spec_name64(12) {
        Some(12u8)
    } else if t == spec_name64(13) {
        Some(13u8)
    } else if t == spec_name64(14) {
        Some(14u8)
    } else if t == spec_name64(15) {
        Some(15u8)
    } else {
        None
    }
}

/// Reads a register name of the name64 family.
pub fn parse_name64(t: &Vec<u8>) -> (r: Option<u8>)
    ensures
        r == spec_parse_name64(t@),
        r matches Some(k) ==> k < 16,
{

    if t.len() == 3 && t[0] == 0x72 && t[1] == 0x61 && t[2] == 0x78 {
        proof {
            assert(t@ =~= spec_name64(0));
        }
        return Some(0);
    }

    if t.len() == 3 && t[0] == 0x72 && t[1] == 0x63 && t[2] == 0x78 {
        proof {
            assert(t@ =~= spec_name64(1));
        }
        return Some(1);
    }

    if t.len() == 3 && t[0] == 0x72 && t[1] == 0x64 && t[2] == 0x78 {
        proof {
            assert(t@ =~= spec_name64(2));
        }
        return Some(2);
    }

    if t.len() == 3 && t[0] == 0x72 && t[1] == 0x62 && t[2] == 0x78 {
        proof {
            assert(t@ =~= spec_name64(3));
        }
        return Some(3);
    }

    if t.len() == 3 && t[0] == 0x72 && t[1] == 0x73 && t[2] == 0x70 {
        proof {
            assert(t@ =~= spec_name64(4));
        }
        return Some(4);
    }

    if t.len() == 3 && t[0] == 0x72 && t[1] == 0x62 && t[2] == 0x70 {
        proof {
            assert(t@ =~= spec_name64(5));
        }
        return Some(5);
    }

    if t.len() == 3 && t[0] == 0x72 && t[1] == 0x73 && t[2] == 0x69 {
        proof {
            assert(t@ =~= spec_name64(6));
        }
        return Some(6);
    }

    if t.len() == 3 && t[0] == 0x72 && t[1] == 0x64 && t[2] == 0x69 {
        proof {
            assert(t@ =~= spec_name64(7));
        }
        return Some(7);
    }

    if t.len() == 2 && t[0] == 0x72 && t[1] == 0x38 {
        proof {
            assert(t@ =~= spec_name64(8));
        }
        return Some(8);
    }

    if t.len() == 2 && t[0] == 0x72 && t[1] == 0x39 {
        proof {
            assert(t@ =~= spec_name64(9));
        }
        return Some(9);
    }

    if t.len() == 3 && t[0] == 0x72 && t[1] == 0x31 && t[2] == 0x30 {
        proof {
            assert(t@ =~= spec_name64(10));
        }
        return Some(10);
    }

    if t.len() == 3 && t[0] == 0x72 && t[1] == 0x31 && t[2] == 0x31 {
        proof {
            assert(t@ =~= spec_name64(11));
        }
        return Some(11);
    }

    if t.len() == 3 && t[0] == 0x72 && t[1] == 0x31 && t[2] == 0x32 {
        proof {
            assert(t@ =~= spec_name64(12));
        }
        return Some(12);
    }

    if t.len() == 3 && t[0] == 0x72 && t[1] == 0x31 && t[2] == 0x33 {
        proof {
            assert(t@ =~= spec_name64(13));
        }
        return Some(13);
    }

    if t.len() == 3 && t[0] == 0x72 && t[1] == 0x31 && t[2] == 0x34 {
        proof {
            assert(t@ =~= spec_name64(14));
        }
        return Some(14);
    }

    if t.len() == 3 && t[0] == 0x72 && t[1] == 0x31 && t[2] == 0x35 {
        proof {
            assert(t@ =~= spec_name64(15));
        }
        return Some(15);
    }

    proof {

        assert(t@ != spec_name64(0));

        assert(t@ != spec_name64(1));

        assert(t@ != spec_name64(2));

        assert(t@ != spec_name64(3));

        assert(t@ != spec_name64(4));

        assert(t@ != spec_name64(5));

        assert(t@ != spec_name64(6));

        assert(t@ != spec_name64(7));

        assert(t@ != spec_name64(8));

        assert(t@ != spec_name64(9));

        assert(t@ != spec_name64(10));

        assert(t@ != spec_name64(11));

        assert(t@ != spec_name64(12));

        assert(t@ != spec_name64(13));

        assert(t@ != spec_name64(14));

        assert(t@ != spec_name64(15));

    }
    None
}

/// The register number a token names in the name32 family, if any.
pub open spec fn spec_parse_name32(t: Seq<u8>) -> Option<u8> {
    if t == spec_name32(0) {
        Some(0u8)
    } else if t == spec_name32(1) {
        Some(1u8)
    } else if t == spec_name32(2) {
        Some(2u8)
    } else if t == spec_name32(3) {
        Some(3u8)
    } else if t == spec_name32(4) {
        Some(4u8)
    } else if t == spec_name32(5) {
        Some(5u8)
    } else if t == spec_name32(6) {
        Some(6u8)
    } else if t == spec_name32(7) {
        Some(7u8)
    } else if t == spec_name32(8) {
        Some(8u8)
    } else if t == spec_name32(9) {
        Some(9u8)
    } else if t == spec_name32(10) {
        Some(10u8)
    } else if t == spec_name32(11) {
        Some(11u8)
    } else if t == spec_name32(12) {
        Some(12u8)
    } else if t == spec_name32(13) {
        Some(13u8)
    } else if t == spec_name32(14) {
        Some(14u8)
    } else if t == spec_name32(15) {
        Some(15u8)
    } else {
        None
    }
}

/// Reads a register name of the name32 family.
pub fn parse_name32(t: &Vec<u8>) -> (r: Option<u8>)
    ensures
        r == spec_parse_name32(t@),
        r matches Some(k) ==> k < 16,
{

    if t.len() == 3 && t[0] == 0x65 && t[1] == 0x61 && t[2] == 0x78 {
        proof {
            assert(t@ =~= spec_name32(0));
        }
        return Some(0);
    }

    if t.len() == 3 && t[0] == 0x65 && t[1] == 0x63 && t[2] == 0x78 {
        proof {
            assert(t@ =~= spec_name32(1));
        }
        return Some(1);
    }

    if t.len() == 3 && t[0] == 0x65 && t[1] == 0x64 && t[2] == 0x78 {
        proof {
            assert(t@ =~= spec_name32(2));
        }
        return Some(2);
    }

    if t.len() == 3 && t[0] == 0x65 && t[1] == 0x62 && t[2] == 0x78 {
        proof {
            assert(t@ =~= spec_name32(3));
        }
        return Some(3);
    }

    if t.len() == 3 && t[0] == 0x65 && t[1] == 0x73 && t[2] == 0x70 {
        proof {
            assert(t@ =~= spec_name32(4));
        }
        return Some(4);
    }

    if t.len() == 3 && t[0] == 0x65 && t[1] == 0x62 && t[2] == 0x70 {
        proof {
            assert(t@ =~= spec_name32(5));
        }
        return Some(5);
    }

    if t.len() == 3 && t[0] == 0x65 && t[1] == 0x73 && t[2] == 0x69 {
        proof {
            assert(t@ =~= spec_name32(6));
        }
        return Some(6);
    }

    if t.len() == 3 && t[0] == 0x65 && t[1] == 0x64 && t[2] == 0x69 {
        proof {
            assert(t@ =~= spec_name32(7));
        }
        return Some(7);
    }

    if t.len() == 3 && t[0] == 0x72 && t[1] == 0x38 && t[2] == 0x64 {
        proof {
            assert(t@ =~= spec_name32(8));
        }
        return Some(8);
    }

    if t.len() == 3 && t[0] == 0x72 && t[1] == 0x39 && t[2] == 0x64 {
        proof {
            assert(t@ =~= spec_name32(9));
        }
        return Some(9);
    }

    if t.len() == 4 && t[0] == 0x72 && t[1] == 0x31 && t[2] == 0x30 && t[3] == 0x64 {
        proof {
            assert(t@ =~= spec_name32(10));
        }
        return Some(10);
    }

    if t.len() == 4 && t[0] == 0x72 && t[1] == 0x31 && t[2] == 0x31 && t[3] == 0x64 {
        proof {
            assert(t@ =~= spec_name32(11));
        }
        return Some(11);
    }

    if t.len() == 4 && t[0] == 0x72 && t[1] == 0x31 && t[2] == 0x32 && t[3] == 0x64 {
        proof {
            assert(t@ =~= spec_name32(12));
        }
        return Some(12);
    }

    if t.len() == 4 && t[0] == 0x72 && t[1] == 0x31 && t[2] == 0x33 && t[3] == 0x64 {
        proof {
            assert(t@ =~= spec_name32(13));
        }
        return Some(13);
    }

    if t.len() == 4 && t[0] == 0x72 && t[1] == 0x31 && t[2] == 0x34 && t[3] == 0x64 {
        proof {
            assert(t@ =~= spec_name32(14));
        }
        return Some(14);
    }

    if t.len() == 4 && t[0] == 0x72 && t[1] == 0x31 && t[2] == 0x35 && t[3] == 0x64 {
        proof {
            assert(t@ =~= spec_name32(15));
        }
        return Some(15);
    }

    proof {

        assert(t@ != spec_name32(0));

        assert(t@ != spec_name32(1));

        assert(t@ != spec_name32(2));

        assert(t@ != spec_name32(3));

        assert(t@ != spec_name32(4));

        assert(t@ != spec_name32(5));

        assert(t@ != spec_name32(6));

        assert(t@ != spec_name32(7));

        assert(t@ != spec_name32(8));

        assert(t@ != spec_name32(9));

        assert(t@ != spec_name32(10));

        assert(t@ != spec_name32(11));

        assert(t@ != spec_name32(12));

        assert(t@ != spec_name32(13));

        assert(t@ != spec_name32(14));

        assert(t@ != spec_name32(15));

    }
    None
}

/// The register number a token names in the name16 family, if any.
pub open spec fn spec_parse_name16(t: Seq<u8>) -> Option<u8> {
    if t == spec_name16(0) {
        Some(0u8)
    } else if t == spec_name16(1) {
        Some(1u8)
    } else if t == spec_name16(2) {
        Some(2u8)
    } else if t == spec_name16(3) {
        Some(3u8)
    } else if t == spec_name16(4) {
        Some(4u8)
    } else if t == spec_name16(5) {
        Some(5u8)
    } else if t == spec_name16(6) {
        Some(6u8)
    } else if t == spec_name16(7) {
        Some(7u8)
    } else if t == spec_name16(8) {
        Some(8u8)
    } else if t == spec_name16(9) {
        Some(9u8)
    } else if t == spec_name16(10) {
        Some(10u8)
    } else if t == spec_name16(11) {
        Some(11u8)
    } else if t == spec_name16(12) {
        Some(12u8)
    } else if t == spec_name16(13) {
        Some(13u8)
    } else if t == spec_name16(14) {
        Some(14u8)
    } else if t == spec_name16(15) {
        Some(15u8)
    } else {
        None
    }
}

/// Reads a register name of the name16 family.
pub fn parse_name16(t: &Vec<u8>) -> (r: Option<u8>)
    ensures
        r == spec_parse_name16(t@),
        r matches Some(k) ==> k < 16,
{

    if t.len() == 2 && t[0] == 0x61 && t[1] == 0x78 {
        proof {
            assert(t@ =~= spec_name16(0));
        }
        return Some(0);
    }

    if t.len() == 2 && t[0] == 0x63 && t[1] == 0x78 {
        proof {
            assert(t@ =~= spec_name16(1));
        }
        return Some(1);
    }

    if t.len() == 2 && t[0] == 0x64 && t[1] == 0x78 {
        proof {
            assert(t@ =~= spec_name16(2));
        }
        return Some(2);
    }

    if t.len() == 2 && t[0] == 0x62 && t[1] == 0x78 {
        proof {
            assert(t@ =~= spec_name16(3));
        }
        return Some(3);
    }

    if t.len() == 2 && t[0] == 0x73 && t[1] == 0x70 {
        proof {
            assert(t@ =~= spec_name16(4));
        }
        return Some(4);
    }

    if t.len() == 2 && t[0] == 0x62 && t[1] == 0x70 {
        proof {
            assert(t@ =~= spec_name16(5));
        }
        return Some(5);
    }

    if t.len() == 2 && t[0] == 0x73 && t[1] == 0x69 {
        proof {
            assert(t@ =~= spec_name16(6));
        }
        return Some(6);
    }

    if t.len() == 2 && t[0] == 0x64 && t[1] == 0x69 {
        proof {
            assert(t@ =~= spec_name16(7));
        }
        return Some(7);
    }

    if t.len() == 3 && t[0] == 0x72 && t[1] == 0x38 && t[2] == 0x77 {
        proof {
            assert(t@ =~= spec_name16(8));
        }
        return Some(8);
    }

    if t.len() == 3 && t[0] == 0x72 && t[1] == 0x39 && t[2] == 0x77 {
        proof {
            assert(t@ =~= spec_name16(9));
        }
        return Some(9);
    }

    if t.len() == 4 && t[0] == 0x72 && t[1] == 0x31 && t[2] == 0x30 && t[3] == 0x77 {
        proof {
            assert(t@ =~= spec_name16(10));
        }
        return Some(10);
    }

    if t.len() == 4 && t[0] == 0x72 && t[1] == 0x31 && t[2] == 0x31 && t[3] == 0x77 {
        proof {
            assert(t@ =~= spec_name16(11));
        }
        return Some(11);
    }

    if t.len() == 4 && t[0] == 0x72 && t[1] == 0x31 && t[2] == 0x32 && t[3] == 0x77 {
        proof {
            assert(t@ =~= spec_name16(12));
        }
        return Some(12);
    }

    if t.len() == 4 && t[0] == 0x72 && t[1] == 0x31 && t[2] == 0x33 && t[3] == 0x77 {
        proof {
            assert(t@ =~= spec_name16(13));
        }
        return Some(13);
    }

    if t.len() == 4 && t[0] == 0x72 && t[1] == 0x31 && t[2] == 0x34 && t[3] == 0x77 {
        proof {
            assert(t@ =~= spec_name16(14));
        }
        return Some(14);
    }

    if t.len() == 4 && t[0] == 0x72 && t[1] == 0x31 && t[2] == 0x35 && t[3] == 0x77 {
        proof {
            assert(t@ =~= spec_name16(15));
        }
        return Some(15);
    }

    proof {

        assert(t@ != spec_name16(0));

        assert(t@ != spec_name16(1));

        assert(t@ != spec_name16(2));

        assert(t@ != spec_name16(3));

        assert(t@ != spec_name16(4));

        assert(t@ != spec_name16(5));

        assert(t@ != spec_name16(6));

        assert(t@ != spec_name16(7));

        assert(t@ != spec_name16(8));

        assert(t@ != spec_name16(9));

        assert(t@ != spec_name16(10));

        assert(t@ != spec_name16(11));

        assert(t@ != spec_name16(12));

        assert(t@ != spec_name16(13));

        assert(t@ != spec_name16(14));

        assert(t@ != spec_name16(15));

    }
    None
}

/// The register number a token names in the name8 family, if any.
pub open spec fn spec_parse_name8(t: Seq<u8>) -> Option<u8> {
    if t == spec_name8(0) {
        Some(0u8)
    } else if t == spec_name8(1) {
        Some(1u8)
    } else if t == spec_name8(2) {
        Some(2u8)
    } else if t == spec_name8(3) {
        Some(3u8)
    } else if t == spec_name8(4) {
        Some(4u8)
    } else if t == spec_name8(5) {
        Some(5u8)
    } else if t == spec_name8(6) {
        Some(6u8)
    } else if t == spec_name8(7) {
        Some(7u8)
    } else {
        None
    }
}

/// Reads a register name of the name8 family.
pub fn parse_name8(t: &Vec<u8>) -> (r: Option<u8>)
    ensures
        r == spec_parse_name8(t@),
        r matches Some(k) ==> k < 8,
{

    if t.len() == 2 && t[0] == 0x61 && t[1] == 0x6c {
        proof {
            assert(t@ =~= spec_name8(0));
        }
        return Some(0);
    }

    if t.len() == 2 && t[0] == 0x63 && t[1] == 0x6c {
        proof {
            assert(t@ =~= spec_name8(1));
        }
        return Some(1);
    }

    if t.len() == 2 && t[0] == 0x64 && t[1] == 0x6c {
        proof {
            assert(t@ =~= spec_name8(2));
        }
        return Some(2);
    }

    if t.len() == 2 && t[0] == 0x62 && t[1] == 0x6c {
        proof {
            assert(t@ =~= spec_name8(3));
        }
        return Some(3);
    }

    if t.len() == 2 && t[0] == 0x61 && t[1] == 0x68 {
        proof {
            assert(t@ =~= spec_name8(4));
        }
        return Some(4);
    }

    if t.len() == 2 && t[0] == 0x63 && t[1] == 0x68 {
        proof {
            assert(t@ =~= spec_name8(5));
        }
        return Some(5);
    }

    if t.len() == 2 && t[0] == 0x64 && t[1] == 0x68 {
        proof {
            assert(t@ =~= spec_name8(6));
        }
        return Some(6);
    }

    if t.len() == 2 && t[0] == 0x62 && t[1] == 0x68 {
        proof {
            assert(t@ =~= spec_name8(7));
        }
        return Some(7);
    }

    proof {

        assert(t@ != spec_name8(0));

        assert(t@ != spec_name8(1));

        assert(t@ != spec_name8(2));

        assert(t@ != spec_name8(3));

        assert(t@ != spec_name8(4));

        assert(t@ != spec_name8(5));

        assert(t@ != spec_name8(6));

        assert(t@ != spec_name8(7));

    }
    None
}

/// The first position at or after `i` that holds a space.
pub open spec fn spec_token_end(line: Seq<u8>, i: int) -> int
    decreases line.len() - i,
{
    if i < 0 || i >= line.len() {
        line.len() as int
    } else if line[i] == 0x20 {
        i
    } else {
        spec_token_end(line, i + 1)
    }
}

/// A token boundary never lies before its start nor past the line.
pub proof fn lemma_token_end_bounds(line: Seq<u8>, i: int)
    requires
        0 <= i <= line.len(),
    ensures
        i <= spec_token_end(line, i) <= line.len(),
        i < line.len() && line[i] != 0x20 ==> spec_token_end(line, i) > i,
    decreases line.len() - i,
{
    if i < line.len() && line[i] != 0x20 {
        lemma_token_end_bounds(line, i + 1);
    }
}

fn token_end(line: &[u8], i: usize) -> (r: usize)
    requires
        i <= line.len(),
    ensures
        r == spec_token_end(line@, i as int),
        i <= r <= line.len(),
    decreases line.len() - i,
{
    if i >= line.len() {
        line.len()
    } else if line[i] == 0x20 {
        i
    } else {
        token_end(line, i + 1)
    }
}

/// A token with a trailing comma separator removed.
pub open spec fn spec_strip(t: Seq<u8>) -> Seq<u8> {
    if t.len() > 0 && t.last() == 0x2c {
        t.drop_last()
    } else {
        t
    }
}

/// The views of a list of byte vectors.
pub open spec fn spec_views(v: Seq<Vec<u8>>) -> Seq<Seq<u8>> {
    Seq::new(v.len(), |i: int| v[i]@)
}

/// The tokens of a line from position `i` on: maximal space-free runs,
/// each with a trailing comma stripped.
pub open spec fn spec_tokens(line: Seq<u8>, i: int) -> Seq<Seq<u8>>
    decreases line.len() - i,
    via spec_tokens_dec
{
    if i < 0 || i >= line.len() {
        Seq::empty()
    } else if line[i] == 0x20 {
        spec_tokens(line, i + 1)
    } else {
        seq![spec_strip(line.subrange(i, spec_token_end(line, i)))] + spec_tokens(
            line,
            spec_token_end(line, i),
        )
    }
}

#[via_fn]
proof fn spec_tokens_dec(line: Seq<u8>, i: int) {
    if 0 <= i < line.len() && line[i] != 0x20 {
        lemma_token_end_bounds(line, i);
    }
}

fn tokens_from(line: &[u8], i: usize) -> (r: Vec<Vec<u8>>)
    requires
        i <= line.len(),
    ensures
        spec_views(r@) == spec_tokens(line@, i as int),
    decreases line.len() - i,
{
    if i >= line.len() {
        let r: Vec<Vec<u8>> = Vec::new();
        proof {
            assert(spec_views(r@) =~= spec_tokens(line@, i as int));
        }
        r
    } else if line[i] == 0x20 {
        tokens_from(line, i + 1)
    } else {
        proof {
            lemma_token_end_bounds(line@, i as int);
        }
        let e = token_end(line, i);
        let mut t = vstd::slice::slice_to_vec(&line[i..e]);
        if t.len() > 0 && t[t.len() - 1] == 0x2c {
            t.pop();
        }
        proof {
            assert(t@ == spec_strip(line@.subrange(i as int, e as int)));
        }
        let mut rest = tokens_from(line, e);
        rest.insert(0, t);
        proof {
            assert(spec_views(rest@) =~= seq![t@] + spec_tokens(line@, e as int));
        }
        rest
    }
}

/// The tokens of one line of assembly text.
pub fn tokens(line: &[u8]) -> (r: Vec<Vec<u8>>)
    ensures
        spec_views(r@) == spec_tokens(line@, 0),
{
    tokens_from(line, 0)
}

/// A signed decimal integer, as the jump and subtract operands use.
pub open spec fn spec_parse_int(t: Seq<u8>) -> Option<i64> {
    if t.len() >= 1 && t[0] == 0x2d {
        let d = t.subrange(1, t.len() as int);
        if spec_all_digits(d) && spec_dec_val(d) <= 0x8000_0000_0000_0000 {
            Some((-spec_dec_val(d)) as i64)
        } else {
            None
        }
    } else if spec_all_digits(t) && spec_dec_val(t) <= 0x7fff_ffff_ffff_ffff {
        Some(spec_dec_val(t) as i64)
    } else {
        None
    }
}

/// Reads a signed decimal integer token.
pub fn parse_int(t: &Vec<u8>) -> (r: Option<i64>)
    ensures
        r == spec_parse_int(t@),
{
    if t.len() >= 1 && t[0] == 0x2d {
        match parse_dec_u64(&t.as_slice()[1..t.len()]) {
            Some(v) => {
                if v > 0x8000_0000_0000_0000 {
                    None
                } else if v == 0x8000_0000_0000_0000 {
                    Some(i64::MIN)
                } else {
                    Some(-(v as i64))
                }
            },
            None => None,
        }
    } else {
        match parse_dec_u64(t.as_slice()) {
            Some(v) => {
                if v > 0x7fff_ffff_ffff_ffff {
                    None
                } else {
                    Some(v as i64)
                }
            },
            None => None,
        }
    }
}

/// A `0x`-prefixed lower-case hexadecimal integer.
pub open spec fn spec_parse_hex(t: Seq<u8>) -> Option<u64> {
    if t.len() > 2 && t[0] == 0x30 && t[1] == 0x78 {
        let d = t.subrange(2, t.len() as int);
        if spec_all_hex_digits(d) && spec_hex_val(d) <= 0xffff_ffff_ffff_ffff {
            Some(spec_hex_val(d) as u64)
        } else {
            None
        }
    } else {
        None
    }
}

/// Reads a `0x`-prefixed hexadecimal integer token.
pub fn parse_hex(t: &Vec<u8>) -> (r: Option<u64>)
    ensures
        r == spec_parse_hex(t@),
{
    if t.len() > 2 && t[0] == 0x30 && t[1] == 0x78 {
        parse_hex_u64(&t.as_slice()[2..t.len()])
    } else {
        None
    }
}

/// The operand-width bit pattern of an immediate token at width `w`:
/// hexadecimal or non-negative decimal, within the width's range.
pub open spec fn spec_imm_bits(t: Seq<u8>, w: Width) -> Option<u64> {
    let limit: int = match w {
        Width::W16 => 0x10000,
        Width::W32 => 0x1_0000_0000,
        Width::W64 => 0x1_0000_0000_0000_0000,
    };
    match spec_parse_hex(t) {
        Some(v) => if v < limit {
            Some(v)
        } else {
            None
        },
        None => match spec_parse_int(t) {
            Some(x) => if 0 <= x < limit {
                Some(x as u64)
            } else {
                None
            },
            None => None,
        },
    }
}

/// Reads an immediate token at width `w`.
pub fn imm_bits(t: &Vec<u8>, w: Width) -> (r: Option<u64>)
    ensures
        r == spec_imm_bits(t@, w),
        r matches Some(v) ==> (w == Width::W16 ==> v < 0x10000) && (w == Width::W32 ==> v
            < 0x1_0000_0000),
{
    let limit_m1: u64 = match w {
        Width::W16 => 0xffff,
        Width::W32 => 0xffff_ffff,
        Width::W64 => 0xffff_ffff_ffff_ffff,
    };
    match parse_hex(t) {
        Some(v) => if v <= limit_m1 {
            Some(v)
        } else {
            None
        },
        None => match parse_int(t) {
            Some(x) => if 0 <= x && (x as u64) <= limit_m1 {
                Some(x as u64)
            } else {
                None
            },
            None => None,
        },
    }
}

/// The first position at or after `i` that holds a sign character.
pub open spec fn spec_find_sign(t: Seq<u8>, i: int) -> int
    decreases t.len() - i,
{
    if i < 0 || i >= t.len() {
        t.len() as int
    } else if t[i] == 0x2b || t[i] == 0x2d {
        i
    } else {
        spec_find_sign(t, i + 1)
    }
}

fn find_sign(t: &Vec<u8>, i: usize) -> (r: usize)
    requires
        i <= t.len(),
    ensures
        r == spec_find_sign(t@, i as int),
        i <= r <= t.len(),
    decreases t.len() - i,
{
    if i >= t.len() {
        t.len()
    } else if t[i] == 0x2b || t[i] == 0x2d {
        i
    } else {
        find_sign(t, i + 1)
    }
}

/// A memory operand `[base+disp]` or `[base-disp]`: a 64-bit base
/// register encodable in three bits and an 8-bit signed displacement.
pub open spec fn spec_parse_mem(t: Seq<u8>) -> Option<(u8, i8)> {
    if t.len() < 4 || t[0] != 0x5b || t.last() != 0x5d {
        None
    } else {
        let k = spec_find_sign(t, 1);
        if k + 2 > t.len() - 1 {
            None
        } else {
            match spec_parse_name64(t.subrange(1, k)) {
                None => None,
                Some(b) => if b >= 8 {
                    None
                } else {
                    let d = t.subrange(k + 1, t.len() - 1);
                    if spec_all_digits(d) {
                        let m = spec_dec_val(d);
                        if t[k] == 0x2d {
                            if m <= 128 {
                                Some((b, (-m) as i8))
                            } else {
                                None
                            }
                        } else {
                            if m <= 127 {
                                Some((b, m as i8))
                            } else {
                                None
                            }
                        }
                    } else {
                        None
                    }
                },
            }
        }
    }
}

/// Reads a memory operand token.
pub fn parse_mem(t: &Vec<u8>) -> (r: Option<(u8, i8)>)
    ensures
        r == spec_parse_mem(t@),
        r matches Some((b, d)) ==> b < 8,
{
    if t.len() < 4 || t[0] != 0x5b || t[t.len() - 1] != 0x5d {
        return None;
    }
    let k = find_sign(t, 1);
    if k > t.len() - 3 {
        return None;
    }
    let name = vstd::slice::slice_to_vec(&t.as_slice()[1..k]);
    let b = match parse_name64(&name) {
        None => {
            return None;
        },
        Some(b) => b,
    };
    if b >= 8 {
        return None;
    }
    let m = match parse_dec_u64(&t.as_slice()[k + 1..t.len() - 1]) {
        None => {
            return None;
        },
        Some(m) => m,
    };
    if t[k] == 0x2d {
        if m <= 128 {
            if m == 128 {
                Some((b, i8::MIN))
            } else {
                Some((b, -(m as i8)))
            }
        } else {
            None
        }
    } else {
        if m <= 127 {
            Some((b, m as i8))
        } else {
            None
        }
    }
}

/// One parsed line of assembly text.
pub enum LineItem {
    /// A blank line (or one holding only separators).
    Empty,
    /// A label definition, `name:`.
    LabelDef { name: Vec<u8> },
    /// One instruction of the supported subset.
    Ins { instr: Instr },
    /// A near jump whose target is a label still to be resolved.
    JumpLabel { is_je: bool, name: Vec<u8> },
}

/// The ghost form of a parsed line.
pub enum SpecItem {
    Empty,
    LabelDef { name: Seq<u8> },
    Ins { instr: Instr },
    JumpLabel { is_je: bool, name: Seq<u8> },
}

pub open spec fn view_item(it: LineItem) -> SpecItem {
    match it {
        LineItem::Empty => SpecItem::Empty,
        LineItem::LabelDef { name } => SpecItem::LabelDef { name: name@ },
        LineItem::Ins { instr } => SpecItem::Ins { instr },
        LineItem::JumpLabel { is_je, name } => SpecItem::JumpLabel { is_je, name: name@ },
    }
}

pub open spec fn view_item_res(r: Result<LineItem, AsmError>) -> Result<SpecItem, AsmError> {
    match r {
        Ok(it) => Ok(view_item(it)),
        Err(e) => Err(e),
    }
}

/// Field ranges of a parsed item.
pub open spec fn spec_item_wf(it: SpecItem) -> bool {
    match it {
        SpecItem::Ins { instr } => instr.wf(),
        _ => true,
    }
}

/// Whether a token can be a label reference: it starts with a letter, a
/// dot or an underscore.
pub open spec fn spec_is_ident(t: Seq<u8>) -> bool {
    t.len() > 0 && ((0x61 <= t[0] <= 0x7a) || (0x41 <= t[0] <= 0x5a) || t[0] == 0x2e || t[0]
        == 0x5f)
}

fn is_ident(t: &Vec<u8>) -> (r: bool)
    ensures
        r == spec_is_ident(t@),
{
    t.len() > 0 && ((0x61 <= t[0] && t[0] <= 0x7a) || (0x41 <= t[0] && t[0] <= 0x5a) || t[0]
        == 0x2e || t[0] == 0x5f)
}

/// The `xor` operand forms: two register names of one family.
pub open spec fn spec_xor_ops(a: Seq<u8>, b: Seq<u8>) -> Result<SpecItem, AsmError> {
    match (spec_parse_name64(a), spec_parse_name64(b)) {
        (Some(d), Some(s)) => Ok(SpecItem::Ins { instr: Instr::XorReg { w: Width::W64, dst: d, src: s } }),
        _ => match (spec_parse_name32(a), spec_parse_name32(b)) {
            (Some(d), Some(s)) => Ok(
                SpecItem::Ins { instr: Instr::XorReg { w: Width::W32, dst: d, src: s } },
            ),
            _ => match (spec_parse_name16(a), spec_parse_name16(b)) {
                (Some(d), Some(s)) => Ok(
                    SpecItem::Ins { instr: Instr::XorReg { w: Width::W16, dst: d, src: s } },
                ),
                _ => Err(AsmError::BadOperand),
            },
        },
    }
}

/// The `sub` operand forms: a 32- or 64-bit register and a 32-bit
/// signed immediate.
pub open spec fn spec_sub_ops(a: Seq<u8>, b: Seq<u8>) -> Result<SpecItem, AsmError> {
    let imm = spec_parse_int(b);
    match spec_parse_name64(a) {
        Some(k) => if k >= 8 {
            Err(AsmError::Unsupported)
        } else {
            match imm {
                Some(v) => if -0x8000_0000 <= v <= 0x7fff_ffff {
                    Ok(SpecItem::Ins { instr: Instr::SubRegImm { w64: true, reg: k, imm: v as i32 } })
                } else {
                    Err(AsmError::BadOperand)
                },
                None => Err(AsmError::BadOperand),
            }
        },
        None => match spec_parse_name32(a) {
            Some(k) => if k >= 8 {
                Err(AsmError::Unsupported)
            } else {
                match imm {
                    Some(v) => if -0x8000_0000 <= v <= 0x7fff_ffff {
                        Ok(
                            SpecItem::Ins {
                                instr: Instr::SubRegImm { w64: false, reg: k, imm: v as i32 },
                            },
                        )
                    } else {
                        Err(AsmError::BadOperand)
                    },
                    None => Err(AsmError::BadOperand),
                }
            },
            None => Err(AsmError::Unsupported),
        },
    }
}

/// The `cmp byte` operand forms: a memory operand and a byte immediate.
pub open spec fn spec_cmp_ops(m: Seq<u8>, v: Seq<u8>) -> Result<SpecItem, AsmError> {
    match spec_parse_mem(m) {
        Some((base, disp)) => match spec_parse_int(v) {
            Some(x) => if 0 <= x <= 255 {
                Ok(SpecItem::Ins { instr: Instr::CmpMemImm { base, disp, imm: x as u8 } })
            } else {
                Err(AsmError::BadOperand)
            },
            None => Err(AsmError::BadOperand),
        },
        None => Err(AsmError::BadOperand),
    }
}

/// A near-jump numeric operand: the printed displacement-plus-four.
pub open spec fn spec_near_num(v: i64, is_je: bool) -> Result<SpecItem, AsmError> {
    if -0x8000_0000 <= v - 4 <= 0x7fff_ffff {
        if is_je {
            Ok(SpecItem::Ins { instr: Instr::JeNear { rel: (v - 4) as i32 } })
        } else {
            Ok(SpecItem::Ins { instr: Instr::JmpNear { rel: (v - 4) as i32 } })
        }
    } else {
        Err(AsmError::BadOperand)
    }
}

/// The jump forms: short `je` with a numeric operand, near jumps with a
/// numeric operand or a label.
pub open spec fn spec_jump(ts: Seq<Seq<u8>>, is_je: bool) -> Result<SpecItem, AsmError> {
    if ts.len() == 2 {
        let x = ts[1];
        if is_je {
            match spec_parse_int(x) {
                Some(v) => if -128 <= v <= 127 {
                    Ok(SpecItem::Ins { instr: Instr::JeShort { rel: v as i8 } })
                } else {
                    Err(AsmError::BadOperand)
                },
                None => Err(AsmError::Unsupported),
            }
        } else {
            match spec_parse_int(x) {
                Some(v) => spec_near_num(v, false),
                None => if spec_is_ident(x) {
                    Ok(SpecItem::JumpLabel { is_je: false, name: x })
                } else {
                    Err(AsmError::BadOperand)
                },
            }
        }
    } else if ts.len() == 3 && spec_is_near(ts[1]) {
        let x = ts[2];
        match spec_parse_int(x) {
            Some(v) => spec_near_num(v, is_je),
            None => if spec_is_ident(x) {
                Ok(SpecItem::JumpLabel { is_je, name: x })
            } else {
                Err(AsmError::BadOperand)
            },
        }
    } else {
        Err(AsmError::BadOperand)
    }
}

/// The `mov` operand forms of the subset.
pub open spec fn spec_mov(ts: Seq<Seq<u8>>) -> Result<SpecItem, AsmError> {
    if ts.len() == 3 {
        let a = ts[1];
        let b = ts[2];
        match spec_parse_name64(a) {
            Some(d) => match spec_parse_name64(b) {
                Some(s) => if d < 8 && s < 8 {
                    Ok(SpecItem::Ins { instr: Instr::MovRegReg { w64: true, dst: d, src: s } })
                } else {
                    Err(AsmError::Unsupported)
                },
                None => match spec_imm_bits(b, Width::W64) {
                    Some(bits) => Ok(
                        SpecItem::Ins { instr: Instr::MovImm { w: Width::W64, reg: d, imm: bits } },
                    ),
                    None => Err(AsmError::BadOperand),
                },
            },
            None => match spec_parse_name32(a) {
                Some(d) => match spec_parse_name32(b) {
                    Some(s) => if d < 8 && s < 8 {
                        Ok(SpecItem::Ins { instr: Instr::MovRegReg { w64: false, dst: d, src: s } })
                    } else {
                        Err(AsmError::Unsupported)
                    },
                    None => match spec_parse_mem(b) {
                        Some((base, disp)) => if d < 8 {
                            Ok(SpecItem::Ins { instr: Instr::MovRegMem { dst: d, base, disp } })
                        } else {
                            Err(AsmError::Unsupported)
                        },
                        None => match spec_imm_bits(b, Width::W32) {
                            Some(bits) => Ok(
                                SpecItem::Ins {
                                    instr: Instr::MovImm { w: Width::W32, reg: d, imm: bits },
                                },
                            ),
                            None => Err(AsmError::BadOperand),
                        },
                    },
                },
                None => match spec_parse_name16(a) {
                    Some(d) => match spec_imm_bits(b, Width::W16) {
                        Some(bits) => Ok(
                            SpecItem::Ins {
                                instr: Instr::MovImm { w: Width::W16, reg: d, imm: bits },
                            },
                        ),
                        None => Err(AsmError::BadOperand),
                    },
                    None => match spec_parse_name8(a) {
                        Some(d) => match spec_parse_int(b) {
                            Some(v) => if 0 <= v <= 255 {
                                Ok(SpecItem::Ins { instr: Instr::MovImm8 { reg: d, imm: v as u8 } })
                            } else {
                                Err(AsmError::BadOperand)
                            },
                            None => Err(AsmError::BadOperand),
                        },
                        None => match spec_parse_mem(a) {
                            Some((base, disp)) => match spec_parse_name8(b) {
                                Some(s) => Ok(
                                    SpecItem::Ins {
                                        instr: Instr::MovMemReg8 { base, disp, src: s },
                                    },
                                ),
                                None => Err(AsmError::Unsupported),
                            },
                            None => Err(AsmError::BadOperand),
                        },
                    },
                },
            },
        }
    } else if ts.len() == 4 {
        if spec_is_byte_kw(ts[1]) {
            match (spec_parse_mem(ts[2]), spec_parse_name8(ts[3])) {
                (Some((base, disp)), Some(s)) => Ok(
                    SpecItem::Ins { instr: Instr::MovMemReg8 { base, disp, src: s } },
                ),
                _ => Err(AsmError::Unsupported),
            }
        } else if spec_is_dword_kw(ts[1]) {
            match spec_parse_mem(ts[2]) {
                Some((base, disp)) => match spec_parse_int(ts[3]) {
                    Some(v) => if -0x8000_0000 <= v <= 0x7fff_ffff {
                        Ok(
                            SpecItem::Ins {
                                instr: Instr::MovMemImm { base, disp, imm: v as i32 },
                            },
                        )
                    } else {
                        Err(AsmError::BadOperand)
                    },
                    None => Err(AsmError::BadOperand),
                },
                None => Err(AsmError::BadOperand),
            }
        } else if spec_is_dword_kw(ts[2]) {
            match (spec_parse_name32(ts[1]), spec_parse_mem(ts[3])) {
                (Some(d), Some((base, disp))) => if d < 8 {
                    Ok(SpecItem::Ins { instr: Instr::MovRegMem { dst: d, base, disp } })
                } else {
                    Err(AsmError::Unsupported)
                },
                _ => Err(AsmError::BadOperand),
            }
        } else {
            Err(AsmError::BadOperand)
        }
    } else {
        Err(AsmError::BadOperand)
    }
}

/// The meaning of one tokenized line.
pub open spec fn spec_parse_line(ts: Seq<Seq<u8>>) -> Result<SpecItem, AsmError> {
    if ts.len() == 0 {
        Ok(SpecItem::Empty)
    } else {
        let t0 = ts[0];
        if ts.len() == 1 && t0.len() >= 2 && t0.last() == 0x3a {
            Ok(SpecItem::LabelDef { name: t0.drop_last() })
        } else if spec_is_ret(t0) && ts.len() == 1 {
            Ok(SpecItem::Ins { instr: Instr::Ret })
        } else if spec_is_hlt(t0) && ts.len() == 1 {
            Ok(SpecItem::Ins { instr: Instr::Hlt })
        } else if spec_is_endbr64(t0) && ts.len() == 1 {
            Ok(SpecItem::Ins { instr: Instr::Endbr64 })
        } else if spec_is_push(t0) {
            if ts.len() == 2 && spec_is_rbp(ts[1]) {
                Ok(SpecItem::Ins { instr: Instr::PushRbp })
            } else {
                Err(AsmError::Unsupported)
            }
        } else if spec_is_pop(t0) {
            if ts.len() == 2 {
                match spec_parse_name64(ts[1]) {
                    Some(k) => if k < 8 {
                        Ok(SpecItem::Ins { instr: Instr::Pop { index: k } })
                    } else {
                        Err(AsmError::Unsupported)
                    },
                    None => Err(AsmError::BadOperand),
                }
            } else {
                Err(AsmError::BadOperand)
            }
        } else if spec_is_xor(t0) {
            if ts.len() == 3 {
                spec_xor_ops(ts[1], ts[2])
            } else {
                Err(AsmError::BadOperand)
            }
        } else if spec_is_sub(t0) {
            if ts.len() == 3 {
                spec_sub_ops(ts[1], ts[2])
            } else {
                Err(AsmError::BadOperand)
            }
        } else if spec_is_cmp(t0) {
            if ts.len() == 4 && spec_is_byte_kw(ts[1]) {
                spec_cmp_ops(ts[2], ts[3])
            } else {
                Err(AsmError::Unsupported)
            }
        } else if spec_is_je(t0) {
            spec_jump(ts, true)
        } else if spec_is_jmp(t0) {
            spec_jump(ts, false)
        } else if spec_is_mov(t0) {
            spec_mov(ts)
        } else {
            Err(AsmError::Unsupported)
        }
    }
}

/// Byte-for-byte equality of two tokens.
fn eq_bytes(a: &Vec<u8>, b: &Vec<u8>) -> (r: bool)
    ensures
        r == (a@ == b@),
{
    if a.len() != b.len() {
        return false;
    }
    let mut i: usize = 0;
    while i < a.len()
        invariant
            i <= a.len(),
            a.len() == b.len(),
            forall|j: int| 0 <= j < i ==> a@[j] == b@[j],
        decreases a.len() - i,
    {
        if a[i] != b[i] {
            return false;
        }
        i = i + 1;
    }
    proof {
        assert(a@ =~= b@);
    }
    true
}

/// Reads one tokenized line.
pub fn parse_line(ts: &Vec<Vec<u8>>) -> (r: Result<LineItem, AsmError>)
    ensures
        view_item_res(r) == spec_parse_line(spec_views(ts@)),
        r matches Ok(it) ==> spec_item_wf(view_item(it)),
{
    if ts.len() == 0 {
        return Ok(LineItem::Empty);
    }
    let t0 = &ts[0];
    if ts.len() == 1 && t0.len() >= 2 && t0[t0.len() - 1] == 0x3a {
        let mut name = t0.clone();
        name.pop();
        return Ok(LineItem::LabelDef { name });
    }
    if is_ret(t0) && ts.len() == 1 {
        return Ok(LineItem::Ins { instr: Instr::Ret });
    }
    if is_hlt(t0) && ts.len() == 1 {
        return Ok(LineItem::Ins { instr: Instr::Hlt });
    }
    if is_endbr64(t0) && ts.len() == 1 {
        return Ok(LineItem::Ins { instr: Instr::Endbr64 });
    }
    if is_push(t0) {
        if ts.len() == 2 && is_rbp(&ts[1]) {
            return Ok(LineItem::Ins { instr: Instr::PushRbp });
        }
        return Err(AsmError::Unsupported);
    }
    if is_pop(t0) {
        if ts.len() == 2 {
            match parse_name64(&ts[1]) {
                Some(k) => {
                    if k < 8 {
                        return Ok(LineItem::Ins { instr: Instr::Pop { index: k } });
                    }
                    return Err(AsmError::Unsupported);
                },
                None => {
                    return Err(AsmError::BadOperand);
                },
            }
        }
        return Err(AsmError::BadOperand);
    }
    if is_xor(t0) {
        if ts.len() == 3 {
            return xor_ops(&ts[1], &ts[2]);
        }
        return Err(AsmError::BadOperand);
    }
    if is_sub(t0) {
        if ts.len() == 3 {
            return sub_ops(&ts[1], &ts[2]);
        }
        return Err(AsmError::BadOperand);
    }
    if is_cmp(t0) {
        if ts.len() == 4 && is_byte_kw(&ts[1]) {
            return cmp_ops(&ts[2], &ts[3]);
        }
        return Err(AsmError::Unsupported);
    }
    if is_je(t0) {
        return jump_ops(ts, true);
    }
    if is_jmp(t0) {
        return jump_ops(ts, false);
    }
    if is_mov(t0) {
        return mov_ops(ts);
    }
    Err(AsmError::Unsupported)
}

fn xor_ops(a: &Vec<u8>, b: &Vec<u8>) -> (r: Result<LineItem, AsmError>)
    ensures
        view_item_res(r) == spec_xor_ops(a@, b@),
        r matches Ok(it) ==> spec_item_wf(view_item(it)),
{
    match (parse_name64(a), parse_name64(b)) {
        (Some(d), Some(s)) => Ok(
            LineItem::Ins { instr: Instr::XorReg { w: Width::W64, dst: d, src: s } },
        ),
        _ => match (parse_name32(a), parse_name32(b)) {
            (Some(d), Some(s)) => Ok(
                LineItem::Ins { instr: Instr::XorReg { w: Width::W32, dst: d, src: s } },
            ),
            _ => match (parse_name16(a), parse_name16(b)) {
                (Some(d), Some(s)) => Ok(
                    LineItem::Ins { instr: Instr::XorReg { w: Width::W16, dst: d, src: s } },
                ),
                _ => Err(AsmError::BadOperand),
            },
        },
    }
}

fn sub_ops(a: &Vec<u8>, b: &Vec<u8>) -> (r: Result<LineItem, AsmError>)
    ensures
        view_item_res(r) == spec_sub_ops(a@, b@),
        r matches Ok(it) ==> spec_item_wf(view_item(it)),
{
    let imm = parse_int(b);
    match parse_name64(a) {
        Some(k) => {
            if k >= 8 {
                return Err(AsmError::Unsupported);
            }
            match imm {
                Some(v) => {
                    if -0x8000_0000i64 <= v && v <= 0x7fff_ffff {
                        Ok(LineItem::Ins { instr: Instr::SubRegImm { w64: true, reg: k, imm: v as i32 } })
                    } else {
                        Err(AsmError::BadOperand)
                    }
                },
                None => Err(AsmError::BadOperand),
            }
        },
        None => {
            match parse_name32(a) {
                Some(k) => {
                    if k >= 8 {
                        return Err(AsmError::Unsupported);
                    }
                    match imm {
                        Some(v) => {
                            if -0x8000_0000i64 <= v && v <= 0x7fff_ffff {
                                Ok(
                                    LineItem::Ins {
                                        instr: Instr::SubRegImm { w64: false, reg: k, imm: v as i32 },
                                    },
                                )
                            } else {
                                Err(AsmError::BadOperand)
                            }
                        },
                        None => Err(AsmError::BadOperand),
                    }
                },
                None => Err(AsmError::Unsupported),
            }
        },
    }
}

fn cmp_ops(m: &Vec<u8>, v: &Vec<u8>) -> (r: Result<LineItem, AsmError>)
    ensures
        view_item_res(r) == spec_cmp_ops(m@, v@),
        r matches Ok(it) ==> spec_item_wf(view_item(it)),
{
    match parse_mem(m) {
        Some((base, disp)) => match parse_int(v) {
            Some(x) => {
                if 0 <= x && x <= 255 {
                    Ok(LineItem::Ins { instr: Instr::CmpMemImm { base, disp, imm: x as u8 } })
                } else {
                    Err(AsmError::BadOperand)
                }
            },
            None => Err(AsmError::BadOperand),
        },
        None => Err(AsmError::BadOperand),
    }
}

fn near_num(v: i64, is_je: bool) -> (r: Result<LineItem, AsmError>)
    ensures
        view_item_res(r) == spec_near_num(v, is_je),
        r matches Ok(it) ==> spec_item_wf(view_item(it)),
{
    if -0x7fff_fffci64 <= v && v <= 0x8000_0003i64 {
        if is_je {
            Ok(LineItem::Ins { instr: Instr::JeNear { rel: (v - 4) as i32 } })
        } else {
            Ok(LineItem::Ins { instr: Instr::JmpNear { rel: (v - 4) as i32 } })
        }
    } else {
        Err(AsmError::BadOperand)
    }
}

fn jump_ops(ts: &Vec<Vec<u8>>, is_je: bool) -> (r: Result<LineItem, AsmError>)
    ensures
        view_item_res(r) == spec_jump(spec_views(ts@), is_je),
        r matches Ok(it) ==> spec_item_wf(view_item(it)),
{
    if ts.len() == 2 {
        let x = &ts[1];
        if is_je {
            match parse_int(x) {
                Some(v) => {
                    if -128 <= v && v <= 127 {
                        Ok(LineItem::Ins { instr: Instr::JeShort { rel: v as i8 } })
                    } else {
                        Err(AsmError::BadOperand)
                    }
                },
                None => Err(AsmError::Unsupported),
            }
        } else {
            match parse_int(x) {
                Some(v) => near_num(v, false),
                None => {
                    if is_ident(x) {
                        Ok(LineItem::JumpLabel { is_je: false, name: x.clone() })
                    } else {
                        Err(AsmError::BadOperand)
                    }
                },
            }
        }
    } else if ts.len() == 3 && is_near(&ts[1]) {
        let x = &ts[2];
        match parse_int(x) {
            Some(v) => near_num(v, is_je),
            None => {
                if is_ident(x) {
                    Ok(LineItem::JumpLabel { is_je, name: x.clone() })
                } else {
                    Err(AsmError::BadOperand)
                }
            },
        }
    } else {
        Err(AsmError::BadOperand)
    }
}

fn mov_ops(ts: &Vec<Vec<u8>>) -> (r: Result<LineItem, AsmError>)
    requires
        ts.len() >= 1,
    ensures
        view_item_res(r) == spec_mov(spec_views(ts@)),
        r matches Ok(it) ==> spec_item_wf(view_item(it)),
{
    if ts.len() == 3 {
        let a = &ts[1];
        let b = &ts[2];
        match parse_name64(a) {
            Some(d) => {
                match parse_name64(b) {
                    Some(s) => {
                        if d < 8 && s < 8 {
                            Ok(LineItem::Ins { instr: Instr::MovRegReg { w64: true, dst: d, src: s } })
                        } else {
                            Err(AsmError::Unsupported)
                        }
                    },
                    None => {
                        match imm_bits(b, Width::W64) {
                            Some(bits) => Ok(
                                LineItem::Ins {
                                    instr: Instr::MovImm { w: Width::W64, reg: d, imm: bits },
                                },
                            ),
                            None => Err(AsmError::BadOperand),
                        }
                    },
                }
            },
            None => {
                match parse_name32(a) {
                    Some(d) => {
                        match parse_name32(b) {
                            Some(s) => {
                                if d < 8 && s < 8 {
                                    Ok(
                                        LineItem::Ins {
                                            instr: Instr::MovRegReg { w64: false, dst: d, src: s },
                                        },
                                    )
                                } else {
                                    Err(AsmError::Unsupported)
                                }
                            },
                            None => {
                                match parse_mem(b) {
                                    Some((base, disp)) => {
                                        if d < 8 {
                                            Ok(
                                                LineItem::Ins {
                                                    instr: Instr::MovRegMem { dst: d, base, disp },
                                                },
                                            )
                                        } else {
                                            Err(AsmError::Unsupported)
                                        }
                                    },
                                    None => {
                                        match imm_bits(b, Width::W32) {
                                            Some(bits) => Ok(
                                                LineItem::Ins {
                                                    instr: Instr::MovImm {
                                                        w: Width::W32,
                                                        reg: d,
                                                        imm: bits,
                                                    },
                                                },
                                            ),
                                            None => Err(AsmError::BadOperand),
                                        }
                                    },
                                }
                            },
                        }
                    },
                    None => {
                        match parse_name16(a) {
                            Some(d) => {
                                match imm_bits(b, Width::W16) {
                                    Some(bits) => Ok(
                                        LineItem::Ins {
                                            instr: Instr::MovImm { w: Width::W16, reg: d, imm: bits },
                                        },
                                    ),
                                    None => Err(AsmError::BadOperand),
                                }
                            },
                            None => {
                                match parse_name8(a) {
                                    Some(d) => {
                                        match parse_int(b) {
                                            Some(v) => {
                                                if 0 <= v && v <= 255 {
                                                    Ok(
                                                        LineItem::Ins {
                                                            instr: Instr::MovImm8 {
                                                                reg: d,
                                                                imm: v as u8,
                                                            },
                                                        },
                                                    )
                                                } else {
                                                    Err(AsmError::BadOperand)
                                                }
                                            },
                                            None => Err(AsmError::BadOperand),
                                        }
                                    },
                                    None => {
                                        match parse_mem(a) {
                                            Some((base, disp)) => {
                                                match parse_name8(b) {
                                                    Some(s) => Ok(
                                                        LineItem::Ins {
                                                            instr: Instr::MovMemReg8 {
                                                                base,
                                                                disp,
                                                                src: s,
                                                            },
                                                        },
                                                    ),
                                                    None => Err(AsmError::Unsupported),
                                                }
                                            },
                                            None => Err(AsmError::BadOperand),
                                        }
                                    },
                                }
                            },
                        }
                    },
                }
            },
        }
    } else if ts.len() == 4 {
        if is_byte_kw(&ts[1]) {
            match (parse_mem(&ts[2]), parse_name8(&ts[3])) {
                (Some((base, disp)), Some(s)) => Ok(
                    LineItem::Ins { instr: Instr::MovMemReg8 { base, disp, src: s } },
                ),
                _ => Err(AsmError::Unsupported),
            }
        } else if is_dword_kw(&ts[1]) {
            match parse_mem(&ts[2]) {
                Some((base, disp)) => {
                    match parse_int(&ts[3]) {
                        Some(v) => {
                            if -0x8000_0000i64 <= v && v <= 0x7fff_ffff {
                                Ok(
                                    LineItem::Ins {
                                        instr: Instr::MovMemImm { base, disp, imm: v as i32 },
                                    },
                                )
                            } else {
                                Err(AsmError::BadOperand)
                            }
                        },
                        None => Err(AsmError::BadOperand),
                    }
                },
                None => Err(AsmError::BadOperand),
            }
        } else if is_dword_kw(&ts[2]) {
            match (parse_name32(&ts[1]), parse_mem(&ts[3])) {
                (Some(d), Some((base, disp))) => {
                    if d < 8 {
                        Ok(LineItem::Ins { instr: Instr::MovRegMem { dst: d, base, disp } })
                    } else {
                        Err(AsmError::Unsupported)
                    }
                },
                _ => Err(AsmError::BadOperand),
            }
        } else {
            Err(AsmError::BadOperand)
        }
    } else {
        Err(AsmError::BadOperand)
    }
}

/// The encoded size of one parsed line, in bytes.
pub open spec fn spec_item_size(it: SpecItem) -> int {
    match it {
        SpecItem::Empty => 0,
        SpecItem::LabelDef { .. } => 0,
        SpecItem::Ins { instr } => spec_encode(instr).len() as int,
        SpecItem::JumpLabel { is_je, .. } => if is_je {
            6
        } else {
            5
        },
    }
}

/// Every encoding of the subset is one to ten bytes long.
pub proof fn lemma_encode_len(i: Instr)
    ensures
        1 <= spec_encode(i).len() <= 10,
{
    match i {
        Instr::XorReg { w, dst, src } => {
            assert(spec_prefix(w == Width::W16, w == Width::W64, src >= 8, dst >= 8).len() <= 2);
        },
        Instr::SubRegImm { w64, .. } => {
            assert(spec_prefix(false, w64, false, false).len() <= 2);
        },
        Instr::MovRegReg { w64, .. } => {
            assert(spec_prefix(false, w64, false, false).len() <= 2);
        },
        Instr::MovImm { w, reg, .. } => {
            assert(spec_prefix(w == Width::W16, w == Width::W64, false, reg >= 8).len() <= 2);
        },
        _ => {},
    }
}

fn item_size(it: &LineItem) -> (r: usize)
    requires
        spec_item_wf(view_item(*it)),
    ensures
        r as int == spec_item_size(view_item(*it)),
        r <= 10,
{
    match it {
        LineItem::Empty => 0,
        LineItem::LabelDef { .. } => 0,
        LineItem::Ins { instr } => {
            proof {
                lemma_encode_len(*instr);
            }
            encode_instr(*instr).len()
        },
        LineItem::JumpLabel { is_je, .. } => if *is_je {
            6
        } else {
            5
        },
    }
}

/// The ghost forms of a list of parsed lines.
pub open spec fn view_items(v: Seq<LineItem>) -> Seq<SpecItem> {
    Seq::new(v.len(), |i: int| view_item(v[i]))
}

pub open spec fn spec_items_wf(items: Seq<SpecItem>) -> bool {
    forall|i: int| 0 <= i < items.len() ==> spec_item_wf(#[trigger] items[i])
}

/// The offset of the first definition of `name` at or after item `i`,
/// with `pos` the offset of item `i`.
pub open spec fn spec_lookup(items: Seq<SpecItem>, i: int, pos: int, name: Seq<u8>) -> Option<int>
    decreases items.len() - i,
{
    if i < 0 || i >= items.len() {
        None
    } else {
        match items[i] {
            SpecItem::LabelDef { name: n } => if n == name {
                Some(pos)
            } else {
                spec_lookup(items, i + 1, pos, name)
            },
            _ => spec_lookup(items, i + 1, pos + spec_item_size(items[i]), name),
        }
    }
}

fn lookup(items: &Vec<LineItem>, i: usize, pos: usize, name: &Vec<u8>) -> (r: Option<usize>)
    requires
        i <= items.len(),
        spec_items_wf(view_items(items@)),
        pos + 10 * (items.len() - i) <= 0xffff_ffff,
    ensures
        (match r {
            Some(p) => Some(p as int),
            None => None::<int>,
        }) == spec_lookup(view_items(items@), i as int, pos as int, name@),
        r matches Some(p) ==> p <= 0xffff_ffff,
    decreases items.len() - i,
{
    if i >= items.len() {
        None
    } else {
        let is_label_match: bool = match &items[i] {
            LineItem::LabelDef { name: n } => eq_bytes(n, name),
            _ => false,
        };
        match &items[i] {
            LineItem::LabelDef { name: n } => {
                if is_label_match {
                    Some(pos)
                } else {
                    lookup(items, i + 1, pos, name)
                }
            },
            _ => {
                let sz = item_size(&items[i]);
                lookup(items, i + 1, pos + sz, name)
            },
        }
    }
}

/// The bytes that the items from `i` on emit, with `pos` the offset of
/// item `i`: the canonical encoding of each instruction, and for each
/// label jump the near form whose displacement reaches the label's
/// offset from the jump's end.
pub open spec fn spec_emit(items: Seq<SpecItem>, i: int, pos: int) -> Result<Seq<u8>, AsmError>
    decreases items.len() - i,
{
    if i < 0 || i >= items.len() {
        Ok(Seq::empty())
    } else {
        let sz = spec_item_size(items[i]);
        let head: Result<Seq<u8>, AsmError> = match items[i] {
            SpecItem::Empty => Ok(Seq::empty()),
            SpecItem::LabelDef { .. } => Ok(Seq::empty()),
            SpecItem::Ins { instr } => Ok(spec_encode(instr)),
            SpecItem::JumpLabel { is_je, name } => match spec_lookup(items, 0, 0, name) {
                None => Err(AsmError::UnknownLabel),
                Some(target) => {
                    let rel = target - (pos + sz);
                    if -0x8000_0000 <= rel <= 0x7fff_ffff {
                        if is_je {
                            Ok(spec_encode(Instr::JeNear { rel: rel as i32 }))
                        } else {
                            Ok(spec_encode(Instr::JmpNear { rel: rel as i32 }))
                        }
                    } else {
                        Err(AsmError::BadOperand)
                    }
                },
            },
        };
        match head {
            Err(e) => Err(e),
            Ok(h) => match spec_emit(items, i + 1, pos + sz) {
                Err(e) => Err(e),
                Ok(t) => Ok(h + t),
            },
        }
    }
}

fn emit(items: &Vec<LineItem>, i: usize, pos: usize) -> (r: Result<Vec<u8>, AsmError>)
    requires
        i <= items.len(),
        spec_items_wf(view_items(items@)),
        pos + 10 * (items.len() - i) <= 0xffff_ffff,
        10 * items.len() <= 0xffff_ffff,
    ensures
        (match r {
            Ok(v) => Ok(v@),
            Err(e) => Err::<Seq<u8>, AsmError>(e),
        }) == spec_emit(view_items(items@), i as int, pos as int),
    decreases items.len() - i,
{
    if i >= items.len() {
        let empty: Vec<u8> = Vec::new();
        proof {
            assert(empty@ =~= Seq::<u8>::empty());
        }
        return Ok(empty);
    }
    let sz = item_size(&items[i]);
    let mut head: Vec<u8> = Vec::new();
    match &items[i] {
        LineItem::Empty => {},
        LineItem::LabelDef { .. } => {},
        LineItem::Ins { instr } => {
            head = encode_instr(*instr);
        },
        LineItem::JumpLabel { is_je, name } => {
            match lookup(items, 0, 0, name) {
                None => {
                    return Err(AsmError::UnknownLabel);
                },
                Some(target) => {
                    let rel = target as i64 - (pos as i64 + sz as i64);
                    if -0x8000_0000i64 <= rel && rel <= 0x7fff_ffff {
                        if *is_je {
                            head = encode_instr(Instr::JeNear { rel: rel as i32 });
                        } else {
                            head = encode_instr(Instr::JmpNear { rel: rel as i32 });
                        }
                    } else {
                        return Err(AsmError::BadOperand);
                    }
                },
            }
        },
    }
    let ghost head_view = head@;
    match emit(items, i + 1, pos + sz) {
        Err(e) => Err(e),
        Ok(mut tail) => {
            let ghost tail_view = tail@;
            head.append(&mut tail);
            proof {
                assert(head@ =~= head_view + tail_view);
            }
            Ok(head)
        },
    }
}

/// The first position at or after `i` that holds a newline.
pub open spec fn spec_line_break(text: Seq<u8>, i: int) -> int
    decreases text.len() - i,
{
    if i < 0 || i >= text.len() {
        text.len() as int
    } else if text[i] == 0x0a {
        i
    } else {
        spec_line_break(text, i + 1)
    }
}

pub proof fn lemma_line_break_bounds(text: Seq<u8>, i: int)
    requires
        0 <= i <= text.len(),
    ensures
        i <= spec_line_break(text, i) <= text.len(),
    decreases text.len() - i,
{
    if i < text.len() && text[i] != 0x0a {
        lemma_line_break_bounds(text, i + 1);
    }
}

fn line_break(text: &[u8], i: usize) -> (r: usize)
    requires
        i <= text.len(),
    ensures
        r == spec_line_break(text@, i as int),
        i <= r <= text.len(),
    decreases text.len() - i,
{
    if i >= text.len() {
        text.len()
    } else if text[i] == 0x0a {
        i
    } else {
        line_break(text, i + 1)
    }
}

/// The lines of a text, split at newline bytes.
pub open spec fn spec_split_lines(text: Seq<u8>, i: int) -> Seq<Seq<u8>>
    decreases text.len() + 1 - i,
    via spec_split_lines_dec
{
    if i < 0 || i > text.len() {
        Seq::empty()
    } else {
        seq![text.subrange(i, spec_line_break(text, i))] + spec_split_lines(
            text,
            spec_line_break(text, i) + 1,
        )
    }
}

#[via_fn]
proof fn spec_split_lines_dec(text: Seq<u8>, i: int) {
    if 0 <= i <= text.len() {
        lemma_line_break_bounds(text, i);
    }
}

/// A text of `n` bytes has at most `n + 1` lines.
pub proof fn lemma_split_lines_count(text: Seq<u8>, i: int)
    requires
        0 <= i <= text.len(),
    ensures
        spec_split_lines(text, i).len() <= text.len() + 1 - i,
    decreases text.len() + 1 - i,
{
    lemma_line_break_bounds(text, i);
    let e = spec_line_break(text, i);
    assert(spec_split_lines(text, i) == seq![text.subrange(i, e)] + spec_split_lines(text, e + 1));
    if e + 1 <= text.len() {
        lemma_split_lines_count(text, e + 1);
    } else {
        assert(spec_split_lines(text, e + 1) =~= Seq::<Seq<u8>>::empty());
    }
}

fn split_lines_from(text: &[u8], i: usize) -> (r: Vec<Vec<u8>>)
    requires
        i <= text.len(),
    ensures
        spec_views(r@) == spec_split_lines(text@, i as int),
    decreases text.len() + 1 - i,
{
    proof {
        lemma_line_break_bounds(text@, i as int);
    }
    let e = line_break(text, i);
    let first = vstd::slice::slice_to_vec(&text[i..e]);
    let mut rest: Vec<Vec<u8>> = if e < text.len() {
        split_lines_from(text, e + 1)
    } else {
        let r: Vec<Vec<u8>> = Vec::new();
        proof {
            assert(spec_views(r@) =~= spec_split_lines(text@, e as int + 1));
        }
        r
    };
    rest.insert(0, first);
    proof {
        assert(spec_views(rest@) =~= spec_split_lines(text@, i as int));
    }
    rest
}

/// The parsed items of a list of lines.
pub open spec fn spec_items(lines: Seq<Seq<u8>>, i: int) -> Result<Seq<SpecItem>, AsmError>
    decreases lines.len() - i,
{
    if i < 0 || i >= lines.len() {
        Ok(Seq::empty())
    } else {
        match spec_parse_line(spec_tokens(lines[i], 0)) {
            Err(e) => Err(e),
            Ok(it) => match spec_items(lines, i + 1) {
                Err(e) => Err(e),
                Ok(rest) => Ok(seq![it] + rest),
            },
        }
    }
}

fn items_from(lines: &Vec<Vec<u8>>, i: usize) -> (r: Result<Vec<LineItem>, AsmError>)
    requires
        i <= lines.len(),
    ensures
        (match r {
            Ok(v) => Ok(view_items(v@)),
            Err(e) => Err::<Seq<SpecItem>, AsmError>(e),
        }) == spec_items(spec_views(lines@), i as int),
        r matches Ok(v) ==> spec_items_wf(view_items(v@)) && v.len() == lines.len() - i,
    decreases lines.len() - i,
{
    if i >= lines.len() {
        let r: Vec<LineItem> = Vec::new();
        proof {
            assert(view_items(r@) =~= Seq::<SpecItem>::empty());
        }
        return Ok(r);
    }
    let ts = tokens(lines[i].as_slice());
    match parse_line(&ts) {
        Err(e) => Err(e),
        Ok(it) => {
            match items_from(lines, i + 1) {
                Err(e) => Err(e),
                Ok(mut rest) => {
                    rest.insert(0, it);
                    proof {
                        let whole = spec_items(spec_views(lines@), i as int)->Ok_0;
                        assert(view_items(rest@) =~= whole);
                    }
                    Ok(rest)
                },
            }
        },
    }
}

/// The machine code of a piece of assembly text: lines are tokenized and
/// parsed, labels collected with their offsets, and each instruction
/// emitted in its canonical encoding, a near jump to a label with the
/// displacement that reaches the label's offset from the jump's end.
///
/// Inputs over 4096 bytes, the most a single run accepts, are refused.
pub open spec fn spec_assemble(text: Seq<u8>) -> Result<Seq<u8>, AsmError> {
    if text.len() > 4096 {
        Err(AsmError::Unsupported)
    } else {
        match spec_items(spec_split_lines(text, 0), 0) {
            Err(e) => Err(e),
            Ok(items) => spec_emit(items, 0, 0),
        }
    }
}

/// Assembles a text of the supported subset, as [`spec_assemble`] says.
pub fn assemble(text: &[u8]) -> (r: Result<Vec<u8>, AsmError>)
    ensures
        (match r {
            Ok(v) => Ok(v@),
            Err(e) => Err::<Seq<u8>, AsmError>(e),
        }) == spec_assemble(text@),
{
    if text.len() > 4096 {
        return Err(AsmError::Unsupported);
    }
    let lines = split_lines_from(text, 0);
    proof {
        lemma_split_lines_count(text@, 0);
        assert(lines@.len() == spec_views(lines@).len());
    }
    match items_from(&lines, 0) {
        Err(e) => Err(e),
        Ok(items) => emit(&items, 0, 0),
    }
}

} // verus!
