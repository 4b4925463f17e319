//! The register file: 16 eight-byte slots with width-typed views.
//!
//! Four register-name families (8/16/32/64-bit) map onto the same 16
//! physical slots in the ModRM numbering order (A, C, D, B, SP, BP, SI, DI,
//! R8..R15).  A write through a narrower view changes only the bytes that
//! belong to that view; in particular a 32-bit write leaves the upper 32
//! bits of the slot untouched (a deliberate deviation from real hardware
//! that the rest of the crate, and its tests, are written against).

use vstd::prelude::*;
use vstd::string::StringSliceAdditionalSpecFns;

verus! {

/// One 8-byte register slot, modelled as the 64-bit little-endian value of
/// its bytes.
#[derive(Clone, Copy, PartialEq, Eq, Structural, Debug)]
pub struct RegData {
    pub x: u64,
}

impl RegData {
    /// The all-zero slot.
    pub fn zero() -> (r: RegData)
        ensures
            r.x == 0,
    {
        RegData { x: 0 }
    }

    /// The low byte of the slot.
    pub fn r8(self) -> (r: u8)
        ensures
            r == (self.x & 0xff) as u8,
    {
        (self.x & 0xff) as u8
    }

    /// The second byte of the slot (the AH-style high-byte view).
    pub fn r8h(self) -> (r: u8)
        ensures
            r == ((self.x >> 8) & 0xff) as u8,
    {
        ((self.x >> 8) & 0xff) as u8
    }

    /// The low two bytes of the slot.
    pub fn r16(self) -> (r: u16)
        ensures
            r == (self.x & 0xffff) as u16,
    {
        (self.x & 0xffff) as u16
    }

    /// The low four bytes of the slot.
    pub fn r32(self) -> (r: u32)
        ensures
            r == (self.x & 0xffff_ffff) as u32,
    {
        (self.x & 0xffff_ffff) as u32
    }

    /// The whole slot.
    pub fn r64(self) -> (r: u64)
        ensures
            r == self.x,
    {
        self.x
    }

    /// Overwrites the low byte only.
    pub fn set_r8(&mut self, new: u8)
        ensures
            final(self).x == (old(self).x & 0xffff_ffff_ffff_ff00) | (new as u64),
    {
        self.x = (self.x & 0xffff_ffff_ffff_ff00) | (new as u64);
    }

    /// Overwrites the second byte only (the AH-style high-byte view).
    pub fn set_r8h(&mut self, new: u8)
        ensures
            final(self).x == (old(self).x & 0xffff_ffff_ffff_00ff) | ((new as u64) << 8),
    {
        self.x = (self.x & 0xffff_ffff_ffff_00ff) | ((new as u64) << 8);
    }

    /// Overwrites the low two bytes only.
    pub fn set_r16(&mut self, new: u16)
        ensures
            final(self).x == (old(self).x & 0xffff_ffff_ffff_0000) | (new as u64),
    {
        self.x = (self.x & 0xffff_ffff_ffff_0000) | (new as u64);
    }

    /// Overwrites the low four bytes only; the upper four stay as they were.
    pub fn set_r32(&mut self, new: u32)
        ensures
            final(self).x == (old(self).x & 0xffff_ffff_0000_0000) | (new as u64),
    {
        self.x = (self.x & 0xffff_ffff_0000_0000) | (new as u64);
    }

    /// Overwrites the whole slot.
    pub fn set_r64(&mut self, new: u64)
        ensures
            final(self).x == new,
    {
        self.x = new;
    }
}

/// The 16 general-purpose register slots in ModRM numbering order.
pub struct Registers {
    pub general: Vec<RegData>,
}

impl Registers {
    /// The file always holds exactly 16 slots.
    pub open spec fn wf(self) -> bool {
        self.general.len() == 16
    }

    /// The 64-bit value of slot `i`.
    pub open spec fn slot(self, i: int) -> u64 {
        self.general[i].x
    }

    /// A fresh file with every slot zero.
    pub fn new() -> (r: Registers)
        ensures
            r.wf(),
            forall|i: int| 0 <= i < 16 ==> r.slot(i) == 0,
    {
        let mut general: Vec<RegData> = Vec::new();
        let mut i: usize = 0;
        while i < 16
            invariant
                i <= 16,
                general.len() == i,
                forall|j: int| 0 <= j < i ==> general[j].x == 0,
            decreases 16 - i,
        {
            general.push(RegData { x: 0 });
            i = i + 1;
        }
        Registers { general }
    }

    /// Reads slot `i` whole.
    pub fn get(&self, i: usize) -> (r: RegData)
        requires
            self.wf(),
            i < 16,
        ensures
            r == self.general[i as int],
    {
        self.general[i]
    }

    /// Replaces slot `i` whole; every other slot stays as it was.
    pub fn set(&mut self, i: usize, v: RegData)
        requires
            old(self).wf(),
            i < 16,
        ensures
            final(self).wf(),
            final(self).general@ == old(self).general@.update(i as int, v),
    {
        self.general.set(i, v);
    }
}

/// Resolution of an 8-bit register identifier to a physical slot and a byte
/// position within it.
///
/// Without a REX prefix the eight legacy identifiers name the low and the
/// second byte of the first four slots (AL, CL, DL, BL, AH, CH, DH, BH);
/// with any REX prefix present all identifiers name the low byte of their
/// slot, which extends to the full 16 slots.
pub open spec fn spec_resolve8(index: u8, rex_present: bool) -> (int, bool) {
    if rex_present {
        (index as int, false)
    } else if index < 4 {
        (index as int, false)
    } else {
        (index as int - 4, true)
    }
}

/// Executable form of [`spec_resolve8`]: which slot, and whether the
/// high-byte position, an 8-bit register identifier addresses.
pub fn resolve8(index: u8, rex_present: bool) -> (r: (usize, bool))
    requires
        rex_present ==> index < 16,
        !rex_present ==> index < 8,
    ensures
        (r.0 as int, r.1) == spec_resolve8(index, rex_present),
        r.0 < 16,
{
    if rex_present {
        (index as usize, false)
    } else if index < 4 {
        (index as usize, false)
    } else {
        ((index - 4) as usize, true)
    }
}

impl Registers {
    /// Reads the byte that 8-bit identifier `index` names under the given
    /// REX presence.
    pub fn read8(&self, index: u8, rex_present: bool) -> (r: u8)
        requires
            self.wf(),
            rex_present ==> index < 16,
            !rex_present ==> index < 8,
        ensures
            ({
                let (slot, high) = spec_resolve8(index, rex_present);
                if high {
                    r == ((self.slot(slot) >> 8) & 0xff) as u8
                } else {
                    r == (self.slot(slot) & 0xff) as u8
                }
            }),
    {
        let (slot, high) = resolve8(index, rex_present);
        if high {
            self.get(slot).r8h()
        } else {
            self.get(slot).r8()
        }
    }

    /// Writes the byte that 8-bit identifier `index` names under the given
    /// REX presence; all other bytes of the file are untouched.
    pub fn write8(&mut self, index: u8, rex_present: bool, new: u8)
        requires
            old(self).wf(),
            rex_present ==> index < 16,
            !rex_present ==> index < 8,
        ensures
            final(self).wf(),
            ({
                let (slot, high) = spec_resolve8(index, rex_present);
                &&& (forall|j: int| 0 <= j < 16 && j != slot ==> final(self).slot(j) == old(self).slot(j))
                &&& (if high {
                    final(self).slot(slot) == (old(self).slot(slot) & 0xffff_ffff_ffff_00ff) | ((new as u64) << 8)
                } else {
                    final(self).slot(slot) == (old(self).slot(slot) & 0xffff_ffff_ffff_ff00) | (new as u64)
                })
            }),
    {
        let (slot, high) = resolve8(index, rex_present);
        let mut d = self.get(slot);
        if high {
            d.set_r8h(new);
        } else {
            d.set_r8(new);
        }
        self.set(slot, d);
    }
}

/// The register aliasing invariant for 8-bit legacy identifiers.
///
/// Without a REX prefix, writing the high-byte alias of a slot (identifier
/// 4..8, the AH-style names, whose slot value changes from `s` to
/// `(s & !0xff00) | (v << 8)` by [`Registers::write8`]) never disturbs the
/// low-byte alias of the same slot, and writing a low-byte alias never
/// disturbs the high-byte alias; with a REX prefix present every
/// identifier addresses only the low byte of its own slot.
pub proof fn lemma_register_aliasing(s: u64, v: u8, index: u8, rex_present: bool)
    requires
        rex_present ==> index < 16,
        !rex_present ==> index < 8,
    ensures
        ((s & 0xffff_ffff_ffff_00ff) | ((v as u64) << 8)) & 0xff == s & 0xff,
        (((s & 0xffff_ffff_ffff_ff00) | (v as u64)) >> 8) & 0xff == (s >> 8) & 0xff,
        !rex_present && index >= 4 ==> spec_resolve8(index, rex_present) == (index - 4, true),
        !rex_present && index < 4 ==> spec_resolve8(index, rex_present) == (index as int, false),
        rex_present ==> spec_resolve8(index, rex_present) == (index as int, false),
{
    assert(((s & 0xffff_ffff_ffff_00ff) | ((v as u64) << 8)) & 0xff == s & 0xff) by (bit_vector);
    assert((((s & 0xffff_ffff_ffff_ff00) | (v as u64)) >> 8) & 0xff == (s >> 8) & 0xff) by (bit_vector);
}

/// A register identifier family that resolves to one of the 16 slots.
pub trait Register: Sized + Copy {
    /// The slot this identifier names.
    spec fn spec_index(self) -> int;

    /// The identifier for ModRM register number `x`.
    fn from_index(x: u8) -> (r: Self)
        requires
            x < 16,
        ensures
            r.spec_index() == x as int,
    ;

    /// The slot this identifier names, as an index into the file.
    fn as_usize(self) -> (r: usize)
        ensures
            r as int == self.spec_index(),
            r < 16,
    ;
}

/// The 64-bit register names.
#[derive(Clone, Copy, PartialEq, Eq, Structural, Debug)]
pub enum R64 {
    RAX,
    RCX,
    RDX,
    RBX,
    RSP,
    RBP,
    RSI,
    RDI,
    R8,
    R9,
    R10,
    R11,
    R12,
    R13,
    R14,
    R15,
}

/// The 64-bit register identifier of slot `k`.
pub open spec fn spec_r64_of(k: u8) -> R64 {
    if k == 0 {
        R64::RAX
    } else if k == 1 {
        R64::RCX
    } else if k == 2 {
        R64::RDX
    } else if k == 3 {
        R64::RBX
    } else if k == 4 {
        R64::RSP
    } else if k == 5 {
        R64::RBP
    } else if k == 6 {
        R64::RSI
    } else if k == 7 {
        R64::RDI
    } else if k == 8 {
        R64::R8
    } else if k == 9 {
        R64::R9
    } else if k == 10 {
        R64::R10
    } else if k == 11 {
        R64::R11
    } else if k == 12 {
        R64::R12
    } else if k == 13 {
        R64::R13
    } else if k == 14 {
        R64::R14
    } else {
        R64::R15
    }
}

/// A 64-bit identifier is determined by its slot.
pub proof fn lemma_r64_of_index(reg: R64)
    ensures
        spec_r64_of(reg.spec_index() as u8) == reg,
{
}

impl R64 {
    /// The register named `x` in the assembler's lower-case spelling, if
    /// any: exactly the names "rax" .. "r15", each yielding the identifier
    /// whose own spelling is `x`.
    pub fn from_name(x: &str) -> (r: Option<R64>)
        ensures
            (match r {
                Some(reg) => Some(reg.spec_index() as u8),
                None => None::<u8>,
            }) == crate::assembler::spec_parse_name64(x.spec_bytes()),
            r matches Some(reg) ==> x.spec_bytes() == crate::disasm::spec_name64(
                reg.spec_index() as u8,
            ),
    {
        let b = vstd::slice::slice_to_vec(x.as_bytes());
        match crate::assembler::parse_name64(&b) {
            Some(k) => Some(R64::from_index(k)),
            None => None,
        }
    }
}

impl Register for R64 {
    open spec fn spec_index(self) -> int {
        match self {
            R64::RAX => 0,
            R64::RCX => 1,
            R64::RDX => 2,
            R64::RBX => 3,
            R64::RSP => 4,
            R64::RBP => 5,
            R64::RSI => 6,
            R64::RDI => 7,
            R64::R8 => 8,
            R64::R9 => 9,
            R64::R10 => 10,
            R64::R11 => 11,
            R64::R12 => 12,
            R64::R13 => 13,
            R64::R14 => 14,
            R64::R15 => 15,
        }
    }

    fn from_index(x: u8) -> (r: Self) {
        match x {
            0 => R64::RAX,
            1 => R64::RCX,
            2 => R64::RDX,
            3 => R64::RBX,
            4 => R64::RSP,
            5 => R64::RBP,
            6 => R64::RSI,
            7 => R64::RDI,
            8 => R64::R8,
            9 => R64::R9,
            10 => R64::R10,
            11 => R64::R11,
            12 => R64::R12,
            13 => R64::R13,
            14 => R64::R14,
            _ => R64::R15,
        }
    }

    fn as_usize(self) -> (r: usize) {
        match self {
            R64::RAX => 0,
            R64::RCX => 1,
            R64::RDX => 2,
            R64::RBX => 3,
            R64::RSP => 4,
            R64::RBP => 5,
            R64::RSI => 6,
            R64::RDI => 7,
            R64::R8 => 8,
            R64::R9 => 9,
            R64::R10 => 10,
            R64::R11 => 11,
            R64::R12 => 12,
            R64::R13 => 13,
            R64::R14 => 14,
            R64::R15 => 15,
        }
    }
}

/// The 32-bit register names.
#[derive(Clone, Copy, PartialEq, Eq, Structural, Debug)]
pub enum R32 {
    EAX,
    ECX,
    EDX,
    EBX,
    ESP,
    EBP,
    ESI,
    EDI,
    R8D,
    R9D,
    R10D,
    R11D,
    R12D,
    R13D,
    R14D,
    R15D,
}

impl Register for R32 {
    open spec fn spec_index(self) -> int {
        match self {
            R32::EAX => 0,
            R32::ECX => 1,
            R32::EDX => 2,
            R32::EBX => 3,
            R32::ESP => 4,
            R32::EBP => 5,
            R32::ESI => 6,
            R32::EDI => 7,
            R32::R8D => 8,
            R32::R9D => 9,
            R32::R10D => 10,
            R32::R11D => 11,
            R32::R12D => 12,
            R32::R13D => 13,
            R32::R14D => 14,
            R32::R15D => 15,
        }
    }

    fn from_index(x: u8) -> (r: Self) {
        match x {
            0 => R32::EAX,
            1 => R32::ECX,
            2 => R32::EDX,
            3 => R32::EBX,
            4 => R32::ESP,
            5 => R32::EBP,
            6 => R32::ESI,
            7 => R32::EDI,
            8 => R32::R8D,
            9 => R32::R9D,
            10 => R32::R10D,
            11 => R32::R11D,
            12 => R32::R12D,
            13 => R32::R13D,
            14 => R32::R14D,
            _ => R32::R15D,
        }
    }

    fn as_usize(self) -> (r: usize) {
        match self {
            R32::EAX => 0,
            R32::ECX => 1,
            R32::EDX => 2,
            R32::EBX => 3,
            R32::ESP => 4,
            R32::EBP => 5,
            R32::ESI => 6,
            R32::EDI => 7,
            R32::R8D => 8,
            R32::R9D => 9,
            R32::R10D => 10,
            R32::R11D => 11,
            R32::R12D => 12,
            R32::R13D => 13,
            R32::R14D => 14,
            R32::R15D => 15,
        }
    }
}

/// The 16-bit register names.
#[derive(Clone, Copy, PartialEq, Eq, Structural, Debug)]
pub enum R16 {
    AX,
    CX,
    DX,
    BX,
    SP,
    BP,
    SI,
    DI,
    R8W,
    R9W,
    R10W,
    R11W,
    R12W,
    R13W,
    R14W,
    R15W,
}

impl Register for R16 {
    open spec fn spec_index(self) -> int {
        match self {
            R16::AX => 0,
            R16::CX => 1,
            R16::DX => 2,
            R16::BX => 3,
            R16::SP => 4,
            R16::BP => 5,
            R16::SI => 6,
            R16::DI => 7,
            R16::R8W => 8,
            R16::R9W => 9,
            R16::R10W => 10,
            R16::R11W => 11,
            R16::R12W => 12,
            R16::R13W => 13,
            R16::R14W => 14,
            R16::R15W => 15,
        }
    }

    fn from_index(x: u8) -> (r: Self) {
        match x {
            0 => R16::AX,
            1 => R16::CX,
            2 => R16::DX,
            3 => R16::BX,
            4 => R16::SP,
            5 => R16::BP,
            6 => R16::SI,
            7 => R16::DI,
            8 => R16::R8W,
            9 => R16::R9W,
            10 => R16::R10W,
            11 => R16::R11W,
            12 => R16::R12W,
            13 => R16::R13W,
            14 => R16::R14W,
            _ => R16::R15W,
        }
    }

    fn as_usize(self) -> (r: usize) {
        match self {
            R16::AX => 0,
            R16::CX => 1,
            R16::DX => 2,
            R16::BX => 3,
            R16::SP => 4,
            R16::BP => 5,
            R16::SI => 6,
            R16::DI => 7,
            R16::R8W => 8,
            R16::R9W => 9,
            R16::R10W => 10,
            R16::R11W => 11,
            R16::R12W => 12,
            R16::R13W => 13,
            R16::R14W => 14,
            R16::R15W => 15,
        }
    }
}

/// The 8-bit register names.
///
/// The first eight are the legacy names that a ModRM register number 0..8
/// selects when no REX prefix is present; the AH..BH group names the second
/// byte of the first four slots.  The remaining names are reachable only
/// with a REX prefix and address the low byte of their slot.
#[derive(Clone, Copy, PartialEq, Eq, Structural, Debug)]
pub enum R8 {
    AL,
    CL,
    DL,
    BL,
    AH,
    CH,
    DH,
    BH,
    SPL,
    BPL,
    SIL,
    DIL,
    R8B,
    R9B,
    R10B,
    R11B,
    R12B,
    R13B,
    R14B,
    R15B,
}

impl R8 {
    /// The identifier number this name carries in an instruction encoding.
    pub open spec fn spec_index8(self) -> int {
        match self {
            R8::AL => 0,
            R8::CL => 1,
            R8::DL => 2,
            R8::BL => 3,
            R8::AH => 4,
            R8::CH => 5,
            R8::DH => 6,
            R8::BH => 7,
            R8::SPL => 4,
            R8::BPL => 5,
            R8::SIL => 6,
            R8::DIL => 7,
            R8::R8B => 8,
            R8::R9B => 9,
            R8::R10B => 10,
            R8::R11B => 11,
            R8::R12B => 12,
            R8::R13B => 13,
            R8::R14B => 14,
            R8::R15B => 15,
        }
    }

    /// Whether this name is only reachable with a REX prefix present.
    pub open spec fn spec_needs_rex(self) -> bool {
        match self {
            R8::AL | R8::CL | R8::DL | R8::BL | R8::AH | R8::CH | R8::DH | R8::BH => false,
            _ => true,
        }
    }

    /// The name that ModRM register number `x` selects.
    ///
    /// Without REX only numbers 0..8 occur and the AH-style aliases are
    /// reachable; with REX every number selects a low-byte name.
    pub fn from_index(x: u8, rex_present: bool) -> (r: R8)
        requires
            rex_present ==> x < 16,
            !rex_present ==> x < 8,
        ensures
            r.spec_index8() == x as int,
            r.spec_needs_rex() == (rex_present && x >= 4),
    {
        if rex_present {
            match x {
                0 => R8::AL,
                1 => R8::CL,
                2 => R8::DL,
                3 => R8::BL,
                4 => R8::SPL,
                5 => R8::BPL,
                6 => R8::SIL,
                7 => R8::DIL,
                8 => R8::R8B,
                9 => R8::R9B,
                10 => R8::R10B,
                11 => R8::R11B,
                12 => R8::R12B,
                13 => R8::R13B,
                14 => R8::R14B,
                _ => R8::R15B,
            }
        } else {
            match x {
                0 => R8::AL,
                1 => R8::CL,
                2 => R8::DL,
                3 => R8::BL,
                4 => R8::AH,
                5 => R8::CH,
                6 => R8::DH,
                _ => R8::BH,
            }
        }
    }
}

} // verus!
