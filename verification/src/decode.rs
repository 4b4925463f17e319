//! Prefix and operand decoding for the supported x86-64 subset.
//!
//! A decode pass classifies each byte as a REX prefix (`0b0100xxxx`), the
//! operand-size override (`0x66`), or an opcode.  Prefixes accumulate into
//! transient state that the following instruction consumes.  Only the
//! register-direct (`mod = 11`) and register-plus-disp8 (`mod = 01`)
//! addressing modes exist in the subset; everything else is a decode
//! failure, never a silent fallback.

use vstd::prelude::*;

verus! {

/// A REX prefix byte: four independent flag bits.
#[derive(Clone, Copy, PartialEq, Eq, Structural, Debug)]
pub struct Rex(pub u8);

impl Rex {
    /// Extension bit for the ModRM `rm` field.
    pub open spec fn spec_b(self) -> bool {
        self.0 & 0b1 != 0
    }

    /// Extension bit for a SIB index field (unused by this subset).
    pub open spec fn spec_x(self) -> bool {
        self.0 & 0b10 != 0
    }

    /// Extension bit for the ModRM `reg` field.
    pub open spec fn spec_r(self) -> bool {
        self.0 & 0b100 != 0
    }

    /// The 64-bit operand-width bit.
    pub open spec fn spec_w(self) -> bool {
        self.0 & 0b1000 != 0
    }

    pub fn b(self) -> (r: bool)
        ensures
            r == self.spec_b(),
    {
        self.0 & 0b1 != 0
    }

    pub fn x(self) -> (r: bool)
        ensures
            r == self.spec_x(),
    {
        self.0 & 0b10 != 0
    }

    pub fn r(self) -> (r: bool)
        ensures
            r == self.spec_r(),
    {
        self.0 & 0b100 != 0
    }

    pub fn w(self) -> (r: bool)
        ensures
            r == self.spec_w(),
    {
        self.0 & 0b1000 != 0
    }
}

/// The REX flags that a pending prefix contributes; no prefix contributes
/// none.
pub open spec fn spec_rex_of(rex: Option<Rex>) -> Rex {
    match rex {
        Some(r) => r,
        None => Rex(0),
    }
}

/// A ModRM byte: two bits of addressing mode, three bits naming a register
/// (or an opcode extension), three bits naming a register or base.
#[derive(Clone, Copy, PartialEq, Eq, Structural, Debug)]
pub struct ModRm(pub u8);

impl ModRm {
    pub open spec fn spec_mod(self) -> u8 {
        (self.0 >> 6) & 0b11
    }

    pub open spec fn spec_reg(self) -> u8 {
        (self.0 >> 3) & 0b111
    }

    pub open spec fn spec_rm(self) -> u8 {
        self.0 & 0b111
    }

    /// The addressing-mode field.
    pub fn mod_(self) -> (r: u8)
        ensures
            r == self.spec_mod(),
            r < 4,
    {
        let v = self.0;
        proof {
            assert((v >> 6) & 0b11 < 4) by (bit_vector);
        }
        (v >> 6) & 0b11
    }

    /// The register / opcode-extension field.
    pub fn reg(self) -> (r: u8)
        ensures
            r == self.spec_reg(),
            r < 8,
    {
        let v = self.0;
        proof {
            assert((v >> 3) & 0b111 < 8) by (bit_vector);
        }
        (v >> 3) & 0b111
    }

    /// The register-or-memory field.
    pub fn rm(self) -> (r: u8)
        ensures
            r == self.spec_rm(),
            r < 8,
    {
        let v = self.0;
        proof {
            assert(v & 0b111 < 8) by (bit_vector);
        }
        v & 0b111
    }
}

/// An operand width the subset can select.
#[derive(Clone, Copy, PartialEq, Eq, Structural, Debug)]
pub enum Width {
    W16,
    W32,
    W64,
}

/// Operand-width selection: REX.W always wins and selects 64 bits, the
/// 0x66 override selects 16 bits only in REX.W's absence, and the default
/// is 32 bits.
pub open spec fn spec_op_width(rex_w: bool, is16: bool) -> Width {
    if rex_w {
        Width::W64
    } else if is16 {
        Width::W16
    } else {
        Width::W32
    }
}

pub fn op_width(rex_w: bool, is16: bool) -> (r: Width)
    ensures
        r == spec_op_width(rex_w, is16),
{
    if rex_w {
        Width::W64
    } else if is16 {
        Width::W16
    } else {
        Width::W32
    }
}

/// Width selection obeys the precedence REX.W > operand-size-override >
/// default-32, for every combination of pending prefixes.
pub proof fn lemma_width_precedence(rex_w: bool, is16: bool)
    ensures
        rex_w ==> spec_op_width(rex_w, is16) == Width::W64,
        !rex_w && is16 ==> spec_op_width(rex_w, is16) == Width::W16,
        !rex_w && !is16 ==> spec_op_width(rex_w, is16) == Width::W32,
{
}

/// One decoded instruction of the supported subset.
///
/// Register operands are stored as ModRM-order slot indices (already
/// REX-extended where the decoder applies the extension); displacements
/// and immediates as the signed or raw values the encoding carries.
#[derive(Clone, Copy, PartialEq, Eq, Structural, Debug)]
pub enum Instr {
    /// `je near` with a 32-bit displacement (`0f 84`).
    JeNear { rel: i32 },
    /// `je` short with an 8-bit displacement (`74`).
    JeShort { rel: i8 },
    /// `jmp near` with a 32-bit displacement (`e9`).
    JmpNear { rel: i32 },
    /// `xor r, r` at a selected width (`31`, register-direct only).
    XorReg { w: Width, dst: u8, src: u8 },
    /// `push rbp` (`55`).
    PushRbp,
    /// `pop r64` with the register baked into the opcode (`58+r`).
    Pop { index: u8 },
    /// `cmp byte [base+disp8], imm8` (`80 /7`).
    CmpMemImm { base: u8, disp: i8, imm: u8 },
    /// `sub r, imm32` at 32 or 64 bits, register-direct (`81 /5`).
    SubRegImm { w64: bool, reg: u8, imm: i32 },
    /// `mov [base+disp8], r8` (`88`).
    MovMemReg8 { base: u8, disp: i8, src: u8 },
    /// `mov r, r` at 32 or 64 bits, register-direct (`89`).
    MovRegReg { w64: bool, dst: u8, src: u8 },
    /// `mov r32, [base+disp8]` (`8b`).
    MovRegMem { dst: u8, base: u8, disp: i8 },
    /// `mov dword [base+disp8], imm32` (`c7 /0`).
    MovMemImm { base: u8, disp: i8, imm: i32 },
    /// Short-form `mov r8, imm8` with the register in the opcode (`b0+r`).
    MovImm8 { reg: u8, imm: u8 },
    /// Short-form `mov r, imm` with the register in the opcode (`b8+r`);
    /// `imm` holds the raw little-endian immediate bits of the width.
    MovImm { w: Width, reg: u8, imm: u64 },
    /// ModRM-addressed `mov r64, imm32` (sign-extended; `c7 /0`, mod 11).
    MovImmSx { reg: u8, imm: i32 },
    /// `ret` (`c3`): ends the run.
    Ret,
    /// The `endbr64` landing-pad marker (`f3 0f 1e fa`): no effect.
    Endbr64,
    /// `hlt` (`f4`): the end-of-test sentinel, never valid user code.
    Hlt,
}

impl Instr {
    /// Field ranges every decoded instruction satisfies.
    pub open spec fn wf(self) -> bool {
        match self {
            Instr::XorReg { w, dst, src } => dst < 16 && src < 16,
            Instr::Pop { index } => index < 8,
            Instr::CmpMemImm { base, .. } => base < 8,
            Instr::SubRegImm { reg, .. } => reg < 8,
            Instr::MovMemReg8 { base, src, .. } => base < 8 && src < 8,
            Instr::MovRegReg { dst, src, .. } => dst < 8 && src < 8,
            Instr::MovRegMem { dst, base, .. } => dst < 8 && base < 8,
            Instr::MovMemImm { base, .. } => base < 8,
            Instr::MovImm8 { reg, .. } => reg < 8,
            Instr::MovImmSx { reg, .. } => reg < 8,
            Instr::MovImm { w, reg, imm } => reg < 16 && (w == Width::W16 ==> imm < 0x10000)
                && (w == Width::W32 ==> imm < 0x1_0000_0000),
            _ => true,
        }
    }
}

/// A reason the decode-execute engine aborts a run.
#[derive(Clone, Copy, PartialEq, Eq, Structural, Debug)]
pub enum Fault {
    /// An opcode outside the implemented subset.
    Unsupported { opcode: u8 },
    /// An addressing mode or opcode extension outside the subset.
    UnsupportedEncoding { opcode: u8, modrm: u8 },
    /// The code buffer is too short for the bytes the opcode implies.
    Truncated,
    /// An effective address left the stack buffer.
    BadAddress,
    /// A jump displacement left the code buffer.
    BadJump,
}

/// Whether a byte is a REX prefix.
pub open spec fn spec_is_rex(b: u8) -> bool {
    b & 0xf0 == 0x40
}

pub fn is_rex(b: u8) -> (r: bool)
    ensures
        r == spec_is_rex(b),
{
    b & 0xf0 == 0x40
}

/// The little-endian 16-bit value at `i`.
pub open spec fn spec_le16(code: Seq<u8>, i: int) -> u64 {
    (code[i] as u64) | ((code[i + 1] as u64) << 8)
}

/// The little-endian 32-bit value at `i`.
pub open spec fn spec_le32(code: Seq<u8>, i: int) -> u64 {
    (code[i] as u64) | ((code[i + 1] as u64) << 8) | ((code[i + 2] as u64) << 16) | ((code[i + 3]
        as u64) << 24)
}

/// The little-endian 64-bit value at `i`.
pub open spec fn spec_le64(code: Seq<u8>, i: int) -> u64 {
    spec_le32(code, i) | (spec_le32(code, i + 4) << 32)
}

/// The little-endian 32-bit value at `i`, reinterpreted as signed.
pub open spec fn spec_i32(code: Seq<u8>, i: int) -> i32 {
    (spec_le32(code, i) as u32) as i32
}

pub fn read_le16(code: &[u8], i: usize) -> (r: u64)
    requires
        i + 2 <= code.len(),
    ensures
        r == spec_le16(code@, i as int),
{
    (code[i] as u64) | ((code[i + 1] as u64) << 8)
}

pub fn read_le32(code: &[u8], i: usize) -> (r: u64)
    requires
        i + 4 <= code.len(),
    ensures
        r == spec_le32(code@, i as int),
        r < 0x1_0000_0000,
{
    let b0 = code[i];
    let b1 = code[i + 1];
    let b2 = code[i + 2];
    let b3 = code[i + 3];
    proof {
        assert((b0 as u64) | ((b1 as u64) << 8) | ((b2 as u64) << 16) | ((b3 as u64) << 24)
            < 0x1_0000_0000) by (bit_vector);
    }
    (b0 as u64) | ((b1 as u64) << 8) | ((b2 as u64) << 16) | ((b3 as u64) << 24)
}

pub fn read_le64(code: &[u8], i: usize) -> (r: u64)
    requires
        i + 8 <= code.len(),
    ensures
        r == spec_le64(code@, i as int),
{
    let lo = read_le32(code, i);
    let hi = read_le32(code, i + 4);
    lo | (hi << 32)
}

pub fn read_i32(code: &[u8], i: usize) -> (r: i32)
    requires
        i + 4 <= code.len(),
    ensures
        r == spec_i32(code@, i as int),
{
    read_le32(code, i) as u32 as i32
}

/// The meaning of the opcode bytes at `ip`, after any prefixes have been
/// consumed into `rex` and `is16`.
///
/// Returns the instruction together with the number of bytes its body
/// occupies (prefix bytes not included), or the fault that rules the
/// encoding out of the subset.
pub open spec fn spec_decode(code: Seq<u8>, ip: int, rex: Option<Rex>, is16: bool) -> Result<
    (Instr, int),
    Fault,
> {
    let rx = spec_rex_of(rex);
    let opcode = code[ip];
    let n = code.len() - ip;
    if opcode == 0x0f {
        if n < 2 {
            Err(Fault::Truncated)
        } else if code[ip + 1] == 0x84 {
            if n < 6 {
                Err(Fault::Truncated)
            } else {
                Ok((Instr::JeNear { rel: spec_i32(code, ip + 2) }, 6))
            }
        } else {
            Err(Fault::Unsupported { opcode: 0x0f })
        }
    } else if opcode == 0x31 {
        if n < 2 {
            Err(Fault::Truncated)
        } else {
            let m = ModRm(code[ip + 1]);
            if m.spec_mod() != 3 {
                Err(Fault::UnsupportedEncoding { opcode, modrm: m.0 })
            } else {
                let w = spec_op_width(rx.spec_w(), is16);
                let dst = (m.spec_rm() + if rx.spec_b() { 8u8 } else { 0u8 }) as u8;
                let src = (m.spec_reg() + if rx.spec_r() { 8u8 } else { 0u8 }) as u8;
                Ok((Instr::XorReg { w, dst, src }, 2))
            }
        }
    } else if opcode == 0x55 {
        Ok((Instr::PushRbp, 1))
    } else if 0x58 <= opcode && opcode <= 0x5f {
        Ok((Instr::Pop { index: (opcode - 0x58) as u8 }, 1))
    } else if opcode == 0x74 {
        if n < 2 {
            Err(Fault::Truncated)
        } else {
            Ok((Instr::JeShort { rel: code[ip + 1] as i8 }, 2))
        }
    } else if opcode == 0x80 {
        if n < 2 {
            Err(Fault::Truncated)
        } else {
            let m = ModRm(code[ip + 1]);
            if m.spec_mod() != 1 || m.spec_reg() != 7 {
                Err(Fault::UnsupportedEncoding { opcode, modrm: m.0 })
            } else if n < 4 {
                Err(Fault::Truncated)
            } else {
                Ok(
                    (
                        Instr::CmpMemImm {
                            base: m.spec_rm(),
                            disp: code[ip + 2] as i8,
                            imm: code[ip + 3],
                        },
                        4,
                    ),
                )
            }
        }
    } else if opcode == 0x81 {
        if n < 2 {
            Err(Fault::Truncated)
        } else if is16 {
            Err(Fault::Unsupported { opcode })
        } else {
            let m = ModRm(code[ip + 1]);
            if m.spec_mod() != 3 || m.spec_reg() != 5 {
                Err(Fault::UnsupportedEncoding { opcode, modrm: m.0 })
            } else if n < 6 {
                Err(Fault::Truncated)
            } else {
                Ok(
                    (
                        Instr::SubRegImm {
                            w64: rx.spec_w(),
                            reg: m.spec_rm(),
                            imm: spec_i32(code, ip + 2),
                        },
                        6,
                    ),
                )
            }
        }
    } else if opcode == 0x88 {
        if n < 2 {
            Err(Fault::Truncated)
        } else {
            let m = ModRm(code[ip + 1]);
            if m.spec_mod() != 1 {
                Err(Fault::UnsupportedEncoding { opcode, modrm: m.0 })
            } else if n < 3 {
                Err(Fault::Truncated)
            } else {
                Ok(
                    (
                        Instr::MovMemReg8 {
                            base: m.spec_rm(),
                            disp: code[ip + 2] as i8,
                            src: m.spec_reg(),
                        },
                        3,
                    ),
                )
            }
        }
    } else if opcode == 0x89 {
        if n < 2 {
            Err(Fault::Truncated)
        } else if is16 {
            Err(Fault::Unsupported { opcode })
        } else {
            let m = ModRm(code[ip + 1]);
            if m.spec_mod() != 3 {
                Err(Fault::UnsupportedEncoding { opcode, modrm: m.0 })
            } else {
                Ok(
                    (
                        Instr::MovRegReg { w64: rx.spec_w(), dst: m.spec_rm(), src: m.spec_reg() },
                        2,
                    ),
                )
            }
        }
    } else if opcode == 0x8b {
        if n < 2 {
            Err(Fault::Truncated)
        } else if is16 {
            Err(Fault::Unsupported { opcode })
        } else {
            let m = ModRm(code[ip + 1]);
            if m.spec_mod() != 1 {
                Err(Fault::UnsupportedEncoding { opcode, modrm: m.0 })
            } else if rx.spec_w() {
                Err(Fault::Unsupported { opcode })
            } else if n < 3 {
                Err(Fault::Truncated)
            } else {
                Ok(
                    (
                        Instr::MovRegMem {
                            dst: m.spec_reg(),
                            base: m.spec_rm(),
                            disp: code[ip + 2] as i8,
                        },
                        3,
                    ),
                )
            }
        }
    } else if 0xb0 <= opcode && opcode <= 0xb7 {
        if n < 2 {
            Err(Fault::Truncated)
        } else {
            Ok((Instr::MovImm8 { reg: (opcode - 0xb0) as u8, imm: code[ip + 1] }, 2))
        }
    } else if 0xb8 <= opcode && opcode <= 0xbf {
        let w = spec_op_width(rx.spec_w(), is16);
        let reg = ((opcode - 0xb8) + if rx.spec_b() { 8u8 } else { 0u8 }) as u8;
        if w == Width::W16 {
            if n < 3 {
                Err(Fault::Truncated)
            } else {
                Ok((Instr::MovImm { w, reg, imm: spec_le16(code, ip + 1) }, 3))
            }
        } else if w == Width::W64 {
            if n < 9 {
                Err(Fault::Truncated)
            } else {
                Ok((Instr::MovImm { w, reg, imm: spec_le64(code, ip + 1) }, 9))
            }
        } else {
            if n < 5 {
                Err(Fault::Truncated)
            } else {
                Ok((Instr::MovImm { w, reg, imm: spec_le32(code, ip + 1) }, 5))
            }
        }
    } else if opcode == 0xc3 {
        Ok((Instr::Ret, 1))
    } else if opcode == 0xc7 {
        if n < 2 {
            Err(Fault::Truncated)
        } else if is16 {
            Err(Fault::Unsupported { opcode })
        } else {
            let m = ModRm(code[ip + 1]);
            if m.spec_mod() == 1 {
                if rx.spec_w() || m.spec_reg() != 0 {
                    Err(Fault::UnsupportedEncoding { opcode, modrm: m.0 })
                } else if n < 7 {
                    Err(Fault::Truncated)
                } else {
                    Ok(
                        (
                            Instr::MovMemImm {
                                base: m.spec_rm(),
                                disp: code[ip + 2] as i8,
                                imm: spec_i32(code, ip + 3),
                            },
                            7,
                        ),
                    )
                }
            } else if m.spec_mod() == 3 {
                if !rx.spec_w() || m.spec_reg() != 0 {
                    Err(Fault::UnsupportedEncoding { opcode, modrm: m.0 })
                } else if n < 6 {
                    Err(Fault::Truncated)
                } else {
                    Ok((Instr::MovImmSx { reg: m.spec_rm(), imm: spec_i32(code, ip + 2) }, 6))
                }
            } else {
                Err(Fault::UnsupportedEncoding { opcode, modrm: m.0 })
            }
        }
    } else if opcode == 0xe9 {
        if n < 5 {
            Err(Fault::Truncated)
        } else {
            Ok((Instr::JmpNear { rel: spec_i32(code, ip + 1) }, 5))
        }
    } else if opcode == 0xf3 {
        if n < 4 {
            Err(Fault::Truncated)
        } else if code[ip + 1] == 0x0f && code[ip + 2] == 0x1e && code[ip + 3] == 0xfa {
            Ok((Instr::Endbr64, 4))
        } else {
            Err(Fault::Unsupported { opcode })
        }
    } else if opcode == 0xf4 {
        Ok((Instr::Hlt, 1))
    } else {
        Err(Fault::Unsupported { opcode })
    }
}

/// A successful decode stays within the buffer, yields a well-formed
/// instruction, and selects operand widths by the REX.W > override >
/// default-32 precedence.
pub proof fn lemma_decode_props(code: Seq<u8>, ip: int, rex: Option<Rex>, is16: bool)
    requires
        0 <= ip < code.len(),
        spec_decode(code, ip, rex, is16) is Ok,
    ensures
        ({
            let (i, len) = spec_decode(code, ip, rex, is16)->Ok_0;
            &&& 1 <= len
            &&& ip + len <= code.len()
            &&& i.wf()
            &&& (i matches Instr::XorReg { w, .. } ==> w == spec_op_width(
                spec_rex_of(rex).spec_w(),
                is16,
            ))
            &&& (i matches Instr::MovImm { w, .. } ==> w == spec_op_width(
                spec_rex_of(rex).spec_w(),
                is16,
            ))
            &&& (i matches Instr::SubRegImm { w64, .. } ==> w64 == spec_rex_of(rex).spec_w())
            &&& (i matches Instr::MovRegReg { w64, .. } ==> w64 == spec_rex_of(rex).spec_w())
        }),
{
    let opcode = code[ip];
    let m = if code.len() - ip >= 2 {
        ModRm(code[ip + 1])
    } else {
        ModRm(0)
    };
    let m0 = m.0;
    assert((m0 >> 6) & 0b11 < 4) by (bit_vector);
    assert((m0 >> 3) & 0b111 < 8) by (bit_vector);
    assert(m0 & 0b111 < 8) by (bit_vector);
    if 0x58 <= opcode && opcode <= 0x5f {
        assert(opcode - 0x58 < 8);
    }
    if 0xb8 <= opcode && opcode <= 0xbf {
        let w = spec_op_width(spec_rex_of(rex).spec_w(), is16);
        if w == Width::W16 && code.len() - ip >= 3 {
            let v = spec_le16(code, ip + 1);
            let b0 = code[ip + 1];
            let b1 = code[ip + 2];
            assert((b0 as u64) | ((b1 as u64) << 8) < 0x10000) by (bit_vector);
        }
        if w == Width::W32 && code.len() - ip >= 5 {
            let b0 = code[ip + 1];
            let b1 = code[ip + 2];
            let b2 = code[ip + 3];
            let b3 = code[ip + 4];
            assert((b0 as u64) | ((b1 as u64) << 8) | ((b2 as u64) << 16) | ((b3 as u64) << 24)
                < 0x1_0000_0000) by (bit_vector);
        }
    }
}

/// Executable decoder for one instruction body; agrees with
/// [`spec_decode`] on every input and never reads outside the buffer.
pub fn decode_body(code: &[u8], ip: usize, rex: Option<Rex>, is16: bool) -> (r: Result<
    (Instr, usize),
    Fault,
>)
    requires
        ip < code.len(),
    ensures
        ({
            let s = spec_decode(code@, ip as int, rex, is16);
            match r {
                Ok((i, len)) => s == Ok::<(Instr, int), Fault>((i, len as int)) && ip + len
                    <= code.len() && i.wf() && len >= 1,
                Err(e) => s == Err::<(Instr, int), Fault>(e),
            }
        }),
{
    let rx = match rex {
        Some(r) => r,
        None => Rex(0),
    };
    let opcode = code[ip];
    let n = code.len() - ip;
    proof {
        lemma_decode_props_conditional(code@, ip as int, rex, is16);
    }
    if opcode == 0x0f {
        if n < 2 {
            Err(Fault::Truncated)
        } else if code[ip + 1] == 0x84 {
            if n < 6 {
                Err(Fault::Truncated)
            } else {
                Ok((Instr::JeNear { rel: read_i32(code, ip + 2) }, 6))
            }
        } else {
            Err(Fault::Unsupported { opcode: 0x0f })
        }
    } else if opcode == 0x31 {
        if n < 2 {
            Err(Fault::Truncated)
        } else {
            let m = ModRm(code[ip + 1]);
            if m.mod_() != 3 {
                Err(Fault::UnsupportedEncoding { opcode, modrm: m.0 })
            } else {
                let w = op_width(rx.w(), is16);
                let dst = m.rm() + if rx.b() { 8 } else { 0 };
                let src = m.reg() + if rx.r() { 8 } else { 0 };
                Ok((Instr::XorReg { w, dst, src }, 2))
            }
        }
    } else if opcode == 0x55 {
        Ok((Instr::PushRbp, 1))
    } else if 0x58 <= opcode && opcode <= 0x5f {
        Ok((Instr::Pop { index: opcode - 0x58 }, 1))
    } else if opcode == 0x74 {
        if n < 2 {
            Err(Fault::Truncated)
        } else {
            Ok((Instr::JeShort { rel: code[ip + 1] as i8 }, 2))
        }
    } else if opcode == 0x80 {
        if n < 2 {
            Err(Fault::Truncated)
        } else {
            let m = ModRm(code[ip + 1]);
            if m.mod_() != 1 || m.reg() != 7 {
                Err(Fault::UnsupportedEncoding { opcode, modrm: m.0 })
            } else if n < 4 {
                Err(Fault::Truncated)
            } else {
                Ok((Instr::CmpMemImm { base: m.rm(), disp: code[ip + 2] as i8, imm: code[ip + 3] }, 4))
            }
        }
    } else if opcode == 0x81 {
        if n < 2 {
            Err(Fault::Truncated)
        } else if is16 {
            Err(Fault::Unsupported { opcode })
        } else {
            let m = ModRm(code[ip + 1]);
            if m.mod_() != 3 || m.reg() != 5 {
                Err(Fault::UnsupportedEncoding { opcode, modrm: m.0 })
            } else if n < 6 {
                Err(Fault::Truncated)
            } else {
                Ok((Instr::SubRegImm { w64: rx.w(), reg: m.rm(), imm: read_i32(code, ip + 2) }, 6))
            }
        }
    } else if opcode == 0x88 {
        if n < 2 {
            Err(Fault::Truncated)
        } else {
            let m = ModRm(code[ip + 1]);
            if m.mod_() != 1 {
                Err(Fault::UnsupportedEncoding { opcode, modrm: m.0 })
            } else if n < 3 {
                Err(Fault::Truncated)
            } else {
                Ok((Instr::MovMemReg8 { base: m.rm(), disp: code[ip + 2] as i8, src: m.reg() }, 3))
            }
        }
    } else if opcode == 0x89 {
        if n < 2 {
            Err(Fault::Truncated)
        } else if is16 {
            Err(Fault::Unsupported { opcode })
        } else {
            let m = ModRm(code[ip + 1]);
            if m.mod_() != 3 {
                Err(Fault::UnsupportedEncoding { opcode, modrm: m.0 })
            } else {
                Ok((Instr::MovRegReg { w64: rx.w(), dst: m.rm(), src: m.reg() }, 2))
            }
        }
    } else if opcode == 0x8b {
        if n < 2 {
            Err(Fault::Truncated)
        } else if is16 {
            Err(Fault::Unsupported { opcode })
        } else {
            let m = ModRm(code[ip + 1]);
            if m.mod_() != 1 {
                Err(Fault::UnsupportedEncoding { opcode, modrm: m.0 })
            } else if rx.w() {
                Err(Fault::Unsupported { opcode })
            } else if n < 3 {
                Err(Fault::Truncated)
            } else {
                Ok((Instr::MovRegMem { dst: m.reg(), base: m.rm(), disp: code[ip + 2] as i8 }, 3))
            }
        }
    } else if 0xb0 <= opcode && opcode <= 0xb7 {
        if n < 2 {
            Err(Fault::Truncated)
        } else {
            Ok((Instr::MovImm8 { reg: opcode - 0xb0, imm: code[ip + 1] }, 2))
        }
    } else if 0xb8 <= opcode && opcode <= 0xbf {
        let w = op_width(rx.w(), is16);
        let reg = (opcode - 0xb8) + if rx.b() { 8 } else { 0 };
        match w {
            Width::W16 => {
                if n < 3 {
                    Err(Fault::Truncated)
                } else {
                    Ok((Instr::MovImm { w, reg, imm: read_le16(code, ip + 1) }, 3))
                }
            },
            Width::W64 => {
                if n < 9 {
                    Err(Fault::Truncated)
                } else {
                    Ok((Instr::MovImm { w, reg, imm: read_le64(code, ip + 1) }, 9))
                }
            },
            Width::W32 => {
                if n < 5 {
                    Err(Fault::Truncated)
                } else {
                    Ok((Instr::MovImm { w, reg, imm: read_le32(code, ip + 1) }, 5))
                }
            },
        }
    } else if opcode == 0xc3 {
        Ok((Instr::Ret, 1))
    } else if opcode == 0xc7 {
        if n < 2 {
            Err(Fault::Truncated)
        } else if is16 {
            Err(Fault::Unsupported { opcode })
        } else {
            let m = ModRm(code[ip + 1]);
            if m.mod_() == 1 {
                if rx.w() || m.reg() != 0 {
                    Err(Fault::UnsupportedEncoding { opcode, modrm: m.0 })
                } else if n < 7 {
                    Err(Fault::Truncated)
                } else {
                    Ok(
                        (
                            Instr::MovMemImm {
                                base: m.rm(),
                                disp: code[ip + 2] as i8,
                                imm: read_i32(code, ip + 3),
                            },
                            7,
                        ),
                    )
                }
            } else if m.mod_() == 3 {
                if !rx.w() || m.reg() != 0 {
                    Err(Fault::UnsupportedEncoding { opcode, modrm: m.0 })
                } else if n < 6 {
                    Err(Fault::Truncated)
                } else {
                    Ok((Instr::MovImmSx { reg: m.rm(), imm: read_i32(code, ip + 2) }, 6))
                }
            } else {
                Err(Fault::UnsupportedEncoding { opcode, modrm: m.0 })
            }
        }
    } else if opcode == 0xe9 {
        if n < 5 {
            Err(Fault::Truncated)
        } else {
            Ok((Instr::JmpNear { rel: read_i32(code, ip + 1) }, 5))
        }
    } else if opcode == 0xf3 {
        if n < 4 {
            Err(Fault::Truncated)
        } else if code[ip + 1] == 0x0f && code[ip + 2] == 0x1e && code[ip + 3] == 0xfa {
            Ok((Instr::Endbr64, 4))
        } else {
            Err(Fault::Unsupported { opcode })
        }
    } else if opcode == 0xf4 {
        Ok((Instr::Hlt, 1))
    } else {
        Err(Fault::Unsupported { opcode })
    }
}

proof fn lemma_decode_props_conditional(code: Seq<u8>, ip: int, rex: Option<Rex>, is16: bool)
    requires
        0 <= ip < code.len(),
    ensures
        spec_decode(code, ip, rex, is16) is Ok ==> ({
            let (i, len) = spec_decode(code, ip, rex, is16)->Ok_0;
            &&& 1 <= len
            &&& ip + len <= code.len()
            &&& i.wf()
        }),
{
    if spec_decode(code, ip, rex, is16) is Ok {
        lemma_decode_props(code, ip, rex, is16);
    }
}

/// The result of consuming prefixes at `ip` and decoding the instruction
/// that follows: the instruction together with the position of its opcode
/// byte and the position just past its last byte.
pub open spec fn spec_decode_full(code: Seq<u8>, ip: int, rex: Option<Rex>, is16: bool) -> Result<
    (Instr, int, int),
    Fault,
>
    decreases code.len() - ip,
{
    if ip < 0 || ip >= code.len() {
        Err(Fault::Truncated)
    } else {
        let b = code[ip];
        if spec_is_rex(b) {
            spec_decode_full(code, ip + 1, Some(Rex(b)), is16)
        } else if b == 0x66 {
            spec_decode_full(code, ip + 1, rex, true)
        } else {
            match spec_decode(code, ip, rex, is16) {
                Ok((i, len)) => Ok((i, ip, ip + len)),
                Err(e) => Err(e),
            }
        }
    }
}

} // verus!
