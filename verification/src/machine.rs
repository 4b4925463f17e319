//! The fetch-decode-execute engine.
//!
//! One emulation run owns a register file, a private stack buffer, and an
//! instruction pointer into an immutable code buffer.  Each step consumes
//! any prefix bytes, decodes one instruction, mutates the machine state as
//! [`spec_sem`] says, and hands the disassembly sink one line of text.
//! Reaching the halt sentinel or a return opcode ends the run; any
//! unsupported or malformed encoding aborts it with a [`Fault`].

use vstd::prelude::*;
use crate::decode::{
    decode_body, spec_decode, spec_decode_full, spec_is_rex, spec_le32, Fault, Instr, Rex, Width,
};
use crate::disasm::{format_instr, spec_sx_bits};
use crate::registers::{spec_resolve8, RegData, Registers};

verus! {

/// The size of the private stack/data buffer of one run.
pub const STACK_SIZE: usize = 0x100000;

/// The slots of the register file as a sequence of 64-bit values.
pub open spec fn spec_slots(r: Registers) -> Seq<u64> {
    Seq::new(r.general@.len(), |i: int| r.slot(i))
}

/// Byte `k` of the little-endian representation of `v`.
pub open spec fn spec_byte_of(v: u64, k: int) -> u8 {
    ((v >> ((8 * k) as u64)) & 0xff) as u8
}

/// `s` with `n` bytes of the little-endian representation of `v` stored at
/// `addr`; all other bytes unchanged.
pub open spec fn spec_store_le(s: Seq<u8>, addr: int, n: int, v: u64) -> Seq<u8> {
    Seq::new(
        s.len(),
        |i: int|
            if addr <= i < addr + n {
                spec_byte_of(v, i - addr)
            } else {
                s[i]
            },
    )
}

/// The low bits of a slot value at width `w`.
pub open spec fn spec_view(w: Width, v: u64) -> u64 {
    match w {
        Width::W16 => v & 0xffff,
        Width::W32 => v & 0xffff_ffff,
        Width::W64 => v,
    }
}

/// A narrow write into a slot: the written width's bytes change, the rest
/// of the slot stays (for 32-bit writes too, the documented deviation from
/// real hardware).
pub open spec fn spec_merge(w: Width, old_v: u64, x: u64) -> u64 {
    match w {
        Width::W16 => (old_v & 0xffff_ffff_ffff_0000) | (x & 0xffff),
        Width::W32 => (old_v & 0xffff_ffff_0000_0000) | (x & 0xffff_ffff),
        Width::W64 => x,
    }
}

/// The effective address `base + disp`, wrapping as 64-bit hardware would.
pub open spec fn spec_ea(base_val: u64, disp: i8) -> u64 {
    vstd::wrapping::u64_specs::wrapping_add_signed(base_val, disp as i64)
}

/// What one decoded instruction does to the machine state.
///
/// `body_ip` is the position of the opcode byte, `end_ip` the position
/// just past the instruction.  The result is the new register slots, the
/// new stack bytes, the new instruction pointer, and whether the run ends;
/// or the fault that aborts the run.
///
/// The subset models no condition flags: compares only record their text,
/// conditional jumps fall through, and the near jump advances the
/// instruction pointer by its displacement from the opcode position, so a
/// jump over an alternative body lands on that body and a straight-line
/// walk of the program visits both sides of a branch.  A displacement
/// that does not move the pointer forward, or that leaves the buffer, is
/// a [`Fault::BadJump`]: every run either halts, faults, or walks off the
/// end of the code.
pub open spec fn spec_sem(
    i: Instr,
    body_ip: int,
    end_ip: int,
    code_len: int,
    regs: Seq<u64>,
    stack: Seq<u8>,
) -> Result<(Seq<u64>, Seq<u8>, int, bool), Fault> {
    match i {
        Instr::JeNear { .. } => Ok((regs, stack, end_ip, false)),
        Instr::JeShort { .. } => Ok((regs, stack, end_ip, false)),
        Instr::CmpMemImm { .. } => Ok((regs, stack, end_ip, false)),
        Instr::Pop { .. } => Ok((regs, stack, end_ip, false)),
        Instr::Endbr64 => Ok((regs, stack, end_ip, false)),
        Instr::JmpNear { rel } => {
            if rel <= 0 || body_ip + rel > code_len {
                Err(Fault::BadJump)
            } else {
                Ok((regs, stack, body_ip + rel, false))
            }
        },
        Instr::XorReg { w, dst, src } => {
            let v = spec_view(w, regs[dst as int]) ^ spec_view(w, regs[src as int]);
            Ok((regs.update(dst as int, spec_merge(w, regs[dst as int], v)), stack, end_ip, false))
        },
        Instr::PushRbp => {
            let rsp = regs[4];
            if rsp < 8 || rsp > stack.len() {
                Err(Fault::BadAddress)
            } else {
                Ok((regs, spec_store_le(stack, rsp - 8, 8, regs[5]), end_ip, false))
            }
        },
        Instr::SubRegImm { w64, reg, imm } => {
            if w64 {
                let v = vstd::wrapping::u64_specs::wrapping_sub(regs[reg as int], spec_sx_bits(imm));
                Ok((regs.update(reg as int, v), stack, end_ip, false))
            } else {
                let v32 = vstd::wrapping::u32_specs::wrapping_sub(
                    (regs[reg as int] & 0xffff_ffff) as u32,
                    imm as u32,
                );
                let v = spec_merge(Width::W32, regs[reg as int], v32 as u64);
                Ok((regs.update(reg as int, v), stack, end_ip, false))
            }
        },
        Instr::MovMemReg8 { base, disp, src } => {
            let addr = spec_ea(regs[base as int], disp);
            if addr + 1 > stack.len() {
                Err(Fault::BadAddress)
            } else {
                let (slot, high) = spec_resolve8(src, false);
                let byte = if high {
                    ((regs[slot] >> 8) & 0xff) as u8
                } else {
                    (regs[slot] & 0xff) as u8
                };
                Ok((regs, spec_store_le(stack, addr as int, 1, byte as u64), end_ip, false))
            }
        },
        Instr::MovRegReg { w64, dst, src } => {
            if w64 {
                Ok((regs.update(dst as int, regs[src as int]), stack, end_ip, false))
            } else {
                let v = spec_merge(Width::W32, regs[dst as int], regs[src as int] & 0xffff_ffff);
                Ok((regs.update(dst as int, v), stack, end_ip, false))
            }
        },
        Instr::MovRegMem { dst, base, disp } => {
            let addr = spec_ea(regs[base as int], disp);
            if addr + 4 > stack.len() {
                Err(Fault::BadAddress)
            } else {
                let v = spec_merge(Width::W32, regs[dst as int], spec_le32(stack, addr as int));
                Ok((regs.update(dst as int, v), stack, end_ip, false))
            }
        },
        Instr::MovMemImm { base, disp, imm } => {
            let addr = spec_ea(regs[base as int], disp);
            if addr + 4 > stack.len() {
                Err(Fault::BadAddress)
            } else {
                Ok((regs, spec_store_le(stack, addr as int, 4, (imm as u32) as u64), end_ip, false))
            }
        },
        Instr::MovImm8 { reg, imm } => {
            let (slot, high) = spec_resolve8(reg, false);
            let v = if high {
                (regs[slot] & 0xffff_ffff_ffff_00ff) | ((imm as u64) << 8)
            } else {
                (regs[slot] & 0xffff_ffff_ffff_ff00) | (imm as u64)
            };
            Ok((regs.update(slot, v), stack, end_ip, false))
        },
        Instr::MovImm { w, reg, imm } => {
            let v = spec_merge(w, regs[reg as int], imm);
            Ok((regs.update(reg as int, v), stack, end_ip, false))
        },
        Instr::MovImmSx { reg, imm } => {
            Ok((regs.update(reg as int, spec_sx_bits(imm)), stack, end_ip, false))
        },
        Instr::Ret => Ok((regs, stack, end_ip, true)),
        Instr::Hlt => Ok((regs, stack, end_ip, true)),
    }
}

/// One full engine transition: consume prefixes, decode, execute.
pub open spec fn spec_step(code: Seq<u8>, regs: Seq<u64>, stack: Seq<u8>, ip: int) -> Result<
    (Seq<u64>, Seq<u8>, int, bool),
    Fault,
> {
    match spec_decode_full(code, ip, None, false) {
        Ok((i, body_ip, end_ip)) => spec_sem(i, body_ip, end_ip, code.len() as int, regs, stack),
        Err(e) => Err(e),
    }
}

/// The lines one transition hands the sink: the instruction's formatted
/// text, except for the halt sentinel and for a faulting step, which
/// hand it nothing.
pub open spec fn spec_step_lines(code: Seq<u8>, ip: int, rex: Option<Rex>, is16: bool) -> Seq<
    Seq<u8>,
> {
    match spec_decode_full(code, ip, rex, is16) {
        Ok((i, body_ip, end_ip)) => if i is Hlt {
            Seq::empty()
        } else {
            seq![crate::disasm::spec_format(i)]
        },
        Err(e) => Seq::empty(),
    }
}

/// Up to `n` engine transitions from the given state; stops early at a
/// halting instruction.  The `bool` of the result says whether the run
/// halted within `n` steps; the last component collects the lines the
/// transitions hand the sink, in order.
pub open spec fn spec_run_n(
    code: Seq<u8>,
    regs: Seq<u64>,
    stack: Seq<u8>,
    ip: int,
    n: nat,
) -> Result<(Seq<u64>, Seq<u8>, int, bool, Seq<Seq<u8>>), Fault>
    decreases n,
{
    if n == 0 {
        Ok((regs, stack, ip, false, Seq::empty()))
    } else {
        match spec_step(code, regs, stack, ip) {
            Err(e) => Err(e),
            Ok((regs2, stack2, ip2, halted)) => {
                let ls = spec_step_lines(code, ip, None, false);
                if halted {
                    Ok((regs2, stack2, ip2, true, ls))
                } else {
                    match spec_run_n(code, regs2, stack2, ip2, (n - 1) as nat) {
                        Err(e) => Err(e),
                        Ok((regs3, stack3, ip3, halted3, ls3)) => Ok(
                            (regs3, stack3, ip3, halted3, ls + ls3),
                        ),
                    }
                }
            },
        }
    }
}

/// Extending an unfinished run by one step appends that step's lines.
proof fn lemma_run_n_snoc(code: Seq<u8>, regs: Seq<u64>, stack: Seq<u8>, ip: int, n: nat)
    requires
        spec_run_n(code, regs, stack, ip, n) matches Ok((r2, s2, ip2, h, ls)) && !h,
    ensures
        ({
            let (r2, s2, ip2, h, ls) = spec_run_n(code, regs, stack, ip, n)->Ok_0;
            match spec_step(code, r2, s2, ip2) {
                Err(e) => spec_run_n(code, regs, stack, ip, n + 1) == Err::<
                    (Seq<u64>, Seq<u8>, int, bool, Seq<Seq<u8>>),
                    Fault,
                >(e),
                Ok((r3, s3, ip3, h3)) => spec_run_n(code, regs, stack, ip, n + 1) == Ok::<
                    (Seq<u64>, Seq<u8>, int, bool, Seq<Seq<u8>>),
                    Fault,
                >((r3, s3, ip3, h3, ls + spec_step_lines(code, ip2, None, false))),
            }
        }),
    decreases n,
{
    let (r2, s2, ip2, h, ls) = spec_run_n(code, regs, stack, ip, n)->Ok_0;
    if n == 0 {
        assert(ls =~= Seq::<Seq<u8>>::empty());
        match spec_step(code, r2, s2, ip2) {
            Err(e) => {},
            Ok((r3, s3, ip3, h3)) => {
                let l1 = spec_step_lines(code, ip2, None, false);
                assert(ls + l1 =~= l1);
                if !h3 {
                    assert(spec_run_n(code, r3, s3, ip3, 0nat) == Ok::<
                        (Seq<u64>, Seq<u8>, int, bool, Seq<Seq<u8>>),
                        Fault,
                    >((r3, s3, ip3, false, Seq::empty())));
                    assert(l1 + Seq::<Seq<u8>>::empty() =~= l1);
                }
            },
        }
    } else {
        let (r1, s1, ip1, h1) = spec_step(code, regs, stack, ip)->Ok_0;
        let l0 = spec_step_lines(code, ip, None, false);
        assert(!h1);
        let (rm, sm, ipm, hm, lsm) = spec_run_n(code, r1, s1, ip1, (n - 1) as nat)->Ok_0;
        assert(ls == l0 + lsm);
        assert((rm, sm, ipm, hm) == (r2, s2, ip2, h));
        lemma_run_n_snoc(code, r1, s1, ip1, (n - 1) as nat);
        match spec_step(code, r2, s2, ip2) {
            Err(e) => {},
            Ok((r3, s3, ip3, h3)) => {
                let l1 = spec_step_lines(code, ip2, None, false);
                assert(spec_run_n(code, r1, s1, ip1, n) == Ok::<
                    (Seq<u64>, Seq<u8>, int, bool, Seq<Seq<u8>>),
                    Fault,
                >((r3, s3, ip3, h3, lsm + l1)));
                assert(l0 + (lsm + l1) =~= (l0 + lsm) + l1);
            },
        }
    }
}

/// Lines joined as the accumulating sink stores them: each line
/// followed by one newline.
pub open spec fn spec_join_lines(ls: Seq<Seq<u8>>) -> Seq<u8>
    decreases ls.len(),
{
    if ls.len() == 0 {
        Seq::empty()
    } else {
        ls[0] + seq![0x0au8] + spec_join_lines(ls.drop_first())
    }
}

/// Appending a line extends the join by the line and its newline.
pub proof fn lemma_join_lines_push(ls: Seq<Seq<u8>>, l: Seq<u8>)
    ensures
        spec_join_lines(ls.push(l)) == spec_join_lines(ls) + l + seq![0x0au8],
    decreases ls.len(),
{
    if ls.len() == 0 {
        assert(ls.push(l).drop_first() =~= Seq::<Seq<u8>>::empty());
        assert(ls.push(l)[0] == l);
        assert(spec_join_lines(Seq::<Seq<u8>>::empty()) =~= Seq::<u8>::empty());
        assert(spec_join_lines(ls.push(l)) == l + seq![0x0au8] + spec_join_lines(
            ls.push(l).drop_first(),
        ));
        assert(spec_join_lines(ls.push(l)) =~= spec_join_lines(ls) + l + seq![0x0au8]);
    } else {
        assert(ls.push(l).drop_first() =~= ls.drop_first().push(l));
        lemma_join_lines_push(ls.drop_first(), l);
        assert(ls.push(l)[0] == ls[0]);
        assert(spec_join_lines(ls.push(l)) == ls[0] + seq![0x0au8] + spec_join_lines(
            ls.drop_first().push(l),
        ));
        assert(ls[0] + seq![0x0au8] + (spec_join_lines(ls.drop_first()) + l + seq![0x0au8])
            =~= (ls[0] + seq![0x0au8] + spec_join_lines(ls.drop_first())) + l + seq![0x0au8]);
    }
}

/// A sink for the disassembly text: accepts one formatted line per
/// executed instruction and remembers, at least in ghost form, the
/// lines it was handed.
pub trait DisasmWriter {
    /// The lines this sink has been handed, in order.
    spec fn lines(&self) -> Seq<Seq<u8>>;

    /// Accepts one line.
    fn write_line(&mut self, line: &Vec<u8>)
        ensures
            final(self).lines() == old(self).lines().push(line@),
    ;
}

/// The discarding sink, for runs where only the final register state
/// matters; it keeps the lines it was handed only as ghost history.
pub struct Nothing {
    pub recorded: Ghost<Seq<Seq<u8>>>,
}

impl Nothing {
    pub fn new() -> (r: Nothing)
        ensures
            r.lines() == Seq::<Seq<u8>>::empty(),
    {
        Nothing { recorded: Ghost(Seq::empty()) }
    }
}

impl DisasmWriter for Nothing {
    open spec fn lines(&self) -> Seq<Seq<u8>> {
        self.recorded@
    }

    fn write_line(&mut self, line: &Vec<u8>) {
        proof {
            self.recorded@ = self.recorded@.push(line@);
        }
    }
}

/// The accumulating sink: collects every line, each ended by a newline,
/// for round-trip re-assembly.  Its text is always the newline-join of
/// the lines it was handed (the type invariant below), so what a run
/// guarantees of the lines carries over to the accumulated text.
pub struct TextSink {
    text: Vec<u8>,
    recorded: Ghost<Seq<Seq<u8>>>,
}

impl TextSink {
    /// The accumulated text is the newline-join of the recorded lines.
    #[verifier::type_invariant]
    spec fn joined(self) -> bool {
        self.text@ == spec_join_lines(self.recorded@)
    }

    pub fn new() -> (r: TextSink)
        ensures
            r.lines() == Seq::<Seq<u8>>::empty(),
    {
        proof {
            assert(spec_join_lines(Seq::<Seq<u8>>::empty()) =~= Seq::<u8>::empty());
        }
        TextSink { text: Vec::new(), recorded: Ghost(Seq::empty()) }
    }

    /// The accumulated text: the newline-join of the lines handed in.
    pub fn text(&self) -> (r: &Vec<u8>)
        ensures
            r@ == spec_join_lines(self.lines()),
    {
        proof {
            use_type_invariant(self);
        }
        &self.text
    }
}

impl DisasmWriter for TextSink {
    closed spec fn lines(&self) -> Seq<Seq<u8>> {
        self.recorded@
    }

    /// Besides recording the line, appends its bytes and a newline to
    /// the accumulated text.
    fn write_line(&mut self, line: &Vec<u8>) {
        proof {
            use_type_invariant(&*self);
        }
        let ghost lines0 = self.recorded@;
        let ghost text0 = self.text@;
        let mut t = self.text.clone();
        proof {
            assert(t@ =~= text0 + line@.subrange(0, 0));
        }
        let mut k: usize = 0;
        while k < line.len()
            invariant
                k <= line.len(),
                t@ == text0 + line@.subrange(0, k as int),
            decreases line.len() - k,
        {
            t.push(line[k]);
            proof {
                assert(t@ =~= text0 + line@.subrange(0, k as int + 1));
            }
            k = k + 1;
        }
        t.push(0x0a);
        proof {
            assert(line@.subrange(0, line@.len() as int) =~= line@);
            assert(t@ =~= text0 + line@ + seq![0x0au8]);
            lemma_join_lines_push(lines0, line@);
        }
        *self = TextSink { text: t, recorded: Ghost(lines0.push(line@)) };
    }
}

/// The register slots a run starts from: RSP and RBP preset to the top of
/// the stack buffer, everything else zero.
pub open spec fn spec_init_regs() -> Seq<u64> {
    Seq::new(
        16,
        |i: int|
            if i == 4 || i == 5 {
                STACK_SIZE as u64
            } else {
                0u64
            },
    )
}

/// The zeroed stack buffer a run starts from.
pub open spec fn spec_init_stack() -> Seq<u8> {
    Seq::new(STACK_SIZE as nat, |i: int| 0u8)
}

/// One emulation run: register file, private stack, instruction pointer,
/// and the transient prefix state of the decode loop.
pub struct Emulator {
    pub regs: Registers,
    pub stack: Vec<u8>,
    pub code: Vec<u8>,
    pub ip: usize,
    pub rex_prefix: Option<Rex>,
    pub is_16_bit: bool,
    pub halted: bool,
}

impl Emulator {
    pub open spec fn wf(self) -> bool {
        &&& self.regs.wf()
        &&& self.stack@.len() == STACK_SIZE
    }

    /// A fresh run over `code`, with RSP/RBP preset to the top of the
    /// stack buffer and no prefix pending.
    pub fn new(code: &[u8]) -> (r: Emulator)
        ensures
            r.wf(),
            r.code@ == code@,
            r.ip == 0,
            !r.halted,
            r.rex_prefix is None,
            !r.is_16_bit,
            spec_slots(r.regs) == spec_init_regs(),
            r.stack@ == spec_init_stack(),
    {
        let mut regs = Registers::new();
        let ghost regs0 = regs;
        regs.set(4, RegData { x: STACK_SIZE as u64 });
        regs.set(5, RegData { x: STACK_SIZE as u64 });
        let stack: Vec<u8> = vec![0u8; STACK_SIZE];
        let code_copy = vstd::slice::slice_to_vec(code);
        proof {
            assert forall|i: int| 0 <= i < 16 implies spec_slots(regs)[i] == spec_init_regs()[i] by {
                assert(regs0.slot(i) == 0);
            };
            assert(spec_slots(regs) =~= spec_init_regs());
            assert(stack@ =~= spec_init_stack());
        }
        Emulator {
            regs,
            stack,
            code: code_copy,
            ip: 0,
            rex_prefix: None,
            is_16_bit: false,
            halted: false,
        }
    }

    /// Executes one instruction: consumes pending prefixes, decodes the
    /// opcode, applies [`spec_sem`], clears the prefix state, and hands
    /// the sink the instruction's line of text.
    ///
    /// On a fault the machine is left exactly as it was.
    #[verifier::rlimit(100)]
    #[verifier::spinoff_prover]
    pub fn step<D: DisasmWriter>(&mut self, d: &mut D) -> (r: Result<(), Fault>)
        requires
            old(self).wf(),
            !old(self).halted,
        ensures
            final(self).wf(),
            final(self).code@ == old(self).code@,
            r is Ok ==> old(self).ip < final(self).ip <= final(self).code@.len(),
            r is Ok ==> final(d).lines() == old(d).lines() + spec_step_lines(
                old(self).code@,
                old(self).ip as int,
                old(self).rex_prefix,
                old(self).is_16_bit,
            ),
            r is Err ==> final(d).lines() == old(d).lines(),
            match r {
                Ok(()) => ({
                    &&& final(self).rex_prefix is None
                    &&& !final(self).is_16_bit
                    &&& spec_decode_full(
                        old(self).code@,
                        old(self).ip as int,
                        old(self).rex_prefix,
                        old(self).is_16_bit,
                    ) matches Ok((i, body_ip, end_ip)) && spec_sem(
                        i,
                        body_ip,
                        end_ip,
                        old(self).code@.len() as int,
                        spec_slots(old(self).regs),
                        old(self).stack@,
                    ) == Ok::<(Seq<u64>, Seq<u8>, int, bool), Fault>(
                        (
                            spec_slots(final(self).regs),
                            final(self).stack@,
                            final(self).ip as int,
                            final(self).halted,
                        ),
                    )
                }),
                Err(e) => ({
                    &&& spec_slots(final(self).regs) == spec_slots(old(self).regs)
                    &&& final(self).stack@ == old(self).stack@
                    &&& final(self).ip == old(self).ip
                    &&& final(self).rex_prefix == old(self).rex_prefix
                    &&& final(self).is_16_bit == old(self).is_16_bit
                    &&& final(self).halted == old(self).halted
                }) && ({
                    match spec_decode_full(
                        old(self).code@,
                        old(self).ip as int,
                        old(self).rex_prefix,
                        old(self).is_16_bit,
                    ) {
                        Err(de) => de == e,
                        Ok((i, body_ip, end_ip)) => spec_sem(
                            i,
                            body_ip,
                            end_ip,
                            old(self).code@.len() as int,
                            spec_slots(old(self).regs),
                            old(self).stack@,
                        ) == Err::<(Seq<u64>, Seq<u8>, int, bool), Fault>(e),
                    }
                }),
            },
    {
        let ghost code0 = self.code@;
        let mut ip = self.ip;
        let mut rex = self.rex_prefix;
        let mut is16 = self.is_16_bit;
        loop
            invariant
                self == old(self),
                self.wf(),
                spec_decode_full(code0, self.ip as int, self.rex_prefix, self.is_16_bit)
                    == spec_decode_full(code0, ip as int, rex, is16),
                code0 == self.code@,
                self.ip <= ip,
                ip <= self.code@.len() || ip == self.ip,
            ensures
                self == old(self),
                code0 == self.code@,
                ip < code0.len(),
                !spec_is_rex(code0[ip as int]),
                code0[ip as int] != 0x66,
                spec_decode_full(code0, self.ip as int, self.rex_prefix, self.is_16_bit)
                    == spec_decode_full(code0, ip as int, rex, is16),
            decreases self.code@.len() - ip,
        {
            if ip >= self.code.len() {
                return Err(Fault::Truncated);
            }
            let b = self.code[ip];
            if crate::decode::is_rex(b) {
                rex = Some(Rex(b));
                ip = ip + 1;
            } else if b == 0x66 {
                is16 = true;
                ip = ip + 1;
            } else {
                break;
            }
        }
        let body_ip = ip;
        let (instr, len) = match decode_body(self.code.as_slice(), body_ip, rex, is16) {
            Ok(x) => x,
            Err(e) => {
                return Err(e);
            },
        };
        let end_ip = body_ip + len;
        proof {
            assert(spec_decode_full(code0, self.ip as int, self.rex_prefix, self.is_16_bit)
                == Ok::<(Instr, int, int), Fault>((instr, body_ip as int, end_ip as int)));
        }
        let ghost regs0 = spec_slots(self.regs);
        let ghost stack0 = self.stack@;

        match instr {
            Instr::JeNear { .. } | Instr::JeShort { .. } | Instr::CmpMemImm { .. } | Instr::Pop {
                ..
            } | Instr::Endbr64 => {
                self.ip = end_ip;
            },
            Instr::JmpNear { rel } => {
                let target = body_ip as i128 + rel as i128;
                if rel <= 0 || target > self.code.len() as i128 {
                    return Err(Fault::BadJump);
                }
                self.ip = target as usize;
            },
            Instr::XorReg { w, dst, src } => {
                xor(w, dst, src, &mut self.regs);
                self.ip = end_ip;
            },
            Instr::PushRbp => {
                match push_reg(&self.regs, &mut self.stack, 5) {
                    Ok(()) => {},
                    Err(e) => {
                        return Err(e);
                    },
                }
                self.ip = end_ip;
            },
            Instr::SubRegImm { w64, reg, imm } => {
                let old_v = self.regs.get(reg as usize).r64();
                if w64 {
                    let v = old_v.wrapping_sub(crate::disasm::sx_bits(imm));
                    self.regs.set(reg as usize, RegData { x: v });
                } else {
                    let v32 = ((old_v & 0xffff_ffff) as u32).wrapping_sub(
                        #[verifier::truncate] (imm as u32),
                    );
                    let v = (old_v & 0xffff_ffff_0000_0000) | (v32 as u64);
                    proof {
                        let x = v32 as u64;
                        assert(x & 0xffff_ffff == x) by (bit_vector)
                            requires
                                x < 0x1_0000_0000,
                        ;
                    }
                    self.regs.set(reg as usize, RegData { x: v });
                }
                proof {
                    assert(spec_slots(self.regs) =~= regs0.update(
                        reg as int,
                        spec_slots(self.regs)[reg as int],
                    ));
                }
                self.ip = end_ip;
            },
            Instr::MovMemReg8 { base, disp, src } => {
                let addr = self.regs.get(base as usize).r64().wrapping_add_signed(disp as i64);
                if addr > (STACK_SIZE - 1) as u64 {
                    return Err(Fault::BadAddress);
                }
                let byte = self.regs.read8(src, false);
                store_le(&mut self.stack, addr as usize, 1, byte as u64);
                self.ip = end_ip;
            },
            Instr::MovRegReg { w64, dst, src } => {
                let sv = self.regs.get(src as usize).r64();
                let old_v = self.regs.get(dst as usize).r64();
                let v = if w64 {
                    sv
                } else {
                    (old_v & 0xffff_ffff_0000_0000) | (sv & 0xffff_ffff)
                };
                proof {
                    assert((sv & 0xffff_ffff) & 0xffff_ffff == sv & 0xffff_ffff) by (bit_vector);
                }
                self.regs.set(dst as usize, RegData { x: v });
                proof {
                    assert(spec_slots(self.regs) =~= regs0.update(
                        dst as int,
                        spec_slots(self.regs)[dst as int],
                    ));
                }
                self.ip = end_ip;
            },
            Instr::MovRegMem { dst, base, disp } => {
                let addr = self.regs.get(base as usize).r64().wrapping_add_signed(disp as i64);
                if addr > (STACK_SIZE - 4) as u64 {
                    return Err(Fault::BadAddress);
                }
                let mv = crate::decode::read_le32(self.stack.as_slice(), addr as usize);
                let old_v = self.regs.get(dst as usize).r64();
                let v = (old_v & 0xffff_ffff_0000_0000) | (mv & 0xffff_ffff);
                self.regs.set(dst as usize, RegData { x: v });
                proof {
                    assert(mv & 0xffff_ffff == mv) by (bit_vector)
                        requires
                            mv < 0x1_0000_0000,
                    ;
                    assert(spec_slots(self.regs) =~= regs0.update(
                        dst as int,
                        spec_slots(self.regs)[dst as int],
                    ));
                }
                self.ip = end_ip;
            },
            Instr::MovMemImm { base, disp, imm } => {
                let addr = self.regs.get(base as usize).r64().wrapping_add_signed(disp as i64);
                if addr > (STACK_SIZE - 4) as u64 {
                    return Err(Fault::BadAddress);
                }
                store_le(&mut self.stack, addr as usize, 4, (#[verifier::truncate] (imm as u32)) as u64);
                self.ip = end_ip;
            },
            Instr::MovImm8 { reg, imm } => {
                self.regs.write8(reg, false, imm);
                proof {
                    let (slot, high) = spec_resolve8(reg, false);
                    assert(spec_slots(self.regs) =~= regs0.update(
                        slot,
                        spec_slots(self.regs)[slot],
                    ));
                }
                self.ip = end_ip;
            },
            Instr::MovImm { w, reg, imm } => {
                let old_v = self.regs.get(reg as usize).r64();
                let v = match w {
                    Width::W16 => (old_v & 0xffff_ffff_ffff_0000) | (imm & 0xffff),
                    Width::W32 => (old_v & 0xffff_ffff_0000_0000) | (imm & 0xffff_ffff),
                    Width::W64 => imm,
                };
                self.regs.set(reg as usize, RegData { x: v });
                proof {
                    assert(spec_slots(self.regs) =~= regs0.update(
                        reg as int,
                        spec_slots(self.regs)[reg as int],
                    ));
                }
                self.ip = end_ip;
            },
            Instr::MovImmSx { reg, imm } => {
                self.regs.set(reg as usize, RegData { x: crate::disasm::sx_bits(imm) });
                proof {
                    assert(spec_slots(self.regs) =~= regs0.update(
                        reg as int,
                        spec_slots(self.regs)[reg as int],
                    ));
                }
                self.ip = end_ip;
            },
            Instr::Ret => {
                self.ip = end_ip;
                self.halted = true;
            },
            Instr::Hlt => {
                self.ip = end_ip;
                self.halted = true;
            },
        }
        self.rex_prefix = None;
        self.is_16_bit = false;
        let ghost pre_lines = d.lines();
        match instr {
            Instr::Hlt => {
                proof {
                    assert(d.lines() =~= pre_lines + spec_step_lines(
                        code0,
                        old(self).ip as int,
                        old(self).rex_prefix,
                        old(self).is_16_bit,
                    ));
                }
            },
            _ => {
                let line = format_instr(instr);
                d.write_line(&line);
                proof {
                    assert(d.lines() =~= pre_lines + spec_step_lines(
                        code0,
                        old(self).ip as int,
                        old(self).rex_prefix,
                        old(self).is_16_bit,
                    ));
                }
            },
        }
        Ok(())
    }

    /// Steps until the run halts or faults.  On success the machine has
    /// reached, in some number of engine transitions from the starting
    /// state, a halting instruction, and the sink has been handed
    /// exactly the lines of the executed instructions, in order.
    #[verifier::loop_isolation(false)]
    pub fn run_to_end<D: DisasmWriter>(&mut self, d: &mut D) -> (r: Result<(), Fault>)
        requires
            old(self).wf(),
            !old(self).halted,
            old(self).rex_prefix is None,
            !old(self).is_16_bit,
        ensures
            final(self).wf(),
            final(self).code@ == old(self).code@,
            match r {
                Ok(()) => final(self).halted && exists|n: nat|
                    #[trigger] spec_run_n(
                        old(self).code@,
                        spec_slots(old(self).regs),
                        old(self).stack@,
                        old(self).ip as int,
                        n,
                    ) == Ok::<(Seq<u64>, Seq<u8>, int, bool, Seq<Seq<u8>>), Fault>(
                        (
                            spec_slots(final(self).regs),
                            final(self).stack@,
                            final(self).ip as int,
                            true,
                            final(d).lines().skip(old(d).lines().len() as int),
                        ),
                    ),
                Err(e) => (exists|n: nat|
                    (#[trigger] spec_run_n(
                        old(self).code@,
                        spec_slots(old(self).regs),
                        old(self).stack@,
                        old(self).ip as int,
                        n,
                    )) matches Ok((rr, ss, ii, hh, ls)) && !hh && final(d).lines() == old(
                        d,
                    ).lines() + ls && spec_run_n(
                        old(self).code@,
                        spec_slots(old(self).regs),
                        old(self).stack@,
                        old(self).ip as int,
                        n + 1,
                    ) == Err::<(Seq<u64>, Seq<u8>, int, bool, Seq<Seq<u8>>), Fault>(e)),
            },
            final(d).lines().len() >= old(d).lines().len() && final(d).lines().subrange(
                0,
                old(d).lines().len() as int,
            ) == old(d).lines(),
    {
        let ghost code0 = old(self).code@;
        let ghost regs0 = spec_slots(old(self).regs);
        let ghost stack0 = old(self).stack@;
        let ghost ip0 = old(self).ip as int;
        let ghost lines0 = old(d).lines();
        let ghost mut steps: nat = 0nat;
        proof {
            assert(d.lines().skip(lines0.len() as int) =~= Seq::<Seq<u8>>::empty());
            assert(lines0.subrange(0, lines0.len() as int) =~= lines0);
        }
        loop
            invariant
                self.wf(),
                !self.halted,
                self.rex_prefix is None,
                !self.is_16_bit,
                self.code@ == code0,
                d.lines().len() >= lines0.len(),
                d.lines().subrange(0, lines0.len() as int) == lines0,
                spec_run_n(code0, regs0, stack0, ip0, steps) == Ok::<
                    (Seq<u64>, Seq<u8>, int, bool, Seq<Seq<u8>>),
                    Fault,
                >((spec_slots(self.regs), self.stack@, self.ip as int, false, d.lines().skip(
                    lines0.len() as int,
                ))),
            decreases self.code@.len() - self.ip,
        {
            let ghost pre_regs = spec_slots(self.regs);
            let ghost pre_stack = self.stack@;
            let ghost pre_ip = self.ip as int;
            let ghost pre_lines = d.lines();
            let res = self.step(d);
            proof {
                lemma_run_n_snoc(code0, regs0, stack0, ip0, steps);
                if res is Ok {
                    assert(d.lines() =~= pre_lines + spec_step_lines(code0, pre_ip, None, false));
                    assert(d.lines().subrange(0, lines0.len() as int) =~= lines0);
                    assert(d.lines().skip(lines0.len() as int) =~= pre_lines.skip(
                        lines0.len() as int,
                    ) + spec_step_lines(code0, pre_ip, None, false));
                }
            }
            match res {
                Ok(()) => {
                    if self.halted {
                        proof {
                            assert(spec_step(code0, pre_regs, pre_stack, pre_ip) == Ok::<
                                (Seq<u64>, Seq<u8>, int, bool),
                                Fault,
                            >((spec_slots(self.regs), self.stack@, self.ip as int, true)));
                            assert(spec_run_n(code0, regs0, stack0, ip0, steps + 1) == Ok::<
                                (Seq<u64>, Seq<u8>, int, bool, Seq<Seq<u8>>),
                                Fault,
                            >(
                                (
                                    spec_slots(self.regs),
                                    self.stack@,
                                    self.ip as int,
                                    true,
                                    d.lines().skip(lines0.len() as int),
                                ),
                            ));
                        }
                        return Ok(());
                    }
                    proof {
                        steps = steps + 1;
                    }
                },
                Err(e) => {
                    proof {
                        assert(spec_run_n(code0, regs0, stack0, ip0, steps + 1) == Err::<
                            (Seq<u64>, Seq<u8>, int, bool, Seq<Seq<u8>>),
                            Fault,
                        >(e));
                        assert(d.lines() =~= lines0 + d.lines().skip(lines0.len() as int));
                    }
                    return Err(e);
                },
            }
        }
    }
}

/// The `xor r, r` handler: both operands are read at width `w`, and the
/// result lands in the destination's width view; the slot's bytes above
/// that width stay as they were.
pub fn xor(w: Width, dst: u8, src: u8, registers: &mut Registers)
    requires
        old(registers).wf(),
        dst < 16,
        src < 16,
    ensures
        final(registers).wf(),
        spec_slots(*final(registers)) == spec_slots(*old(registers)).update(
            dst as int,
            spec_merge(
                w,
                spec_slots(*old(registers))[dst as int],
                spec_view(w, spec_slots(*old(registers))[dst as int]) ^ spec_view(
                    w,
                    spec_slots(*old(registers))[src as int],
                ),
            ),
        ),
{
    let a = registers.get(dst as usize).r64();
    let b = registers.get(src as usize).r64();
    let v = match w {
        Width::W16 => (a & 0xffff) ^ (b & 0xffff),
        Width::W32 => (a & 0xffff_ffff) ^ (b & 0xffff_ffff),
        Width::W64 => a ^ b,
    };
    let merged = match w {
        Width::W16 => (a & 0xffff_ffff_ffff_0000) | (v & 0xffff),
        Width::W32 => (a & 0xffff_ffff_0000_0000) | (v & 0xffff_ffff),
        Width::W64 => v,
    };
    registers.set(dst as usize, RegData { x: merged });
    proof {
        assert(spec_slots(*registers) =~= spec_slots(*old(registers)).update(dst as int, merged));
    }
}

/// The `push rbp` handler: writes the 8 bytes of slot `register` below
/// RSP without moving RSP.
pub fn push_reg(registers: &Registers, stack: &mut Vec<u8>, register: u8) -> (r: Result<(), Fault>)
    requires
        registers.wf(),
        register < 16,
    ensures
        final(stack).len() == old(stack).len(),
        ({
            let rsp = spec_slots(*registers)[4];
            match r {
                Ok(()) => 8 <= rsp <= old(stack).len() && final(stack)@ == spec_store_le(
                    old(stack)@,
                    rsp - 8,
                    8,
                    spec_slots(*registers)[register as int],
                ),
                Err(e) => e == Fault::BadAddress && !(8 <= rsp <= old(stack).len()) && final(stack)@
                    == old(stack)@,
            }
        }),
{
    let rsp = registers.get(4).r64();
    if rsp < 8 || rsp > stack.len() as u64 {
        return Err(Fault::BadAddress);
    }
    let source = registers.get(register as usize).r64();
    store_le(stack, (rsp - 8) as usize, 8, source);
    Ok(())
}

/// Stores the `n` low-order bytes of `v` little-endian at `addr`.
pub fn store_le(stack: &mut Vec<u8>, addr: usize, n: usize, v: u64)
    requires
        n <= 8,
        addr + n <= old(stack).len(),
    ensures
        final(stack)@ == spec_store_le(old(stack)@, addr as int, n as int, v),
        final(stack).len() == old(stack).len(),
{
    let mut k: usize = 0;
    proof {
        assert(stack@ =~= spec_store_le(stack@, addr as int, 0, v));
    }
    while k < n
        invariant
            k <= n,
            n <= 8,
            addr + n <= stack.len(),
            stack.len() == old(stack).len(),
            stack@ == spec_store_le(old(stack)@, addr as int, k as int, v),
        decreases n - k,
    {
        let b = ((v >> ((8 * k) as u64)) & 0xff) as u8;
        stack.set(addr + k, b);
        proof {
            assert(stack@ =~= spec_store_le(old(stack)@, addr as int, (k + 1) as int, v));
        }
        k = k + 1;
    }
    proof {
        assert(stack@ =~= spec_store_le(old(stack)@, addr as int, n as int, v));
    }
}

/// Runs `code` to its halt or return instruction over a fresh machine,
/// handing each executed instruction's text to `d`, and yields the final
/// register file.
pub fn run<D: DisasmWriter>(code: &[u8], d: &mut D) -> (r: Result<Registers, Fault>)
    ensures
        match r {
            Ok(regs) => regs.wf() && exists|n: nat|
                #[trigger] spec_run_n(code@, spec_init_regs(), spec_init_stack(), 0, n) matches Ok(
                    (rr, ss, ii, hh, ls),
                ) && rr == spec_slots(regs) && hh == true && final(d).lines() == old(d).lines()
                    + ls,
            Err(e) => exists|n: nat|
                (#[trigger] spec_run_n(code@, spec_init_regs(), spec_init_stack(), 0, n)) matches
                    Ok((rr, ss, ii, hh, ls)) && !hh && final(d).lines() == old(d).lines() + ls
                    && spec_run_n(code@, spec_init_regs(), spec_init_stack(), 0, n + 1) == Err::<
                    (Seq<u64>, Seq<u8>, int, bool, Seq<Seq<u8>>),
                    Fault,
                >(e),
        },
{
    let mut emulator = Emulator::new(code);
    let ghost lines0 = d.lines();
    match emulator.run_to_end(d) {
        Ok(()) => {
            proof {
                assert(lines0 + d.lines().skip(lines0.len() as int) =~= d.lines());
            }
            Ok(emulator.regs)
        },
        Err(e) => Err(e),
    }
}

/// Runs `code` over a fresh machine with an accumulating sink and
/// yields the accumulated disassembly text: the newline-join of the
/// formatted lines of the executed instructions, in order.
///
/// Re-assembling this text reproduces the executed instructions'
/// canonical encodings byte for byte
/// ([`crate::roundtrip::lemma_trace_reassembles`]).
pub fn disassemble(code: &[u8]) -> (r: Result<Vec<u8>, Fault>)
    ensures
        r matches Ok(text) ==> exists|n: nat|
            #[trigger] spec_run_n(code@, spec_init_regs(), spec_init_stack(), 0, n) matches Ok(
                (rr, ss, ii, hh, ls),
            ) && hh == true && text@ == spec_join_lines(ls),
        r matches Err(e) ==> exists|n: nat|
            (#[trigger] spec_run_n(code@, spec_init_regs(), spec_init_stack(), 0, n)) is Ok
                && spec_run_n(code@, spec_init_regs(), spec_init_stack(), 0, n + 1) == Err::<
                (Seq<u64>, Seq<u8>, int, bool, Seq<Seq<u8>>),
                Fault,
            >(e),
{
    let mut sink = TextSink::new();
    match run(code, &mut sink) {
        Ok(_) => {
            let text = sink.text().clone();
            proof {
                assert(text@ =~= spec_join_lines(sink.lines()));
            }
            Ok(text)
        },
        Err(e) => Err(e),
    }
}

/// Zeroing by exclusive-or: `xor r, r` sets `r`'s width view to zero
/// whatever the slot held before, for every supported width and every
/// register; the slot's bytes above the width stay as they were, and a
/// 64-bit `xor r, r` zeroes the whole slot.
pub proof fn lemma_xor_zero(
    w: Width,
    r: u8,
    body_ip: int,
    end_ip: int,
    code_len: int,
    regs: Seq<u64>,
    stack: Seq<u8>,
)
    requires
        r < 16,
        regs.len() == 16,
    ensures
        spec_sem(Instr::XorReg { w, dst: r, src: r }, body_ip, end_ip, code_len, regs, stack) == Ok::<
            (Seq<u64>, Seq<u8>, int, bool),
            Fault,
        >((regs.update(r as int, spec_merge(w, regs[r as int], 0u64)), stack, end_ip, false)),
        spec_view(w, spec_merge(w, regs[r as int], 0u64)) == 0,
        w == Width::W64 ==> spec_merge(w, regs[r as int], 0u64) == 0,
        w == Width::W16 ==> spec_merge(w, regs[r as int], 0u64) == regs[r as int]
            & 0xffff_ffff_ffff_0000,
        w == Width::W32 ==> spec_merge(w, regs[r as int], 0u64) == regs[r as int]
            & 0xffff_ffff_0000_0000,
{
    let x = spec_view(w, regs[r as int]);
    let s = regs[r as int];
    assert(x ^ x == 0) by (bit_vector);
    assert(((s & 0xffff_ffff_ffff_0000) | (0u64 & 0xffff)) == s & 0xffff_ffff_ffff_0000
        && ((s & 0xffff_ffff_0000_0000) | (0u64 & 0xffff_ffff)) == s & 0xffff_ffff_0000_0000
        && (s & 0xffff_ffff_ffff_0000) & 0xffff == 0 && (s & 0xffff_ffff_0000_0000) & 0xffff_ffff
        == 0) by (bit_vector);
}

/// Stack round trip: `push rbp` followed by `pop rbp` leaves every
/// register (RBP and RSP included) at its prior value, stores the 8 bytes
/// of RBP's value at the time of the push just below RSP, and leaves all
/// other stack bytes unchanged.
pub proof fn lemma_push_pop(
    b1: int,
    e1: int,
    b2: int,
    e2: int,
    code_len: int,
    regs: Seq<u64>,
    stack: Seq<u8>,
)
    requires
        regs.len() == 16,
        8 <= regs[4] <= stack.len(),
    ensures
        ({
            let r1 = spec_sem(Instr::PushRbp, b1, e1, code_len, regs, stack);
            &&& r1 matches Ok((regs1, stack1, ip1, h1))
            &&& ({
                let r2 = spec_sem(Instr::Pop { index: 5 }, b2, e2, code_len, regs1, stack1);
                &&& r2 matches Ok((regs2, stack2, ip2, h2))
                &&& regs2 == regs
                &&& stack2.len() == stack.len()
                &&& forall|j: int|
                    0 <= j < 8 ==> stack2[regs[4] - 8 + j] == spec_byte_of(regs[5], j)
                &&& forall|j: int|
                    0 <= j < stack.len() && !(regs[4] - 8 <= j < regs[4]) ==> stack2[j] == stack[j]
            })
        }),
{
}

} // verus!
