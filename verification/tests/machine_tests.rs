use ace::assembler::{assemble, AsmError};
use ace::decode::{decode_body, Fault, Instr, Rex, Width};
use ace::disasm::format_instr;
use ace::encode::encode_instr;
use ace::gdb::{
    classify_line, exec_async_output, map_registers, notify_async_output, process_register_names,
    split_comma, sync_operation, unescape_c, LineClass, Message, RegisterNames,
};
use ace::machine::{run, Emulator, Nothing, TextSink, STACK_SIZE};
use ace::registers::{Registers, R64};

fn run_text(text: &str) -> Registers {
    let full = text.to_string() + "\nhlt\n";
    let code = assemble(full.as_bytes()).expect("assemble");
    let mut d = Nothing::new();
    run(&code, &mut d).expect("run")
}

#[test]
fn mov64_immediate_scenario() {
    // mov rax, 1; mov r15, 16: RAX and R15 take the immediates, every
    // other register keeps its preset.
    let regs = run_text("mov rax, 1\nmov r15, 16");
    assert_eq!(regs.general[R64::RAX as usize].r64(), 1);
    assert_eq!(regs.general[R64::R15 as usize].r64(), 16);
    for i in 0..16 {
        let expected = match i {
            0 => 1,
            4 | 5 => STACK_SIZE as u64,
            15 => 16,
            _ => 0,
        };
        assert_eq!(regs.general[i].r64(), expected, "slot {}", i);
    }
}

#[test]
fn narrow_move_chain_scenario() {
    // mov ax, 1; mov r8w, 9 set the 16-bit views and leave the upper 48
    // bits of those slots as they were before the writes.
    let regs = run_text(
        "mov rax, 0x1122334455667788\nmov r8, 0x8877665544332211\nmov ax, 1\nmov r8w, 9",
    );
    assert_eq!(regs.general[R64::RAX as usize].r16(), 1);
    assert_eq!(regs.general[R64::R8 as usize].r16(), 9);
    assert_eq!(regs.general[R64::RAX as usize].r64(), 0x1122334455660001);
    assert_eq!(regs.general[R64::R8 as usize].r64(), 0x8877665544330009);
}

#[test]
fn conditional_branch_scenario() {
    // The compared byte is zero, so the branch body must take effect
    // exactly once: EAX ends at the branch target's value, not at the
    // fall-through value.
    let text = "
    mov     BYTE [rbp-4], al
    cmp     BYTE [rbp-4], 0
    je near .L2
    mov     eax, 5
    jmp near .L3
.L2:
    mov     eax, 10
.L3:
    ret
    ";
    let full = text.to_string() + "\nhlt\n";
    let code = assemble(full.as_bytes()).expect("assemble");
    let mut sink = TextSink::new();
    let regs = run(&code, &mut sink).expect("run");
    assert_eq!(regs.general[R64::RAX as usize].r32(), 10);
    // each executed line appears exactly once in the trace
    let trace = String::from_utf8(sink.text().clone()).unwrap();
    assert_eq!(trace.matches("mov eax, 0xa").count(), 1);
    assert_eq!(trace.matches("je near").count(), 1);
}

#[test]
fn push_pop_scenario() {
    // push rbp; pop rbp leaves RBP and RSP at their original values and
    // the 8 bytes below RSP hold RBP's value at the time of the push.
    let full = "push rbp\npop rbp\nhlt\n";
    let code = assemble(full.as_bytes()).expect("assemble");
    let mut emulator = Emulator::new(&code);
    let mut d = Nothing::new();
    emulator.run_to_end(&mut d).expect("run");
    assert_eq!(emulator.regs.general[R64::RBP as usize].r64(), STACK_SIZE as u64);
    assert_eq!(emulator.regs.general[R64::RSP as usize].r64(), STACK_SIZE as u64);
    let written = &emulator.stack[STACK_SIZE - 8..STACK_SIZE];
    assert_eq!(written, (STACK_SIZE as u64).to_le_bytes());
}

#[test]
fn xor_zeroes_every_width() {
    let regs = run_text(
        "mov rax, 0x1122334455667788\nxor rax, rax\n\
         mov rbx, 0x1122334455667788\nxor ebx, ebx\n\
         mov rcx, 0x1122334455667788\nxor cx, cx",
    );
    // the destination's width view becomes zero ...
    assert_eq!(regs.general[R64::RAX as usize].r64(), 0);
    assert_eq!(regs.general[R64::RBX as usize].r32(), 0);
    assert_eq!(regs.general[R64::RCX as usize].r16(), 0);
    // ... and the slot's bytes above the width stay as they were
    assert_eq!(regs.general[R64::RBX as usize].r64(), 0x1122334400000000);
    assert_eq!(regs.general[R64::RCX as usize].r64(), 0x1122334455660000);
}

#[test]
fn byte_register_aliasing() {
    // Without REX, identifier 4 is the high byte of slot 0: writing it
    // must not disturb the low byte, and vice versa.
    let mut regs = Registers::new();
    regs.write8(0, false, 0x11); // al
    regs.write8(4, false, 0x22); // ah
    assert_eq!(regs.read8(0, false), 0x11);
    assert_eq!(regs.read8(4, false), 0x22);
    assert_eq!(regs.general[0].r16(), 0x2211);
    // With REX present, identifier 4 addresses the low byte of slot 4.
    regs.write8(4, true, 0x33); // spl
    assert_eq!(regs.general[4].r8(), 0x33);
    assert_eq!(regs.general[0].r16(), 0x2211);
}

#[test]
fn width_precedence() {
    // REX.W beats the 0x66 override: with both pending, 0xb8 reads a
    // 64-bit immediate.
    let code = [0xb8u8, 1, 0, 0, 0, 0, 0, 0, 0];
    let (i, len) = decode_body(&code, 0, Some(Rex(0x48)), true).unwrap();
    assert_eq!(len, 9);
    assert_eq!(
        i,
        Instr::MovImm { w: Width::W64, reg: 0, imm: 1 }
    );
    // with only the override, the same opcode reads 16 bits
    let (i, len) = decode_body(&code, 0, None, true).unwrap();
    assert_eq!(len, 3);
    assert_eq!(i, Instr::MovImm { w: Width::W16, reg: 0, imm: 1 });
    // with neither, 32 bits
    let (i, len) = decode_body(&code, 0, None, false).unwrap();
    assert_eq!(len, 5);
    assert_eq!(i, Instr::MovImm { w: Width::W32, reg: 0, imm: 1 });
}

fn expect_fault(code: &[u8]) -> Fault {
    let mut d = Nothing::new();
    match run(code, &mut d) {
        Err(e) => e,
        Ok(_) => panic!("expected a fault"),
    }
}

#[test]
fn truncated_buffer_faults() {
    assert_eq!(expect_fault(&[0xb8]), Fault::Truncated);
}

#[test]
fn unsupported_opcode_faults() {
    assert_eq!(expect_fault(&[0x90]), Fault::Unsupported { opcode: 0x90 });
}

#[test]
fn unsupported_encoding_faults() {
    // xor with a memory-mode ModRM byte lies outside the subset
    assert_eq!(
        expect_fault(&[0x31, 0x00]),
        Fault::UnsupportedEncoding { opcode: 0x31, modrm: 0x00 }
    );
}

#[test]
fn non_forward_jump_faults() {
    // jmp near with displacement 0 would re-execute itself forever
    let code = assemble(b"jmp near 4\nhlt\n").expect("assemble");
    assert_eq!(expect_fault(&code), Fault::BadJump);
}

#[test]
fn bad_stack_address_faults() {
    let code = assemble(b"xor rsp, rsp\npush rbp\nhlt\n").expect("assemble");
    assert_eq!(expect_fault(&code), Fault::BadAddress);
}

#[test]
fn assembler_unknown_label() {
    assert_eq!(
        assemble(b"jmp near .nowhere\nhlt\n"),
        Err(AsmError::UnknownLabel)
    );
}

#[test]
fn assembler_bad_operand() {
    assert_eq!(assemble(b"mov eax, zz\n"), Err(AsmError::BadOperand));
}

#[test]
fn assembler_unsupported_mnemonic() {
    assert_eq!(assemble(b"leave\n"), Err(AsmError::Unsupported));
}

#[test]
fn formats_match_assembler_syntax() {
    assert_eq!(
        format_instr(Instr::MovImm { w: Width::W64, reg: 0, imm: 1 }),
        b"mov rax, 0x1"
    );
    assert_eq!(
        format_instr(Instr::MovImm { w: Width::W16, reg: 8, imm: 0xffff }),
        b"mov r8w, 0xffff"
    );
    assert_eq!(
        format_instr(Instr::MovImmSx { reg: 1, imm: -1 }),
        b"mov rcx, 0xffffffffffffffff"
    );
    assert_eq!(
        format_instr(Instr::CmpMemImm { base: 5, disp: -4, imm: 0 }),
        b"cmp byte [rbp-4], 0"
    );
    assert_eq!(
        format_instr(Instr::MovMemReg8 { base: 5, disp: -4, src: 3 }),
        b"mov [rbp-4], bl"
    );
    assert_eq!(
        format_instr(Instr::SubRegImm { w64: false, reg: 3, imm: -10 }),
        b"sub ebx, -10"
    );
    assert_eq!(format_instr(Instr::JeNear { rel: 10 }), b"je near 14");
    assert_eq!(format_instr(Instr::JeShort { rel: -3 }), b"je -3");
    assert_eq!(format_instr(Instr::JmpNear { rel: 5 }), b"jmp near 9");
    assert_eq!(
        format_instr(Instr::XorReg { w: Width::W32, dst: 9, src: 9 }),
        b"xor r9d, r9d"
    );
    assert_eq!(format_instr(Instr::PushRbp), b"push rbp");
    assert_eq!(format_instr(Instr::Pop { index: 5 }), b"pop rbp");
    assert_eq!(format_instr(Instr::Endbr64), b"endbr64");
    assert_eq!(format_instr(Instr::Hlt), b"");
}

#[test]
fn encodings_decode_back() {
    let samples = [
        Instr::JeShort { rel: -3 },
        Instr::PushRbp,
        Instr::Pop { index: 3 },
        Instr::CmpMemImm { base: 5, disp: -4, imm: 7 },
        Instr::MovMemReg8 { base: 5, disp: -4, src: 3 },
        Instr::MovRegMem { dst: 2, base: 5, disp: 8 },
        Instr::MovMemImm { base: 5, disp: -8, imm: -1 },
        Instr::MovImm8 { reg: 4, imm: 0xab },
        Instr::Ret,
        Instr::Endbr64,
        Instr::Hlt,
    ];
    for i in samples {
        let bytes = encode_instr(i);
        let (j, len) = decode_body(&bytes, 0, None, false).unwrap();
        assert_eq!(j, i);
        assert_eq!(len, bytes.len());
    }
}

#[test]
fn endbr64_is_inert() {
    let regs = run_text("endbr64\nmov eax, 7");
    assert_eq!(regs.general[R64::RAX as usize].r32(), 7);
}

#[test]
fn reply_line_classification() {
    assert_eq!(classify_line(b"^done"), LineClass::SyncResult);
    assert_eq!(classify_line(b"=breakpoint-created,x"), LineClass::Notify);
    assert_eq!(classify_line(b"*running,x"), LineClass::ExecChange);
    assert_eq!(classify_line(b"~\"hi\""), LineClass::Console);
    assert_eq!(classify_line(b"&\"log\""), LineClass::Log);
    assert_eq!(classify_line(b"(xx)"), LineClass::Other);
    assert_eq!(classify_line(b""), LineClass::Other);
}

#[test]
fn reply_messages() {
    assert_eq!(
        notify_async_output(b"breakpoint-created,bkptno=\"1\""),
        Some(Message::BreakpointCreated)
    );
    assert_eq!(
        notify_async_output(b"thread-created,id=\"1\""),
        Some(Message::Other)
    );
    assert_eq!(notify_async_output(b"weird,x=\"1\""), None);
    assert_eq!(
        exec_async_output(b"stopped,reason=\"breakpoint-hit\",disp=\"keep\",bkptno=\"1\""),
        Some(Message::BreakpointHit)
    );
    assert_eq!(
        exec_async_output(b"stopped,reason=\"end-stepping-range\",bkptno=\"1\""),
        Some(Message::EndSteppingRange)
    );
    assert_eq!(exec_async_output(b"running,thread-id=\"all\""), Some(Message::Other));
    assert_eq!(sync_operation(b"error,msg=\"oops\""), Some(Message::Other));
    assert_eq!(sync_operation(b"done"), Some(Message::Other));
    match sync_operation(b"done,register-names=[\"rax\",\"rbx\"]") {
        Some(Message::RegisterNames(names)) => {
            assert_eq!(names, vec![b"rax".to_vec(), b"rbx".to_vec()]);
        }
        other => panic!("unexpected {:?}", other),
    }
}

#[test]
fn disassemble_round_trips() {
    let code = assemble(b"mov eax, 7\nxor ebx, ebx\nret\nhlt\n").expect("assemble");
    let text = ace::machine::disassemble(&code).expect("run");
    assert_eq!(text, b"mov eax, 0x7\nxor ebx, ebx\nret\n");
    let reassembled = assemble(&text).expect("reassemble");
    assert_eq!(&code[..code.len() - 1], reassembled.as_slice());
}

#[test]
fn repeated_key_keeps_last() {
    // a repeated ident shadows the earlier pair, as a map built by
    // repeated insertion would
    match sync_operation(b"done,register-names=[\"rax\"],register-names=[\"rbx\"]") {
        Some(Message::RegisterNames(names)) => {
            assert_eq!(names, vec![b"rbx".to_vec()]);
        }
        other => panic!("unexpected {:?}", other),
    }
}

#[test]
fn split_and_unescape() {
    let (head, rest) = split_comma(b"stopped,reason=\"x\"");
    assert_eq!(head, b"stopped");
    assert_eq!(rest, b"reason=\"x\"");
    let (head, rest) = split_comma(b"done");
    assert_eq!(head, b"done");
    assert_eq!(rest, b"");
    assert_eq!(unescape_c(b"a\\nb\\t\\\\\\\"").unwrap(), b"a\nb\t\\\"");
    assert_eq!(unescape_c(b"a\\q"), None);
}

#[test]
fn register_tables() {
    let names = RegisterNames {
        inner: vec![b"rax".to_vec(), b"rbx".to_vec(), b"rcx".to_vec()],
    };
    let mapping = process_register_names(&names);
    assert_eq!(mapping.len(), 16);
    assert_eq!(mapping[0], R64::RAX);
    assert_eq!(mapping[1], R64::RBX);
    assert_eq!(mapping[2], R64::RCX);
    let values = map_registers(&mapping, &vec![(0, 7), (1, 9), (0, 8)]);
    assert_eq!(values.len(), 16);
    assert_eq!(values[R64::RAX as usize], 8);
    assert_eq!(values[R64::RBX as usize], 9);
}

#[test]
fn register_names_from_text() {
    assert_eq!(R64::from_name("rax"), Some(R64::RAX));
    assert_eq!(R64::from_name("r15"), Some(R64::R15));
    assert_eq!(R64::from_name("r8"), Some(R64::R8));
    assert_eq!(R64::from_name("xyz"), None);
    assert_eq!(R64::from_name("eax"), None);
}
