//! A partial x86-64 instruction-level emulator.
//!
//! The crate decodes a narrow, hand-picked subset of x86-64 machine code
//! ([`decode`]), executes it over a 16-slot register file ([`registers`])
//! and a private stack buffer ([`machine`]), and records an assembler-
//! syntax disassembly of every executed instruction ([`disasm`]).  The
//! text can be assembled back to machine code ([`assembler`], [`encode`]);
//! [`roundtrip`] proves that both directions invert: the canonical
//! encoding of every supported instruction form decodes to the form
//! again, and its disassembly line parses back to it.  A parser for a
//! debugger's semi-structured reply grammar ([`gdbson`], [`gdb`]) serves
//! the differential-testing harness around the crate.

pub mod assembler;
pub mod decode;
pub mod disasm;
pub mod encode;
pub mod gdb;
pub mod gdbson;
pub mod machine;
pub mod numfmt;
pub mod registers;
pub mod roundtrip;
