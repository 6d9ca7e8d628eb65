//! Debugger expression-language tests: parsing and command evaluation.

use lark_vm::cpu::Cpu;
use lark_vm::debugger::{DbgCmd, DbgErr, DbgReply, DbgVal, Spr};
use lark_vm::mem::{MemBlock, ROM_SIZE, STACK_INIT, VTTY_BYTES};
use lark_vm::regs::Reg;
use lark_vm::s16;

fn fresh_cpu() -> Cpu {
    Cpu::new(MemBlock::<ROM_SIZE>::new_zeroed(), MemBlock::<VTTY_BYTES>::new_zeroed())
}

fn parse(line: &str) -> DbgCmd {
    DbgCmd::parse(line.as_bytes()).expect("parse")
}

#[test]
fn parses_registers_and_integers() {
    assert!(matches!(parse("t0"), DbgCmd::Eval(DbgVal::Gpr(Reg::T0))));
    assert!(matches!(parse("$sp"), DbgCmd::Eval(DbgVal::Gpr(Reg::Sp))));
    assert!(matches!(parse("pc"), DbgCmd::Eval(DbgVal::Spr(Spr::Pc))));
    assert!(matches!(parse("zero"), DbgCmd::Eval(DbgVal::Gpr(Reg::Zero))));
    assert!(matches!(parse("42"), DbgCmd::Eval(DbgVal::U16(42))));
    assert!(matches!(parse("0x2F"), DbgCmd::Eval(DbgVal::U16(0x2F))));
    assert!(matches!(parse("-5"), DbgCmd::Eval(DbgVal::Neg(_))));
}

#[test]
fn parses_memory_references() {
    match parse("[sp]") {
        DbgCmd::Eval(DbgVal::Mem { base, offset }) => {
            assert!(matches!(*base, DbgVal::Gpr(Reg::Sp)));
            assert!(matches!(*offset, DbgVal::U16(0)));
        },
        _ => panic!("wrong parse"),
    }
    match parse("[$sp+2]") {
        DbgCmd::Eval(DbgVal::Mem { base, offset }) => {
            assert!(matches!(*base, DbgVal::Gpr(Reg::Sp)));
            assert!(matches!(*offset, DbgVal::U16(2)));
        },
        _ => panic!("wrong parse"),
    }
    match parse("[sp-2]") {
        DbgCmd::Eval(DbgVal::Mem { offset, .. }) => {
            assert!(matches!(*offset, DbgVal::Neg(_)));
        },
        _ => panic!("wrong parse"),
    }
}

#[test]
fn parses_commands() {
    assert!(matches!(parse("t0 = 7"), DbgCmd::Assign(DbgVal::Gpr(Reg::T0), DbgVal::U16(7))));
    assert!(matches!(parse("stack"), DbgCmd::PrintStack { depth: 4 }));
    assert!(matches!(parse("stack 8"), DbgCmd::PrintStack { depth: 8 }));
    assert!(matches!(parse("b 0x800"), DbgCmd::AddBreakpoint(DbgVal::U16(0x800))));
    assert!(matches!(parse("+b 10"), DbgCmd::AddBreakpoint(DbgVal::U16(10))));
    assert!(matches!(parse("breakpoint 0x800"), DbgCmd::AddBreakpoint(DbgVal::U16(0x800))));
    assert!(matches!(parse("+breakpoint 10"), DbgCmd::AddBreakpoint(DbgVal::U16(10))));
    assert!(matches!(parse("-b #1"), DbgCmd::RemoveBreakpoint(DbgVal::U16(1))));
    assert!(matches!(parse("-b 2"), DbgCmd::RemoveBreakpoint(DbgVal::U16(2))));
    assert!(matches!(parse("-breakpoint #3"), DbgCmd::RemoveBreakpoint(DbgVal::U16(3))));
    assert!(matches!(parse("b"), DbgCmd::ListBreakpoints));
    assert!(matches!(parse("breakpoints"), DbgCmd::ListBreakpoints));
    assert!(matches!(parse("c"), DbgCmd::Continue));
    assert!(matches!(parse("continue"), DbgCmd::Continue));
    assert!(matches!(parse("r"), DbgCmd::PrintRegs));
    assert!(matches!(parse("regs"), DbgCmd::PrintRegs));
    assert!(DbgCmd::parse(b"?!").is_none());
}

#[test]
fn overlong_numbers_do_not_parse() {
    assert!(DbgCmd::parse(b"99999").is_none());
    assert!(matches!(parse("65535"), DbgCmd::Eval(DbgVal::U16(65535))));
}

#[test]
fn evaluates_registers_memory_and_negation() {
    let mut cpu = fresh_cpu();
    cpu.regs.set(Reg::T0, s16::from_u16(0x1234));
    cpu.mem.write_s16(0x8000, s16::from_u16(0xBEEF)).unwrap();
    cpu.regs.set(Reg::S0, s16::from_u16(0x8000));
    match cpu.eval_dbg_cmd(&parse("t0")).unwrap() {
        DbgReply::Value(v) => assert_eq!(v, 0x1234),
        _ => panic!("wrong reply"),
    }
    match cpu.eval_dbg_cmd(&parse("[s0]")).unwrap() {
        DbgReply::Value(v) => assert_eq!(v, 0xBEEF),
        _ => panic!("wrong reply"),
    }
    match cpu.eval_dbg_cmd(&parse("[s0+2]")).unwrap() {
        DbgReply::Value(v) => assert_eq!(v, 0x0000),
        _ => panic!("wrong reply"),
    }
    match cpu.eval_dbg_cmd(&parse("-1")).unwrap() {
        DbgReply::Value(v) => assert_eq!(v, 0xFFFF),
        _ => panic!("wrong reply"),
    }
}

#[test]
fn assignment_returns_the_previous_value() {
    let mut cpu = fresh_cpu();
    cpu.regs.set(Reg::T0, s16::from_u16(3));
    match cpu.eval_dbg_cmd(&parse("t0 = 9")).unwrap() {
        DbgReply::SetResult { prev, now } => {
            assert_eq!(prev, 3);
            assert_eq!(now, 9);
        },
        _ => panic!("wrong reply"),
    }
    assert_eq!(cpu.regs.get(Reg::T0).as_u16(), 9);
    // Assignment through memory.
    cpu.regs.set(Reg::S0, s16::from_u16(0x8000));
    cpu.eval_dbg_cmd(&parse("[s0] = 0x1234")).unwrap();
    assert_eq!(cpu.mem.read_s16(0x8000).unwrap().as_u16(), 0x1234);
    // Writes to `zero` are discarded even from the debugger.
    cpu.eval_dbg_cmd(&parse("zero = 5")).unwrap();
    assert_eq!(cpu.regs.get(Reg::Zero).as_u16(), 0);
}

#[test]
fn ir_may_be_printed_but_not_assigned() {
    let mut cpu = fresh_cpu();
    cpu.ir = 0xDEADBEEF;
    match cpu.eval_dbg_cmd(&parse("ir")).unwrap() {
        DbgReply::IrValue(v) => assert_eq!(v, 0xDEADBEEF),
        _ => panic!("wrong reply"),
    }
    assert!(matches!(cpu.eval_dbg_cmd(&parse("ir = 1")), Err(DbgErr::IrAccess)));
    assert!(matches!(cpu.eval_dbg_cmd(&parse("3 = 1")), Err(DbgErr::NotAnLvalue)));
}

#[test]
fn breakpoints_stay_sorted_and_remove_by_ordinal() {
    let mut cpu = fresh_cpu();
    cpu.eval_dbg_cmd(&parse("b 0x900")).unwrap();
    cpu.eval_dbg_cmd(&parse("b 0x800")).unwrap();
    cpu.eval_dbg_cmd(&parse("b 0x900")).unwrap(); // duplicate
    match cpu.eval_dbg_cmd(&parse("b")).unwrap() {
        DbgReply::Breakpoints(bps) => assert_eq!(bps, vec![0x800, 0x900]),
        _ => panic!("wrong reply"),
    }
    match cpu.eval_dbg_cmd(&parse("-b #1")).unwrap() {
        DbgReply::BreakpointRemoved { ordinal, addr } => {
            assert_eq!(ordinal, 1);
            assert_eq!(addr, 0x800);
        },
        _ => panic!("wrong reply"),
    }
    assert!(matches!(cpu.eval_dbg_cmd(&parse("-b #7")), Err(DbgErr::BadOrdinal)));
    assert!(matches!(cpu.eval_dbg_cmd(&parse("-b 0")), Err(DbgErr::BadOrdinal)));
}

#[test]
fn stack_reads_from_sp_upward() {
    let mut cpu = fresh_cpu();
    cpu.mem.write_s16(STACK_INIT, s16::from_u16(0x1111)).unwrap();
    cpu.mem.write_s16(STACK_INIT + 2, s16::from_u16(0x2222)).unwrap();
    match cpu.eval_dbg_cmd(&parse("stack 2")).unwrap() {
        DbgReply::Stack(words) => assert_eq!(words, vec![0x1111, 0x2222]),
        _ => panic!("wrong reply"),
    }
}

#[test]
fn dereferencing_unmapped_memory_fails() {
    let mut cpu = fresh_cpu();
    assert!(matches!(cpu.eval_dbg_cmd(&parse("[0]")), Err(DbgErr::Mem(_))));
}

#[test]
fn continue_leaves_debug_mode() {
    let mut cpu = fresh_cpu().in_debug_mode(true);
    assert!(cpu.in_debug_mode);
    assert!(matches!(cpu.eval_dbg_cmd(&parse("c")).unwrap(), DbgReply::Continuing));
    assert!(!cpu.in_debug_mode);
}

#[test]
fn regs_reply_reports_the_whole_file() {
    let mut cpu = fresh_cpu();
    cpu.regs.set(Reg::A1, s16::from_u16(0x55));
    match cpu.eval_dbg_cmd(&parse("r")).unwrap() {
        DbgReply::Regs { gprs, pc, .. } => {
            assert_eq!(gprs.len(), 15);
            assert_eq!(pc, cpu.pc);
            let a1 = gprs.iter().find(|(g, _)| matches!(g, Reg::A1)).unwrap();
            assert_eq!(a1.1.as_u16(), 0x55);
        },
        _ => panic!("wrong reply"),
    }
}

#[test]
fn breakpoint_pauses_before_the_instruction() {
    let mut cpu = fresh_cpu();
    cpu.add_breakpoint(lark_vm::mem::Memory::ROM_START);
    assert!(!cpu.in_debug_mode);
    cpu.step_prepare(None).unwrap();
    assert!(cpu.in_debug_mode);
}
