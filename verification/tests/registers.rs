//! Register file and register-name tests, and the def/use analysis.

use lark_vm::instr::{Instr, OpcodeRegImm, OpcodeRegRegImm};
use lark_vm::regs::{Reg, RegisterFile};
use lark_vm::s16;
use lark_vm::stg_loc::StgLoc;

#[test]
fn zero_register_reads_zero_and_discards_writes() {
    let mut rf = RegisterFile::new(100);
    assert_eq!(rf.get(Reg::Zero).as_u16(), 0);
    rf.set(Reg::Zero, s16::from_u16(55));
    assert_eq!(rf.get(Reg::Zero).as_u16(), 0);
}

#[test]
fn new_file_holds_sp_only() {
    let rf = RegisterFile::new(0xF7FE);
    assert_eq!(rf.get(Reg::Sp).as_u16(), 0xF7FE);
    assert_eq!(rf.get(Reg::T0).as_u16(), 0);
    assert_eq!(rf.get(Reg::K0).as_u16(), 0);
}

#[test]
fn set_then_get_round_trips() {
    let mut rf = RegisterFile::new(0);
    rf.set(Reg::A2, s16::from_i16(-3));
    assert_eq!(rf.get(Reg::A2).as_i16(), -3);
    assert_eq!(rf.get(Reg::A2).as_u16(), 0xFFFD);
    assert_eq!(rf.get(Reg::A1).as_u16(), 0);
}

#[test]
fn register_codes_round_trip() {
    for c in 0u8..16 {
        let g = Reg::from_code(c).unwrap();
        assert_eq!(g.code(), c);
    }
    assert!(Reg::from_code(16).is_none());
}

#[test]
fn calling_convention_classes() {
    assert!(Reg::S0.is_callee_saved());
    assert!(!Reg::T0.is_callee_saved());
    assert!(Reg::Rv.is_ret_related());
    assert!(Reg::A1.is_argument());
    assert!(Reg::S2.is_saved());
    assert!(Reg::T2.is_temporary());
    assert!(Reg::K1.is_kernel());
    assert!(!Reg::Gp.is_kernel());
}

#[test]
fn iter_lists_registers_in_code_order() {
    let mut rf = RegisterFile::new(7);
    rf.set(Reg::Rv, s16::from_u16(1));
    let pairs = rf.iter();
    assert_eq!(pairs.len(), 15);
    assert!(matches!(pairs[0].0, Reg::Rv));
    assert_eq!(pairs[0].1.as_u16(), 1);
    assert!(matches!(pairs[14].0, Reg::Sp));
    assert_eq!(pairs[14].1.as_u16(), 7);
}

#[test]
fn defs_and_uses_of_a_load_off_sp() {
    let i = Instr::RRI {
        opcode: OpcodeRegRegImm::LW,
        reg1: Reg::Rv,
        reg2: Reg::Sp,
        imm10: s16::from_i16(-2),
    };
    let mut defs = Vec::new();
    let mut uses = Vec::new();
    i.defs_and_uses(&mut defs, &mut uses);
    assert_eq!(defs.len(), 1);
    assert!(matches!(defs[0], StgLoc::Reg(Reg::Rv)));
    assert_eq!(uses.len(), 2);
    assert!(matches!(uses[0], StgLoc::Reg(Reg::Sp)));
    assert!(matches!(uses[1], StgLoc::StackVar { simm10_offset: -2 }));
}

#[test]
fn defs_and_uses_of_a_linking_jump() {
    let i = Instr::RI { opcode: OpcodeRegImm::JAL, reg: Reg::Ra, imm: s16::from_i16(8) };
    let mut defs = Vec::new();
    let mut uses = Vec::new();
    i.defs_and_uses(&mut defs, &mut uses);
    // The link register plus every caller-saved register.
    assert_eq!(defs.len(), 9);
    assert!(uses.is_empty());
    assert!(matches!(defs[0], StgLoc::Reg(Reg::Ra)));
    assert!(matches!(defs[1], StgLoc::Reg(Reg::T0)));
    assert!(matches!(defs[8], StgLoc::Reg(Reg::Ra)));
}

#[test]
fn defs_and_uses_of_a_store_off_gp() {
    let i = Instr::RRI {
        opcode: OpcodeRegRegImm::SB,
        reg1: Reg::Gp,
        reg2: Reg::T1,
        imm10: s16::from_i16(4),
    };
    let mut defs = Vec::new();
    let mut uses = Vec::new();
    i.defs_and_uses(&mut defs, &mut uses);
    assert_eq!(uses.len(), 2);
    assert!(matches!(uses[0], StgLoc::Reg(Reg::Gp)));
    assert!(matches!(uses[1], StgLoc::Reg(Reg::T1)));
    assert_eq!(defs.len(), 1);
    assert!(matches!(defs[0], StgLoc::GlobalVar { simm10_offset: 4 }));
}

#[test]
fn word_views_preserve_the_bit_pattern() {
    let w = s16::from_i16(-1);
    assert_eq!(w.as_u16(), 0xFFFF);
    assert!(w.as_bool());
    let z = s16::zero();
    assert!(!z.as_bool());
    assert_eq!(s16::from_u16(0x8000).as_i16(), -32768);
    assert_eq!(s16::from_bool(true).as_u16(), 1);
    assert_eq!(s16::from_u8(0xFF).as_u16(), 0x00FF);
}
