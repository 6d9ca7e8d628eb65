//! Decoder and instruction-size tests.

use lark_vm::decode::DecodeErr;
use lark_vm::instr::{ceil_div, Instr, OpcodeOp, OpcodeRegImm, OpcodeRegRegImm, OpcodeRegRegReg};
use lark_vm::regs::Reg;

#[test]
fn test_ceil_div() {
    assert_eq!(ceil_div(10, 3), 4);
    assert_eq!(ceil_div(15, 5), 3);
    assert_eq!(ceil_div(7, 2), 4);
    assert_eq!(ceil_div(100, 10), 10);
    assert_eq!(ceil_div(0, 5), 0);
}

#[test]
fn decode_test_ceil_div() {
    assert_eq!(ceil_div(10, 3), 4);
    assert_eq!(ceil_div(15, 5), 3);
    assert_eq!(ceil_div(7, 2), 4);
    assert_eq!(ceil_div(100, 10), 10);
    assert_eq!(ceil_div(0, 5), 0);
}

#[test]
fn decodes_halt() {
    let i = Instr::from_bits(0x04000000).unwrap();
    assert_eq!(i, Instr::O { opcode: OpcodeOp::HALT });
    assert_eq!(i.instr_size(), 1);
}

#[test]
fn decodes_li() {
    let i = Instr::from_bits(0x424001C0).unwrap();
    match i {
        Instr::RI { opcode, reg, imm } => {
            assert_eq!(opcode, OpcodeRegImm::LI);
            assert_eq!(reg, Reg::T0);
            assert_eq!(imm.as_u16(), 7);
        },
        _ => panic!("wrong shape"),
    }
    assert_eq!(i.instr_size(), 4);
}

#[test]
fn decodes_add() {
    let i = Instr::from_bits(0x80668000).unwrap();
    match i {
        Instr::RRR { opcode, reg1, reg2, reg3 } => {
            assert_eq!(opcode, OpcodeRegRegReg::ADD);
            assert_eq!(reg1, Reg::Rv);
            assert_eq!(reg2, Reg::T0);
            assert_eq!(reg3, Reg::T1);
        },
        _ => panic!("wrong shape"),
    }
    assert_eq!(i.instr_size(), 3);
}

#[test]
fn decodes_negative_rri_immediate() {
    // sw -2($sp), $t0
    let word = (0x15u32 << 26) | (15 << 22) | (9 << 18) | ((-2i32 as u32 & 0x3FF) << 8);
    let i = Instr::from_bits(word).unwrap();
    match i {
        Instr::RRI { opcode, reg1, reg2, imm10 } => {
            assert_eq!(opcode, OpcodeRegRegImm::SW);
            assert_eq!(reg1, Reg::Sp);
            assert_eq!(reg2, Reg::T0);
            assert_eq!(imm10.as_i16(), -2);
        },
        _ => panic!("wrong shape"),
    }
}

#[test]
fn decodes_negative_jump_offset() {
    let word = (0x08u32 << 26) | ((-4i32 as u32 & 0xFFFF) << 10);
    let i = Instr::from_bits(word).unwrap();
    match i {
        Instr::A { offset, .. } => assert_eq!(offset.as_i16(), -4),
        _ => panic!("wrong shape"),
    }
    assert_eq!(i.instr_size(), 3);
}

#[test]
fn rejects_unassigned_opcode() {
    let r = Instr::from_bits(0x1C000000); // opcode 0x07
    assert!(matches!(r, Err(DecodeErr::Opcode(0x07))));
}

#[test]
fn size_depends_on_shape_alone() {
    let a = Instr::from_bits(0x80668000).unwrap(); // add rv, t0, t1
    let b = Instr::from_bits(0xE0668000).unwrap(); // tlt rv, t0, t1
    assert_eq!(a.instr_size(), b.instr_size());
    let sizes: Vec<u16> = [
        Instr::from_bits(0x04000000).unwrap(), // halt: O
        Instr::from_bits(0x23FFF000).unwrap(), // j: A
        Instr::from_bits(0x00010000).unwrap(), // exn: I
        Instr::from_bits(0x26400000).unwrap(), // jr: R
        Instr::from_bits(0x424001C0).unwrap(), // li: RI
        Instr::from_bits((0x14u32 << 26) | (1 << 22) | (9 << 18)).unwrap(), // mv: RR
        Instr::from_bits(0x80668000).unwrap(), // add: RRR
        Instr::from_bits((0x28u32 << 26) | (1 << 22) | (9 << 18) | (1 << 8)).unwrap(), // addi: RRI
    ]
        .iter()
        .map(|i| i.instr_size())
        .collect();
    assert_eq!(sizes, vec![1, 3, 2, 2, 4, 2, 3, 3]);
}
