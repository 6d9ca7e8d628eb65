//! The instruction model: a tagged instruction with eight encoding shapes and
//! a closed set of opcodes per shape.

use vstd::prelude::*;
use crate::regs::Reg;
use crate::word::s16;

verus! {

/// Opcodes of shape O: no operands.
#[derive(Clone, Copy, Debug, PartialEq, Eq, Structural)]
pub enum OpcodeOp {
    /// Halt.
    HALT,
    /// No-op.
    NOP,
    /// Kernel return (return from interrupt).
    KRET,
    /// Interrupts enable.
    INRE,
    /// Interrupts disable.
    INRD,
}

/// Opcodes of shape A: one 16-bit signed address offset.
#[derive(Clone, Copy, Debug, PartialEq, Eq, Structural)]
pub enum OpcodeAddr {
    /// Jump (PC-relative).
    J,
}

/// Opcodes of shape I: one 10-bit immediate.
#[derive(Clone, Copy, Debug, PartialEq, Eq, Structural)]
pub enum OpcodeImm {
    /// Exception.
    EXN,
    /// Kernel call (reserved).
    KCALL,
}

/// Opcodes of shape R: one register.
#[derive(Clone, Copy, Debug, PartialEq, Eq, Structural)]
pub enum OpcodeReg {
    /// Jump register.
    JR,
    /// Move Lo into a register.
    MVLO,
    /// Move Hi into a register.
    MVHI,
}

/// Opcodes of shape RI: one register and one 16-bit immediate.
#[derive(Clone, Copy, Debug, PartialEq, Eq, Structural)]
pub enum OpcodeRegImm {
    /// Jump and link.
    JAL,
    /// Branch if true (nonzero).
    BT,
    /// Branch if false (zero).
    BF,
    /// Load immediate.
    LI,
}

/// Opcodes of shape RR: two registers.
#[derive(Clone, Copy, Debug, PartialEq, Eq, Structural)]
pub enum OpcodeRegReg {
    /// Jump register and link.
    JRAL,
    /// Move.
    MV,
    /// Multiply (signed).
    MUL,
    /// Divide (signed).
    DIV,
    /// Boolean not.
    NOT,
    /// Two's-complement negate.
    NEG,
    /// Multiply unsigned.
    MULU,
    /// Divide unsigned.
    DIVU,
    /// Sign-extend byte.
    SEB,
    /// Test equal to zero.
    TEZ,
    /// Test nonzero.
    TNZ,
}

/// Opcodes of shape RRR: three registers.
#[derive(Clone, Copy, Debug, PartialEq, Eq, Structural)]
pub enum OpcodeRegRegReg {
    /// Add (signed, wrapping).
    ADD,
    /// Subtract (signed, wrapping).
    SUB,
    /// Bitwise or.
    OR,
    /// Bitwise exclusive-or.
    XOR,
    /// Bitwise and.
    AND,
    /// Add unsigned (wrapping).
    ADDU,
    /// Subtract unsigned (wrapping).
    SUBU,
    /// Shift left (logical).
    SHL,
    /// Shift right (logical).
    SHR,
    /// Shift right arithmetic.
    SHRA,
    /// Test less than (signed).
    TLT,
    /// Test greater or equal (signed).
    TGE,
    /// Test equal.
    TEQ,
    /// Test not equal.
    TNE,
    /// Test less than unsigned.
    TLTU,
    /// Test greater or equal unsigned.
    TGEU,
}

/// Opcodes of shape RRI: two registers and one 10-bit immediate.
#[derive(Clone, Copy, Debug, PartialEq, Eq, Structural)]
pub enum OpcodeRegRegImm {
    /// Load word.
    LW,
    /// Load byte signed.
    LBS,
    /// Load byte unsigned.
    LBU,
    /// Store word.
    SW,
    /// Store byte.
    SB,
    /// Add immediate.
    ADDI,
    /// Subtract immediate.
    SUBI,
    /// Or immediate.
    ORI,
    /// Xor immediate.
    XORI,
    /// And immediate.
    ANDI,
}

/// The canonical numeric code of each O-shape opcode.
pub open spec fn spec_op_code(op: OpcodeOp) -> u8 {
    match op {
        OpcodeOp::HALT => 0x01,
        OpcodeOp::NOP => 0x02,
        OpcodeOp::KRET => 0x0D,
        OpcodeOp::INRE => 0x1C,
        OpcodeOp::INRD => 0x1D,
    }
}

pub open spec fn spec_op_from_code(c: u8) -> Option<OpcodeOp> {
    if c == 0x01 {
        Some(OpcodeOp::HALT)
    } else if c == 0x02 {
        Some(OpcodeOp::NOP)
    } else if c == 0x0D {
        Some(OpcodeOp::KRET)
    } else if c == 0x1C {
        Some(OpcodeOp::INRE)
    } else if c == 0x1D {
        Some(OpcodeOp::INRD)
    } else {
        None
    }
}

pub open spec fn spec_addr_code(op: OpcodeAddr) -> u8 {
    match op {
        OpcodeAddr::J => 0x08,
    }
}

pub open spec fn spec_addr_from_code(c: u8) -> Option<OpcodeAddr> {
    if c == 0x08 {
        Some(OpcodeAddr::J)
    } else {
        None
    }
}

pub open spec fn spec_imm_code(op: OpcodeImm) -> u8 {
    match op {
        OpcodeImm::EXN => 0x00,
        OpcodeImm::KCALL => 0x0E,
    }
}

pub open spec fn spec_imm_from_code(c: u8) -> Option<OpcodeImm> {
    if c == 0x00 {
        Some(OpcodeImm::EXN)
    } else if c == 0x0E {
        Some(OpcodeImm::KCALL)
    } else {
        None
    }
}

pub open spec fn spec_r_code(op: OpcodeReg) -> u8 {
    match op {
        OpcodeReg::JR => 0x09,
        OpcodeReg::MVLO => 0x2A,
        OpcodeReg::MVHI => 0x2B,
    }
}

pub open spec fn spec_r_from_code(c: u8) -> Option<OpcodeReg> {
    if c == 0x09 {
        Some(OpcodeReg::JR)
    } else if c == 0x2A {
        Some(OpcodeReg::MVLO)
    } else if c == 0x2B {
        Some(OpcodeReg::MVHI)
    } else {
        None
    }
}

pub open spec fn spec_ri_code(op: OpcodeRegImm) -> u8 {
    match op {
        OpcodeRegImm::JAL => 0x0A,
        OpcodeRegImm::BT => 0x0C,
        OpcodeRegImm::BF => 0x0F,
        OpcodeRegImm::LI => 0x10,
    }
}

pub open spec fn spec_ri_from_code(c: u8) -> Option<OpcodeRegImm> {
    if c == 0x0A {
        Some(OpcodeRegImm::JAL)
    } else if c == 0x0C {
        Some(OpcodeRegImm::BT)
    } else if c == 0x0F {
        Some(OpcodeRegImm::BF)
    } else if c == 0x10 {
        Some(OpcodeRegImm::LI)
    } else {
        None
    }
}

pub open spec fn spec_rr_code(op: OpcodeRegReg) -> u8 {
    match op {
        OpcodeRegReg::JRAL => 0x0B,
        OpcodeRegReg::MV => 0x14,
        OpcodeRegReg::MUL => 0x22,
        OpcodeRegReg::DIV => 0x23,
        OpcodeRegReg::NOT => 0x27,
        OpcodeRegReg::NEG => 0x2F,
        OpcodeRegReg::MULU => 0x32,
        OpcodeRegReg::DIVU => 0x33,
        OpcodeRegReg::SEB => 0x37,
        OpcodeRegReg::TEZ => 0x3E,
        OpcodeRegReg::TNZ => 0x3F,
    }
}

pub open spec fn spec_rr_from_code(c: u8) -> Option<OpcodeRegReg> {
    if c == 0x0B {
        Some(OpcodeRegReg::JRAL)
    } else if c == 0x14 {
        Some(OpcodeRegReg::MV)
    } else if c == 0x22 {
        Some(OpcodeRegReg::MUL)
    } else if c == 0x23 {
        Some(OpcodeRegReg::DIV)
    } else if c == 0x27 {
        Some(OpcodeRegReg::NOT)
    } else if c == 0x2F {
        Some(OpcodeRegReg::NEG)
    } else if c == 0x32 {
        Some(OpcodeRegReg::MULU)
    } else if c == 0x33 {
        Some(OpcodeRegReg::DIVU)
    } else if c == 0x37 {
        Some(OpcodeRegReg::SEB)
    } else if c == 0x3E {
        Some(OpcodeRegReg::TEZ)
    } else if c == 0x3F {
        Some(OpcodeRegReg::TNZ)
    } else {
        None
    }
}

pub open spec fn spec_rrr_code(op: OpcodeRegRegReg) -> u8 {
    match op {
        OpcodeRegRegReg::ADD => 0x20,
        OpcodeRegRegReg::SUB => 0x21,
        OpcodeRegRegReg::OR => 0x24,
        OpcodeRegRegReg::XOR => 0x25,
        OpcodeRegRegReg::AND => 0x26,
        OpcodeRegRegReg::ADDU => 0x30,
        OpcodeRegRegReg::SUBU => 0x31,
        OpcodeRegRegReg::SHL => 0x34,
        OpcodeRegRegReg::SHR => 0x35,
        OpcodeRegRegReg::SHRA => 0x36,
        OpcodeRegRegReg::TLT => 0x38,
        OpcodeRegRegReg::TGE => 0x39,
        OpcodeRegRegReg::TEQ => 0x3A,
        OpcodeRegRegReg::TNE => 0x3B,
        OpcodeRegRegReg::TLTU => 0x3C,
        OpcodeRegRegReg::TGEU => 0x3D,
    }
}

pub open spec fn spec_rrr_from_code(c: u8) -> Option<OpcodeRegRegReg> {
    if c == 0x20 {
        Some(OpcodeRegRegReg::ADD)
    } else if c == 0x21 {
        Some(OpcodeRegRegReg::SUB)
    } else if c == 0x24 {
        Some(OpcodeRegRegReg::OR)
    } else if c == 0x25 {
        Some(OpcodeRegRegReg::XOR)
    } else if c == 0x26 {
        Some(OpcodeRegRegReg::AND)
    } else if c == 0x30 {
        Some(OpcodeRegRegReg::ADDU)
    } else if c == 0x31 {
        Some(OpcodeRegRegReg::SUBU)
    } else if c == 0x34 {
        Some(OpcodeRegRegReg::SHL)
    } else if c == 0x35 {
        Some(OpcodeRegRegReg::SHR)
    } else if c == 0x36 {
        Some(OpcodeRegRegReg::SHRA)
    } else if c == 0x38 {
        Some(OpcodeRegRegReg::TLT)
    } else if c == 0x39 {
        Some(OpcodeRegRegReg::TGE)
    } else if c == 0x3A {
        Some(OpcodeRegRegReg::TEQ)
    } else if c == 0x3B {
        Some(OpcodeRegRegReg::TNE)
    } else if c == 0x3C {
        Some(OpcodeRegRegReg::TLTU)
    } else if c == 0x3D {
        Some(OpcodeRegRegReg::TGEU)
    } else {
        None
    }
}

pub open spec fn spec_rri_code(op: OpcodeRegRegImm) -> u8 {
    match op {
        OpcodeRegRegImm::LW => 0x11,
        OpcodeRegRegImm::LBS => 0x12,
        OpcodeRegRegImm::LBU => 0x13,
        OpcodeRegRegImm::SW => 0x15,
        OpcodeRegRegImm::SB => 0x16,
        OpcodeRegRegImm::ADDI => 0x28,
        OpcodeRegRegImm::SUBI => 0x29,
        OpcodeRegRegImm::ORI => 0x2C,
        OpcodeRegRegImm::XORI => 0x2D,
        OpcodeRegRegImm::ANDI => 0x2E,
    }
}

pub open spec fn spec_rri_from_code(c: u8) -> Option<OpcodeRegRegImm> {
    if c == 0x11 {
        Some(OpcodeRegRegImm::LW)
    } else if c == 0x12 {
        Some(OpcodeRegRegImm::LBS)
    } else if c == 0x13 {
        Some(OpcodeRegRegImm::LBU)
    } else if c == 0x15 {
        Some(OpcodeRegRegImm::SW)
    } else if c == 0x16 {
        Some(OpcodeRegRegImm::SB)
    } else if c == 0x28 {
        Some(OpcodeRegRegImm::ADDI)
    } else if c == 0x29 {
        Some(OpcodeRegRegImm::SUBI)
    } else if c == 0x2C {
        Some(OpcodeRegRegImm::ORI)
    } else if c == 0x2D {
        Some(OpcodeRegRegImm::XORI)
    } else if c == 0x2E {
        Some(OpcodeRegRegImm::ANDI)
    } else {
        None
    }
}

impl OpcodeOp {
    /// The opcode with the given numeric code, if it is of this shape.
    pub fn from_code(c: u8) -> (r: Option<OpcodeOp>)
        ensures
            r == spec_op_from_code(c),
    {
        match c {
            0x01 => Some(OpcodeOp::HALT),
            0x02 => Some(OpcodeOp::NOP),
            0x0D => Some(OpcodeOp::KRET),
            0x1C => Some(OpcodeOp::INRE),
            0x1D => Some(OpcodeOp::INRD),
            _ => None,
        }
    }
}

impl OpcodeAddr {
    /// The opcode with the given numeric code, if it is of this shape.
    pub fn from_code(c: u8) -> (r: Option<OpcodeAddr>)
        ensures
            r == spec_addr_from_code(c),
    {
        match c {
            0x08 => Some(OpcodeAddr::J),
            _ => None,
        }
    }
}

impl OpcodeImm {
    /// The opcode with the given numeric code, if it is of this shape.
    pub fn from_code(c: u8) -> (r: Option<OpcodeImm>)
        ensures
            r == spec_imm_from_code(c),
    {
        match c {
            0x00 => Some(OpcodeImm::EXN),
            0x0E => Some(OpcodeImm::KCALL),
            _ => None,
        }
    }
}

impl OpcodeReg {
    /// The opcode with the given numeric code, if it is of this shape.
    pub fn from_code(c: u8) -> (r: Option<OpcodeReg>)
        ensures
            r == spec_r_from_code(c),
    {
        match c {
            0x09 => Some(OpcodeReg::JR),
            0x2A => Some(OpcodeReg::MVLO),
            0x2B => Some(OpcodeReg::MVHI),
            _ => None,
        }
    }
}

impl OpcodeRegImm {
    /// The opcode with the given numeric code, if it is of this shape.
    pub fn from_code(c: u8) -> (r: Option<OpcodeRegImm>)
        ensures
            r == spec_ri_from_code(c),
    {
        match c {
            0x0A => Some(OpcodeRegImm::JAL),
            0x0C => Some(OpcodeRegImm::BT),
            0x0F => Some(OpcodeRegImm::BF),
            0x10 => Some(OpcodeRegImm::LI),
            _ => None,
        }
    }
}

impl OpcodeRegReg {
    /// The opcode with the given numeric code, if it is of this shape.
    pub fn from_code(c: u8) -> (r: Option<OpcodeRegReg>)
        ensures
            r == spec_rr_from_code(c),
    {
        match c {
            0x0B => Some(OpcodeRegReg::JRAL),
            0x14 => Some(OpcodeRegReg::MV),
            0x22 => Some(OpcodeRegReg::MUL),
            0x23 => Some(OpcodeRegReg::DIV),
            0x27 => Some(OpcodeRegReg::NOT),
            0x2F => Some(OpcodeRegReg::NEG),
            0x32 => Some(OpcodeRegReg::MULU),
            0x33 => Some(OpcodeRegReg::DIVU),
            0x37 => Some(OpcodeRegReg::SEB),
            0x3E => Some(OpcodeRegReg::TEZ),
            0x3F => Some(OpcodeRegReg::TNZ),
            _ => None,
        }
    }
}

impl OpcodeRegRegReg {
    /// The opcode with the given numeric code, if it is of this shape.
    pub fn from_code(c: u8) -> (r: Option<OpcodeRegRegReg>)
        ensures
            r == spec_rrr_from_code(c),
    {
        match c {
            0x20 => Some(OpcodeRegRegReg::ADD),
            0x21 => Some(OpcodeRegRegReg::SUB),
            0x24 => Some(OpcodeRegRegReg::OR),
            0x25 => Some(OpcodeRegRegReg::XOR),
            0x26 => Some(OpcodeRegRegReg::AND),
            0x30 => Some(OpcodeRegRegReg::ADDU),
            0x31 => Some(OpcodeRegRegReg::SUBU),
            0x34 => Some(OpcodeRegRegReg::SHL),
            0x35 => Some(OpcodeRegRegReg::SHR),
            0x36 => Some(OpcodeRegRegReg::SHRA),
            0x38 => Some(OpcodeRegRegReg::TLT),
            0x39 => Some(OpcodeRegRegReg::TGE),
            0x3A => Some(OpcodeRegRegReg::TEQ),
            0x3B => Some(OpcodeRegRegReg::TNE),
            0x3C => Some(OpcodeRegRegReg::TLTU),
            0x3D => Some(OpcodeRegRegReg::TGEU),
            _ => None,
        }
    }
}

impl OpcodeRegRegImm {
    /// The opcode with the given numeric code, if it is of this shape.
    pub fn from_code(c: u8) -> (r: Option<OpcodeRegRegImm>)
        ensures
            r == spec_rri_from_code(c),
    {
        match c {
            0x11 => Some(OpcodeRegRegImm::LW),
            0x12 => Some(OpcodeRegRegImm::LBS),
            0x13 => Some(OpcodeRegRegImm::LBU),
            0x15 => Some(OpcodeRegRegImm::SW),
            0x16 => Some(OpcodeRegRegImm::SB),
            0x28 => Some(OpcodeRegRegImm::ADDI),
            0x29 => Some(OpcodeRegRegImm::SUBI),
            0x2C => Some(OpcodeRegRegImm::ORI),
            0x2D => Some(OpcodeRegRegImm::XORI),
            0x2E => Some(OpcodeRegRegImm::ANDI),
            _ => None,
        }
    }
}

/// Each opcode table is consistent: decoding an opcode's own code gives the
/// opcode back.
pub proof fn lemma_op_code_roundtrip(op: OpcodeOp)
    ensures
        spec_op_from_code(spec_op_code(op)) == Some(op),
{
}

pub proof fn lemma_addr_code_roundtrip(op: OpcodeAddr)
    ensures
        spec_addr_from_code(spec_addr_code(op)) == Some(op),
{
}

pub proof fn lemma_imm_code_roundtrip(op: OpcodeImm)
    ensures
        spec_imm_from_code(spec_imm_code(op)) == Some(op),
{
}

pub proof fn lemma_r_code_roundtrip(op: OpcodeReg)
    ensures
        spec_r_from_code(spec_r_code(op)) == Some(op),
{
}

pub proof fn lemma_ri_code_roundtrip(op: OpcodeRegImm)
    ensures
        spec_ri_from_code(spec_ri_code(op)) == Some(op),
{
}

pub proof fn lemma_rr_code_roundtrip(op: OpcodeRegReg)
    ensures
        spec_rr_from_code(spec_rr_code(op)) == Some(op),
{
}

pub proof fn lemma_rrr_code_roundtrip(op: OpcodeRegRegReg)
    ensures
        spec_rrr_from_code(spec_rrr_code(op)) == Some(op),
{
}

pub proof fn lemma_rri_code_roundtrip(op: OpcodeRegRegImm)
    ensures
        spec_rri_from_code(spec_rri_code(op)) == Some(op),
{
}

/// An instruction, tagged by encoding shape. Immediates are held as words:
/// 10-bit value immediates arrive sign-extended (or zero-extended for `EXN`),
/// exactly as the decoder produced them.
#[derive(Clone, Copy, Debug, PartialEq, Eq, Structural)]
pub enum Instr {
    /// No arguments, opcode only.
    O { opcode: OpcodeOp },
    /// A single PC-relative address offset.
    A { opcode: OpcodeAddr, offset: s16 },
    /// A single 10-bit immediate, zero-extended.
    I { opcode: OpcodeImm, imm10: s16 },
    /// A single register.
    R { opcode: OpcodeReg, reg: Reg },
    /// One register and one 16-bit immediate.
    RI { opcode: OpcodeRegImm, reg: Reg, imm: s16 },
    /// Two registers.
    RR { opcode: OpcodeRegReg, reg1: Reg, reg2: Reg },
    /// Three registers.
    RRR { opcode: OpcodeRegRegReg, reg1: Reg, reg2: Reg, reg3: Reg },
    /// Two registers and one 10-bit immediate, sign-extended.
    RRI { opcode: OpcodeRegRegImm, reg1: Reg, reg2: Reg, imm10: s16 },
}

/// The byte size of an instruction: `ceil((6 + operand_bits) / 8)`, a
/// function of the shape alone.
pub open spec fn spec_instr_size(i: Instr) -> u16 {
    match i {
        Instr::O { .. } => 1,
        Instr::A { .. } => 3,
        Instr::I { .. } => 2,
        Instr::R { .. } => 2,
        Instr::RI { .. } => 4,
        Instr::RR { .. } => 2,
        Instr::RRR { .. } => 3,
        Instr::RRI { .. } => 3,
    }
}

/// Whether two instructions have the same encoding shape.
pub open spec fn same_shape(a: Instr, b: Instr) -> bool {
    match (a, b) {
        (Instr::O { .. }, Instr::O { .. }) => true,
        (Instr::A { .. }, Instr::A { .. }) => true,
        (Instr::I { .. }, Instr::I { .. }) => true,
        (Instr::R { .. }, Instr::R { .. }) => true,
        (Instr::RI { .. }, Instr::RI { .. }) => true,
        (Instr::RR { .. }, Instr::RR { .. }) => true,
        (Instr::RRR { .. }, Instr::RRR { .. }) => true,
        (Instr::RRI { .. }, Instr::RRI { .. }) => true,
        _ => false,
    }
}

/// An instruction's byte size is determined solely by its encoding shape:
/// instructions of the same shape have the same size.
pub proof fn lemma_size_depends_on_shape_alone(a: Instr, b: Instr)
    requires
        same_shape(a, b),
    ensures
        spec_instr_size(a) == spec_instr_size(b),
{
}

/// The ceiling of `a / b`.
pub fn ceil_div(a: usize, b: usize) -> (r: usize)
    requires
        b > 0,
        a + b <= usize::MAX,
    ensures
        r == (a + b - 1) as int / b as int,
        b * r >= a,
        a > 0 ==> b * (r - 1) < a,
{
    let r = (a + b - 1) / b;
    proof {
        let s: int = a + b - 1;
        let bi: int = b as int;
        let q: int = s / bi;
        assert(bi * q + s % bi == s) by (nonlinear_arith)
            requires
                bi > 0,
                s >= 0,
                q == s / bi,
        ;
        assert(0 <= s % bi < bi) by (nonlinear_arith)
            requires
                bi > 0,
                s >= 0,
        ;
        assert(bi * (q - 1) == bi * q - bi) by (nonlinear_arith);
        assert(r == q);
    }
    r
}

/// The number of operand bits of each shape.
pub open spec fn spec_operand_bits(i: Instr) -> u16 {
    match i {
        Instr::O { .. } => 0,
        Instr::A { .. } => 16,
        Instr::I { .. } => 10,
        Instr::R { .. } => 4,
        Instr::RI { .. } => 20,
        Instr::RR { .. } => 8,
        Instr::RRR { .. } => 12,
        Instr::RRI { .. } => 18,
    }
}

impl Instr {
    /// The instruction's byte size; also how far the PC advances for
    /// non-branch instructions.
    pub fn instr_size(&self) -> (r: u16)
        ensures
            r == spec_instr_size(*self),
            r == (6 + spec_operand_bits(*self) + 7) as int / 8,
            1 <= r <= 4,
    {
        let arg_bits: usize = match self {
            Instr::O { .. } => 0,
            Instr::A { .. } => 16,
            Instr::I { .. } => 10,
            Instr::R { .. } => 4,
            Instr::RI { .. } => 20,
            Instr::RR { .. } => 8,
            Instr::RRR { .. } => 12,
            Instr::RRI { .. } => 18,
        };
        ceil_div(6 + arg_bits, 8) as u16
    }
}

} // verus!
