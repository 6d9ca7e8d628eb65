//! The decoder: from a 32-bit instruction word to an instruction value.
//!
//! The opcode occupies the most significant 6 bits of the word. Operand
//! fields follow, most significant first: registers are 4 bits, value
//! immediates 10 or 16 bits, address offsets 16 bits.

use vstd::prelude::*;
use crate::instr::{
    Instr, OpcodeAddr, OpcodeImm, OpcodeOp, OpcodeReg, OpcodeRegImm, OpcodeRegReg, OpcodeRegRegImm,
    OpcodeRegRegReg,
};
use crate::instr::{
    spec_addr_from_code, spec_imm_from_code, spec_op_from_code, spec_r_from_code,
    spec_ri_from_code, spec_rr_from_code, spec_rri_from_code, spec_rrr_from_code,
};
use crate::regs::{spec_reg_from_code, Reg};
use crate::word::{signed16, s16, unsigned16};

verus! {

/// A reason an instruction word does not decode.
#[derive(Clone, Copy, Debug, PartialEq, Eq, Structural)]
pub enum DecodeErr {
    /// The instruction's opcode is invalid.
    Opcode(u8),
    /// The instruction's destination register is invalid.
    Rd(u8),
    /// The instruction's first source register is invalid.
    Rs(u8),
    /// The instruction's second source register is invalid.
    Rt(u8),
    /// The instruction's single destination/source register is invalid.
    Reg(u8),
}

/// The opcode field: the most significant 6 bits.
pub open spec fn spec_opcode_of(ir: u32) -> u8 {
    (ir >> 26) as u8
}

/// The 16-bit address-offset field of an A-shape word.
pub open spec fn spec_field_addr(ir: u32) -> u16 {
    ((ir >> 10) & 0xFFFF) as u16
}

/// The 10-bit immediate field of an I-shape word.
pub open spec fn spec_field_imm10(ir: u32) -> u16 {
    ((ir >> 16) & 0x3FF) as u16
}

/// The first register field, just below the opcode.
pub open spec fn spec_field_reg1(ir: u32) -> u8 {
    ((ir >> 22) & 0xF) as u8
}

/// The second register field.
pub open spec fn spec_field_reg2(ir: u32) -> u8 {
    ((ir >> 18) & 0xF) as u8
}

/// The third register field.
pub open spec fn spec_field_reg3(ir: u32) -> u8 {
    ((ir >> 14) & 0xF) as u8
}

/// The 16-bit immediate field of an RI-shape word.
pub open spec fn spec_field_imm16(ir: u32) -> u16 {
    ((ir >> 6) & 0xFFFF) as u16
}

/// The 10-bit immediate field of an RRI-shape word.
pub open spec fn spec_field_rri_imm10(ir: u32) -> u16 {
    ((ir >> 8) & 0x3FF) as u16
}

/// The bit pattern of a 10-bit immediate sign-extended to 16 bits.
pub open spec fn sext10_bits(f: u16) -> u16 {
    if f < 512 {
        f
    } else {
        (f + 0xFC00) as u16
    }
}

/// Every operand field fits its width.
pub proof fn lemma_decode_field_bounds(ir: u32)
    by (bit_vector)
    ensures
        (ir >> 26) < 64,
        ((ir >> 10) & 0xFFFF) < 0x10000,
        ((ir >> 16) & 0x3FF) < 0x400,
        ((ir >> 22) & 0xF) < 0x10,
        ((ir >> 18) & 0xF) < 0x10,
        ((ir >> 14) & 0xF) < 0x10,
        ((ir >> 6) & 0xFFFF) < 0x10000,
        ((ir >> 8) & 0x3FF) < 0x400,
{
}

/// Sign-extends a 10-bit immediate.
fn sign_extend_10(f: u16) -> (r: i16)
    requires
        f < 1024,
    ensures
        unsigned16(r) == sext10_bits(f),
        r as int == signed16(sext10_bits(f)),
{
    if f < 512 {
        f as i16
    } else {
        (f as i32 - 1024) as i16
    }
}

/// Decodes the signed 10-bit immediate of an I-position field, with the size
/// in bytes of an instruction carrying only that field.
pub fn simm10(instr: u32) -> (r: (u16, i16))
    ensures
        r.0 == 2,
        unsigned16(r.1) == sext10_bits(spec_field_imm10(instr)),
{
    proof {
        lemma_decode_field_bounds(instr);
    }
    let f = ((instr >> 16) & 0x3FF) as u16;
    (2, sign_extend_10(f))
}

/// Decodes the unsigned 10-bit immediate of an I-shape word.
pub fn imm10(instr: u32) -> (r: (u16, u16))
    ensures
        r.0 == 2,
        r.1 == spec_field_imm10(instr),
{
    proof {
        lemma_decode_field_bounds(instr);
    }
    (2, ((instr >> 16) & 0x3FF) as u16)
}

/// Decodes the single register of an R-shape word.
pub fn reg(instr: u32) -> (r: Result<(u16, Reg), DecodeErr>)
    ensures
        r matches Ok(v) ==> v.0 == 2 && Some(v.1) == spec_reg_from_code(spec_field_reg1(instr)),
        r is Ok,
{
    proof {
        lemma_decode_field_bounds(instr);
    }
    let f = ((instr >> 22) & 0xF) as u8;
    match Reg::from_code(f) {
        Some(g) => Ok((2, g)),
        None => Err(DecodeErr::Reg(f)),
    }
}

/// Decodes the two registers of an RR-shape word.
pub fn reg_reg(instr: u32) -> (r: Result<(u16, Reg, Reg), DecodeErr>)
    ensures
        r matches Ok(v) ==> v.0 == 2 && Some(v.1) == spec_reg_from_code(spec_field_reg1(instr))
            && Some(v.2) == spec_reg_from_code(spec_field_reg2(instr)),
        r is Ok,
{
    proof {
        lemma_decode_field_bounds(instr);
    }
    let f1 = ((instr >> 22) & 0xF) as u8;
    let f2 = ((instr >> 18) & 0xF) as u8;
    let rd = match Reg::from_code(f1) {
        Some(g) => g,
        None => {
            return Err(DecodeErr::Rd(f1));
        },
    };
    let rs = match Reg::from_code(f2) {
        Some(g) => g,
        None => {
            return Err(DecodeErr::Rs(f2));
        },
    };
    Ok((2, rd, rs))
}

/// Decodes the three registers of an RRR-shape word.
pub fn reg_reg_reg(instr: u32) -> (r: Result<(u16, Reg, Reg, Reg), DecodeErr>)
    ensures
        r matches Ok(v) ==> v.0 == 3 && Some(v.1) == spec_reg_from_code(spec_field_reg1(instr))
            && Some(v.2) == spec_reg_from_code(spec_field_reg2(instr)) && Some(v.3)
            == spec_reg_from_code(spec_field_reg3(instr)),
        r is Ok,
{
    proof {
        lemma_decode_field_bounds(instr);
    }
    let f1 = ((instr >> 22) & 0xF) as u8;
    let f2 = ((instr >> 18) & 0xF) as u8;
    let f3 = ((instr >> 14) & 0xF) as u8;
    let rd = match Reg::from_code(f1) {
        Some(g) => g,
        None => {
            return Err(DecodeErr::Rd(f1));
        },
    };
    let rs = match Reg::from_code(f2) {
        Some(g) => g,
        None => {
            return Err(DecodeErr::Rs(f2));
        },
    };
    let rt = match Reg::from_code(f3) {
        Some(g) => g,
        None => {
            return Err(DecodeErr::Rt(f3));
        },
    };
    Ok((3, rd, rs, rt))
}

/// Decodes the signed 16-bit address offset of an A-shape word.
pub fn addr(instr: u32) -> (r: (u16, i16))
    ensures
        r.0 == 3,
        unsigned16(r.1) == spec_field_addr(instr),
{
    proof {
        lemma_decode_field_bounds(instr);
    }
    let raw = ((instr >> 10) & 0xFFFF) as u16;
    (3, s16::from_u16(raw).as_i16())
}

/// Decodes the register and signed 16-bit immediate of an RI-shape word.
pub fn reg_simm(instr: u32) -> (r: Result<(u16, Reg, i16), DecodeErr>)
    ensures
        r matches Ok(v) ==> v.0 == 4 && Some(v.1) == spec_reg_from_code(spec_field_reg1(instr))
            && unsigned16(v.2) == spec_field_imm16(instr),
        r is Ok,
{
    proof {
        lemma_decode_field_bounds(instr);
    }
    let f1 = ((instr >> 22) & 0xF) as u8;
    let rd = match Reg::from_code(f1) {
        Some(g) => g,
        None => {
            return Err(DecodeErr::Rd(f1));
        },
    };
    let raw = ((instr >> 6) & 0xFFFF) as u16;
    Ok((4, rd, s16::from_u16(raw).as_i16()))
}

/// Decodes the two registers and signed 10-bit immediate of an RRI-shape word.
pub fn reg_reg_simm(instr: u32) -> (r: Result<(u16, Reg, Reg, i16), DecodeErr>)
    ensures
        r matches Ok(v) ==> v.0 == 3 && Some(v.1) == spec_reg_from_code(spec_field_reg1(instr))
            && Some(v.2) == spec_reg_from_code(spec_field_reg2(instr)) && unsigned16(v.3)
            == sext10_bits(spec_field_rri_imm10(instr)),
        r is Ok,
{
    proof {
        lemma_decode_field_bounds(instr);
    }
    let f1 = ((instr >> 22) & 0xF) as u8;
    let f2 = ((instr >> 18) & 0xF) as u8;
    let rd = match Reg::from_code(f1) {
        Some(g) => g,
        None => {
            return Err(DecodeErr::Rd(f1));
        },
    };
    let rs = match Reg::from_code(f2) {
        Some(g) => g,
        None => {
            return Err(DecodeErr::Rs(f2));
        },
    };
    let f = ((instr >> 8) & 0x3FF) as u16;
    Ok((3, rd, rs, sign_extend_10(f)))
}

/// Decodes a signed 16-bit immediate in the position right after the opcode.
pub fn simm16(instr: u32) -> (r: (u16, i16))
    ensures
        r.0 == 3,
        unsigned16(r.1) == spec_field_imm16(instr),
{
    proof {
        lemma_decode_field_bounds(instr);
    }
    let raw = ((instr >> 6) & 0xFFFF) as u16;
    (3, s16::from_u16(raw).as_i16())
}

/// The instruction that a 32-bit word decodes to: the opcode selects the
/// shape, the shape selects the operand fields.
pub open spec fn spec_from_bits(ir: u32) -> Result<Instr, DecodeErr> {
    let c = spec_opcode_of(ir);
    if spec_op_from_code(c) is Some {
        Ok(Instr::O { opcode: spec_op_from_code(c)->0 })
    } else if spec_addr_from_code(c) is Some {
        Ok(
            Instr::A {
                opcode: spec_addr_from_code(c)->0,
                offset: (s16 { bits: spec_field_addr(ir) }),
            },
        )
    } else if spec_imm_from_code(c) is Some {
        Ok(
            Instr::I {
                opcode: spec_imm_from_code(c)->0,
                imm10: (s16 { bits: spec_field_imm10(ir) }),
            },
        )
    } else if spec_r_from_code(c) is Some {
        Ok(
            Instr::R {
                opcode: spec_r_from_code(c)->0,
                reg: spec_reg_from_code(spec_field_reg1(ir))->0,
            },
        )
    } else if spec_ri_from_code(c) is Some {
        Ok(
            Instr::RI {
                opcode: spec_ri_from_code(c)->0,
                reg: spec_reg_from_code(spec_field_reg1(ir))->0,
                imm: (s16 { bits: spec_field_imm16(ir) }),
            },
        )
    } else if spec_rr_from_code(c) is Some {
        Ok(
            Instr::RR {
                opcode: spec_rr_from_code(c)->0,
                reg1: spec_reg_from_code(spec_field_reg1(ir))->0,
                reg2: spec_reg_from_code(spec_field_reg2(ir))->0,
            },
        )
    } else if spec_rrr_from_code(c) is Some {
        Ok(
            Instr::RRR {
                opcode: spec_rrr_from_code(c)->0,
                reg1: spec_reg_from_code(spec_field_reg1(ir))->0,
                reg2: spec_reg_from_code(spec_field_reg2(ir))->0,
                reg3: spec_reg_from_code(spec_field_reg3(ir))->0,
            },
        )
    } else if spec_rri_from_code(c) is Some {
        Ok(
            Instr::RRI {
                opcode: spec_rri_from_code(c)->0,
                reg1: spec_reg_from_code(spec_field_reg1(ir))->0,
                reg2: spec_reg_from_code(spec_field_reg2(ir))->0,
                imm10: (s16 { bits: sext10_bits(spec_field_rri_imm10(ir)) }),
            },
        )
    } else {
        Err(DecodeErr::Opcode(c))
    }
}

impl Instr {
    /// Decodes a 32-bit instruction word; fails exactly when no opcode shape
    /// claims the opcode field.
    pub fn from_bits(ir: u32) -> (r: Result<Instr, DecodeErr>)
        ensures
            r == spec_from_bits(ir),
            r is Ok <==> spec_from_bits(ir) is Ok,
    {
        proof {
            lemma_decode_field_bounds(ir);
        }
        let opcode = (ir >> 26) as u8;

        if let Some(op) = OpcodeOp::from_code(opcode) {
            return Ok(Instr::O { opcode: op });
        }
        if let Some(op) = OpcodeAddr::from_code(opcode) {
            let (_size, offset) = addr(ir);
            return Ok(Instr::A { opcode: op, offset: s16::from_i16(offset) });
        }
        if let Some(op) = OpcodeImm::from_code(opcode) {
            let (_size, val) = imm10(ir);
            return Ok(Instr::I { opcode: op, imm10: s16::from_u16(val) });
        }
        if let Some(op) = OpcodeReg::from_code(opcode) {
            let (_size, g) = reg(ir)?;
            return Ok(Instr::R { opcode: op, reg: g });
        }
        if let Some(op) = OpcodeRegImm::from_code(opcode) {
            let (_size, g, imm) = reg_simm(ir)?;
            return Ok(Instr::RI { opcode: op, reg: g, imm: s16::from_i16(imm) });
        }
        if let Some(op) = OpcodeRegReg::from_code(opcode) {
            let (_size, g1, g2) = reg_reg(ir)?;
            return Ok(Instr::RR { opcode: op, reg1: g1, reg2: g2 });
        }
        if let Some(op) = OpcodeRegRegReg::from_code(opcode) {
            let (_size, g1, g2, g3) = reg_reg_reg(ir)?;
            return Ok(Instr::RRR { opcode: op, reg1: g1, reg2: g2, reg3: g3 });
        }
        if let Some(op) = OpcodeRegRegImm::from_code(opcode) {
            let (_size, g1, g2, imm) = reg_reg_simm(ir)?;
            return Ok(Instr::RRI { opcode: op, reg1: g1, reg2: g2, imm10: s16::from_i16(imm) });
        }

        Err(DecodeErr::Opcode(opcode))
    }
}

} // verus!
