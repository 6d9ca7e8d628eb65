//! Def/use analysis of single instructions: which storage locations an
//! instruction overwrites and which it reads.

use vstd::prelude::*;
use crate::instr::{Instr, OpcodeImm, OpcodeOp, OpcodeReg, OpcodeRegImm, OpcodeRegReg,
    OpcodeRegRegImm, OpcodeRegRegReg, OpcodeAddr};
use crate::regs::Reg;
use crate::stg_loc::StgLoc;
use crate::word::signed16;

verus! {

/// The caller-saved registers, as storage locations, in convention order: a
/// call may overwrite every one of them.
pub open spec fn spec_caller_saved() -> Seq<StgLoc> {
    seq![
        StgLoc::Reg(Reg::T0),
        StgLoc::Reg(Reg::T1),
        StgLoc::Reg(Reg::T2),
        StgLoc::Reg(Reg::A0),
        StgLoc::Reg(Reg::A1),
        StgLoc::Reg(Reg::A2),
        StgLoc::Reg(Reg::Rv),
        StgLoc::Reg(Reg::Ra),
    ]
}

/// Whether the analysis covers an instruction: multiply and divide write the
/// Hi/Lo registers, which storage locations do not model.
pub open spec fn spec_analysis_supported(i: Instr) -> bool {
    match i {
        Instr::RR { opcode, .. } => !(opcode == OpcodeRegReg::MUL || opcode == OpcodeRegReg::MULU
            || opcode == OpcodeRegReg::DIV || opcode == OpcodeRegReg::DIVU),
        _ => true,
    }
}

/// The storage locations an instruction overwrites.
pub open spec fn spec_defs(i: Instr) -> Seq<StgLoc> {
    match i {
        Instr::O { .. } => Seq::empty(),
        Instr::A { .. } => Seq::empty(),
        Instr::I { .. } => Seq::empty(),
        Instr::R { opcode, reg } => match opcode {
            OpcodeReg::JR => Seq::empty(),
            OpcodeReg::MVLO => seq![StgLoc::Reg(reg)],
            OpcodeReg::MVHI => seq![StgLoc::Reg(reg)],
        },
        Instr::RI { opcode, reg, .. } => match opcode {
            OpcodeRegImm::JAL => seq![StgLoc::Reg(reg)] + spec_caller_saved(),
            OpcodeRegImm::LI => seq![StgLoc::Reg(reg)],
            OpcodeRegImm::BT => Seq::empty(),
            OpcodeRegImm::BF => Seq::empty(),
        },
        Instr::RR { opcode, reg1, .. } => match opcode {
            OpcodeRegReg::JRAL => seq![StgLoc::Reg(reg1)] + spec_caller_saved(),
            OpcodeRegReg::MV | OpcodeRegReg::NOT | OpcodeRegReg::NEG | OpcodeRegReg::SEB
                | OpcodeRegReg::TEZ | OpcodeRegReg::TNZ => seq![StgLoc::Reg(reg1)],
            _ => Seq::empty(),
        },
        Instr::RRR { reg1, .. } => seq![StgLoc::Reg(reg1)],
        Instr::RRI { opcode, reg1, imm10, .. } => match opcode {
            OpcodeRegRegImm::LW | OpcodeRegRegImm::LBS | OpcodeRegRegImm::LBU => seq![
                StgLoc::Reg(reg1),
            ],
            OpcodeRegRegImm::SW | OpcodeRegRegImm::SB => {
                if reg1 == Reg::Sp {
                    seq![
                        (StgLoc::StackVar { simm10_offset: signed16(imm10.bits) as i16 }),
                    ]
                } else if reg1 == Reg::Gp {
                    seq![
                        (StgLoc::GlobalVar { simm10_offset: signed16(imm10.bits) as i16 }),
                    ]
                } else {
                    Seq::empty()
                }
            },
            _ => seq![StgLoc::Reg(reg1)],
        },
    }
}

/// The storage locations an instruction reads.
pub open spec fn spec_uses(i: Instr) -> Seq<StgLoc> {
    match i {
        Instr::O { .. } => Seq::empty(),
        Instr::A { .. } => Seq::empty(),
        Instr::I { .. } => Seq::empty(),
        Instr::R { opcode, reg } => match opcode {
            OpcodeReg::JR => seq![StgLoc::Reg(reg)],
            OpcodeReg::MVLO => Seq::empty(),
            OpcodeReg::MVHI => Seq::empty(),
        },
        Instr::RI { opcode, reg, .. } => match opcode {
            OpcodeRegImm::JAL => Seq::empty(),
            OpcodeRegImm::LI => Seq::empty(),
            OpcodeRegImm::BT => seq![StgLoc::Reg(reg)],
            OpcodeRegImm::BF => seq![StgLoc::Reg(reg)],
        },
        Instr::RR { opcode, reg2, .. } => match opcode {
            OpcodeRegReg::JRAL => seq![StgLoc::Reg(reg2)],
            OpcodeRegReg::MV | OpcodeRegReg::NOT | OpcodeRegReg::NEG | OpcodeRegReg::SEB
                | OpcodeRegReg::TEZ | OpcodeRegReg::TNZ => seq![StgLoc::Reg(reg2)],
            _ => Seq::empty(),
        },
        Instr::RRR { reg2, reg3, .. } => seq![StgLoc::Reg(reg2), StgLoc::Reg(reg3)],
        Instr::RRI { opcode, reg1, reg2, imm10 } => match opcode {
            OpcodeRegRegImm::LW | OpcodeRegRegImm::LBS | OpcodeRegRegImm::LBU => {
                if reg2 == Reg::Sp {
                    seq![
                        StgLoc::Reg(reg2),
                        (StgLoc::StackVar { simm10_offset: signed16(imm10.bits) as i16 }),
                    ]
                } else if reg2 == Reg::Gp {
                    seq![
                        StgLoc::Reg(reg2),
                        (StgLoc::GlobalVar { simm10_offset: signed16(imm10.bits) as i16 }),
                    ]
                } else {
                    seq![StgLoc::Reg(reg2)]
                }
            },
            OpcodeRegRegImm::SW | OpcodeRegRegImm::SB => seq![
                StgLoc::Reg(reg1),
                StgLoc::Reg(reg2),
            ],
            _ => seq![StgLoc::Reg(reg2)],
        },
    }
}

impl Instr {
    /// Appends to `defs` the storage locations this instruction would
    /// overwrite and to `uses` those it would need to read. The jumps that
    /// link treat every caller-saved register as overwritten.
    pub fn defs_and_uses(&self, defs: &mut Vec<StgLoc>, uses: &mut Vec<StgLoc>)
        requires
            spec_analysis_supported(*self),
        ensures
            final(defs)@ == old(defs)@ + spec_defs(*self),
            final(uses)@ == old(uses)@ + spec_uses(*self),
    {
        match *self {
            Instr::O { .. } => {},
            Instr::A { opcode: OpcodeAddr::J, .. } => {},
            Instr::I { opcode: OpcodeImm::EXN, .. } => {},
            Instr::I { opcode: OpcodeImm::KCALL, .. } => {},
            Instr::R { opcode, reg } => match opcode {
                OpcodeReg::JR => uses.push(StgLoc::Reg(reg)),
                OpcodeReg::MVLO => defs.push(StgLoc::Reg(reg)),
                OpcodeReg::MVHI => defs.push(StgLoc::Reg(reg)),
            },
            Instr::RI { opcode, reg, .. } => match opcode {
                OpcodeRegImm::JAL => {
                    defs.push(StgLoc::Reg(reg));
                    defs.push(StgLoc::Reg(Reg::T0));
                    defs.push(StgLoc::Reg(Reg::T1));
                    defs.push(StgLoc::Reg(Reg::T2));
                    defs.push(StgLoc::Reg(Reg::A0));
                    defs.push(StgLoc::Reg(Reg::A1));
                    defs.push(StgLoc::Reg(Reg::A2));
                    defs.push(StgLoc::Reg(Reg::Rv));
                    defs.push(StgLoc::Reg(Reg::Ra));
                    proof {
                        assert(defs@ =~= old(defs)@ + spec_defs(*self));
                    }
                },
                OpcodeRegImm::LI => defs.push(StgLoc::Reg(reg)),
                OpcodeRegImm::BT => uses.push(StgLoc::Reg(reg)),
                OpcodeRegImm::BF => uses.push(StgLoc::Reg(reg)),
            },
            Instr::RR { opcode, reg1, reg2 } => match opcode {
                OpcodeRegReg::JRAL => {
                    defs.push(StgLoc::Reg(reg1));
                    defs.push(StgLoc::Reg(Reg::T0));
                    defs.push(StgLoc::Reg(Reg::T1));
                    defs.push(StgLoc::Reg(Reg::T2));
                    defs.push(StgLoc::Reg(Reg::A0));
                    defs.push(StgLoc::Reg(Reg::A1));
                    defs.push(StgLoc::Reg(Reg::A2));
                    defs.push(StgLoc::Reg(Reg::Rv));
                    defs.push(StgLoc::Reg(Reg::Ra));
                    uses.push(StgLoc::Reg(reg2));
                    proof {
                        assert(defs@ =~= old(defs)@ + spec_defs(*self));
                        assert(uses@ =~= old(uses)@ + spec_uses(*self));
                    }
                },
                OpcodeRegReg::MV | OpcodeRegReg::NOT | OpcodeRegReg::NEG | OpcodeRegReg::SEB
                    | OpcodeRegReg::TEZ | OpcodeRegReg::TNZ => {
                    defs.push(StgLoc::Reg(reg1));
                    uses.push(StgLoc::Reg(reg2));
                },
                _ => {},
            },
            Instr::RRR { reg1, reg2, reg3, .. } => {
                defs.push(StgLoc::Reg(reg1));
                uses.push(StgLoc::Reg(reg2));
                uses.push(StgLoc::Reg(reg3));
                proof {
                    assert(uses@ =~= old(uses)@ + spec_uses(*self));
                }
            },
            Instr::RRI { opcode, reg1, reg2, imm10 } => match opcode {
                OpcodeRegRegImm::LW | OpcodeRegRegImm::LBS | OpcodeRegRegImm::LBU => {
                    defs.push(StgLoc::Reg(reg1));
                    uses.push(StgLoc::Reg(reg2));
                    if matches!(reg2, Reg::Sp) {
                        uses.push(StgLoc::stack_var(imm10.as_i16()));
                    } else if matches!(reg2, Reg::Gp) {
                        uses.push(StgLoc::global_var(imm10.as_i16()));
                    }
                    proof {
                        assert(uses@ =~= old(uses)@ + spec_uses(*self));
                    }
                },
                OpcodeRegRegImm::SW | OpcodeRegRegImm::SB => {
                    uses.push(StgLoc::Reg(reg1));
                    uses.push(StgLoc::Reg(reg2));
                    if matches!(reg1, Reg::Sp) {
                        defs.push(StgLoc::stack_var(imm10.as_i16()));
                    } else if matches!(reg1, Reg::Gp) {
                        defs.push(StgLoc::global_var(imm10.as_i16()));
                    }
                    proof {
                        assert(defs@ =~= old(defs)@ + spec_defs(*self));
                        assert(uses@ =~= old(uses)@ + spec_uses(*self));
                    }
                },
                _ => {
                    defs.push(StgLoc::Reg(reg1));
                    uses.push(StgLoc::Reg(reg2));
                },
            },
        }
        proof {
            assert(defs@ =~= old(defs)@ + spec_defs(*self));
            assert(uses@ =~= old(uses)@ + spec_uses(*self));
        }
    }
}

} // verus!
