//! The execution engine: one decode-and-execute step, specified opcode by
//! opcode as a relation between the machine before and after the step.

use vstd::prelude::*;
use vstd::string::StringExecFns;
use crate::cpu::{ArgStyle, Cpu, InstrArg, LogMsg, Signal};
use crate::decode::{spec_from_bits, DecodeErr};
use crate::instr::{
    spec_instr_size, Instr, OpcodeAddr, OpcodeImm, OpcodeOp, OpcodeReg, OpcodeRegImm, OpcodeRegReg,
    OpcodeRegRegImm, OpcodeRegRegReg,
};
use crate::mem::{MemErr, MemModel};
use crate::regs::Reg;
use crate::word::{signed16, s16};

verus! {

broadcast use crate::regs::lemma_zero_reg_reads_zero;

/// A reason a step cannot complete.
#[derive(Clone, Copy, Debug, PartialEq, Eq, Structural)]
pub enum DexErr {
    /// The instruction word does not decode.
    RegDecodeError(DecodeErr),
    /// An opcode no shape claims.
    InvalidOpcode(u8),
    /// A memory access the machine cannot perform.
    Mem(MemErr),
    /// A reserved instruction.
    Unimplemented,
    /// A reserved exception code.
    UnimplementedExn(u16),
}

/// Exception code: illegal instruction.
pub const EXN_ILLEGAL_INSTR: u16 = 0x0000;

/// Exception code: debug breakpoint, with the source line in `a0`.
pub const EXN_DEBUG_BREAKPOINT: u16 = 0x0001;

/// Exception code: division by zero.
pub const EXN_DIV_BY_ZERO: u16 = 0x0002;

/// Exception code: emit the `a1` bytes at `a0` as a DebugPuts log.
pub const EXN_DEBUG_PUTS: u16 = 0x0003;

/// Reduction of an integer to a 16-bit word, modulo 2^16.
pub open spec fn wrap16(x: int) -> u16 {
    (x % 0x10000) as u16
}

/// A boolean as the word 1 or 0.
pub open spec fn b2u(b: bool) -> u16 {
    if b {
        1
    } else {
        0
    }
}

/// The low byte of a word, sign-extended to 16 bits.
pub open spec fn seb16(x: u16) -> u16 {
    if x % 256 < 128 {
        x % 256
    } else {
        (x % 256 + 0xFF00) as u16
    }
}

/// Logical left shift; a shift of 16 or more clears the word.
pub open spec fn shl16(x: u16, sh: u16) -> u16 {
    if sh >= 16 {
        0
    } else {
        x << sh
    }
}

/// Logical right shift; a shift of 16 or more clears the word.
pub open spec fn shr16(x: u16, sh: u16) -> u16 {
    if sh >= 16 {
        0
    } else {
        x >> sh
    }
}

/// Arithmetic right shift: the sign bit is shifted into the most significant
/// bits.
pub open spec fn shra16(x: u16, sh: u16) -> u16 {
    if sh >= 16 {
        if x >= 0x8000 {
            0xFFFF
        } else {
            0
        }
    } else if x >= 0x8000 {
        ((((x as u32) | 0xFFFF0000u32) >> (sh as u32)) & 0xFFFF) as u16
    } else {
        x >> sh
    }
}

/// The absolute value.
pub open spec fn iabs(x: int) -> int {
    if x < 0 {
        -x
    } else {
        x
    }
}

/// Truncated division: the magnitude quotient, negative when the operands'
/// signs differ.
pub open spec fn tdiv16(a: int, b: int) -> int {
    if (a < 0) != (b < 0) {
        -(iabs(a) / iabs(b))
    } else {
        iabs(a) / iabs(b)
    }
}

/// The remainder of truncated division, carrying the dividend's sign.
pub open spec fn trem16(a: int, b: int) -> int {
    if a < 0 {
        -(iabs(a) % iabs(b))
    } else {
        iabs(a) % iabs(b)
    }
}

/// Modular reduction agrees with one wraparound on either side.
pub proof fn lemma_wrap16(x: int)
    requires
        -0x10000 <= x < 0x20000,
    ensures
        wrap16(x) == (if x < 0 {
            x + 0x10000
        } else if x > 0xFFFF {
            x - 0x10000
        } else {
            x
        }),
{
}

/// Adding to a wrapped value wraps the same as adding to the raw value.
pub proof fn lemma_wrap16_shift(x: int, y: int)
    requires
        0 <= x,
        0 <= y,
    ensures
        wrap16(x + y) == wrap16(wrap16(x) + y),
{
    vstd::arithmetic::div_mod::lemma_add_mod_noop(x, y, 0x10000);
    vstd::arithmetic::div_mod::lemma_add_mod_noop(x % 0x10000, y, 0x10000);
    assert((x % 0x10000) % 0x10000 == x % 0x10000);
}

/// The mnemonic the engine logs for an instruction.
pub open spec fn spec_log_name(i: Instr) -> Seq<char> {
    match i {
        Instr::O { opcode } => match opcode {
            OpcodeOp::HALT => "halt"@,
            OpcodeOp::NOP => "nop"@,
            OpcodeOp::KRET => "kret"@,
            OpcodeOp::INRE => "inre"@,
            OpcodeOp::INRD => "inrd"@,
        },
        Instr::A { .. } => "j"@,
        Instr::I { opcode, .. } => match opcode {
            OpcodeImm::EXN => "exn"@,
            OpcodeImm::KCALL => "kcall"@,
        },
        Instr::R { opcode, .. } => match opcode {
            OpcodeReg::JR => "jr"@,
            OpcodeReg::MVLO => "mvlo"@,
            OpcodeReg::MVHI => "mvhi"@,
        },
        Instr::RI { opcode, .. } => match opcode {
            OpcodeRegImm::JAL => "jal"@,
            OpcodeRegImm::BT => "bt"@,
            OpcodeRegImm::BF => "bf"@,
            OpcodeRegImm::LI => "li"@,
        },
        Instr::RR { opcode, .. } => match opcode {
            OpcodeRegReg::JRAL => "jral"@,
            OpcodeRegReg::MV => "mv"@,
            OpcodeRegReg::MUL => "mul"@,
            OpcodeRegReg::DIV => "div"@,
            OpcodeRegReg::NOT => "not"@,
            OpcodeRegReg::NEG => "neg"@,
            OpcodeRegReg::MULU => "mulu"@,
            OpcodeRegReg::DIVU => "divu"@,
            OpcodeRegReg::SEB => "seb"@,
            OpcodeRegReg::TEZ => "tez"@,
            OpcodeRegReg::TNZ => "tnz"@,
        },
        Instr::RRR { opcode, .. } => match opcode {
            OpcodeRegRegReg::ADD => "add"@,
            OpcodeRegRegReg::SUB => "sub"@,
            OpcodeRegRegReg::OR => "or"@,
            OpcodeRegRegReg::XOR => "xor"@,
            OpcodeRegRegReg::AND => "and"@,
            OpcodeRegRegReg::ADDU => "addu"@,
            OpcodeRegRegReg::SUBU => "subu"@,
            OpcodeRegRegReg::SHL => "shl"@,
            OpcodeRegRegReg::SHR => "shr"@,
            OpcodeRegRegReg::SHRA => "shra"@,
            OpcodeRegRegReg::TLT => "tlt"@,
            OpcodeRegRegReg::TGE => "tge"@,
            OpcodeRegRegReg::TEQ => "teq"@,
            OpcodeRegRegReg::TNE => "tne"@,
            OpcodeRegRegReg::TLTU => "tltu"@,
            OpcodeRegRegReg::TGEU => "tgeu"@,
        },
        Instr::RRI { opcode, .. } => match opcode {
            OpcodeRegRegImm::LW => "lw"@,
            OpcodeRegRegImm::LBS => "lbs"@,
            OpcodeRegRegImm::LBU => "lbu"@,
            OpcodeRegRegImm::SW => "sw"@,
            OpcodeRegRegImm::SB => "sb"@,
            OpcodeRegRegImm::ADDI => "addi"@,
            OpcodeRegRegImm::SUBI => "subi"@,
            OpcodeRegRegImm::ORI => "ori"@,
            OpcodeRegRegImm::XORI => "xori"@,
            OpcodeRegRegImm::ANDI => "andi"@,
        },
    }
}

/// The operand list the engine logs for an instruction: register operands are
/// marked for register-style rendering; loads put the offset between the
/// registers, stores put it first, immediate arithmetic puts it last.
pub open spec fn spec_log_args(i: Instr) -> Seq<(Option<ArgStyle>, InstrArg)> {
    match i {
        Instr::O { .. } => Seq::empty(),
        Instr::A { offset, .. } => seq![(None, InstrArg::Imm(offset))],
        Instr::I { imm10, .. } => seq![(None, InstrArg::Imm(imm10))],
        Instr::R { reg, .. } => seq![(Some(ArgStyle::Reg), InstrArg::Reg(reg))],
        Instr::RI { reg, imm, .. } => seq![
            (Some(ArgStyle::Reg), InstrArg::Reg(reg)),
            (None, InstrArg::Imm(imm)),
        ],
        Instr::RR { reg1, reg2, .. } => seq![
            (Some(ArgStyle::Reg), InstrArg::Reg(reg1)),
            (Some(ArgStyle::Reg), InstrArg::Reg(reg2)),
        ],
        Instr::RRR { reg1, reg2, reg3, .. } => seq![
            (Some(ArgStyle::Reg), InstrArg::Reg(reg1)),
            (Some(ArgStyle::Reg), InstrArg::Reg(reg2)),
            (Some(ArgStyle::Reg), InstrArg::Reg(reg3)),
        ],
        Instr::RRI { opcode, reg1, reg2, imm10 } => match opcode {
            OpcodeRegRegImm::LW | OpcodeRegRegImm::LBS | OpcodeRegRegImm::LBU => seq![
                (Some(ArgStyle::Reg), InstrArg::Reg(reg1)),
                (None, InstrArg::Imm(imm10)),
                (Some(ArgStyle::Reg), InstrArg::Reg(reg2)),
            ],
            OpcodeRegRegImm::SW | OpcodeRegRegImm::SB => seq![
                (None, InstrArg::Imm(imm10)),
                (Some(ArgStyle::Reg), InstrArg::Reg(reg1)),
                (Some(ArgStyle::Reg), InstrArg::Reg(reg2)),
            ],
            _ => seq![
                (Some(ArgStyle::Reg), InstrArg::Reg(reg1)),
                (Some(ArgStyle::Reg), InstrArg::Reg(reg2)),
                (None, InstrArg::Imm(imm10)),
            ],
        },
    }
}

/// Whether `s` is the log event the engine emits for instruction `i`.
pub open spec fn is_instr_log(s: Signal, i: Instr) -> bool {
    match s {
        Signal::Log(m) => match m {
            LogMsg::Instr { size, name, args } => {
                &&& size == spec_instr_size(i)
                &&& name@ == spec_log_name(i)
                &&& args@ == spec_log_args(i)
            },
            _ => false,
        },
        _ => false,
    }
}

/// Whether `s` is an error log event with the given message.
pub open spec fn is_error_log(s: Signal, msg: Seq<char>) -> bool {
    match s {
        Signal::Log(m) => match m {
            LogMsg::Error(e) => e@ == msg,
            _ => false,
        },
        _ => false,
    }
}

/// Whether `s` reports the `len` bytes at `base` as a DebugPuts event.
pub open spec fn is_debug_puts(s: Signal, base: u16, bytes: Seq<u8>) -> bool {
    match s {
        Signal::Log(m) => match m {
            LogMsg::DebugPuts { addr, value } => addr == base && value@ == bytes,
            _ => false,
        },
        _ => false,
    }
}

/// The signal queue grew by one element, the old queue staying its prefix.
pub open spec fn appended1(pre: Seq<Signal>, post: Seq<Signal>) -> bool {
    &&& post.len() == pre.len() + 1
    &&& post.subrange(0, pre.len() as int) == pre
}

/// The signal queue grew by two elements, the old queue staying its prefix.
pub open spec fn appended2(pre: Seq<Signal>, post: Seq<Signal>) -> bool {
    &&& post.len() == pre.len() + 2
    &&& post.subrange(0, pre.len() as int) == pre
}

/// The signal queue grew by the instruction's log event alone.
pub open spec fn logged1(pre: Seq<Signal>, post: Seq<Signal>, i: Instr) -> bool {
    &&& appended1(pre, post)
    &&& is_instr_log(post[pre.len() as int], i)
}

/// The signal queue grew by the instruction's log event and one more signal.
pub open spec fn logged2(pre: Seq<Signal>, post: Seq<Signal>, i: Instr) -> bool {
    &&& appended2(pre, post)
    &&& is_instr_log(post[pre.len() as int], i)
}

/// Pushing preserves the prefix.
pub proof fn lemma_push_appended1(s: Seq<Signal>, x: Signal)
    ensures
        appended1(s, s.push(x)),
        s.push(x)[s.len() as int] == x,
{
    assert(s.push(x).subrange(0, s.len() as int) =~= s);
}

/// Two single appends make a double append.
pub proof fn lemma_appended1_trans(s0: Seq<Signal>, s1: Seq<Signal>, s2: Seq<Signal>)
    requires
        appended1(s0, s1),
        appended1(s1, s2),
    ensures
        appended2(s0, s2),
        s2[s0.len() as int] == s1[s0.len() as int],
        s2.last() == s1.push(s2.last()).last(),
{
    assert(s2.subrange(0, s0.len() as int) =~= s0);
    assert(s2[s0.len() as int] == s2.subrange(0, s1.len() as int)[s0.len() as int]);
}

/// What every instruction leaves alone.
pub open spec fn instr_frame(pre: Cpu, post: Cpu) -> bool {
    &&& post.ir == pre.ir
    &&& post.interrupt_return_address == pre.interrupt_return_address
    &&& post.in_debug_mode == pre.in_debug_mode
    &&& post.breakpoints == pre.breakpoints
    &&& post.rom_src_path == pre.rom_src_path
    &&& post.regs.wf() == pre.regs.wf()
    &&& post.mem.wf() == pre.mem.wf()
}

/// No register changed.
pub open spec fn regs_unchanged(pre: Cpu, post: Cpu) -> bool {
    forall|g: Reg| post.reg_val(g) == pre.reg_val(g)
}

/// Register `rd` was written with `v` — which leaves `zero` at zero — and no
/// other register changed.
pub open spec fn sets_reg(pre: Cpu, post: Cpu, rd: Reg, v: u16) -> bool {
    &&& post.reg_val(rd) == (if rd == Reg::Zero {
        0
    } else {
        v
    })
    &&& forall|g: Reg| g != rd ==> post.reg_val(g) == pre.reg_val(g)
}

/// Hi, Lo and memory did not change.
pub open spec fn hilo_mem_unchanged(pre: Cpu, post: Cpu) -> bool {
    &&& post.hi == pre.hi
    &&& post.lo == pre.lo
    &&& post.mem == pre.mem
}

/// The step relation for O-shape instructions.
pub open spec fn o_rel(pre: Cpu, post: Cpu, op: OpcodeOp, r: Result<(), DexErr>) -> bool {
    let i = Instr::O { opcode: op };
    &&& instr_frame(pre, post)
    &&& hilo_mem_unchanged(pre, post)
    &&& regs_unchanged(pre, post)
    &&& r is Ok
    &&& match op {
        OpcodeOp::HALT => {
            &&& post.pc == pre.pc
            &&& post.interrupts_enabled == pre.interrupts_enabled
            &&& logged2(pre.signals@, post.signals@, i)
            &&& post.signals@.last() == Signal::Halt
        },
        OpcodeOp::NOP => {
            &&& post.pc == wrap16(pre.pc + 1)
            &&& post.interrupts_enabled == pre.interrupts_enabled
            &&& logged1(pre.signals@, post.signals@, i)
        },
        OpcodeOp::KRET => {
            &&& post.pc == pre.reg_val(Reg::K0)
            &&& post.interrupts_enabled
            &&& logged1(pre.signals@, post.signals@, i)
        },
        OpcodeOp::INRE => {
            &&& post.pc == wrap16(pre.pc + 1)
            &&& post.interrupts_enabled
            &&& logged1(pre.signals@, post.signals@, i)
        },
        OpcodeOp::INRD => {
            &&& post.pc == wrap16(pre.pc + 1)
            &&& !post.interrupts_enabled
            &&& logged1(pre.signals@, post.signals@, i)
        },
    }
}

/// The step relation for the A-shape instruction `J`: a PC-relative jump
/// whose target must stay a 16-bit address.
pub open spec fn a_rel(pre: Cpu, post: Cpu, offset: s16, r: Result<(), DexErr>) -> bool {
    let i = Instr::A { opcode: OpcodeAddr::J, offset };
    let t = pre.pc + signed16(offset.bits);
    &&& instr_frame(pre, post)
    &&& hilo_mem_unchanged(pre, post)
    &&& regs_unchanged(pre, post)
    &&& post.interrupts_enabled == pre.interrupts_enabled
    &&& logged1(pre.signals@, post.signals@, i)
    &&& if 0 <= t <= 0xFFFF {
        post.pc == t && r is Ok
    } else {
        post.pc == pre.pc && r == Err::<(), DexErr>(DexErr::Mem(MemErr::AddressOverflow))
    }
}

/// Whether `len` bytes starting at `base` can all be read.
pub open spec fn puts_readable(base: u16, len: int) -> bool {
    len == 0 || (128 <= base && base + len <= 0x10000)
}

/// The `len` bytes starting at `base`.
pub open spec fn puts_bytes(m: MemModel, base: u16, len: int) -> Seq<u8> {
    Seq::new(len as nat, |k: int| m.byte((base + k) as u16))
}

/// The number of bytes an `EXN` DEBUG_PUTS reads: the signed reading of `a1`,
/// or none when it is negative.
pub open spec fn puts_len(pre: Cpu) -> int {
    let n = signed16(pre.reg_val(Reg::A1));
    if n > 0 {
        n
    } else {
        0
    }
}

/// What dispatching exception `code` does, beyond the machine state staying
/// as it is: each code appends its signal.
pub open spec fn exn_rel(pre: Cpu, post: Cpu, code: u16, r: Result<(), DexErr>) -> bool {
    &&& post.pc == pre.pc
    &&& post.ir == pre.ir
    &&& post.hi == pre.hi
    &&& post.lo == pre.lo
    &&& post.mem == pre.mem
    &&& post.regs == pre.regs
    &&& post.interrupts_enabled == pre.interrupts_enabled
    &&& post.interrupt_return_address == pre.interrupt_return_address
    &&& post.in_debug_mode == pre.in_debug_mode
    &&& post.breakpoints == pre.breakpoints
    &&& post.rom_src_path == pre.rom_src_path
    &&& if code == EXN_ILLEGAL_INSTR {
        post.signals@ == pre.signals@.push(Signal::IllegalInstr) && r is Ok
    } else if code == EXN_DEBUG_BREAKPOINT {
        post.signals@ == pre.signals@.push(Signal::Breakpoint) && r is Ok
    } else if code == EXN_DIV_BY_ZERO {
        &&& appended1(pre.signals@, post.signals@)
        &&& is_error_log(post.signals@.last(), "division by zero"@)
        &&& r is Ok
    } else if code == EXN_DEBUG_PUTS {
        let base = pre.reg_val(Reg::A0);
        let len = puts_len(pre);
        if puts_readable(base, len) {
            &&& appended1(pre.signals@, post.signals@)
            &&& is_debug_puts(post.signals@.last(), base, puts_bytes(pre.mem.model(), base, len))
            &&& r is Ok
        } else {
            post.signals@ == pre.signals@ && (r matches Err(DexErr::Mem(_)))
        }
    } else {
        post.signals@ == pre.signals@ && r == Err::<(), DexErr>(DexErr::UnimplementedExn(code))
    }
}

/// The step relation for I-shape instructions.
pub open spec fn i_rel(pre: Cpu, post: Cpu, op: OpcodeImm, imm10: s16, r: Result<
    (),
    DexErr,
>) -> bool {
    let i = Instr::I { opcode: op, imm10 };
    match op {
        OpcodeImm::KCALL => post == pre && r == Err::<(), DexErr>(DexErr::Unimplemented),
        OpcodeImm::EXN => {
            let code = imm10.bits;
            &&& instr_frame(pre, post)
            &&& hilo_mem_unchanged(pre, post)
            &&& regs_unchanged(pre, post)
            &&& post.interrupts_enabled == pre.interrupts_enabled
            &&& if code == EXN_ILLEGAL_INSTR {
                &&& logged2(pre.signals@, post.signals@, i)
                &&& post.signals@.last() == Signal::IllegalInstr
                &&& post.pc == wrap16(pre.pc + 2)
                &&& r is Ok
            } else if code == EXN_DEBUG_BREAKPOINT {
                &&& logged2(pre.signals@, post.signals@, i)
                &&& post.signals@.last() == Signal::Breakpoint
                &&& post.pc == wrap16(pre.pc + 2)
                &&& r is Ok
            } else if code == EXN_DIV_BY_ZERO {
                &&& logged2(pre.signals@, post.signals@, i)
                &&& is_error_log(post.signals@.last(), "division by zero"@)
                &&& post.pc == wrap16(pre.pc + 2)
                &&& r is Ok
            } else if code == EXN_DEBUG_PUTS {
                let base = pre.reg_val(Reg::A0);
                let len = puts_len(pre);
                if puts_readable(base, len) {
                    &&& logged2(pre.signals@, post.signals@, i)
                    &&& is_debug_puts(
                        post.signals@.last(),
                        base,
                        puts_bytes(pre.mem.model(), base, len),
                    )
                    &&& post.pc == wrap16(pre.pc + 2)
                    &&& r is Ok
                } else {
                    &&& logged1(pre.signals@, post.signals@, i)
                    &&& post.pc == pre.pc
                    &&& (r matches Err(DexErr::Mem(_)))
                }
            } else {
                &&& logged1(pre.signals@, post.signals@, i)
                &&& post.pc == pre.pc
                &&& r == Err::<(), DexErr>(DexErr::UnimplementedExn(code))
            }
        },
    }
}

/// The step relation for R-shape instructions.
pub open spec fn r_rel(pre: Cpu, post: Cpu, op: OpcodeReg, rg: Reg, r: Result<
    (),
    DexErr,
>) -> bool {
    let i = Instr::R { opcode: op, reg: rg };
    &&& instr_frame(pre, post)
    &&& hilo_mem_unchanged(pre, post)
    &&& post.interrupts_enabled == pre.interrupts_enabled
    &&& logged1(pre.signals@, post.signals@, i)
    &&& r is Ok
    &&& match op {
        OpcodeReg::JR => regs_unchanged(pre, post) && post.pc == pre.reg_val(rg),
        OpcodeReg::MVLO => sets_reg(pre, post, rg, pre.lo.bits) && post.pc == wrap16(pre.pc + 2),
        OpcodeReg::MVHI => sets_reg(pre, post, rg, pre.hi.bits) && post.pc == wrap16(pre.pc + 2),
    }
}

/// The step relation for RI-shape instructions.
pub open spec fn ri_rel(pre: Cpu, post: Cpu, op: OpcodeRegImm, rg: Reg, imm: s16, r: Result<
    (),
    DexErr,
>) -> bool {
    let i = Instr::RI { opcode: op, reg: rg, imm };
    &&& instr_frame(pre, post)
    &&& hilo_mem_unchanged(pre, post)
    &&& post.interrupts_enabled == pre.interrupts_enabled
    &&& logged1(pre.signals@, post.signals@, i)
    &&& match op {
        OpcodeRegImm::JAL => {
            let t = pre.pc + signed16(imm.bits);
            &&& sets_reg(pre, post, rg, wrap16(pre.pc + 4))
            &&& if 0 <= t <= 0xFFFF {
                post.pc == t && r is Ok
            } else {
                post.pc == pre.pc && r == Err::<(), DexErr>(DexErr::Mem(MemErr::AddressOverflow))
            }
        },
        OpcodeRegImm::BT => {
            &&& regs_unchanged(pre, post)
            &&& post.pc == (if pre.reg_val(rg) != 0 {
                wrap16(pre.pc + signed16(imm.bits))
            } else {
                wrap16(pre.pc + 4)
            })
            &&& r is Ok
        },
        OpcodeRegImm::BF => {
            &&& regs_unchanged(pre, post)
            &&& post.pc == (if pre.reg_val(rg) == 0 {
                wrap16(pre.pc + signed16(imm.bits))
            } else {
                wrap16(pre.pc + 4)
            })
            &&& r is Ok
        },
        OpcodeRegImm::LI => {
            &&& sets_reg(pre, post, rg, imm.bits)
            &&& post.pc == wrap16(pre.pc + 4)
            &&& r is Ok
        },
    }
}

/// The step relation for RR-shape instructions.
pub open spec fn rr_rel(pre: Cpu, post: Cpu, op: OpcodeRegReg, r1: Reg, r2: Reg, r: Result<
    (),
    DexErr,
>) -> bool {
    let i = Instr::RR { opcode: op, reg1: r1, reg2: r2 };
    let x = pre.reg_val(r1);
    let y = pre.reg_val(r2);
    &&& instr_frame(pre, post)
    &&& post.mem == pre.mem
    &&& post.interrupts_enabled == pre.interrupts_enabled
    &&& r is Ok
    &&& match op {
        OpcodeRegReg::JRAL => {
            let link = wrap16(pre.pc + 2);
            &&& sets_reg(pre, post, r1, link)
            &&& post.pc == (if r1 == r2 && r1 != Reg::Zero {
                link
            } else {
                y
            })
            &&& post.hi == pre.hi && post.lo == pre.lo
            &&& logged1(pre.signals@, post.signals@, i)
        },
        OpcodeRegReg::MV => {
            &&& sets_reg(pre, post, r1, y)
            &&& post.pc == wrap16(pre.pc + 2)
            &&& post.hi == pre.hi && post.lo == pre.lo
            &&& logged1(pre.signals@, post.signals@, i)
        },
        OpcodeRegReg::MUL => {
            let p = signed16(x) * signed16(y);
            let pm = p % 0x100000000;
            &&& regs_unchanged(pre, post)
            &&& post.lo.bits == wrap16(p)
            &&& post.hi.bits == (pm / 0x10000) as u16
            &&& post.pc == wrap16(pre.pc + 2)
            &&& logged1(pre.signals@, post.signals@, i)
        },
        OpcodeRegReg::MULU => {
            let p = x * y;
            &&& regs_unchanged(pre, post)
            &&& post.lo.bits == wrap16(p)
            &&& post.hi.bits == (p / 0x10000) as u16
            &&& post.pc == wrap16(pre.pc + 2)
            &&& logged1(pre.signals@, post.signals@, i)
        },
        OpcodeRegReg::DIV => {
            let a = signed16(x);
            let b = signed16(y);
            &&& regs_unchanged(pre, post)
            &&& post.pc == wrap16(pre.pc + 2)
            &&& if b == 0 {
                &&& post.hi == pre.hi && post.lo == pre.lo
                &&& logged2(pre.signals@, post.signals@, i)
                &&& is_error_log(post.signals@.last(), "division by zero"@)
            } else {
                &&& post.lo.bits == wrap16(tdiv16(a, b))
                &&& post.hi.bits == wrap16(trem16(a, b))
                &&& logged1(pre.signals@, post.signals@, i)
            }
        },
        OpcodeRegReg::DIVU => {
            &&& regs_unchanged(pre, post)
            &&& post.pc == wrap16(pre.pc + 2)
            &&& if y == 0 {
                &&& post.hi == pre.hi && post.lo == pre.lo
                &&& logged2(pre.signals@, post.signals@, i)
                &&& is_error_log(post.signals@.last(), "division by zero"@)
            } else {
                &&& post.lo.bits == x / y
                &&& post.hi.bits == x % y
                &&& logged1(pre.signals@, post.signals@, i)
            }
        },
        OpcodeRegReg::NOT => {
            &&& sets_reg(pre, post, r1, b2u(y == 0))
            &&& post.pc == wrap16(pre.pc + 2)
            &&& post.hi == pre.hi && post.lo == pre.lo
            &&& logged1(pre.signals@, post.signals@, i)
        },
        OpcodeRegReg::NEG => {
            &&& sets_reg(pre, post, r1, wrap16(0 - y))
            &&& post.pc == wrap16(pre.pc + 2)
            &&& post.hi == pre.hi && post.lo == pre.lo
            &&& logged1(pre.signals@, post.signals@, i)
        },
        OpcodeRegReg::SEB => {
            &&& sets_reg(pre, post, r1, seb16(y))
            &&& post.pc == wrap16(pre.pc + 2)
            &&& post.hi == pre.hi && post.lo == pre.lo
            &&& logged1(pre.signals@, post.signals@, i)
        },
        OpcodeRegReg::TEZ => {
            &&& sets_reg(pre, post, r1, b2u(y == 0))
            &&& post.pc == wrap16(pre.pc + 2)
            &&& post.hi == pre.hi && post.lo == pre.lo
            &&& logged1(pre.signals@, post.signals@, i)
        },
        OpcodeRegReg::TNZ => {
            &&& sets_reg(pre, post, r1, b2u(y != 0))
            &&& post.pc == wrap16(pre.pc + 2)
            &&& post.hi == pre.hi && post.lo == pre.lo
            &&& logged1(pre.signals@, post.signals@, i)
        },
    }
}

/// The value an RRR-shape instruction writes to its destination register.
pub open spec fn rrr_value(op: OpcodeRegRegReg, x: u16, y: u16) -> u16 {
    match op {
        OpcodeRegRegReg::ADD => wrap16(x + y),
        OpcodeRegRegReg::SUB => wrap16(x - y),
        OpcodeRegRegReg::OR => x | y,
        OpcodeRegRegReg::XOR => x ^ y,
        OpcodeRegRegReg::AND => x & y,
        OpcodeRegRegReg::ADDU => wrap16(x + y),
        OpcodeRegRegReg::SUBU => wrap16(x - y),
        OpcodeRegRegReg::SHL => shl16(x, y),
        OpcodeRegRegReg::SHR => shr16(x, y),
        OpcodeRegRegReg::SHRA => shra16(x, y),
        OpcodeRegRegReg::TLT => b2u(signed16(x) < signed16(y)),
        OpcodeRegRegReg::TGE => b2u(signed16(x) >= signed16(y)),
        OpcodeRegRegReg::TEQ => b2u(x == y),
        OpcodeRegRegReg::TNE => b2u(x != y),
        OpcodeRegRegReg::TLTU => b2u(x < y),
        OpcodeRegRegReg::TGEU => b2u(x >= y),
    }
}

/// The step relation for RRR-shape instructions: rd receives a function of
/// rs and rt, and the PC advances by the instruction size.
pub open spec fn rrr_rel(
    pre: Cpu,
    post: Cpu,
    op: OpcodeRegRegReg,
    rd: Reg,
    rs: Reg,
    rt: Reg,
    r: Result<(), DexErr>,
) -> bool {
    let i = Instr::RRR { opcode: op, reg1: rd, reg2: rs, reg3: rt };
    &&& instr_frame(pre, post)
    &&& hilo_mem_unchanged(pre, post)
    &&& post.interrupts_enabled == pre.interrupts_enabled
    &&& logged1(pre.signals@, post.signals@, i)
    &&& r is Ok
    &&& sets_reg(pre, post, rd, rrr_value(op, pre.reg_val(rs), pre.reg_val(rt)))
    &&& post.pc == wrap16(pre.pc + 3)
}

/// The step relation for RRI-shape instructions.
pub open spec fn rri_rel(
    pre: Cpu,
    post: Cpu,
    op: OpcodeRegRegImm,
    r1: Reg,
    r2: Reg,
    imm10: s16,
    r: Result<(), DexErr>,
) -> bool {
    let i = Instr::RRI { opcode: op, reg1: r1, reg2: r2, imm10 };
    let off = signed16(imm10.bits);
    &&& instr_frame(pre, post)
    &&& post.hi == pre.hi && post.lo == pre.lo
    &&& post.interrupts_enabled == pre.interrupts_enabled
    &&& logged1(pre.signals@, post.signals@, i)
    &&& match op {
        OpcodeRegRegImm::LW => {
            let ea = pre.reg_val(r2) + off;
            &&& post.mem == pre.mem
            &&& if !(0 <= ea <= 0xFFFF) {
                &&& regs_unchanged(pre, post)
                &&& post.pc == pre.pc
                &&& r == Err::<(), DexErr>(DexErr::Mem(MemErr::AddressOverflow))
            } else if !MemModel::word_readable(ea as u16) {
                &&& regs_unchanged(pre, post)
                &&& post.pc == pre.pc
                &&& r == Err::<(), DexErr>(
                    DexErr::Mem(
                        if ea < 2048 {
                            MemErr::UnimplementedMmio(ea as u16)
                        } else {
                            MemErr::AddressOverflow
                        },
                    ),
                )
            } else {
                &&& sets_reg(pre, post, r1, pre.mem.model().word(ea as u16))
                &&& post.pc == wrap16(pre.pc + 3)
                &&& r is Ok
            }
        },
        OpcodeRegRegImm::LBS | OpcodeRegRegImm::LBU => {
            let ea = pre.reg_val(r2) + off;
            &&& post.mem == pre.mem
            &&& if !(0 <= ea <= 0xFFFF) {
                &&& regs_unchanged(pre, post)
                &&& post.pc == pre.pc
                &&& r == Err::<(), DexErr>(DexErr::Mem(MemErr::AddressOverflow))
            } else if !MemModel::byte_readable(ea as u16) {
                &&& regs_unchanged(pre, post)
                &&& post.pc == pre.pc
                &&& r == Err::<(), DexErr>(DexErr::Mem(MemErr::UnimplementedMmio(ea as u16)))
            } else {
                let b = pre.mem.model().byte(ea as u16);
                &&& sets_reg(
                    pre,
                    post,
                    r1,
                    if op == OpcodeRegRegImm::LBU {
                        b as u16
                    } else {
                        seb16(b as u16)
                    },
                )
                &&& post.pc == wrap16(pre.pc + 3)
                &&& r is Ok
            }
        },
        OpcodeRegRegImm::SW => {
            let ea = pre.reg_val(r1) + off;
            &&& regs_unchanged(pre, post)
            &&& if !(0 <= ea <= 0xFFFF) {
                &&& post.mem == pre.mem
                &&& post.pc == pre.pc
                &&& r == Err::<(), DexErr>(DexErr::Mem(MemErr::AddressOverflow))
            } else if !MemModel::word_writable(ea as u16) {
                &&& post.mem == pre.mem
                &&& post.pc == pre.pc
                &&& r == Err::<(), DexErr>(
                    DexErr::Mem(
                        if ea < 2048 {
                            MemErr::UnimplementedMmio(ea as u16)
                        } else {
                            MemErr::AddressOverflow
                        },
                    ),
                )
            } else {
                &&& post.mem.model() == pre.mem.model().write_word(ea as u16, pre.reg_val(r2))
                &&& post.pc == wrap16(pre.pc + 3)
                &&& r is Ok
            }
        },
        OpcodeRegRegImm::SB => {
            let ea = pre.reg_val(r1) + off;
            &&& regs_unchanged(pre, post)
            &&& if !(0 <= ea <= 0xFFFF) {
                &&& post.mem == pre.mem
                &&& post.pc == pre.pc
                &&& r == Err::<(), DexErr>(DexErr::Mem(MemErr::AddressOverflow))
            } else if !MemModel::byte_writable(ea as u16) {
                &&& post.mem == pre.mem
                &&& post.pc == pre.pc
                &&& r == Err::<(), DexErr>(DexErr::Mem(MemErr::UnimplementedMmio(ea as u16)))
            } else {
                &&& post.mem.model() == pre.mem.model().write_byte(
                    ea as u16,
                    (pre.reg_val(r2) % 256) as u8,
                )
                &&& post.pc == wrap16(pre.pc + 3)
                &&& r is Ok
            }
        },
        OpcodeRegRegImm::ADDI => {
            &&& post.mem == pre.mem
            &&& sets_reg(pre, post, r1, wrap16(pre.reg_val(r2) + imm10.bits))
            &&& post.pc == wrap16(pre.pc + 3)
            &&& r is Ok
        },
        OpcodeRegRegImm::SUBI => {
            &&& post.mem == pre.mem
            &&& sets_reg(pre, post, r1, wrap16(pre.reg_val(r2) - imm10.bits))
            &&& post.pc == wrap16(pre.pc + 3)
            &&& r is Ok
        },
        OpcodeRegRegImm::ORI => {
            &&& post.mem == pre.mem
            &&& sets_reg(pre, post, r1, pre.reg_val(r2) | imm10.bits)
            &&& post.pc == wrap16(pre.pc + 3)
            &&& r is Ok
        },
        OpcodeRegRegImm::XORI => {
            &&& post.mem == pre.mem
            &&& sets_reg(pre, post, r1, pre.reg_val(r2) ^ imm10.bits)
            &&& post.pc == wrap16(pre.pc + 3)
            &&& r is Ok
        },
        OpcodeRegRegImm::ANDI => {
            &&& post.mem == pre.mem
            &&& sets_reg(pre, post, r1, pre.reg_val(r2) & imm10.bits)
            &&& post.pc == wrap16(pre.pc + 3)
            &&& r is Ok
        },
    }
}

/// The step relation for a decoded instruction.
pub open spec fn instr_rel(pre: Cpu, post: Cpu, i: Instr, r: Result<(), DexErr>) -> bool {
    match i {
        Instr::O { opcode } => o_rel(pre, post, opcode, r),
        Instr::A { opcode, offset } => a_rel(pre, post, offset, r),
        Instr::I { opcode, imm10 } => i_rel(pre, post, opcode, imm10, r),
        Instr::R { opcode, reg } => r_rel(pre, post, opcode, reg, r),
        Instr::RI { opcode, reg, imm } => ri_rel(pre, post, opcode, reg, imm, r),
        Instr::RR { opcode, reg1, reg2 } => rr_rel(pre, post, opcode, reg1, reg2, r),
        Instr::RRR { opcode, reg1, reg2, reg3 } => rrr_rel(pre, post, opcode, reg1, reg2, reg3, r),
        Instr::RRI { opcode, reg1, reg2, imm10 } => rri_rel(
            pre,
            post,
            opcode,
            reg1,
            reg2,
            imm10,
            r,
        ),
    }
}

/// One decode-and-execute step over the instruction register: decode failure
/// changes nothing and is reported; a decoded instruction executes per its
/// shape relation.
pub open spec fn dex_rel(pre: Cpu, post: Cpu, r: Result<(), DexErr>) -> bool {
    match spec_from_bits(pre.ir) {
        Err(e) => post == pre && r == Err::<(), DexErr>(DexErr::RegDecodeError(e)),
        Ok(i) => instr_rel(pre, post, i, r),
    }
}

impl Cpu {
    /// Appends the log event for instruction `i`.
    fn push_instr_log(
        &mut self,
        Ghost(i): Ghost<Instr>,
        size: u16,
        name: &str,
        args: Vec<(Option<ArgStyle>, InstrArg)>,
    )
        requires
            size == spec_instr_size(i),
            name@ == spec_log_name(i),
            args@ == spec_log_args(i),
        ensures
            *final(self) == (Cpu { signals: final(self).signals, ..*old(self) }),
            logged1(old(self).signals@, final(self).signals@, i),
            appended1(old(self).signals@, final(self).signals@),
    {
        let msg = LogMsg::Instr { size, name: String::from_str(name), args };
        proof {
            lemma_push_appended1(self.signals@, Signal::Log(msg));
        }
        self.log(msg);
    }

    /// Dispatches an exception code: the first four codes signal their event;
    /// the rest are reserved and fail.
    pub fn handle_exn(&mut self, code: u16) -> (r: Result<(), DexErr>)
        requires
            old(self).wf(),
        ensures
            final(self).wf(),
            exn_rel(*old(self), *final(self), code, r),
    {
        if code == EXN_ILLEGAL_INSTR {
            proof {
                lemma_push_appended1(self.signals@, Signal::IllegalInstr);
            }
            self.signal(Signal::IllegalInstr);
            Ok(())
        } else if code == EXN_DEBUG_BREAKPOINT {
            proof {
                lemma_push_appended1(self.signals@, Signal::Breakpoint);
            }
            self.signal(Signal::Breakpoint);
            Ok(())
        } else if code == EXN_DIV_BY_ZERO {
            let msg = LogMsg::Error(String::from_str("division by zero"));
            proof {
                lemma_push_appended1(self.signals@, Signal::Log(msg));
            }
            self.log(msg);
            Ok(())
        } else if code == EXN_DEBUG_PUTS {
            let base = self.regs.get(Reg::A0).as_u16();
            let len = self.regs.get(Reg::A1).as_i16();
            let mut bytes: Vec<u8> = Vec::new();
            let mut k: i16 = 0;
            while k < len
                invariant
                    code == EXN_DEBUG_PUTS,
                    *self == *old(self),
                    self.wf(),
                    0 <= k,
                    len > 0 ==> k <= len,
                    len <= 0 ==> k == 0,
                    base == old(self).reg_val(Reg::A0),
                    len as int == signed16(old(self).reg_val(Reg::A1)),
                    bytes@.len() == k,
                    forall|j: int|
                        0 <= j < k ==> #[trigger] bytes@[j] == old(self).mem.model().byte(
                            (base + j) as u16,
                        ),
                    k > 0 ==> 128 <= base && base + k <= 0x10000,
                decreases len - k,
            {
                let b = match self.mem_read_u8(base, k) {
                    Ok(v) => v,
                    Err(e) => {
                        proof {
                            assert(!puts_readable(base, puts_len(*old(self))));
                        }
                        return Err(DexErr::Mem(e));
                    },
                };
                proof {
                    assert(bytes@.push(b)[k as int] == b);
                }
                bytes.push(b);
                k = k + 1;
            }
            proof {
                assert(puts_len(*old(self)) == k as int);
                assert(puts_readable(base, puts_len(*old(self))));
                assert(bytes@ =~= puts_bytes(old(self).mem.model(), base, puts_len(*old(self))));
            }
            let msg = LogMsg::DebugPuts { addr: base, value: bytes };
            proof {
                lemma_push_appended1(self.signals@, Signal::Log(msg));
            }
            self.log(msg);
            Ok(())
        } else {
            Err(DexErr::UnimplementedExn(code))
        }
    }
}

/// Any 16-bit masked value fits a word.
pub proof fn lemma_mask16(z: u32)
    by (bit_vector)
    ensures
        (z & 0xFFFF) < 0x10000,
{
}

/// Truncating a 32-bit signed value to unsigned adds 2^32 to negatives.
pub proof fn lemma_i32_as_u32(p: i32)
    by (bit_vector)
    ensures
        (p as u32) as int == (if p >= 0 {
            p as int
        } else {
            p as int + 0x100000000
        }),
{
}

impl Cpu {
    /// Advances the program counter by an instruction size, wrapping.
    fn advance_pc(&mut self, size: u16)
        ensures
            *final(self) == (Cpu { pc: final(self).pc, ..*old(self) }),
            final(self).pc == wrap16(old(self).pc + size),
    {
        proof {
            lemma_wrap16(self.pc + size);
        }
        self.pc = self.pc.wrapping_add(size);
    }

    /// Executes an O-shape instruction.
    fn exec_o(&mut self, op: OpcodeOp) -> (r: Result<(), DexErr>)
        requires
            old(self).wf(),
        ensures
            final(self).wf(),
            o_rel(*old(self), *final(self), op, r),
    {
        let ghost i = Instr::O { opcode: op };
        let args: Vec<(Option<ArgStyle>, InstrArg)> = Vec::new();
        proof {
            assert(args@ =~= spec_log_args(i));
        }
        match op {
            OpcodeOp::HALT => {
                self.push_instr_log(Ghost(i), 1, "halt", args);
                proof {
                    lemma_push_appended1(self.signals@, Signal::Halt);
                    lemma_appended1_trans(
                        old(self).signals@,
                        self.signals@,
                        self.signals@.push(Signal::Halt),
                    );
                }
                self.signal(Signal::Halt);
                Ok(())
            },
            OpcodeOp::NOP => {
                self.push_instr_log(Ghost(i), 1, "nop", args);
                self.advance_pc(1);
                Ok(())
            },
            OpcodeOp::KRET => {
                self.push_instr_log(Ghost(i), 1, "kret", args);
                self.interrupts_enabled = true;
                let t = self.regs.get(Reg::K0).as_u16();
                self.pc = t;
                Ok(())
            },
            OpcodeOp::INRE => {
                self.push_instr_log(Ghost(i), 1, "inre", args);
                self.interrupts_enabled = true;
                self.advance_pc(1);
                Ok(())
            },
            OpcodeOp::INRD => {
                self.push_instr_log(Ghost(i), 1, "inrd", args);
                self.interrupts_enabled = false;
                self.advance_pc(1);
                Ok(())
            },
        }
    }

    /// Executes the A-shape jump.
    fn exec_a(&mut self, op: OpcodeAddr, offset: s16) -> (r: Result<(), DexErr>)
        requires
            old(self).wf(),
        ensures
            final(self).wf(),
            a_rel(*old(self), *final(self), offset, r),
    {
        let ghost i = Instr::A { opcode: op, offset };
        let mut args: Vec<(Option<ArgStyle>, InstrArg)> = Vec::new();
        args.push((None, InstrArg::Imm(offset)));
        proof {
            assert(args@ =~= spec_log_args(i));
        }
        self.push_instr_log(Ghost(i), 3, "j", args);
        let t: i32 = self.pc as i32 + offset.as_i16() as i32;
        if 0 <= t && t <= 0xFFFF {
            self.pc = t as u16;
            Ok(())
        } else {
            Err(DexErr::Mem(MemErr::AddressOverflow))
        }
    }

    /// Executes an I-shape instruction.
    fn exec_i(&mut self, op: OpcodeImm, imm10: s16) -> (r: Result<(), DexErr>)
        requires
            old(self).wf(),
        ensures
            final(self).wf(),
            i_rel(*old(self), *final(self), op, imm10, r),
    {
        match op {
            OpcodeImm::KCALL => Err(DexErr::Unimplemented),
            OpcodeImm::EXN => {
                let ghost i = Instr::I { opcode: op, imm10 };
                let mut args: Vec<(Option<ArgStyle>, InstrArg)> = Vec::new();
                args.push((None, InstrArg::Imm(imm10)));
                proof {
                    assert(args@ =~= spec_log_args(i));
                }
                self.push_instr_log(Ghost(i), 2, "exn", args);
                let ghost mid = *self;
                let code = imm10.as_u16();
                match self.handle_exn(code) {
                    Ok(()) => {
                        proof {
                            if code == EXN_ILLEGAL_INSTR {
                                lemma_push_appended1(mid.signals@, Signal::IllegalInstr);
                            } else if code == EXN_DEBUG_BREAKPOINT {
                                lemma_push_appended1(mid.signals@, Signal::Breakpoint);
                            }
                            lemma_appended1_trans(old(self).signals@, mid.signals@, self.signals@);
                        }
                        self.advance_pc(2);
                        Ok(())
                    },
                    Err(e) => Err(e),
                }
            },
        }
    }

    /// Executes an R-shape instruction.
    fn exec_r(&mut self, op: OpcodeReg, rg: Reg) -> (r: Result<(), DexErr>)
        requires
            old(self).wf(),
        ensures
            final(self).wf(),
            r_rel(*old(self), *final(self), op, rg, r),
    {
        let ghost i = Instr::R { opcode: op, reg: rg };
        let mut args: Vec<(Option<ArgStyle>, InstrArg)> = Vec::new();
        args.push((Some(ArgStyle::Reg), InstrArg::Reg(rg)));
        proof {
            assert(args@ =~= spec_log_args(i));
        }
        match op {
            OpcodeReg::JR => {
                self.push_instr_log(Ghost(i), 2, "jr", args);
                let t = self.regs.get(rg).as_u16();
                self.pc = t;
                Ok(())
            },
            OpcodeReg::MVLO => {
                self.push_instr_log(Ghost(i), 2, "mvlo", args);
                let v = self.lo;
                self.regs.set(rg, v);
                self.advance_pc(2);
                Ok(())
            },
            OpcodeReg::MVHI => {
                self.push_instr_log(Ghost(i), 2, "mvhi", args);
                let v = self.hi;
                self.regs.set(rg, v);
                self.advance_pc(2);
                Ok(())
            },
        }
    }

    /// Executes an RI-shape instruction.
    fn exec_ri(&mut self, op: OpcodeRegImm, rg: Reg, imm: s16) -> (r: Result<(), DexErr>)
        requires
            old(self).wf(),
        ensures
            final(self).wf(),
            ri_rel(*old(self), *final(self), op, rg, imm, r),
    {
        let ghost i = Instr::RI { opcode: op, reg: rg, imm };
        let mut args: Vec<(Option<ArgStyle>, InstrArg)> = Vec::new();
        args.push((Some(ArgStyle::Reg), InstrArg::Reg(rg)));
        args.push((None, InstrArg::Imm(imm)));
        proof {
            assert(args@ =~= spec_log_args(i));
        }
        match op {
            OpcodeRegImm::JAL => {
                self.push_instr_log(Ghost(i), 4, "jal", args);
                proof {
                    lemma_wrap16(self.pc + 4);
                }
                let link = self.pc.wrapping_add(4);
                self.regs.set(rg, s16::from_u16(link));
                let t: i32 = self.pc as i32 + imm.as_i16() as i32;
                if 0 <= t && t <= 0xFFFF {
                    self.pc = t as u16;
                    Ok(())
                } else {
                    Err(DexErr::Mem(MemErr::AddressOverflow))
                }
            },
            OpcodeRegImm::BT => {
                self.push_instr_log(Ghost(i), 4, "bt", args);
                let cond = self.regs.get(rg).as_bool();
                if cond {
                    let t: i32 = self.pc as i32 + imm.as_i16() as i32;
                    proof {
                        lemma_wrap16(t as int);
                    }
                    let tw: u16 = if t < 0 {
                        (t + 0x10000) as u16
                    } else {
                        (t % 0x10000) as u16
                    };
                    self.pc = tw;
                } else {
                    self.advance_pc(4);
                }
                Ok(())
            },
            OpcodeRegImm::BF => {
                self.push_instr_log(Ghost(i), 4, "bf", args);
                let cond = self.regs.get(rg).as_bool();
                if !cond {
                    let t: i32 = self.pc as i32 + imm.as_i16() as i32;
                    proof {
                        lemma_wrap16(t as int);
                    }
                    let tw: u16 = if t < 0 {
                        (t + 0x10000) as u16
                    } else {
                        (t % 0x10000) as u16
                    };
                    self.pc = tw;
                } else {
                    self.advance_pc(4);
                }
                Ok(())
            },
            OpcodeRegImm::LI => {
                self.push_instr_log(Ghost(i), 4, "li", args);
                self.regs.set(rg, imm);
                self.advance_pc(4);
                Ok(())
            },
        }
    }
}

impl Cpu {
    /// Executes an RR-shape instruction.
    #[verifier::rlimit(60)]
    fn exec_rr(&mut self, op: OpcodeRegReg, r1: Reg, r2: Reg) -> (r: Result<(), DexErr>)
        requires
            old(self).wf(),
        ensures
            final(self).wf(),
            rr_rel(*old(self), *final(self), op, r1, r2, r),
    {
        let ghost i = Instr::RR { opcode: op, reg1: r1, reg2: r2 };
        let mut args: Vec<(Option<ArgStyle>, InstrArg)> = Vec::new();
        args.push((Some(ArgStyle::Reg), InstrArg::Reg(r1)));
        args.push((Some(ArgStyle::Reg), InstrArg::Reg(r2)));
        proof {
            assert(args@ =~= spec_log_args(i));
        }
        let y = self.regs.get(r2).as_u16();
        match op {
            OpcodeRegReg::JRAL => {
                self.push_instr_log(Ghost(i), 2, "jral", args);
                proof {
                    lemma_wrap16(self.pc + 2);
                }
                let link = self.pc.wrapping_add(2);
                self.regs.set(r1, s16::from_u16(link));
                let t = self.regs.get(r2).as_u16();
                proof {
                    assert(link == wrap16(old(self).pc + 2));
                    if r1 == r2 {
                        assert(t == (if r1 == Reg::Zero {
                            0u16
                        } else {
                            link
                        }));
                    } else {
                        assert(t == old(self).reg_val(r2));
                    }
                    assert(old(self).reg_val(Reg::Zero) == 0);
                }
                self.pc = t;
                Ok(())
            },
            OpcodeRegReg::MV => {
                self.push_instr_log(Ghost(i), 2, "mv", args);
                self.regs.set(r1, s16::from_u16(y));
                self.advance_pc(2);
                Ok(())
            },
            OpcodeRegReg::MUL => {
                let a = self.regs.get(r1).as_i16();
                let b = self.regs.get(r2).as_i16();
                self.push_instr_log(Ghost(i), 2, "mul", args);
                proof {
                    assert(-0x40000000 <= (a as int) * (b as int) <= 0x40000000)
                        by (nonlinear_arith)
                        requires
                            -0x8000 <= a <= 0x7FFF,
                            -0x8000 <= b <= 0x7FFF,
                    ;
                }
                let p: i32 = (a as i32) * (b as i32);
                proof {
                    lemma_i32_as_u32(p);
                }
                let pu: u32 = #[verifier::truncate] (p as u32);
                proof {
                    if p < 0 {
                        vstd::arithmetic::div_mod::lemma_mod_multiples_vanish(
                            0x10000,
                            p as int,
                            0x10000,
                        );
                    }
                }
                let lo16 = (pu % 0x10000) as u16;
                let hi16 = (pu / 0x10000) as u16;
                self.lo = s16::from_u16(lo16);
                self.hi = s16::from_u16(hi16);
                self.advance_pc(2);
                Ok(())
            },
            OpcodeRegReg::MULU => {
                let x = self.regs.get(r1).as_u16();
                self.push_instr_log(Ghost(i), 2, "mulu", args);
                proof {
                    assert((x as int) * (y as int) <= 0xFFFF * 0xFFFF) by (nonlinear_arith)
                        requires
                            x <= 0xFFFF,
                            y <= 0xFFFF,
                    ;
                }
                let p: u32 = (x as u32) * (y as u32);
                let lo16 = (p % 0x10000) as u16;
                let hi16 = (p / 0x10000) as u16;
                self.lo = s16::from_u16(lo16);
                self.hi = s16::from_u16(hi16);
                self.advance_pc(2);
                Ok(())
            },
            OpcodeRegReg::DIV => {
                let a = self.regs.get(r1).as_i16();
                let b = self.regs.get(r2).as_i16();
                self.push_instr_log(Ghost(i), 2, "div", args);
                if b == 0 {
                    let ghost mid = *self;
                    let msg = LogMsg::Error(String::from_str("division by zero"));
                    proof {
                        lemma_push_appended1(self.signals@, Signal::Log(msg));
                        lemma_appended1_trans(
                            old(self).signals@,
                            mid.signals@,
                            mid.signals@.push(Signal::Log(msg)),
                        );
                    }
                    self.log(msg);
                    self.advance_pc(2);
                    Ok(())
                } else {
                    let ua: u16 = if a < 0 {
                        (0i32 - a as i32) as u16
                    } else {
                        a as u16
                    };
                    let ub: u16 = if b < 0 {
                        (0i32 - b as i32) as u16
                    } else {
                        b as u16
                    };
                    let uq = ua / ub;
                    let ur = ua % ub;
                    proof {
                        lemma_wrap16(-(uq as int));
                        lemma_wrap16(-(ur as int));
                        lemma_wrap16(uq as int);
                        lemma_wrap16(ur as int);
                    }
                    let lo_bits: u16 = if (a < 0) != (b < 0) {
                        0u16.wrapping_sub(uq)
                    } else {
                        uq
                    };
                    let hi_bits: u16 = if a < 0 {
                        0u16.wrapping_sub(ur)
                    } else {
                        ur
                    };
                    self.lo = s16::from_u16(lo_bits);
                    self.hi = s16::from_u16(hi_bits);
                    self.advance_pc(2);
                    Ok(())
                }
            },
            OpcodeRegReg::DIVU => {
                let x = self.regs.get(r1).as_u16();
                self.push_instr_log(Ghost(i), 2, "divu", args);
                if y == 0 {
                    let ghost mid = *self;
                    let msg = LogMsg::Error(String::from_str("division by zero"));
                    proof {
                        lemma_push_appended1(self.signals@, Signal::Log(msg));
                        lemma_appended1_trans(
                            old(self).signals@,
                            mid.signals@,
                            mid.signals@.push(Signal::Log(msg)),
                        );
                    }
                    self.log(msg);
                    self.advance_pc(2);
                    Ok(())
                } else {
                    let q = x / y;
                    let rem = x % y;
                    self.lo = s16::from_u16(q);
                    self.hi = s16::from_u16(rem);
                    self.advance_pc(2);
                    Ok(())
                }
            },
            OpcodeRegReg::NOT => {
                self.push_instr_log(Ghost(i), 2, "not", args);
                let v: u16 = if y == 0 {
                    1
                } else {
                    0
                };
                self.regs.set(r1, s16::from_u16(v));
                self.advance_pc(2);
                Ok(())
            },
            OpcodeRegReg::NEG => {
                self.push_instr_log(Ghost(i), 2, "neg", args);
                proof {
                    lemma_wrap16(0 - y as int);
                }
                let v = 0u16.wrapping_sub(y);
                self.regs.set(r1, s16::from_u16(v));
                self.advance_pc(2);
                Ok(())
            },
            OpcodeRegReg::SEB => {
                self.push_instr_log(Ghost(i), 2, "seb", args);
                let bl = y % 256;
                let v: u16 = if bl < 128 {
                    bl
                } else {
                    bl + 0xFF00
                };
                self.regs.set(r1, s16::from_u16(v));
                self.advance_pc(2);
                Ok(())
            },
            OpcodeRegReg::TEZ => {
                self.push_instr_log(Ghost(i), 2, "tez", args);
                let v: u16 = if y == 0 {
                    1
                } else {
                    0
                };
                self.regs.set(r1, s16::from_u16(v));
                self.advance_pc(2);
                Ok(())
            },
            OpcodeRegReg::TNZ => {
                self.push_instr_log(Ghost(i), 2, "tnz", args);
                let v: u16 = if y != 0 {
                    1
                } else {
                    0
                };
                self.regs.set(r1, s16::from_u16(v));
                self.advance_pc(2);
                Ok(())
            },
        }
    }

    /// Executes an RRR-shape instruction: rd receives a function of rs and rt.
    fn exec_rrr(&mut self, op: OpcodeRegRegReg, rd: Reg, rs: Reg, rt: Reg) -> (r: Result<
        (),
        DexErr,
    >)
        requires
            old(self).wf(),
        ensures
            final(self).wf(),
            rrr_rel(*old(self), *final(self), op, rd, rs, rt, r),
    {
        let ghost i = Instr::RRR { opcode: op, reg1: rd, reg2: rs, reg3: rt };
        let mut args: Vec<(Option<ArgStyle>, InstrArg)> = Vec::new();
        args.push((Some(ArgStyle::Reg), InstrArg::Reg(rd)));
        args.push((Some(ArgStyle::Reg), InstrArg::Reg(rs)));
        args.push((Some(ArgStyle::Reg), InstrArg::Reg(rt)));
        proof {
            assert(args@ =~= spec_log_args(i));
        }
        let name = match op {
            OpcodeRegRegReg::ADD => "add",
            OpcodeRegRegReg::SUB => "sub",
            OpcodeRegRegReg::OR => "or",
            OpcodeRegRegReg::XOR => "xor",
            OpcodeRegRegReg::AND => "and",
            OpcodeRegRegReg::ADDU => "addu",
            OpcodeRegRegReg::SUBU => "subu",
            OpcodeRegRegReg::SHL => "shl",
            OpcodeRegRegReg::SHR => "shr",
            OpcodeRegRegReg::SHRA => "shra",
            OpcodeRegRegReg::TLT => "tlt",
            OpcodeRegRegReg::TGE => "tge",
            OpcodeRegRegReg::TEQ => "teq",
            OpcodeRegRegReg::TNE => "tne",
            OpcodeRegRegReg::TLTU => "tltu",
            OpcodeRegRegReg::TGEU => "tgeu",
        };
        self.push_instr_log(Ghost(i), 3, name, args);
        let x = self.regs.get(rs).as_u16();
        let y = self.regs.get(rt).as_u16();
        let v: u16 = match op {
            OpcodeRegRegReg::ADD | OpcodeRegRegReg::ADDU => {
                proof {
                    lemma_wrap16(x + y);
                }
                x.wrapping_add(y)
            },
            OpcodeRegRegReg::SUB | OpcodeRegRegReg::SUBU => {
                proof {
                    lemma_wrap16(x - y);
                }
                x.wrapping_sub(y)
            },
            OpcodeRegRegReg::OR => x | y,
            OpcodeRegRegReg::XOR => x ^ y,
            OpcodeRegRegReg::AND => x & y,
            OpcodeRegRegReg::SHL => {
                if y >= 16 {
                    0
                } else {
                    x << y
                }
            },
            OpcodeRegRegReg::SHR => {
                if y >= 16 {
                    0
                } else {
                    x >> y
                }
            },
            OpcodeRegRegReg::SHRA => {
                if y >= 16 {
                    if x >= 0x8000 {
                        0xFFFF
                    } else {
                        0
                    }
                } else if x >= 0x8000 {
                    proof {
                        lemma_mask16(((x as u32) | 0xFFFF0000u32) >> (y as u32));
                    }
                    ((((x as u32) | 0xFFFF0000u32) >> (y as u32)) & 0xFFFF) as u16
                } else {
                    x >> y
                }
            },
            OpcodeRegRegReg::TLT => {
                let xi = s16::from_u16(x).as_i16();
                let yi = s16::from_u16(y).as_i16();
                if xi < yi {
                    1
                } else {
                    0
                }
            },
            OpcodeRegRegReg::TGE => {
                let xi = s16::from_u16(x).as_i16();
                let yi = s16::from_u16(y).as_i16();
                if xi >= yi {
                    1
                } else {
                    0
                }
            },
            OpcodeRegRegReg::TEQ => {
                if x == y {
                    1
                } else {
                    0
                }
            },
            OpcodeRegRegReg::TNE => {
                if x != y {
                    1
                } else {
                    0
                }
            },
            OpcodeRegRegReg::TLTU => {
                if x < y {
                    1
                } else {
                    0
                }
            },
            OpcodeRegRegReg::TGEU => {
                if x >= y {
                    1
                } else {
                    0
                }
            },
        };
        self.regs.set(rd, s16::from_u16(v));
        self.advance_pc(3);
        Ok(())
    }

    /// Executes an RRI-shape instruction.
    #[verifier::rlimit(60)]
    fn exec_rri(&mut self, op: OpcodeRegRegImm, r1: Reg, r2: Reg, imm10: s16) -> (r: Result<
        (),
        DexErr,
    >)
        requires
            old(self).wf(),
        ensures
            final(self).wf(),
            rri_rel(*old(self), *final(self), op, r1, r2, imm10, r),
    {
        let ghost i = Instr::RRI { opcode: op, reg1: r1, reg2: r2, imm10 };
        match op {
            OpcodeRegRegImm::LW => {
                let mut args: Vec<(Option<ArgStyle>, InstrArg)> = Vec::new();
                args.push((Some(ArgStyle::Reg), InstrArg::Reg(r1)));
                args.push((None, InstrArg::Imm(imm10)));
                args.push((Some(ArgStyle::Reg), InstrArg::Reg(r2)));
                proof {
                    assert(args@ =~= spec_log_args(i));
                }
                self.push_instr_log(Ghost(i), 3, "lw", args);
                let base = self.regs.get(r2).as_u16();
                let off = imm10.as_i16();
                let ea = match self.mem.compute_offset(base, off) {
                    Ok(a) => a,
                    Err(e) => {
                        return Err(DexErr::Mem(e));
                    },
                };
                let v = match self.mem.read_s16(ea) {
                    Ok(v) => v,
                    Err(e) => {
                        return Err(DexErr::Mem(e));
                    },
                };
                self.regs.set(r1, v);
                self.advance_pc(3);
                Ok(())
            },
            OpcodeRegRegImm::LBS | OpcodeRegRegImm::LBU => {
                let mut args: Vec<(Option<ArgStyle>, InstrArg)> = Vec::new();
                args.push((Some(ArgStyle::Reg), InstrArg::Reg(r1)));
                args.push((None, InstrArg::Imm(imm10)));
                args.push((Some(ArgStyle::Reg), InstrArg::Reg(r2)));
                proof {
                    assert(args@ =~= spec_log_args(i));
                }
                let name = if matches!(op, OpcodeRegRegImm::LBU) {
                    "lbu"
                } else {
                    "lbs"
                };
                self.push_instr_log(Ghost(i), 3, name, args);
                let base = self.regs.get(r2).as_u16();
                let off = imm10.as_i16();
                let ea = match self.mem.compute_offset(base, off) {
                    Ok(a) => a,
                    Err(e) => {
                        return Err(DexErr::Mem(e));
                    },
                };
                let b = match self.mem.read_u8(ea) {
                    Ok(v) => v,
                    Err(e) => {
                        return Err(DexErr::Mem(e));
                    },
                };
                let v: u16 = if matches!(op, OpcodeRegRegImm::LBU) {
                    b as u16
                } else {
                    let bw = b as u16;
                    if bw < 128 {
                        bw
                    } else {
                        bw + 0xFF00
                    }
                };
                self.regs.set(r1, s16::from_u16(v));
                self.advance_pc(3);
                Ok(())
            },
            OpcodeRegRegImm::SW => {
                let mut args: Vec<(Option<ArgStyle>, InstrArg)> = Vec::new();
                args.push((None, InstrArg::Imm(imm10)));
                args.push((Some(ArgStyle::Reg), InstrArg::Reg(r1)));
                args.push((Some(ArgStyle::Reg), InstrArg::Reg(r2)));
                proof {
                    assert(args@ =~= spec_log_args(i));
                }
                self.push_instr_log(Ghost(i), 3, "sw", args);
                let base = self.regs.get(r1).as_u16();
                let value = self.regs.get(r2);
                let off = imm10.as_i16();
                let ea = match self.mem.compute_offset(base, off) {
                    Ok(a) => a,
                    Err(e) => {
                        return Err(DexErr::Mem(e));
                    },
                };
                match self.mem.write_s16(ea, value) {
                    Ok(()) => {
                        self.advance_pc(3);
                        Ok(())
                    },
                    Err(e) => Err(DexErr::Mem(e)),
                }
            },
            OpcodeRegRegImm::SB => {
                let mut args: Vec<(Option<ArgStyle>, InstrArg)> = Vec::new();
                args.push((None, InstrArg::Imm(imm10)));
                args.push((Some(ArgStyle::Reg), InstrArg::Reg(r1)));
                args.push((Some(ArgStyle::Reg), InstrArg::Reg(r2)));
                proof {
                    assert(args@ =~= spec_log_args(i));
                }
                self.push_instr_log(Ghost(i), 3, "sb", args);
                let base = self.regs.get(r1).as_u16();
                let value = (self.regs.get(r2).as_u16() % 256) as u8;
                let off = imm10.as_i16();
                let ea = match self.mem.compute_offset(base, off) {
                    Ok(a) => a,
                    Err(e) => {
                        return Err(DexErr::Mem(e));
                    },
                };
                match self.mem.write_u8(ea, value) {
                    Ok(()) => {
                        self.advance_pc(3);
                        Ok(())
                    },
                    Err(e) => Err(DexErr::Mem(e)),
                }
            },
            OpcodeRegRegImm::ADDI
            | OpcodeRegRegImm::SUBI
            | OpcodeRegRegImm::ORI
            | OpcodeRegRegImm::XORI
            | OpcodeRegRegImm::ANDI => {
                let mut args: Vec<(Option<ArgStyle>, InstrArg)> = Vec::new();
                args.push((Some(ArgStyle::Reg), InstrArg::Reg(r1)));
                args.push((Some(ArgStyle::Reg), InstrArg::Reg(r2)));
                args.push((None, InstrArg::Imm(imm10)));
                proof {
                    assert(args@ =~= spec_log_args(i));
                }
                let name = match op {
                    OpcodeRegRegImm::ADDI => "addi",
                    OpcodeRegRegImm::SUBI => "subi",
                    OpcodeRegRegImm::ORI => "ori",
                    OpcodeRegRegImm::XORI => "xori",
                    _ => "andi",
                };
                self.push_instr_log(Ghost(i), 3, name, args);
                let x = self.regs.get(r2).as_u16();
                let m = imm10.as_u16();
                let v: u16 = match op {
                    OpcodeRegRegImm::ADDI => {
                        proof {
                            lemma_wrap16(x + m);
                        }
                        x.wrapping_add(m)
                    },
                    OpcodeRegRegImm::SUBI => {
                        proof {
                            lemma_wrap16(x - m);
                        }
                        x.wrapping_sub(m)
                    },
                    OpcodeRegRegImm::ORI => x | m,
                    OpcodeRegRegImm::XORI => x ^ m,
                    _ => x & m,
                };
                self.regs.set(r1, s16::from_u16(v));
                self.advance_pc(3);
                Ok(())
            },
        }
    }

    /// Decodes the instruction register and executes the instruction. On a
    /// decode failure nothing changes and the error is returned; the caller
    /// may report it and enqueue an illegal-instruction interrupt.
    pub fn decode_and_execute(&mut self) -> (r: Result<(), DexErr>)
        requires
            old(self).wf(),
        ensures
            final(self).wf(),
            dex_rel(*old(self), *final(self), r),
    {
        let instr = match Instr::from_bits(self.ir) {
            Ok(i) => i,
            Err(e) => {
                return Err(DexErr::RegDecodeError(e));
            },
        };
        match instr {
            Instr::O { opcode } => self.exec_o(opcode),
            Instr::A { opcode, offset } => self.exec_a(opcode, offset),
            Instr::I { opcode, imm10 } => self.exec_i(opcode, imm10),
            Instr::R { opcode, reg } => self.exec_r(opcode, reg),
            Instr::RI { opcode, reg, imm } => self.exec_ri(opcode, reg, imm),
            Instr::RR { opcode, reg1, reg2 } => self.exec_rr(opcode, reg1, reg2),
            Instr::RRR { opcode, reg1, reg2, reg3 } => self.exec_rrr(opcode, reg1, reg2, reg3),
            Instr::RRI { opcode, reg1, reg2, imm10 } => self.exec_rri(opcode, reg1, reg2, imm10),
        }
    }
}

} // verus!
