//! Machine-wide laws, proved over the step relations and the memory model.

use vstd::prelude::*;
use crate::cpu::Cpu;
use crate::dex::{instr_rel, o_rel, rr_rel, rrr_rel, wrap16, DexErr};
use crate::instr::{spec_instr_size, Instr, OpcodeOp, OpcodeReg, OpcodeRegImm, OpcodeRegReg,
    OpcodeRegRegReg};
use crate::mem::MemModel;
use crate::cpu::Signal;
use crate::regs::Reg;

verus! {

broadcast use crate::regs::lemma_zero_reg_reads_zero;

/// The zero register is hard-wired: in every machine state it reads as zero,
/// so in particular every step leaves it zero.
pub proof fn lemma_zero_register_reads_zero(c: Cpu)
    ensures
        c.reg_val(Reg::Zero) == 0,
{
}

/// Writes to `zero` are discarded: whatever instruction executed, `zero`
/// still reads as zero afterwards.
pub proof fn lemma_step_leaves_zero_zero(pre: Cpu, post: Cpu, i: Instr, r: Result<(), DexErr>)
    requires
        instr_rel(pre, post, i, r),
    ensures
        post.reg_val(Reg::Zero) == 0,
{
}

/// A byte written to a writable address — the framebuffer or RAM, not the
/// immutable ROM — is the byte read back.
pub proof fn lemma_byte_round_trip(m: MemModel, a: u16, v: u8)
    requires
        m.wf(),
        128 <= a < 2048 || 6144 <= a,
    ensures
        m.write_byte(a, v).byte(a) == v,
{
}

/// A word written to a writable RAM address (user or kernel) is the word
/// read back.
pub proof fn lemma_word_round_trip(m: MemModel, a: u16, w: u16)
    requires
        m.wf(),
        6144 <= a < 0xFFFF,
    ensures
        m.write_word(a, w).word(a) == w,
{
    let hi = (w / 256) as u8;
    let lo = (w % 256) as u8;
    let m1 = m.write_byte(a, hi);
    let m2 = m1.write_byte((a + 1) as u16, lo);
    assert(m2.byte(a) == hi);
    assert(m2.byte((a + 1) as u16) == lo);
}

/// Words are stored big-endian: after a word write at a RAM address, the
/// byte at the address holds the high 8 bits and the next byte the low 8.
pub proof fn lemma_word_write_big_endian(m: MemModel, a: u16, w: u16)
    requires
        m.wf(),
        6144 <= a < 0xFFFF,
    ensures
        m.write_word(a, w).byte(a) == w / 256,
        m.write_word(a, w).byte((a + 1) as u16) == w % 256,
{
}

/// ROM is immutable after load: no store — at any address — changes the ROM
/// contents. Only the loader (`Cpu::load_rom`, `Cpu::reset`) replaces them.
pub proof fn lemma_rom_is_immutable(m: MemModel, a: u16, v: u8, w: u16)
    ensures
        m.write_byte(a, v).rom == m.rom,
        m.write_word(a, w).rom == m.rom,
{
}

/// Whether an instruction steers control flow; every other instruction
/// advances the PC by its byte size.
pub open spec fn is_control_flow(i: Instr) -> bool {
    match i {
        Instr::O { opcode } => opcode == OpcodeOp::HALT || opcode == OpcodeOp::KRET,
        Instr::A { .. } => true,
        Instr::I { .. } => false,
        Instr::R { opcode, .. } => opcode == OpcodeReg::JR,
        Instr::RI { opcode, .. } => opcode == OpcodeRegImm::JAL || opcode == OpcodeRegImm::BT
            || opcode == OpcodeRegImm::BF,
        Instr::RR { opcode, .. } => opcode == OpcodeRegReg::JRAL,
        Instr::RRR { .. } => false,
        Instr::RRI { .. } => false,
    }
}

/// A completed non-control-flow instruction advances the PC by exactly the
/// instruction's byte size.
pub proof fn lemma_pc_advances_by_size(pre: Cpu, post: Cpu, i: Instr, r: Result<(), DexErr>)
    requires
        instr_rel(pre, post, i, r),
        !is_control_flow(i),
        r is Ok,
    ensures
        post.pc == wrap16(pre.pc + spec_instr_size(i)),
{
}

/// `HALT` leaves the PC unchanged and yields exactly one `Halt` signal: the
/// queue grows by the instruction's log event and one `Halt`, in that order.
pub proof fn lemma_halt(pre: Cpu, post: Cpu, r: Result<(), DexErr>)
    requires
        instr_rel(pre, post, Instr::O { opcode: OpcodeOp::HALT }, r),
    ensures
        post.pc == pre.pc,
        post.signals@.len() == pre.signals@.len() + 2,
        post.signals@.subrange(0, pre.signals@.len() as int) == pre.signals@,
        post.signals@.last() == Signal::Halt,
        !(post.signals@[pre.signals@.len() as int] matches Signal::Halt),
{
    assert(o_rel(pre, post, OpcodeOp::HALT, r));
}

/// Comparison instructions write 1 or 0 into rd — never any other pattern.
pub proof fn lemma_comparisons_write_bit(
    pre: Cpu,
    post: Cpu,
    op: OpcodeRegRegReg,
    rd: Reg,
    rs: Reg,
    rt: Reg,
    r: Result<(), DexErr>,
)
    requires
        rrr_rel(pre, post, op, rd, rs, rt, r),
        op == OpcodeRegRegReg::TLT || op == OpcodeRegRegReg::TGE || op == OpcodeRegRegReg::TEQ
            || op == OpcodeRegRegReg::TNE || op == OpcodeRegRegReg::TLTU || op
            == OpcodeRegRegReg::TGEU,
    ensures
        post.reg_val(rd) == 0 || post.reg_val(rd) == 1,
{
}

/// The two-register tests write 1 or 0 into their destination as well.
pub proof fn lemma_tests_write_bit(
    pre: Cpu,
    post: Cpu,
    op: OpcodeRegReg,
    r1: Reg,
    r2: Reg,
    r: Result<(), DexErr>,
)
    requires
        rr_rel(pre, post, op, r1, r2, r),
        op == OpcodeRegReg::NOT || op == OpcodeRegReg::TEZ || op == OpcodeRegReg::TNZ,
    ensures
        post.reg_val(r1) == 0 || post.reg_val(r1) == 1,
{
}

/// After `KRET`, interrupts are enabled again and the PC holds what `k0`
/// held before — the address an interrupt dispatch saved there.
pub proof fn lemma_kret(pre: Cpu, post: Cpu, r: Result<(), DexErr>)
    requires
        instr_rel(pre, post, Instr::O { opcode: OpcodeOp::KRET }, r),
    ensures
        post.interrupts_enabled,
        post.pc == pre.reg_val(Reg::K0),
{
}

} // verus!
