//! The interrupt controller: on delivery, interrupts are disabled, the PC is
//! saved into `k0`, and execution vectors through a table in high memory.

use vstd::prelude::*;
use crate::cpu::Cpu;
use crate::regs::Reg;
use crate::word::s16;

verus! {

/// An interrupt source. Each names the address in kernel memory where the
/// pointer to its handler is stored.
#[derive(Clone, Copy, Debug, PartialEq, Eq, Structural)]
pub enum Interrupt {
    /// Illegal instruction.
    IllInstr,
    /// Division by zero.
    DivZero,
    /// Keyboard event.
    KeyEvent,
    /// Timer expiration.
    TimerExp,
}

/// The vector-table address of an interrupt source.
pub open spec fn spec_vector_addr(i: Interrupt) -> u16 {
    match i {
        Interrupt::IllInstr => 0xFFFE,
        Interrupt::DivZero => 0xFFFC,
        Interrupt::KeyEvent => 0xFFFA,
        Interrupt::TimerExp => 0xFFF8,
    }
}

impl Interrupt {
    /// The vector-table address of this interrupt source.
    pub fn vector_addr(self) -> (r: u16)
        ensures
            r == spec_vector_addr(self),
    {
        match self {
            Interrupt::IllInstr => 0xFFFE,
            Interrupt::DivZero => 0xFFFC,
            Interrupt::KeyEvent => 0xFFFA,
            Interrupt::TimerExp => 0xFFF8,
        }
    }
}

/// What delivering an interrupt does to the machine: interrupts are now
/// disabled, `k0` holds the PC that was current, the PC holds the handler
/// word read from the vector table, and nothing else changed.
pub open spec fn dispatch_rel(pre: Cpu, post: Cpu, i: Interrupt) -> bool {
    &&& !post.interrupts_enabled
    &&& post.reg_val(Reg::K0) == pre.pc
    &&& (forall|g: Reg| g != Reg::K0 ==> post.reg_val(g) == pre.reg_val(g))
    &&& post.pc == pre.mem.model().word(spec_vector_addr(i))
    &&& post.regs.wf() == pre.regs.wf()
    &&& post.ir == pre.ir
    &&& post.hi == pre.hi
    &&& post.lo == pre.lo
    &&& post.mem == pre.mem
    &&& post.signals == pre.signals
    &&& post.interrupt_return_address == pre.interrupt_return_address
    &&& post.in_debug_mode == pre.in_debug_mode
    &&& post.breakpoints == pre.breakpoints
    &&& post.rom_src_path == pre.rom_src_path
}

impl Cpu {
    /// Delivers one interrupt: disables interrupts, saves the current PC into
    /// `k0`, and jumps to the handler whose address the vector table holds.
    pub fn send_interrupt(&mut self, interrupt: Interrupt)
        requires
            old(self).wf(),
        ensures
            final(self).wf(),
            dispatch_rel(*old(self), *final(self), interrupt),
    {
        self.interrupts_enabled = false;
        let pc = self.pc;
        self.regs.set(Reg::K0, s16::from_u16(pc));
        let va = interrupt.vector_addr();
        let handler_address = match self.mem.read_s16(va) {
            Ok(v) => v.as_u16(),
            Err(_) => 0,
        };
        self.pc = handler_address;
    }
}

} // verus!
