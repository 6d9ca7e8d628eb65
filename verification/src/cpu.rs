//! The CPU: registers, program counter, instruction register, Hi/Lo, memory,
//! the outbound signal queue, the interrupt state and the breakpoint set.

use vstd::prelude::*;
use crate::dex::{dex_rel, DexErr};
use crate::interrupts::{spec_vector_addr, Interrupt};
use crate::mem::{MemBlock, MemErr, Memory, ROM_SIZE, STACK_INIT, VTTY_BYTES};
use crate::regs::{Reg, RegisterFile};
use crate::word::s16;

verus! {

/// How a logged instruction operand should be rendered.
#[derive(Clone, Copy, Debug)]
pub enum ArgStyle {
    /// As an immediate value.
    Imm,
    /// As a register name.
    Reg,
}

/// A logged instruction operand: a register or an immediate word.
#[derive(Clone, Copy, Debug, PartialEq, Eq, Structural)]
pub enum InstrArg {
    /// A register operand.
    Reg(Reg),
    /// An immediate operand, as the 16-bit word the instruction carries.
    Imm(s16),
}

/// A log event emitted by the engine.
#[derive(Debug)]
pub enum LogMsg {
    /// Once an instruction is decoded, it can be logged with this.
    Instr { size: u16, name: String, args: Vec<(Option<ArgStyle>, InstrArg)> },
    /// Signals that an MMIO read has occurred.
    MmioRead { addr: u16, value: String },
    /// Signals that an MMIO write has occurred.
    MmioWrite { addr: u16, value: String },
    /// A string read out of memory for the command log.
    DebugPuts { addr: u16, value: Vec<u8> },
    /// An error the supervisor should report.
    Error(String),
}

/// A message from the engine to its supervisor.
#[derive(Debug)]
pub enum Signal {
    /// Signals that the CPU should halt.
    Halt,
    /// Requests a log message be printed.
    Log(LogMsg),
    /// Pauses execution of the VM allowing the user to interact with the
    /// debugger.
    Breakpoint,
    /// Signals that an illegal instruction has been executed.
    IllegalInstr,
}

/// A breakpoint set is sorted and duplicate-free.
pub open spec fn spec_bps_wf(s: Seq<u16>) -> bool {
    forall|i: int, j: int| 0 <= i < j < s.len() ==> s[i] < s[j]
}

/// The CPU core.
pub struct Cpu {
    pub regs: RegisterFile,
    /// Program counter.
    pub pc: u16,
    /// Instruction register.
    pub ir: u32,
    /// Hi and Lo registers are used for multiplication and division.
    pub hi: s16,
    pub lo: s16,
    pub mem: Memory,
    /// Signals not yet drained by the supervisor, oldest first.
    pub signals: Vec<Signal>,
    pub interrupt_return_address: u16,
    pub interrupts_enabled: bool,
    pub in_debug_mode: bool,
    /// Instruction addresses at which execution pauses, sorted.
    pub breakpoints: Vec<u16>,
    pub rom_src_path: Option<String>,
}

impl Cpu {
    /// The structural invariant of the machine state.
    pub open spec fn wf(self) -> bool {
        &&& self.regs.wf()
        &&& self.mem.wf()
        &&& spec_bps_wf(self.breakpoints@)
    }

    /// The bit pattern held by a register.
    pub open spec fn reg_val(self, r: Reg) -> u16 {
        self.regs.spec_get(r)
    }

    /// A machine over the given ROM and framebuffer: PC at the start of ROM,
    /// `sp` one below the end of user RAM, interrupts enabled, RAM zeroed.
    pub fn new(rom: MemBlock<ROM_SIZE>, vtty_buf: MemBlock<VTTY_BYTES>) -> (r: Cpu)
        requires
            rom.wf(),
            vtty_buf.wf(),
        ensures
            r.wf(),
            r.pc == Memory::ROM_START,
            r.ir == 0,
            r.hi.bits == 0,
            r.lo.bits == 0,
            r.reg_val(Reg::Sp) == STACK_INIT,
            forall|g: Reg| g != Reg::Sp ==> r.reg_val(g) == 0,
            r.mem.model().rom == rom.mem@,
            r.mem.model().vtty == vtty_buf.mem@,
            forall|i: int| 0 <= i < 55296 ==> r.mem.model().user[i] == 0,
            forall|i: int| 0 <= i < 4096 ==> r.mem.model().kernel[i] == 0,
            r.signals@.len() == 0,
            r.interrupt_return_address == 0,
            r.interrupts_enabled,
            !r.in_debug_mode,
            r.breakpoints@.len() == 0,
            r.rom_src_path is None,
    {
        Cpu {
            regs: RegisterFile::new(STACK_INIT),
            pc: Memory::ROM_START,
            ir: 0,
            hi: s16::zero(),
            lo: s16::zero(),
            mem: Memory::new(rom, vtty_buf),
            signals: Vec::new(),
            interrupt_return_address: 0,
            interrupts_enabled: true,
            in_debug_mode: false,
            breakpoints: Vec::new(),
            rom_src_path: None,
        }
    }

    /// Restores the initial machine state: registers, PC, Hi/Lo and the
    /// interrupt state reset, ROM and RAM zeroed. Breakpoints and undrained
    /// signals are kept; the MMIO devices are left alone.
    pub fn reset(&mut self)
        requires
            old(self).wf(),
        ensures
            final(self).wf(),
            final(self).pc == Memory::ROM_START,
            final(self).ir == 0,
            final(self).hi.bits == 0,
            final(self).lo.bits == 0,
            final(self).reg_val(Reg::Sp) == STACK_INIT,
            forall|g: Reg| g != Reg::Sp ==> final(self).reg_val(g) == 0,
            !final(self).in_debug_mode,
            final(self).interrupt_return_address == 0,
            final(self).interrupts_enabled,
            forall|i: int| 0 <= i < 4096 ==> final(self).mem.model().rom[i] == 0,
            forall|i: int| 0 <= i < 55296 ==> final(self).mem.model().user[i] == 0,
            forall|i: int| 0 <= i < 4096 ==> final(self).mem.model().kernel[i] == 0,
            final(self).mem.model().vtty == old(self).mem.model().vtty,
            final(self).signals == old(self).signals,
            final(self).breakpoints == old(self).breakpoints,
            final(self).rom_src_path == old(self).rom_src_path,
    {
        self.regs.reset(STACK_INIT);
        self.pc = Memory::ROM_START;
        self.ir = 0;
        self.hi = s16::zero();
        self.lo = s16::zero();
        self.in_debug_mode = false;
        self.interrupt_return_address = 0;
        self.interrupts_enabled = true;
        self.mem.reset();
    }

    /// Replaces the ROM image.
    pub fn load_rom(&mut self, rom: MemBlock<ROM_SIZE>)
        requires
            old(self).wf(),
            rom.wf(),
        ensures
            final(self).wf(),
            final(self).mem.model().rom == rom.mem@,
            final(self).mem.model().vtty == old(self).mem.model().vtty,
            final(self).mem.model().user == old(self).mem.model().user,
            final(self).mem.model().kernel == old(self).mem.model().kernel,
            *final(self) == (Cpu { mem: final(self).mem, ..*old(self) }),
    {
        self.mem.rom = rom;
    }

    /// The machine with execution starting at `start_addr`.
    pub fn with_start_addr(self, start_addr: u16) -> (r: Cpu)
        ensures
            r == (Cpu { pc: start_addr, ..self }),
    {
        Cpu { pc: start_addr, ..self }
    }

    /// The machine with debug mode set or cleared.
    pub fn in_debug_mode(self, debug: bool) -> (r: Cpu)
        ensures
            r == (Cpu { in_debug_mode: debug, ..self }),
    {
        Cpu { in_debug_mode: debug, ..self }
    }

    /// The machine with a source path recorded for breakpoint messages.
    pub fn with_rom_src_path(self, rom_src_path: String) -> (r: Cpu)
        ensures
            r == (Cpu { rom_src_path: Some(rom_src_path), ..self }),
    {
        Cpu { rom_src_path: Some(rom_src_path), ..self }
    }

    /// Emits a signal to the supervisor queue.
    pub fn signal(&mut self, sig: Signal)
        ensures
            *final(self) == (Cpu { signals: final(self).signals, ..*old(self) }),
            final(self).signals@ == old(self).signals@.push(sig),
    {
        self.signals.push(sig);
    }

    /// Emits a log message to the supervisor queue.
    pub fn log(&mut self, msg: LogMsg)
        ensures
            *final(self) == (Cpu { signals: final(self).signals, ..*old(self) }),
            final(self).signals@ == old(self).signals@.push(Signal::Log(msg)),
    {
        self.signal(Signal::Log(msg));
    }

    /// Hands the queued signals to the supervisor, oldest first, and empties
    /// the queue.
    pub fn take_signals(&mut self) -> (r: Vec<Signal>)
        ensures
            *final(self) == (Cpu { signals: final(self).signals, ..*old(self) }),
            final(self).signals@.len() == 0,
            r@ == old(self).signals@,
    {
        let mut out: Vec<Signal> = Vec::new();
        core::mem::swap(&mut out, &mut self.signals);
        out
    }

    /// Reads the word at `base + offset` through the segment dispatcher.
    pub fn mem_read_s16(&self, addr_base: u16, addr_offset: i16) -> (r: Result<s16, MemErr>)
        requires
            self.wf(),
        ensures
            ({
                let ea = addr_base + addr_offset;
                &&& (r is Ok <==> 0 <= ea <= 0xFFFF && crate::mem::MemModel::word_readable(
                    ea as u16,
                ))
                &&& (r matches Ok(v) ==> v.bits == self.mem.model().word(ea as u16))
                &&& (!(0 <= ea <= 0xFFFF) ==> r == Err::<s16, MemErr>(MemErr::AddressOverflow))
                &&& (0 <= ea < 2048 ==> r == Err::<s16, MemErr>(
                    MemErr::UnimplementedMmio(ea as u16),
                ))
                &&& (ea == 0xFFFF ==> r == Err::<s16, MemErr>(MemErr::AddressOverflow))
            }),
    {
        let ea = self.mem.compute_offset(addr_base, addr_offset)?;
        self.mem.read_s16(ea)
    }

    /// Reads the byte at `base + offset` through the segment dispatcher.
    pub fn mem_read_u8(&self, addr_base: u16, addr_offset: i16) -> (r: Result<u8, MemErr>)
        requires
            self.wf(),
        ensures
            ({
                let ea = addr_base + addr_offset;
                &&& (r is Ok <==> 0 <= ea <= 0xFFFF && crate::mem::MemModel::byte_readable(
                    ea as u16,
                ))
                &&& (r matches Ok(v) ==> v == self.mem.model().byte(ea as u16))
                &&& (!(0 <= ea <= 0xFFFF) ==> r == Err::<u8, MemErr>(MemErr::AddressOverflow))
                &&& (0 <= ea <= 0xFFFF && !crate::mem::MemModel::byte_readable(ea as u16) ==> r
                    == Err::<u8, MemErr>(MemErr::UnimplementedMmio(ea as u16)))
            }),
    {
        let ea = self.mem.compute_offset(addr_base, addr_offset)?;
        self.mem.read_u8(ea)
    }

    /// Writes the word at `base + offset` through the segment dispatcher.
    pub fn mem_write_s16(&mut self, addr_base: u16, addr_offset: i16, value: s16) -> (r: Result<
        (),
        MemErr,
    >)
        requires
            old(self).wf(),
        ensures
            final(self).wf(),
            *final(self) == (Cpu { mem: final(self).mem, ..*old(self) }),
            ({
                let ea = addr_base + addr_offset;
                &&& (r is Ok <==> 0 <= ea <= 0xFFFF && crate::mem::MemModel::word_writable(
                    ea as u16,
                ))
                &&& (r is Ok ==> final(self).mem.model() == old(self).mem.model().write_word(
                    ea as u16,
                    value.bits,
                ))
                &&& (r is Err ==> final(self).mem == old(self).mem)
                &&& (!(0 <= ea <= 0xFFFF) ==> r == Err::<(), MemErr>(MemErr::AddressOverflow))
            }),
    {
        let ea = match self.mem.compute_offset(addr_base, addr_offset) {
            Ok(a) => a,
            Err(e) => {
                return Err(e);
            },
        };
        self.mem.write_s16(ea, value)
    }

    /// Writes the byte at `base + offset` through the segment dispatcher.
    pub fn mem_write_u8(&mut self, addr_base: u16, addr_offset: i16, value: u8) -> (r: Result<
        (),
        MemErr,
    >)
        requires
            old(self).wf(),
        ensures
            final(self).wf(),
            *final(self) == (Cpu { mem: final(self).mem, ..*old(self) }),
            ({
                let ea = addr_base + addr_offset;
                &&& (r is Ok <==> 0 <= ea <= 0xFFFF && crate::mem::MemModel::byte_writable(
                    ea as u16,
                ))
                &&& (r is Ok ==> final(self).mem.model() == old(self).mem.model().write_byte(
                    ea as u16,
                    value,
                ))
                &&& (r is Err ==> final(self).mem == old(self).mem)
                &&& (!(0 <= ea <= 0xFFFF) ==> r == Err::<(), MemErr>(MemErr::AddressOverflow))
            }),
    {
        let ea = match self.mem.compute_offset(addr_base, addr_offset) {
            Ok(a) => a,
            Err(e) => {
                return Err(e);
            },
        };
        self.mem.write_u8(ea, value)
    }

    /// Loads the instruction register with the two big-endian words at the
    /// program counter: `ir = (word(pc) << 16) | word(pc + 2)`.
    pub fn fetch(&mut self) -> (r: Result<(), MemErr>)
        requires
            old(self).wf(),
        ensures
            final(self).wf(),
            *final(self) == (Cpu { ir: final(self).ir, ..*old(self) }),
            r is Ok <==> 2048 <= old(self).pc <= 0xFFFC,
            r matches Ok(_) ==> final(self).ir == old(self).mem.model().word(old(self).pc)
                * 0x10000 + old(self).mem.model().word((old(self).pc + 2) as u16),
            r is Err ==> final(self).ir == old(self).ir,
    {
        if self.pc > 0xFFFC {
            return Err(MemErr::AddressOverflow);
        }
        let lo = match self.mem.read_s16(self.pc + 2) {
            Ok(v) => v.as_u16() as u32,
            Err(e) => {
                return Err(e);
            },
        };
        let hi = match self.mem.read_s16(self.pc) {
            Ok(v) => v.as_u16() as u32,
            Err(e) => {
                return Err(e);
            },
        };
        self.ir = hi * 0x10000 + lo;
        Ok(())
    }

    /// Whether `addr` is in the breakpoint set.
    pub fn breakpoints_contain(&self, addr: u16) -> (r: bool)
        ensures
            r == self.breakpoints@.contains(addr),
    {
        let mut i: usize = 0;
        while i < self.breakpoints.len()
            invariant
                i <= self.breakpoints@.len(),
                forall|k: int| 0 <= k < i ==> self.breakpoints@[k] != addr,
            decreases self.breakpoints@.len() - i,
        {
            if self.breakpoints[i] == addr {
                return true;
            }
            i = i + 1;
        }
        false
    }

    /// Adds `addr` to the breakpoint set, keeping it sorted; adding an
    /// address already present changes nothing.
    pub fn add_breakpoint(&mut self, addr: u16)
        requires
            spec_bps_wf(old(self).breakpoints@),
        ensures
            *final(self) == (Cpu { breakpoints: final(self).breakpoints, ..*old(self) }),
            spec_bps_wf(final(self).breakpoints@),
            final(self).breakpoints@.contains(addr),
            forall|x: u16|
                #[trigger] final(self).breakpoints@.contains(x) <==> (old(
                    self,
                ).breakpoints@.contains(x) || x == addr),
    {
        let mut i: usize = 0;
        while i < self.breakpoints.len() && self.breakpoints[i] < addr
            invariant
                i <= self.breakpoints@.len(),
                self.breakpoints == old(self).breakpoints,
                forall|k: int| 0 <= k < i ==> self.breakpoints@[k] < addr,
            decreases self.breakpoints@.len() - i,
        {
            i = i + 1;
        }
        if i < self.breakpoints.len() && self.breakpoints[i] == addr {
            proof {
                assert(self.breakpoints@[i as int] == addr);
                assert(self.breakpoints@.contains(addr));
            }
            return ;
        }
        proof {
            assert(i == self.breakpoints@.len() || self.breakpoints@[i as int] > addr);
        }
        self.breakpoints.insert(i, addr);
        proof {
            let s0 = old(self).breakpoints@;
            let s1 = self.breakpoints@;
            assert(s1 == s0.insert(i as int, addr));
            assert forall|a: int, b: int| 0 <= a < b < s1.len() implies s1[a] < s1[b] by {
                if b < i {
                    assert(s1[a] == s0[a] && s1[b] == s0[b]);
                } else if a < i && b == i {
                    assert(s1[a] == s0[a] && s1[b] == addr);
                } else if a < i && b > i {
                    assert(s1[a] == s0[a] && s1[b] == s0[b - 1]);
                    assert(s0[a] < addr);
                    assert(b - 1 >= i);
                    assert(s0[b - 1] >= s0[i as int]);
                } else if a == i && b > i {
                    assert(s1[a] == addr && s1[b] == s0[b - 1]);
                    assert(b - 1 >= i && i < s0.len());
                    assert(s0[b - 1] >= s0[i as int]);
                } else {
                    assert(s1[a] == s0[a - 1] && s1[b] == s0[b - 1]);
                }
            }
            assert(s1[i as int] == addr);
            assert(s1.contains(addr));
            assert forall|x: u16| s1.contains(x) implies (s0.contains(x) || x == addr) by {
                let k = choose|k: int| 0 <= k < s1.len() && s1[k] == x;
                if k < i {
                    assert(s0[k] == x);
                } else if k > i {
                    assert(s0[k - 1] == x);
                }
            }
            assert forall|x: u16| (s0.contains(x) || x == addr) implies s1.contains(x) by {
                if s0.contains(x) {
                    let k = choose|k: int| 0 <= k < s0.len() && s0[k] == x;
                    if k < i {
                        assert(s1[k] == x);
                    } else {
                        assert(s1[k + 1] == x);
                    }
                }
            }
        }
    }
}

/// What the first half of a step does: when interrupts are enabled and one is
/// pending it is dispatched, the instruction register is loaded from the
/// (possibly new) PC, and debug mode is entered if the PC is a breakpoint.
/// The fetch fails exactly when the PC is not a fetchable address.
pub open spec fn prepare_rel(
    pre: Cpu,
    post: Cpu,
    pending: Option<Interrupt>,
    r: Result<(), MemErr>,
) -> bool {
    let dispatched = pre.interrupts_enabled && pending is Some;
    let pc1 = if dispatched {
        pre.mem.model().word(spec_vector_addr(pending->0))
    } else {
        pre.pc
    };
    &&& post.mem == pre.mem
    &&& post.hi == pre.hi
    &&& post.lo == pre.lo
    &&& post.signals == pre.signals
    &&& post.breakpoints == pre.breakpoints
    &&& post.rom_src_path == pre.rom_src_path
    &&& post.interrupt_return_address == pre.interrupt_return_address
    &&& post.regs.wf() == pre.regs.wf()
    &&& post.interrupts_enabled == (if dispatched {
        false
    } else {
        pre.interrupts_enabled
    })
    &&& (if dispatched {
        post.reg_val(Reg::K0) == pre.pc && (forall|g: Reg|
            g != Reg::K0 ==> post.reg_val(g) == pre.reg_val(g))
    } else {
        forall|g: Reg| post.reg_val(g) == pre.reg_val(g)
    })
    &&& post.pc == pc1
    &&& (r is Ok <==> 2048 <= pc1 <= 0xFFFC)
    &&& (r is Ok ==> post.ir == pre.mem.model().word(pc1) * 0x10000 + pre.mem.model().word(
        (pc1 + 2) as u16,
    ) && post.in_debug_mode == (pre.in_debug_mode || pre.breakpoints@.contains(pc1)))
    &&& (r is Err ==> post.ir == pre.ir && post.in_debug_mode == pre.in_debug_mode)
}

/// What a whole step does: the preparation half, then — when the fetch
/// succeeded — one decode-and-execute step from the prepared state.
pub open spec fn step_rel(
    pre: Cpu,
    post: Cpu,
    pending: Option<Interrupt>,
    r: Result<(), DexErr>,
) -> bool {
    ||| (exists|e: MemErr|
        #[trigger] prepare_rel(pre, post, pending, Err(e)) && r == Err::<(), DexErr>(
            DexErr::Mem(e),
        ))
    ||| (exists|mid: Cpu| #[trigger] prepare_rel(pre, mid, pending, Ok(())) && dex_rel(mid, post, r))
}

impl Cpu {
    /// The first half of a step: deliver at most one pending interrupt, fetch
    /// the instruction word pair at the PC, and enter debug mode if the PC is
    /// in the breakpoint set. The caller runs its debugger prompt when
    /// `in_debug_mode` holds afterwards, then executes the instruction.
    pub fn step_prepare(&mut self, pending_interrupt: Option<Interrupt>) -> (r: Result<
        (),
        MemErr,
    >)
        requires
            old(self).wf(),
        ensures
            final(self).wf(),
            prepare_rel(*old(self), *final(self), pending_interrupt, r),
    {
        if self.interrupts_enabled {
            // If an interrupt is pending, deliver ONE (1) to the CPU.
            if let Some(interrupt) = pending_interrupt {
                self.send_interrupt(interrupt);
            }
        }
        match self.fetch() {
            Ok(()) => {},
            Err(e) => {
                return Err(e);
            },
        }
        let pc = self.pc;
        if self.breakpoints_contain(pc) {
            self.in_debug_mode = true;
        }
        Ok(())
    }

    /// One whole step of the machine: interrupt delivery, fetch, breakpoint
    /// check, then decode and execute.
    pub fn step(&mut self, pending_interrupt: Option<Interrupt>) -> (r: Result<(), DexErr>)
        requires
            old(self).wf(),
        ensures
            final(self).wf(),
            step_rel(*old(self), *final(self), pending_interrupt, r),
    {
        match self.step_prepare(pending_interrupt) {
            Ok(()) => {},
            Err(e) => {
                return Err(DexErr::Mem(e));
            },
        }
        let ghost mid = *self;
        let r = self.decode_and_execute();
        proof {
            assert(prepare_rel(*old(self), mid, pending_interrupt, Ok(())));
        }
        r
    }
}

} // verus!
