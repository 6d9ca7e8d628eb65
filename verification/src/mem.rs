//! The segmented memory subsystem: MMIO, ROM, user RAM and kernel RAM over a
//! flat 16-bit address space, with big-endian word accesses.

use vstd::prelude::*;
use crate::word::s16;

verus! {

pub const KIB: usize = 1024;

pub const ROM_SIZE: usize = 4 * KIB;

pub const USER_MEM_SIZE: usize = 54 * KIB;

pub const KERNEL_MEM_SIZE: usize = 4 * KIB;

pub const VTTY_COLS: usize = 80;

pub const VTTY_ROWS: usize = 24;

pub const VTTY_BYTES: usize = VTTY_COLS * VTTY_ROWS;

/// First MMIO address backed by the VTTY framebuffer.
pub const VTTY_START: u16 = 128;

/// Last MMIO address backed by the VTTY framebuffer.
pub const VTTY_END: u16 = 2047;

/// Initial stack pointer: one below the last user-RAM address.
pub const STACK_INIT: u16 = 61438;

/// A memory access that the machine cannot perform.
#[derive(Clone, Copy, Debug, PartialEq, Eq, Structural)]
pub enum MemErr {
    /// A read or write at an MMIO address that no device backs.
    UnimplementedMmio(u16),
    /// An effective address left the 16-bit address space.
    AddressOverflow,
}

/// A byte-addressable block of storage of `N` bytes.
pub struct MemBlock<const N: usize> {
    pub mem: Vec<u8>,
}

impl<const N: usize> MemBlock<N> {
    /// The block holds exactly `N` bytes.
    pub open spec fn wf(self) -> bool {
        self.mem@.len() == N
    }

    /// A block of `N` zero bytes.
    pub fn new_zeroed() -> (r: MemBlock<N>)
        ensures
            r.wf(),
            forall|i: int| 0 <= i < N ==> r.mem@[i] == 0,
    {
        let mut mem: Vec<u8> = Vec::new();
        let mut i: usize = 0;
        while i < N
            invariant
                i <= N,
                mem@.len() == i,
                forall|k: int| 0 <= k < i ==> mem@[k] == 0,
            decreases N - i,
        {
            mem.push(0);
            i = i + 1;
        }
        MemBlock { mem }
    }

    /// A block holding `vec`, zero-padded to `N` bytes; `None` when `vec`
    /// does not fit.
    pub fn from_vec(vec: Vec<u8>) -> (r: Option<MemBlock<N>>)
        ensures
            r is Some <==> vec@.len() <= N,
            r matches Some(b) ==> b.wf() && (forall|i: int|
                0 <= i < N ==> b.mem@[i] == (if i < vec@.len() {
                    vec@[i]
                } else {
                    0
                })),
    {
        if vec.len() > N {
            return None;
        }
        let ghost orig = vec@;
        let mut mem = vec;
        while mem.len() < N
            invariant
                orig.len() <= mem@.len() <= N,
                mem@.len() >= orig.len(),
                forall|k: int| 0 <= k < orig.len() ==> mem@[k] == orig[k],
                forall|k: int| orig.len() <= k < mem@.len() ==> mem@[k] == 0,
            decreases N - mem@.len(),
        {
            mem.push(0);
        }
        Some(MemBlock { mem })
    }

    /// Reads the byte at `addr`.
    pub fn read_u8(&self, addr: u16) -> (r: u8)
        requires
            self.wf(),
            (addr as int) < N,
        ensures
            r == self.mem@[addr as int],
    {
        self.mem[addr as usize]
    }

    /// Overwrites the byte at `addr`.
    pub fn write_u8(&mut self, addr: u16, value: u8)
        requires
            old(self).wf(),
            (addr as int) < N,
        ensures
            final(self).wf(),
            final(self).mem@ == old(self).mem@.update(addr as int, value),
    {
        self.mem[addr as usize] = value;
    }

    /// Reads the big-endian word stored at `addr` and `addr + 1`.
    pub fn read_s16(&self, addr: u16) -> (r: s16)
        requires
            self.wf(),
            addr as int + 1 < N,
        ensures
            r.bits == self.mem@[addr as int] * 256 + self.mem@[addr as int + 1],
    {
        let hi = self.mem[addr as usize];
        let lo = self.mem[addr as usize + 1];
        s16::from_u16((hi as u16) * 256 + (lo as u16))
    }

    /// Stores a word big-endian: the high byte at `addr`, the low at `addr + 1`.
    pub fn write_s16(&mut self, addr: u16, value: s16)
        requires
            old(self).wf(),
            addr as int + 1 < N,
        ensures
            final(self).wf(),
            final(self).mem@ == old(self).mem@.update(addr as int, (value.bits / 256) as u8)
                .update(addr as int + 1, (value.bits % 256) as u8),
    {
        let bits = value.as_u16();
        let hi = (bits / 256) as u8;
        let lo = (bits % 256) as u8;
        self.mem[addr as usize] = hi;
        self.mem[addr as usize + 1] = lo;
    }
}

impl<const N: usize> Default for MemBlock<N> {
    /// The default block is all zeros.
    fn default() -> (r: MemBlock<N>)
        ensures
            r.wf(),
            forall|i: int| 0 <= i < N ==> r.mem@[i] == 0,
    {
        MemBlock::new_zeroed()
    }
}

/// The MMIO device table. Addresses `VTTY_START..=VTTY_END` are backed by the
/// VTTY framebuffer; address 1 is a reserved control byte that swallows
/// writes; every other address is unimplemented.
pub struct Mmio {
    pub vtty_buf: MemBlock<VTTY_BYTES>,
}

impl Mmio {
    /// The size in bytes of the MMIO address range.
    pub const SIZE: u16 = 2048;

    pub open spec fn wf(self) -> bool {
        self.vtty_buf.wf()
    }

    /// A device table over the given framebuffer.
    pub fn new(vtty_buf: MemBlock<VTTY_BYTES>) -> (r: Mmio)
        ensures
            r.vtty_buf == vtty_buf,
    {
        Mmio { vtty_buf }
    }

    /// Reads a byte from a device; only the framebuffer is readable.
    pub fn read_u8(&self, addr: u16) -> (r: Result<u8, MemErr>)
        requires
            self.wf(),
            addr < 2048,
        ensures
            r is Ok <==> VTTY_START <= addr <= VTTY_END,
            r matches Ok(v) ==> v == self.vtty_buf.mem@[addr - VTTY_START],
            r is Err ==> r == Err::<u8, MemErr>(MemErr::UnimplementedMmio(addr)),
    {
        if VTTY_START <= addr && addr <= VTTY_END {
            Ok(self.vtty_buf.read_u8(addr - VTTY_START))
        } else {
            Err(MemErr::UnimplementedMmio(addr))
        }
    }

    /// Writes a byte to a device: the framebuffer stores it, the control byte
    /// at address 1 discards it, and any other address is unimplemented.
    pub fn write_u8(&mut self, addr: u16, value: u8) -> (r: Result<(), MemErr>)
        requires
            old(self).wf(),
            addr < 2048,
        ensures
            final(self).wf(),
            r is Ok <==> (addr == 1 || VTTY_START <= addr <= VTTY_END),
            addr == 1 ==> *final(self) == *old(self),
            VTTY_START <= addr <= VTTY_END ==> final(self).vtty_buf.mem@ == old(
                self,
            ).vtty_buf.mem@.update(addr - VTTY_START, value),
            r is Err ==> *final(self) == *old(self) && r == Err::<(), MemErr>(
                MemErr::UnimplementedMmio(addr),
            ),
    {
        if addr == 1 {
            Ok(())
        } else if VTTY_START <= addr && addr <= VTTY_END {
            self.vtty_buf.write_u8(addr - VTTY_START, value);
            Ok(())
        } else {
            Err(MemErr::UnimplementedMmio(addr))
        }
    }

    /// No MMIO device supports 16-bit reads.
    pub fn read_s16(&self, addr: u16) -> (r: Result<s16, MemErr>)
        ensures
            r == Err::<s16, MemErr>(MemErr::UnimplementedMmio(addr)),
    {
        Err(MemErr::UnimplementedMmio(addr))
    }

    /// Writes a word to a device. The framebuffer stores the pair
    /// little-endian — the low byte at `addr`, the high byte at `addr + 1` —
    /// which is part of the device contract and differs from main memory.
    pub fn write_s16(&mut self, addr: u16, value: s16) -> (r: Result<(), MemErr>)
        requires
            old(self).wf(),
            addr < 2048,
        ensures
            final(self).wf(),
            r is Ok <==> (addr == 1 || VTTY_START <= addr && addr + 1 <= VTTY_END),
            addr == 1 ==> *final(self) == *old(self),
            (VTTY_START <= addr && addr + 1 <= VTTY_END) ==> final(self).vtty_buf.mem@ == old(
                self,
            ).vtty_buf.mem@.update(addr - VTTY_START, (value.bits % 256) as u8).update(
                addr + 1 - VTTY_START,
                (value.bits / 256) as u8,
            ),
            r is Err ==> *final(self) == *old(self) && r == Err::<(), MemErr>(
                MemErr::UnimplementedMmio(addr),
            ),
    {
        if addr == 1 {
            Ok(())
        } else if VTTY_START <= addr && addr < VTTY_END {
            let bits = value.as_u16();
            let lo = (bits % 256) as u8;
            let hi = (bits / 256) as u8;
            self.vtty_buf.write_u8(addr - VTTY_START, lo);
            self.vtty_buf.write_u8(addr + 1 - VTTY_START, hi);
            Ok(())
        } else {
            Err(MemErr::UnimplementedMmio(addr))
        }
    }
}

/// The contents of every addressable byte of the machine, as mathematical
/// sequences: the model that the memory contracts are stated over.
#[verifier::ext_equal]
pub ghost struct MemModel {
    pub vtty: Seq<u8>,
    pub rom: Seq<u8>,
    pub user: Seq<u8>,
    pub kernel: Seq<u8>,
}

impl MemModel {
    pub open spec fn wf(self) -> bool {
        &&& self.vtty.len() == VTTY_BYTES
        &&& self.rom.len() == ROM_SIZE
        &&& self.user.len() == USER_MEM_SIZE
        &&& self.kernel.len() == KERNEL_MEM_SIZE
    }

    /// Whether a byte read at `addr` reaches storage.
    pub open spec fn byte_readable(addr: u16) -> bool {
        VTTY_START <= addr
    }

    /// Whether a byte write at `addr` is accepted. The control byte at
    /// address 1 and the ROM segment accept a write but discard it: ROM is
    /// immutable after load.
    pub open spec fn byte_writable(addr: u16) -> bool {
        addr == 1 || VTTY_START <= addr
    }

    /// The byte stored at `addr` (meaningful where `byte_readable`).
    pub open spec fn byte(self, addr: u16) -> u8 {
        if addr < 2048 {
            self.vtty[addr - VTTY_START]
        } else if addr < 6144 {
            self.rom[addr - 2048]
        } else if addr < 61440 {
            self.user[addr - 6144]
        } else {
            self.kernel[addr - 61440]
        }
    }

    /// The model after a byte write at `addr` (meaningful where
    /// `byte_writable`). Writes to the control byte and to ROM change
    /// nothing: ROM is immutable after load.
    pub open spec fn write_byte(self, addr: u16, v: u8) -> MemModel {
        if addr == 1 {
            self
        } else if addr < 2048 {
            MemModel { vtty: self.vtty.update(addr - VTTY_START, v), ..self }
        } else if addr < 6144 {
            self
        } else if addr < 61440 {
            MemModel { user: self.user.update(addr - 6144, v), ..self }
        } else {
            MemModel { kernel: self.kernel.update(addr - 61440, v), ..self }
        }
    }

    /// Whether a word read at `addr` reaches storage: MMIO does not support
    /// word reads, and the last byte of the address space has no pair.
    pub open spec fn word_readable(addr: u16) -> bool {
        2048 <= addr < 0xFFFF
    }

    /// Whether a word write at `addr` is accepted.
    pub open spec fn word_writable(addr: u16) -> bool {
        ||| addr == 1
        ||| VTTY_START <= addr && addr + 1 <= VTTY_END
        ||| 2048 <= addr < 0xFFFF
    }

    /// The big-endian word read at `addr` (meaningful where `word_readable`).
    pub open spec fn word(self, addr: u16) -> u16 {
        (self.byte(addr) * 256 + self.byte((addr + 1) as u16)) as u16
    }

    /// The model after a word write at `addr` (meaningful where
    /// `word_writable`). Main memory stores the pair big-endian, each byte
    /// discarded where it falls in ROM; the VTTY framebuffer stores it
    /// little-endian.
    pub open spec fn write_word(self, addr: u16, w: u16) -> MemModel {
        if addr == 1 {
            self
        } else if addr < 2048 {
            self.write_byte(addr, (w % 256) as u8).write_byte((addr + 1) as u16, (w / 256) as u8)
        } else {
            self.write_byte(addr, (w / 256) as u8).write_byte((addr + 1) as u16, (w % 256) as u8)
        }
    }
}

/// The segment dispatcher over MMIO, ROM, user RAM and kernel RAM.
pub struct Memory {
    pub mmio: Mmio,
    pub rom: MemBlock<ROM_SIZE>,
    pub user: MemBlock<USER_MEM_SIZE>,
    pub kernel: MemBlock<KERNEL_MEM_SIZE>,
}

impl Memory {
    pub const MMIO_START: u16 = 0;

    pub const MMIO_END: u16 = 2047;

    pub const ROM_START: u16 = 2048;

    pub const ROM_END: u16 = 6143;

    pub const USER_START: u16 = 6144;

    pub const USER_END: u16 = 61439;

    pub const KERNEL_START: u16 = 61440;

    pub open spec fn wf(self) -> bool {
        &&& self.mmio.wf()
        &&& self.rom.wf()
        &&& self.user.wf()
        &&& self.kernel.wf()
    }

    /// The mathematical contents of this memory.
    pub open spec fn model(self) -> MemModel {
        MemModel {
            vtty: self.mmio.vtty_buf.mem@,
            rom: self.rom.mem@,
            user: self.user.mem@,
            kernel: self.kernel.mem@,
        }
    }

    /// A memory with the given ROM and framebuffer and zeroed RAM.
    pub fn new(rom: MemBlock<ROM_SIZE>, vtty_buf: MemBlock<VTTY_BYTES>) -> (r: Memory)
        requires
            rom.wf(),
            vtty_buf.wf(),
        ensures
            r.wf(),
            r.model().rom == rom.mem@,
            r.model().vtty == vtty_buf.mem@,
            forall|i: int| 0 <= i < USER_MEM_SIZE ==> r.model().user[i] == 0,
            forall|i: int| 0 <= i < KERNEL_MEM_SIZE ==> r.model().kernel[i] == 0,
    {
        Memory {
            mmio: Mmio::new(vtty_buf),
            rom,
            user: MemBlock::new_zeroed(),
            kernel: MemBlock::new_zeroed(),
        }
    }

    /// Zeroes ROM and RAM; the MMIO devices are left alone.
    pub fn reset(&mut self)
        ensures
            final(self).wf() == old(self).mmio.wf(),
            final(self).mmio == old(self).mmio,
            forall|i: int| 0 <= i < ROM_SIZE ==> final(self).model().rom[i] == 0,
            forall|i: int| 0 <= i < USER_MEM_SIZE ==> final(self).model().user[i] == 0,
            forall|i: int| 0 <= i < KERNEL_MEM_SIZE ==> final(self).model().kernel[i] == 0,
    {
        self.rom = MemBlock::new_zeroed();
        self.user = MemBlock::new_zeroed();
        self.kernel = MemBlock::new_zeroed();
    }

    /// The effective address for base + offset accesses: sign-extend the
    /// offset, add in 32 bits, and require the sum to stay a 16-bit address.
    pub fn compute_offset(&self, addr_base: u16, addr_offset: i16) -> (r: Result<u16, MemErr>)
        ensures
            r is Ok <==> 0 <= addr_base + addr_offset <= 0xFFFF,
            r matches Ok(a) ==> a == addr_base + addr_offset,
            r is Err ==> r == Err::<u16, MemErr>(MemErr::AddressOverflow),
    {
        let sum: i32 = addr_base as i32 + addr_offset as i32;
        if 0 <= sum && sum <= 0xFFFF {
            Ok(sum as u16)
        } else {
            Err(MemErr::AddressOverflow)
        }
    }

    /// Reads the byte at `addr`, dispatching on its segment.
    pub fn read_u8(&self, addr: u16) -> (r: Result<u8, MemErr>)
        requires
            self.wf(),
        ensures
            r is Ok <==> MemModel::byte_readable(addr),
            r matches Ok(v) ==> v == self.model().byte(addr),
            r is Err ==> r == Err::<u8, MemErr>(MemErr::UnimplementedMmio(addr)),
    {
        if addr <= Self::MMIO_END {
            self.mmio.read_u8(addr)
        } else if addr <= Self::ROM_END {
            Ok(self.rom.read_u8(addr - Self::ROM_START))
        } else if addr <= Self::USER_END {
            Ok(self.user.read_u8(addr - Self::USER_START))
        } else {
            Ok(self.kernel.read_u8(addr - Self::KERNEL_START))
        }
    }

    /// Writes the byte at `addr`, dispatching on its segment. ROM is
    /// immutable after load: a store in the ROM range is accepted and
    /// discarded.
    pub fn write_u8(&mut self, addr: u16, value: u8) -> (r: Result<(), MemErr>)
        requires
            old(self).wf(),
        ensures
            final(self).wf(),
            r is Ok <==> MemModel::byte_writable(addr),
            r is Ok ==> final(self).model() == old(self).model().write_byte(addr, value),
            r is Err ==> *final(self) == *old(self) && r == Err::<(), MemErr>(
                MemErr::UnimplementedMmio(addr),
            ),
    {
        if addr <= Self::MMIO_END {
            let r = self.mmio.write_u8(addr, value);
            proof {
                if MemModel::byte_writable(addr) {
                    assert(self.model() =~= old(self).model().write_byte(addr, value));
                }
            }
            r
        } else if addr <= Self::ROM_END {
            proof {
                assert(self.model() =~= old(self).model().write_byte(addr, value));
            }
            Ok(())
        } else if addr <= Self::USER_END {
            self.user.write_u8(addr - Self::USER_START, value);
            proof {
                assert(self.model() =~= old(self).model().write_byte(addr, value));
            }
            Ok(())
        } else {
            self.kernel.write_u8(addr - Self::KERNEL_START, value);
            proof {
                assert(self.model() =~= old(self).model().write_byte(addr, value));
            }
            Ok(())
        }
    }

    /// Reads the big-endian word at `addr`: a pair of byte accesses at `addr`
    /// and `addr + 1`. MMIO does not support word reads.
    pub fn read_s16(&self, addr: u16) -> (r: Result<s16, MemErr>)
        requires
            self.wf(),
        ensures
            r is Ok <==> MemModel::word_readable(addr),
            r matches Ok(v) ==> v.bits == self.model().word(addr),
            addr < 2048 ==> r == Err::<s16, MemErr>(MemErr::UnimplementedMmio(addr)),
            addr == 0xFFFF ==> r == Err::<s16, MemErr>(MemErr::AddressOverflow),
    {
        if addr < Self::ROM_START {
            self.mmio.read_s16(addr)
        } else if addr == 0xFFFF {
            Err(MemErr::AddressOverflow)
        } else {
            let hi = self.read_u8(addr).unwrap();
            let lo = self.read_u8(addr + 1).unwrap();
            Ok(s16::from_u16((hi as u16) * 256 + (lo as u16)))
        }
    }

    /// Writes the word at `addr`. Main memory stores it big-endian as a pair
    /// of byte accesses, each discarded where it falls in ROM; within MMIO
    /// the device contract applies instead.
    pub fn write_s16(&mut self, addr: u16, value: s16) -> (r: Result<(), MemErr>)
        requires
            old(self).wf(),
        ensures
            final(self).wf(),
            r is Ok <==> MemModel::word_writable(addr),
            r is Ok ==> final(self).model() == old(self).model().write_word(addr, value.bits),
            r is Err ==> *final(self) == *old(self),
            r is Err && addr < 2048 ==> r == Err::<(), MemErr>(MemErr::UnimplementedMmio(addr)),
            r is Err && addr >= 2048 ==> r == Err::<(), MemErr>(MemErr::AddressOverflow),
    {
        if addr < Self::ROM_START {
            let r = self.mmio.write_s16(addr, value);
            proof {
                if MemModel::word_writable(addr) {
                    assert(self.model() =~= old(self).model().write_word(addr, value.bits));
                }
            }
            r
        } else if addr == 0xFFFF {
            Err(MemErr::AddressOverflow)
        } else {
            let bits = value.as_u16();
            let hi = (bits / 256) as u8;
            let lo = (bits % 256) as u8;
            let _ = self.write_u8(addr, hi);
            let _ = self.write_u8(addr + 1, lo);
            proof {
                assert(self.model() =~= old(self).model().write_word(addr, value.bits));
            }
            Ok(())
        }
    }
}

} // verus!
