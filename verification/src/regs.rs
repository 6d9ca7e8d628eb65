//! The register file: sixteen named registers, index 0 hard-wired to zero.

use vstd::prelude::*;
use crate::word::s16;

verus! {

/// A register name. The numeric codes 0..15, in declaration order, are part
/// of the ABI and appear in instruction encodings.
#[derive(Clone, Copy, Debug, PartialEq, Eq, Structural)]
pub enum Reg {
    Zero,
    Rv,
    Ra,
    A0,
    A1,
    A2,
    S0,
    S1,
    S2,
    T0,
    T1,
    T2,
    K0,
    K1,
    Gp,
    Sp,
}

/// The ABI code of a register.
pub open spec fn spec_reg_code(r: Reg) -> u8 {
    match r {
        Reg::Zero => 0,
        Reg::Rv => 1,
        Reg::Ra => 2,
        Reg::A0 => 3,
        Reg::A1 => 4,
        Reg::A2 => 5,
        Reg::S0 => 6,
        Reg::S1 => 7,
        Reg::S2 => 8,
        Reg::T0 => 9,
        Reg::T1 => 10,
        Reg::T2 => 11,
        Reg::K0 => 12,
        Reg::K1 => 13,
        Reg::Gp => 14,
        Reg::Sp => 15,
    }
}

/// The register with the given ABI code, if any.
pub open spec fn spec_reg_from_code(c: u8) -> Option<Reg> {
    if c == 0 {
        Some(Reg::Zero)
    } else if c == 1 {
        Some(Reg::Rv)
    } else if c == 2 {
        Some(Reg::Ra)
    } else if c == 3 {
        Some(Reg::A0)
    } else if c == 4 {
        Some(Reg::A1)
    } else if c == 5 {
        Some(Reg::A2)
    } else if c == 6 {
        Some(Reg::S0)
    } else if c == 7 {
        Some(Reg::S1)
    } else if c == 8 {
        Some(Reg::S2)
    } else if c == 9 {
        Some(Reg::T0)
    } else if c == 10 {
        Some(Reg::T1)
    } else if c == 11 {
        Some(Reg::T2)
    } else if c == 12 {
        Some(Reg::K0)
    } else if c == 13 {
        Some(Reg::K1)
    } else if c == 14 {
        Some(Reg::Gp)
    } else if c == 15 {
        Some(Reg::Sp)
    } else {
        None
    }
}

/// The hard-wired register: reads of `zero` always yield zero.
pub broadcast proof fn lemma_zero_reg_reads_zero(rf: RegisterFile)
    ensures
        #[trigger] rf.spec_get(Reg::Zero) == 0,
{
}

/// Register codes determine registers: decoding the code of `r` gives `r` back.
pub proof fn lemma_reg_code_roundtrip(r: Reg)
    ensures
        spec_reg_from_code(spec_reg_code(r)) == Some(r),
        spec_reg_code(r) < 16,
{
}

impl Reg {
    /// The ABI code of this register.
    pub fn code(self) -> (r: u8)
        ensures
            r == spec_reg_code(self),
    {
        match self {
            Reg::Zero => 0,
            Reg::Rv => 1,
            Reg::Ra => 2,
            Reg::A0 => 3,
            Reg::A1 => 4,
            Reg::A2 => 5,
            Reg::S0 => 6,
            Reg::S1 => 7,
            Reg::S2 => 8,
            Reg::T0 => 9,
            Reg::T1 => 10,
            Reg::T2 => 11,
            Reg::K0 => 12,
            Reg::K1 => 13,
            Reg::Gp => 14,
            Reg::Sp => 15,
        }
    }

    /// The register with the given ABI code, if it is in 0..15.
    pub fn from_code(c: u8) -> (r: Option<Reg>)
        ensures
            r == spec_reg_from_code(c),
    {
        match c {
            0 => Some(Reg::Zero),
            1 => Some(Reg::Rv),
            2 => Some(Reg::Ra),
            3 => Some(Reg::A0),
            4 => Some(Reg::A1),
            5 => Some(Reg::A2),
            6 => Some(Reg::S0),
            7 => Some(Reg::S1),
            8 => Some(Reg::S2),
            9 => Some(Reg::T0),
            10 => Some(Reg::T1),
            11 => Some(Reg::T2),
            12 => Some(Reg::K0),
            13 => Some(Reg::K1),
            14 => Some(Reg::Gp),
            15 => Some(Reg::Sp),
            _ => None,
        }
    }

    /// Whether this register must be preserved by a called subroutine.
    pub fn is_callee_saved(&self) -> (r: bool)
        ensures
            r == (*self == Reg::S0 || *self == Reg::S1 || *self == Reg::S2),
    {
        matches!(self, Reg::S0 | Reg::S1 | Reg::S2)
    }

    /// Whether this register is tied to subroutine return (value or address).
    pub fn is_ret_related(&self) -> (r: bool)
        ensures
            r == (*self == Reg::Rv || *self == Reg::Ra),
    {
        matches!(self, Reg::Rv | Reg::Ra)
    }

    /// Whether this register passes a subroutine argument.
    pub fn is_argument(&self) -> (r: bool)
        ensures
            r == (*self == Reg::A0 || *self == Reg::A1 || *self == Reg::A2),
    {
        matches!(self, Reg::A0 | Reg::A1 | Reg::A2)
    }

    /// Whether this register is one of the saved registers.
    pub fn is_saved(&self) -> (r: bool)
        ensures
            r == (*self == Reg::S0 || *self == Reg::S1 || *self == Reg::S2),
    {
        matches!(self, Reg::S0 | Reg::S1 | Reg::S2)
    }

    /// Whether this register is one of the temporaries.
    pub fn is_temporary(&self) -> (r: bool)
        ensures
            r == (*self == Reg::T0 || *self == Reg::T1 || *self == Reg::T2),
    {
        matches!(self, Reg::T0 | Reg::T1 | Reg::T2)
    }

    /// Whether this register is reserved for the kernel.
    pub fn is_kernel(&self) -> (r: bool)
        ensures
            r == (*self == Reg::K0 || *self == Reg::K1),
    {
        matches!(self, Reg::K0 | Reg::K1)
    }
}

/// The mapping from register names to words. The slot for `zero` is not
/// stored: reads of it yield zero and writes to it are discarded.
pub struct RegisterFile {
    indexed: Vec<s16>,
}

impl RegisterFile {
    /// The file stores one word for each register other than `zero`.
    pub closed spec fn wf(self) -> bool {
        self.indexed@.len() == 15
    }

    /// The bit pattern held by a register; `zero` always reads as 0.
    pub closed spec fn spec_get(self, r: Reg) -> u16 {
        if r == Reg::Zero {
            0
        } else {
            self.indexed@[spec_reg_code(r) - 1].bits
        }
    }

    /// A file with every register zero but `sp`, which holds `start_sp`.
    pub fn new(start_sp: u16) -> (r: RegisterFile)
        ensures
            r.wf(),
            r.spec_get(Reg::Sp) == start_sp,
            forall|g: Reg| g != Reg::Sp ==> r.spec_get(g) == 0,
    {
        let mut regs = RegisterFile { indexed: Vec::new() };
        regs.reset(start_sp);
        regs
    }

    /// Restores the initial state: every register zero but `sp`.
    pub fn reset(&mut self, start_sp: u16)
        ensures
            final(self).wf(),
            final(self).spec_get(Reg::Sp) == start_sp,
            forall|g: Reg| g != Reg::Sp ==> final(self).spec_get(g) == 0,
    {
        let mut fresh: Vec<s16> = Vec::new();
        let mut i: usize = 0;
        while i < 15
            invariant
                i <= 15,
                fresh@.len() == i,
                forall|k: int| 0 <= k < i ==> fresh@[k].bits == 0,
            decreases 15 - i,
        {
            fresh.push(s16::zero());
            i = i + 1;
        }
        self.indexed = fresh;
        self.set(Reg::Sp, s16::from_u16(start_sp));
        proof {
            assert forall|g: Reg| g != Reg::Sp implies self.spec_get(g) == 0 by {
                lemma_reg_code_roundtrip(g);
                lemma_reg_code_roundtrip(Reg::Sp);
            }
        }
    }

    /// Reads a register; `zero` yields the zero word.
    pub fn get(&self, r: Reg) -> (v: s16)
        requires
            self.wf(),
        ensures
            v.bits == self.spec_get(r),
    {
        proof {
            lemma_reg_code_roundtrip(r);
        }
        let c = r.code();
        if c == 0 {
            s16::zero()
        } else {
            self.indexed[(c - 1) as usize]
        }
    }

    /// Writes a register; a write to `zero` is silently discarded.
    pub fn set(&mut self, r: Reg, v: s16)
        requires
            old(self).wf(),
        ensures
            final(self).wf(),
            final(self).spec_get(r) == (if r == Reg::Zero {
                0
            } else {
                v.bits
            }),
            forall|g: Reg| g != r ==> final(self).spec_get(g) == old(self).spec_get(g),
            final(self).spec_get(Reg::Zero) == 0,
    {
        proof {
            lemma_reg_code_roundtrip(r);
        }
        let c = r.code();
        if c != 0 {
            self.indexed[(c - 1) as usize] = v;
            proof {
                assert forall|g: Reg| g != r implies self.spec_get(g) == old(
                    self,
                ).spec_get(g) by {
                    lemma_reg_code_roundtrip(g);
                    lemma_reg_code_roundtrip(r);
                }
            }
        }
    }

    /// The registers other than `zero`, in code order, with their words.
    pub fn iter(&self) -> (r: Vec<(Reg, s16)>)
        requires
            self.wf(),
        ensures
            r@.len() == 15,
            forall|k: int|
                0 <= k < 15 ==> spec_reg_from_code((k + 1) as u8) == Some(
                    (#[trigger] r@[k]).0,
                ) && r@[k].1.bits == self.spec_get(r@[k].0),
    {
        let mut out: Vec<(Reg, s16)> = Vec::new();
        let mut c: u8 = 1;
        while c < 16
            invariant
                self.wf(),
                1 <= c <= 16,
                out@.len() == c - 1,
                forall|k: int|
                    0 <= k < c - 1 ==> spec_reg_from_code((k + 1) as u8) == Some(
                        (#[trigger] out@[k]).0,
                    ) && out@[k].1.bits == self.spec_get(out@[k].0),
            decreases 16 - c,
        {
            let g = Reg::from_code(c).unwrap();
            let v = self.get(g);
            out.push((g, v));
            c = c + 1;
        }
        out
    }
}

} // verus!
