//! The interactive debugger's expression language: values that name
//! registers, memory words and integers; commands that evaluate, assign,
//! manage breakpoints and inspect state; and the line parser for both.

use vstd::prelude::*;
use crate::cpu::{spec_bps_wf, Cpu};
use crate::dex::wrap16;
use crate::mem::{MemErr, MemModel};
use crate::regs::Reg;
use crate::word::{signed16, s16};

verus! {

broadcast use crate::regs::lemma_zero_reg_reads_zero;

/// A reason a debugger command cannot be carried out.
#[derive(Clone, Copy, Debug, PartialEq, Eq, Structural)]
pub enum DbgErr {
    /// `ir` cannot be evaluated as a word or assigned.
    IrAccess,
    /// A memory access failed.
    Mem(MemErr),
    /// The assignment target is not an lvalue.
    NotAnLvalue,
    /// A breakpoint ordinal out of range.
    BadOrdinal,
}

/// A special-purpose register name.
#[derive(Clone, Copy, Debug, PartialEq, Eq, Structural)]
pub enum Spr {
    Pc,
    Ir,
    Lo,
    Hi,
}

/// A debugger value expression.
#[derive(Debug)]
pub enum DbgVal {
    /// The value held in a general-purpose register.
    Gpr(Reg),
    /// The value held in a special-purpose register.
    Spr(Spr),
    /// The word in memory at the given base address with the given offset.
    Mem { base: Box<DbgVal>, offset: Box<DbgVal> },
    /// An integer value.
    U16(u16),
    /// The negation of a value, modulo 2^16.
    Neg(Box<DbgVal>),
}

/// A debugger command.
#[derive(Debug)]
pub enum DbgCmd {
    Eval(DbgVal),
    Assign(DbgVal, DbgVal),
    PrintStack { depth: u16 },
    ListBreakpoints,
    AddBreakpoint(DbgVal),
    RemoveBreakpoint(DbgVal),
    Continue,
    PrintRegs,
}

/// What a debugger command reports back, for the front-end to render.
#[derive(Debug)]
pub enum DbgReply {
    /// An evaluated value.
    Value(u16),
    /// The 32-bit instruction register, which may only be printed.
    IrValue(u32),
    /// An assignment happened: the value before, and the value written.
    SetResult { prev: u16, now: u16 },
    /// The top words of the stack, starting at `sp`.
    Stack(Vec<u16>),
    /// Every breakpoint address, in order.
    Breakpoints(Vec<u16>),
    /// A breakpoint was added at this address.
    BreakpointAdded(u16),
    /// The breakpoint with this 1-based ordinal was removed.
    BreakpointRemoved { ordinal: u16, addr: u16 },
    /// Debug mode was left; execution resumes.
    Continuing,
    /// The general-purpose registers and Pc/Ir/Lo/Hi.
    Regs { gprs: Vec<(Reg, s16)>, pc: u16, ir: u32, lo: u16, hi: u16 },
}

/// The value a debugger expression evaluates to, if it has one: `ir` has
/// none, and a memory dereference has one only where a word can be read.
pub open spec fn spec_eval(c: Cpu, v: DbgVal) -> Option<u16>
    decreases v,
{
    match v {
        DbgVal::U16(x) => Some(x),
        DbgVal::Gpr(g) => Some(c.reg_val(g)),
        DbgVal::Spr(s) => match s {
            Spr::Pc => Some(c.pc),
            Spr::Ir => None,
            Spr::Lo => Some(c.lo.bits),
            Spr::Hi => Some(c.hi.bits),
        },
        DbgVal::Mem { base, offset } => match (spec_eval(c, *base), spec_eval(c, *offset)) {
            (Some(b), Some(o)) => {
                let ea = b + signed16(o);
                if 0 <= ea <= 0xFFFF && MemModel::word_readable(ea as u16) {
                    Some(c.mem.model().word(ea as u16))
                } else {
                    None
                }
            },
            _ => None,
        },
        DbgVal::Neg(inner) => match spec_eval(c, *inner) {
            Some(x) => Some(wrap16(0 - x)),
            None => None,
        },
    }
}

/// What assigning `rhs` to the lvalue `lhs` does, and what it returns: the
/// previous value of the target. `ir`, integers and negations cannot be
/// assigned.
pub open spec fn set_rel(pre: Cpu, post: Cpu, lhs: DbgVal, rhs: u16, r: Result<
    u16,
    DbgErr,
>) -> bool {
    match lhs {
        DbgVal::Gpr(g) => {
            &&& post == (Cpu { regs: post.regs, ..pre })
            &&& post.regs.wf() == pre.regs.wf()
            &&& post.reg_val(g) == (if g == Reg::Zero {
                0
            } else {
                rhs
            })
            &&& (forall|h: Reg| h != g ==> post.reg_val(h) == pre.reg_val(h))
            &&& r == Ok::<u16, DbgErr>(pre.reg_val(g))
        },
        DbgVal::Spr(s) => match s {
            Spr::Ir => post == pre && r == Err::<u16, DbgErr>(DbgErr::IrAccess),
            Spr::Pc => post == (Cpu { pc: rhs, ..pre }) && r == Ok::<u16, DbgErr>(pre.pc),
            Spr::Lo => post == (Cpu { lo: (s16 { bits: rhs }), ..pre }) && r == Ok::<u16, DbgErr>(
                pre.lo.bits,
            ),
            Spr::Hi => post == (Cpu { hi: (s16 { bits: rhs }), ..pre }) && r == Ok::<u16, DbgErr>(
                pre.hi.bits,
            ),
        },
        DbgVal::Mem { base, offset } => match (spec_eval(pre, *base), spec_eval(pre, *offset)) {
            (Some(b), Some(o)) => {
                let ea = b + signed16(o);
                if 0 <= ea <= 0xFFFF && MemModel::word_readable(ea as u16) {
                    &&& post == (Cpu { mem: post.mem, ..pre })
                    &&& post.mem.wf() == pre.mem.wf()
                    &&& post.mem.model() == pre.mem.model().write_word(ea as u16, rhs)
                    &&& r == Ok::<u16, DbgErr>(pre.mem.model().word(ea as u16))
                } else {
                    post == pre && (r matches Err(DbgErr::Mem(_)))
                }
            },
            _ => post == pre && (r matches Err(_)),
        },
        DbgVal::U16(_) => post == pre && r == Err::<u16, DbgErr>(DbgErr::NotAnLvalue),
        DbgVal::Neg(_) => post == pre && r == Err::<u16, DbgErr>(DbgErr::NotAnLvalue),
    }
}

/// Whether the top `depth` stack words can all be read.
pub open spec fn stack_readable(c: Cpu, depth: u16) -> bool {
    forall|i: int|
        0 <= i < depth ==> MemModel::word_readable(#[trigger] wrap16(c.reg_val(Reg::Sp) + 2 * i))
}

/// The top `depth` stack words: `[sp+0]`, `[sp+2]`, and so on.
pub open spec fn stack_words(c: Cpu, depth: u16) -> Seq<u16> {
    Seq::new(depth as nat, |i: int| c.mem.model().word(wrap16(c.reg_val(Reg::Sp) + 2 * i)))
}

impl Cpu {
    /// Evaluates a debugger expression against the current machine state.
    pub fn eval_dbg_val_rvalue(&self, val: &DbgVal) -> (r: Result<u16, DbgErr>)
        requires
            self.wf(),
        ensures
            r matches Ok(v) ==> spec_eval(*self, *val) == Some(v),
            r is Err <==> spec_eval(*self, *val) is None,
        decreases *val,
    {
        match val {
            DbgVal::U16(x) => Ok(*x),
            DbgVal::Gpr(g) => Ok(self.regs.get(*g).as_u16()),
            DbgVal::Spr(s) => match s {
                Spr::Pc => Ok(self.pc),
                Spr::Ir => Err(DbgErr::IrAccess),
                Spr::Lo => Ok(self.lo.as_u16()),
                Spr::Hi => Ok(self.hi.as_u16()),
            },
            DbgVal::Mem { base, offset } => {
                let b = self.eval_dbg_val_rvalue(base)?;
                let o = self.eval_dbg_val_rvalue(offset)?;
                let off = s16::from_u16(o).as_i16();
                match self.mem_read_s16(b, off) {
                    Ok(w) => Ok(w.as_u16()),
                    Err(e) => Err(DbgErr::Mem(e)),
                }
            },
            DbgVal::Neg(inner) => {
                let x = self.eval_dbg_val_rvalue(inner)?;
                proof {
                    crate::dex::lemma_wrap16(0 - x as int);
                }
                Ok(0u16.wrapping_sub(x))
            },
        }
    }

    /// Assigns to a debugger lvalue and returns the previous value of the
    /// target.
    pub fn set_lvalue(&mut self, lhs: &DbgVal, rhs: u16) -> (r: Result<u16, DbgErr>)
        requires
            old(self).wf(),
        ensures
            final(self).wf(),
            set_rel(*old(self), *final(self), *lhs, rhs, r),
    {
        match lhs {
            DbgVal::Gpr(g) => {
                let prev = self.regs.get(*g).as_u16();
                self.regs.set(*g, s16::from_u16(rhs));
                Ok(prev)
            },
            DbgVal::Spr(s) => match s {
                Spr::Ir => Err(DbgErr::IrAccess),
                Spr::Pc => {
                    let prev = self.pc;
                    self.pc = rhs;
                    Ok(prev)
                },
                Spr::Lo => {
                    let prev = self.lo.as_u16();
                    self.lo = s16::from_u16(rhs);
                    Ok(prev)
                },
                Spr::Hi => {
                    let prev = self.hi.as_u16();
                    self.hi = s16::from_u16(rhs);
                    Ok(prev)
                },
            },
            DbgVal::Mem { base, offset } => {
                let b = match self.eval_dbg_val_rvalue(base) {
                    Ok(v) => v,
                    Err(e) => {
                        return Err(e);
                    },
                };
                let o = match self.eval_dbg_val_rvalue(offset) {
                    Ok(v) => v,
                    Err(e) => {
                        return Err(e);
                    },
                };
                let off = s16::from_u16(o).as_i16();
                let prev = match self.mem_read_s16(b, off) {
                    Ok(w) => w.as_u16(),
                    Err(e) => {
                        return Err(DbgErr::Mem(e));
                    },
                };
                match self.mem_write_s16(b, off, s16::from_u16(rhs)) {
                    Ok(()) => Ok(prev),
                    Err(e) => Err(DbgErr::Mem(e)),
                }
            },
            DbgVal::U16(_) => Err(DbgErr::NotAnLvalue),
            DbgVal::Neg(_) => Err(DbgErr::NotAnLvalue),
        }
    }

    /// The top `depth` words of the stack, read from `sp` upward.
    fn read_stack(&self, depth: u16) -> (r: Result<Vec<u16>, DbgErr>)
        requires
            self.wf(),
        ensures
            r matches Ok(v) ==> stack_readable(*self, depth) && v@ == stack_words(*self, depth),
            r is Err ==> !stack_readable(*self, depth) && (r matches Err(DbgErr::Mem(_))),
    {
        let sp = self.regs.get(Reg::Sp).as_u16();
        let mut out: Vec<u16> = Vec::new();
        let mut i: u16 = 0;
        let mut addr: u16 = sp;
        while i < depth
            invariant
                self.wf(),
                i <= depth,
                sp == self.reg_val(Reg::Sp),
                addr == wrap16(sp + 2 * i),
                out@.len() == i,
                forall|j: int|
                    0 <= j < i ==> MemModel::word_readable(#[trigger] wrap16(sp + 2 * j))
                        && out@[j] == self.mem.model().word(wrap16(sp + 2 * j)),
            decreases depth - i,
        {
            let w = match self.mem.read_s16(addr) {
                Ok(v) => v.as_u16(),
                Err(e) => {
                    return Err(DbgErr::Mem(e));
                },
            };
            out.push(w);
            proof {
                crate::dex::lemma_wrap16(addr + 2);
                crate::dex::lemma_wrap16_shift(sp + 2 * i, 2);
            }
            addr = addr.wrapping_add(2);
            i = i + 1;
        }
        proof {
            assert(out@ =~= stack_words(*self, depth));
        }
        Ok(out)
    }

    /// Carries out one parsed debugger command and reports its reply.
    /// Evaluation follows `spec_eval`; `continue` leaves debug mode;
    /// breakpoint commands edit the sorted breakpoint set.
    pub fn eval_dbg_cmd(&mut self, cmd: &DbgCmd) -> (r: Result<DbgReply, DbgErr>)
        requires
            old(self).wf(),
        ensures
            final(self).wf(),
            ({
                let pre = *old(self);
                let post = *final(self);
                match *cmd {
                    DbgCmd::Eval(v) => {
                        if v matches DbgVal::Spr(Spr::Ir) {
                            post == pre && r == Ok::<DbgReply, DbgErr>(DbgReply::IrValue(pre.ir))
                        } else {
                            &&& post == pre
                            &&& (r matches Ok(rep) ==> rep matches DbgReply::Value(x) && spec_eval(
                                pre,
                                v,
                            ) == Some(x))
                            &&& ((r is Err) <==> spec_eval(pre, v) is None)
                        }
                    },
                    DbgCmd::Assign(lhs, rhs) => match spec_eval(pre, rhs) {
                        Some(x) => {
                            &&& (r matches Ok(rep) ==> rep matches DbgReply::SetResult {
                                prev,
                                now,
                            } && now == x && set_rel(pre, post, lhs, x, Ok(prev)))
                            &&& (r matches Err(e) ==> set_rel(pre, post, lhs, x, Err(e)))
                        },
                        None => post == pre && r is Err,
                    },
                    DbgCmd::PrintStack { depth } => {
                        &&& post == pre
                        &&& (r matches Ok(rep) ==> rep matches DbgReply::Stack(words)
                            && stack_readable(pre, depth) && words@ == stack_words(pre, depth))
                        &&& ((r is Err) <==> !stack_readable(pre, depth))
                    },
                    DbgCmd::ListBreakpoints => post == pre && (r matches Ok(rep) && rep
                        matches DbgReply::Breakpoints(bps) && bps@ == pre.breakpoints@),
                    DbgCmd::AddBreakpoint(v) => match spec_eval(pre, v) {
                        Some(a) => {
                            &&& post == (Cpu { breakpoints: post.breakpoints, ..pre })
                            &&& spec_bps_wf(post.breakpoints@)
                            &&& (forall|x: u16|
                                #[trigger] post.breakpoints@.contains(x) <==> pre.breakpoints@.contains(
                                    x,
                                ) || x == a)
                            &&& r == Ok::<DbgReply, DbgErr>(DbgReply::BreakpointAdded(a))
                        },
                        None => post == pre && r is Err,
                    },
                    DbgCmd::RemoveBreakpoint(v) => match spec_eval(pre, v) {
                        Some(x) => if 1 <= x <= pre.breakpoints@.len() {
                            &&& post == (Cpu { breakpoints: post.breakpoints, ..pre })
                            &&& post.breakpoints@ == pre.breakpoints@.remove(x - 1)
                            &&& r == Ok::<DbgReply, DbgErr>(
                                DbgReply::BreakpointRemoved {
                                    ordinal: x,
                                    addr: pre.breakpoints@[x - 1],
                                },
                            )
                        } else {
                            post == pre && r == Err::<DbgReply, DbgErr>(DbgErr::BadOrdinal)
                        },
                        None => post == pre && r is Err,
                    },
                    DbgCmd::Continue => post == (Cpu { in_debug_mode: false, ..pre }) && r == Ok::<
                        DbgReply,
                        DbgErr,
                    >(DbgReply::Continuing),
                    DbgCmd::PrintRegs => {
                        &&& post == pre
                        &&& (r matches Ok(rep) ==> rep matches DbgReply::Regs {
                            gprs,
                            pc,
                            ir,
                            lo,
                            hi,
                        } && pc == pre.pc && ir == pre.ir && lo == pre.lo.bits && hi == pre.hi.bits
                            && gprs@.len() == 15 && (forall|k: int|
                            0 <= k < 15 ==> (#[trigger] gprs@[k]).1.bits == pre.reg_val(
                                gprs@[k].0,
                            )))
                    },
                }
            }),
    {
        match cmd {
            DbgCmd::Eval(v) => {
                if matches!(v, DbgVal::Spr(Spr::Ir)) {
                    Ok(DbgReply::IrValue(self.ir))
                } else {
                    let x = self.eval_dbg_val_rvalue(v)?;
                    Ok(DbgReply::Value(x))
                }
            },
            DbgCmd::Assign(lhs, rhs) => {
                let x = self.eval_dbg_val_rvalue(rhs)?;
                let prev = self.set_lvalue(lhs, x)?;
                Ok(DbgReply::SetResult { prev, now: x })
            },
            DbgCmd::PrintStack { depth } => {
                let words = self.read_stack(*depth)?;
                Ok(DbgReply::Stack(words))
            },
            DbgCmd::ListBreakpoints => {
                let mut out: Vec<u16> = Vec::new();
                let mut i: usize = 0;
                while i < self.breakpoints.len()
                    invariant
                        i <= self.breakpoints@.len(),
                        out@ == self.breakpoints@.subrange(0, i as int),
                    decreases self.breakpoints@.len() - i,
                {
                    out.push(self.breakpoints[i]);
                    proof {
                        assert(out@ =~= self.breakpoints@.subrange(0, i + 1));
                    }
                    i = i + 1;
                }
                proof {
                    assert(out@ =~= self.breakpoints@);
                }
                Ok(DbgReply::Breakpoints(out))
            },
            DbgCmd::AddBreakpoint(v) => {
                let a = self.eval_dbg_val_rvalue(v)?;
                self.add_breakpoint(a);
                Ok(DbgReply::BreakpointAdded(a))
            },
            DbgCmd::RemoveBreakpoint(v) => {
                let x = self.eval_dbg_val_rvalue(v)?;
                if x == 0 || (x as usize) > self.breakpoints.len() {
                    return Err(DbgErr::BadOrdinal);
                }
                let addr = self.breakpoints.remove((x - 1) as usize);
                proof {
                    let idx = x - 1;
                    let s0 = old(self).breakpoints@;
                    let s1 = self.breakpoints@;
                    assert forall|a: int, b2: int| 0 <= a < b2 < s1.len() implies s1[a] < s1[b2] by {
                        if b2 < idx {
                        } else if a < idx {
                            assert(s1[a] == s0[a] && s1[b2] == s0[b2 + 1]);
                        } else {
                            assert(s1[a] == s0[a + 1] && s1[b2] == s0[b2 + 1]);
                        }
                    }
                }
                Ok(DbgReply::BreakpointRemoved { ordinal: x, addr })
            },
            DbgCmd::Continue => {
                self.in_debug_mode = false;
                Ok(DbgReply::Continuing)
            },
            DbgCmd::PrintRegs => {
                let gprs = self.regs.iter();
                Ok(
                    DbgReply::Regs {
                        gprs,
                        pc: self.pc,
                        ir: self.ir,
                        lo: self.lo.as_u16(),
                        hi: self.hi.as_u16(),
                    },
                )
            },
        }
    }
}

/// Whether a byte is ASCII whitespace.
pub open spec fn is_ws(c: u8) -> bool {
    c == 32 || c == 9 || c == 10 || c == 13
}

/// Whether a byte is an ASCII decimal digit.
pub open spec fn is_digit(c: u8) -> bool {
    48 <= c <= 57
}

/// Whether a byte is an ASCII hexadecimal digit.
pub open spec fn is_hex_digit(c: u8) -> bool {
    is_digit(c) || (97 <= c <= 102) || (65 <= c <= 70)
}

/// The value of a hexadecimal digit.
pub open spec fn hex_value(c: u8) -> u16 {
    if is_digit(c) {
        (c - 48) as u16
    } else if 97 <= c <= 102 {
        (c - 87) as u16
    } else {
        (c - 55) as u16
    }
}

/// The position of the first non-whitespace byte at or after `pos`.
pub open spec fn spec_skip_ws(s: Seq<u8>, pos: int) -> int
    decreases s.len() - pos,
{
    if 0 <= pos < s.len() && is_ws(s[pos]) {
        spec_skip_ws(s, pos + 1)
    } else {
        pos
    }
}

/// A decimal number continued from accumulator `acc`: reads digits while
/// they last, failing if the value leaves 16 bits.
pub open spec fn spec_parse_dec(s: Seq<u8>, pos: int, acc: u16) -> Option<(u16, int)>
    decreases s.len() - pos,
{
    if 0 <= pos < s.len() && is_digit(s[pos]) {
        let d = (s[pos] - 48) as u16;
        if acc * 10 + d > 0xFFFF {
            None
        } else {
            let acc2 = (acc * 10 + d) as u16;
            if pos + 1 < s.len() && is_digit(s[pos + 1]) {
                spec_parse_dec(s, pos + 1, acc2)
            } else {
                Some((acc2, pos + 1))
            }
        }
    } else {
        None
    }
}

/// A hexadecimal number continued from accumulator `acc`.
pub open spec fn spec_parse_hex(s: Seq<u8>, pos: int, acc: u16) -> Option<(u16, int)>
    decreases s.len() - pos,
{
    if 0 <= pos < s.len() && is_hex_digit(s[pos]) {
        let d = hex_value(s[pos]);
        if acc * 16 + d > 0xFFFF {
            None
        } else {
            let acc2 = (acc * 16 + d) as u16;
            if pos + 1 < s.len() && is_hex_digit(s[pos + 1]) {
                spec_parse_hex(s, pos + 1, acc2)
            } else {
                Some((acc2, pos + 1))
            }
        }
    } else {
        None
    }
}

/// An integer literal: `0x` followed by hex digits, or decimal digits.
pub open spec fn spec_parse_num(s: Seq<u8>, pos: int) -> Option<(u16, int)> {
    if pos + 1 < s.len() && s[pos] == 48 && s[pos + 1] == 120 && pos + 2 < s.len() && is_hex_digit(
        s[pos + 2],
    ) {
        spec_parse_hex(s, pos + 2, 0)
    } else {
        spec_parse_dec(s, pos, 0)
    }
}

/// A register name: the general-purpose names, then pc/ir/lo/hi.
pub open spec fn spec_parse_reg(s: Seq<u8>, pos: int) -> Option<(DbgVal, int)> {
    if !(0 <= pos < s.len()) {
        None
    } else {
        let c = s[pos];
        if c == 122 {  // z
            if pos + 4 <= s.len() && s[pos + 1] == 101 && s[pos + 2] == 114 && s[pos + 3] == 111 {
                Some((DbgVal::Gpr(Reg::Zero), pos + 4))
            } else {
                None
            }
        } else if pos + 2 <= s.len() {
            let c2 = s[pos + 1];
            if c == 114 && c2 == 118 {  // rv
                Some((DbgVal::Gpr(Reg::Rv), pos + 2))
            } else if c == 114 && c2 == 97 {  // ra
                Some((DbgVal::Gpr(Reg::Ra), pos + 2))
            } else if c == 97 && c2 == 48 {  // a0
                Some((DbgVal::Gpr(Reg::A0), pos + 2))
            } else if c == 97 && c2 == 49 {  // a1
                Some((DbgVal::Gpr(Reg::A1), pos + 2))
            } else if c == 97 && c2 == 50 {  // a2
                Some((DbgVal::Gpr(Reg::A2), pos + 2))
            } else if c == 115 && c2 == 48 {  // s0
                Some((DbgVal::Gpr(Reg::S0), pos + 2))
            } else if c == 115 && c2 == 49 {  // s1
                Some((DbgVal::Gpr(Reg::S1), pos + 2))
            } else if c == 115 && c2 == 50 {  // s2
                Some((DbgVal::Gpr(Reg::S2), pos + 2))
            } else if c == 115 && c2 == 112 {  // sp
                Some((DbgVal::Gpr(Reg::Sp), pos + 2))
            } else if c == 116 && c2 == 48 {  // t0
                Some((DbgVal::Gpr(Reg::T0), pos + 2))
            } else if c == 116 && c2 == 49 {  // t1
                Some((DbgVal::Gpr(Reg::T1), pos + 2))
            } else if c == 116 && c2 == 50 {  // t2
                Some((DbgVal::Gpr(Reg::T2), pos + 2))
            } else if c == 107 && c2 == 48 {  // k0
                Some((DbgVal::Gpr(Reg::K0), pos + 2))
            } else if c == 107 && c2 == 49 {  // k1
                Some((DbgVal::Gpr(Reg::K1), pos + 2))
            } else if c == 103 && c2 == 112 {  // gp
                Some((DbgVal::Gpr(Reg::Gp), pos + 2))
            } else if c == 112 && c2 == 99 {  // pc
                Some((DbgVal::Spr(Spr::Pc), pos + 2))
            } else if c == 105 && c2 == 114 {  // ir
                Some((DbgVal::Spr(Spr::Ir), pos + 2))
            } else if c == 108 && c2 == 111 {  // lo
                Some((DbgVal::Spr(Spr::Lo), pos + 2))
            } else if c == 104 && c2 == 105 {  // hi
                Some((DbgVal::Spr(Spr::Hi), pos + 2))
            } else {
                None
            }
        } else {
            None
        }
    }
}

/// A value expression: a bracketed memory reference with an optional signed
/// offset, an integer, a negated value, or a register with an optional `$`.
pub open spec fn spec_parse_val(s: Seq<u8>, pos: int) -> Option<(DbgVal, int)>
    decreases s.len() - pos,
{
    if !(0 <= pos < s.len()) {
        None
    } else if s[pos] == 91 {  // [
        match spec_parse_val(s, pos + 1) {
            Some((b, e1)) => {
                if !(pos + 1 < e1 && e1 <= s.len()) {
                    None
                } else if e1 < s.len() && s[e1] == 43 {  // +
                    match spec_parse_val(s, e1 + 1) {
                        Some((o, e2)) => {
                            if e2 < s.len() && s[e2] == 93 {  // ]
                                Some((DbgVal::Mem { base: Box::new(b), offset: Box::new(o) }, e2 + 1))
                            } else {
                                None
                            }
                        },
                        None => None,
                    }
                } else if e1 < s.len() && s[e1] == 45 {  // -
                    match spec_parse_val(s, e1 + 1) {
                        Some((o, e2)) => {
                            if e2 < s.len() && s[e2] == 93 {  // ]
                                Some(
                                    (
                                        DbgVal::Mem {
                                            base: Box::new(b),
                                            offset: Box::new(DbgVal::Neg(Box::new(o))),
                                        },
                                        e2 + 1,
                                    ),
                                )
                            } else {
                                None
                            }
                        },
                        None => None,
                    }
                } else if e1 < s.len() && s[e1] == 93 {  // ]
                    Some(
                        (
                            DbgVal::Mem {
                                base: Box::new(b),
                                offset: Box::new(DbgVal::U16(0)),
                            },
                            e1 + 1,
                        ),
                    )
                } else {
                    None
                }
            },
            None => None,
        }
    } else if s[pos] == 45 {  // -
        match spec_parse_val(s, pos + 1) {
            Some((v, e)) => Some((DbgVal::Neg(Box::new(v)), e)),
            None => None,
        }
    } else if is_digit(s[pos]) {
        match spec_parse_num(s, pos) {
            Some((n, e)) => Some((DbgVal::U16(n), e)),
            None => None,
        }
    } else if s[pos] == 36 {  // $
        spec_parse_reg(s, pos + 1)
    } else {
        spec_parse_reg(s, pos)
    }
}

/// Whether the letters of `breakpoint` stand at `pos`.
pub open spec fn spec_match_breakpoint(s: Seq<u8>, pos: int) -> bool {
    &&& pos + 10 <= s.len()
    &&& s[pos] == 98
    &&& s[pos + 1] == 114
    &&& s[pos + 2] == 101
    &&& s[pos + 3] == 97
    &&& s[pos + 4] == 107
    &&& s[pos + 5] == 112
    &&& s[pos + 6] == 111
    &&& s[pos + 7] == 105
    &&& s[pos + 8] == 110
    &&& s[pos + 9] == 116
}

/// A command line, tried in order: assignment, bare value, `stack`,
/// add-breakpoint (`+breakpoint`, `breakpoint`, `+b` or `b`, longest
/// spelling first), remove-breakpoint (`-breakpoint` or `-b`),
/// list-breakpoints, `continue`, `regs`.
/// Trailing input is ignored, as the line reader tolerates it.
pub open spec fn spec_parse_cmd(s: Seq<u8>) -> Option<DbgCmd> {
    match spec_parse_val(s, 0) {
        Some((lhs, e)) => {
            let e2 = spec_skip_ws(s, e);
            if e2 < s.len() && s[e2] == 61 {  // =
                let e3 = spec_skip_ws(s, e2 + 1);
                match spec_parse_val(s, e3) {
                    Some((rhs, _)) => Some(DbgCmd::Assign(lhs, rhs)),
                    None => Some(DbgCmd::Eval(lhs)),
                }
            } else {
                Some(DbgCmd::Eval(lhs))
            }
        },
        None => {
            if s.len() >= 5 && s[0] == 115 && s[1] == 116 && s[2] == 97 && s[3] == 99 && s[4]
                == 107 {  // stack
                let p = spec_skip_ws(s, 5);
                match spec_parse_dec(s, p, 0) {
                    Some((d, _)) => Some(DbgCmd::PrintStack { depth: d }),
                    None => Some(DbgCmd::PrintStack { depth: 4 }),
                }
            } else {
                let bp_kw: Option<int> = if s.len() >= 1 && s[0] == 43
                    && spec_match_breakpoint(s, 1) {  // +breakpoint
                    Some(11)
                } else if spec_match_breakpoint(s, 0) {  // breakpoint
                    Some(10)
                } else if s.len() >= 2 && s[0] == 43 && s[1] == 98 {  // +b
                    Some(2)
                } else if s.len() >= 1 && s[0] == 98 {  // b
                    Some(1)
                } else {
                    None
                };
                let addbp: Option<DbgCmd> = match bp_kw {
                    Some(k) => {
                        let p = spec_skip_ws(s, k);
                        if p > k {
                            match spec_parse_val(s, p) {
                                Some((v, _)) => Some(DbgCmd::AddBreakpoint(v)),
                                None => None,
                            }
                        } else {
                            None
                        }
                    },
                    None => None,
                };
                match addbp {
                    Some(c) => Some(c),
                    None => {
                        let rm_kw: Option<int> = if s.len() >= 1 && s[0] == 45
                            && spec_match_breakpoint(s, 1) {  // -breakpoint
                            Some(11)
                        } else if s.len() >= 2 && s[0] == 45 && s[1] == 98 {  // -b
                            Some(2)
                        } else {
                            None
                        };
                        let rmbp: Option<DbgCmd> = match rm_kw {
                            Some(k) => {
                                let p = spec_skip_ws(s, k);
                                if p > k {
                                    let p2 = if p < s.len() && s[p] == 35 {  // #
                                        p + 1
                                    } else {
                                        p
                                    };
                                    match spec_parse_val(s, p2) {
                                        Some((v, _)) => Some(DbgCmd::RemoveBreakpoint(v)),
                                        None => None,
                                    }
                                } else {
                                    None
                                }
                            },
                            None => None,
                        };
                        match rmbp {
                            Some(c) => Some(c),
                            None => {
                                if s.len() >= 1 && s[0] == 98 {  // b
                                    Some(DbgCmd::ListBreakpoints)
                                } else if s.len() >= 1 && s[0] == 99 {  // c
                                    Some(DbgCmd::Continue)
                                } else if s.len() >= 1 && s[0] == 114 {  // r
                                    Some(DbgCmd::PrintRegs)
                                } else {
                                    None
                                }
                            },
                        }
                    },
                }
            }
        },
    }
}

/// Whether the letters of `breakpoint` stand at `pos`.
fn match_breakpoint(s: &[u8], pos: usize) -> (r: bool)
    requires
        pos <= s@.len(),
    ensures
        r == spec_match_breakpoint(s@, pos as int),
{
    s.len() - pos >= 10 && s[pos] == 98 && s[pos + 1] == 114 && s[pos + 2] == 101 && s[pos + 3]
        == 97 && s[pos + 4] == 107 && s[pos + 5] == 112 && s[pos + 6] == 111 && s[pos + 7] == 105
        && s[pos + 8] == 110 && s[pos + 9] == 116
}

/// Skips ASCII whitespace.
fn skip_ws(s: &[u8], pos: usize) -> (r: usize)
    requires
        pos <= s@.len(),
    ensures
        r == spec_skip_ws(s@, pos as int),
        pos <= r <= s@.len(),
{
    let mut cur = pos;
    while cur < s.len() && (s[cur] == 32 || s[cur] == 9 || s[cur] == 10 || s[cur] == 13)
        invariant
            pos <= cur <= s@.len(),
            spec_skip_ws(s@, pos as int) == spec_skip_ws(s@, cur as int),
        decreases s@.len() - cur,
    {
        cur = cur + 1;
    }
    cur
}

/// Reads decimal digits into `acc`.
fn parse_dec_digits(s: &[u8], pos: usize, acc: u16) -> (r: Option<(u16, usize)>)
    requires
        pos <= s@.len(),
    ensures
        (match r {
            Some(v) => spec_parse_dec(s@, pos as int, acc) == Some((v.0, v.1 as int)) && pos < v.1
                <= s@.len(),
            None => spec_parse_dec(s@, pos as int, acc) is None,
        }),
    decreases s@.len() - pos,
{
    if pos < s.len() && 48 <= s[pos] && s[pos] <= 57 {
        let d = (s[pos] - 48) as u16;
        let t: u32 = acc as u32 * 10 + d as u32;
        if t > 0xFFFF {
            None
        } else {
            let acc2 = t as u16;
            if pos + 1 < s.len() && 48 <= s[pos + 1] && s[pos + 1] <= 57 {
                parse_dec_digits(s, pos + 1, acc2)
            } else {
                Some((acc2, pos + 1))
            }
        }
    } else {
        None
    }
}

/// Reads hexadecimal digits into `acc`.
fn parse_hex_digits(s: &[u8], pos: usize, acc: u16) -> (r: Option<(u16, usize)>)
    requires
        pos <= s@.len(),
    ensures
        (match r {
            Some(v) => spec_parse_hex(s@, pos as int, acc) == Some((v.0, v.1 as int)) && pos < v.1
                <= s@.len(),
            None => spec_parse_hex(s@, pos as int, acc) is None,
        }),
    decreases s@.len() - pos,
{
    if pos >= s.len() {
        return None;
    }
    let c = s[pos];
    if 48 <= c && c <= 57 || 97 <= c && c <= 102 || 65 <= c && c <= 70 {
        let d: u16 = if 48 <= c && c <= 57 {
            (c - 48) as u16
        } else if 97 <= c && c <= 102 {
            (c - 87) as u16
        } else {
            (c - 55) as u16
        };
        let t: u32 = acc as u32 * 16 + d as u32;
        if t > 0xFFFF {
            None
        } else {
            let acc2 = t as u16;
            if pos + 1 < s.len() {
                let c2 = s[pos + 1];
                if 48 <= c2 && c2 <= 57 || 97 <= c2 && c2 <= 102 || 65 <= c2 && c2 <= 70 {
                    parse_hex_digits(s, pos + 1, acc2)
                } else {
                    Some((acc2, pos + 1))
                }
            } else {
                Some((acc2, pos + 1))
            }
        }
    } else {
        None
    }
}

/// Reads an integer literal, hexadecimal after `0x`, decimal otherwise.
fn parse_num(s: &[u8], pos: usize) -> (r: Option<(u16, usize)>)
    requires
        pos <= s@.len(),
    ensures
        (match r {
            Some(v) => spec_parse_num(s@, pos as int) == Some((v.0, v.1 as int)) && pos < v.1
                <= s@.len(),
            None => spec_parse_num(s@, pos as int) is None,
        }),
{
    if s.len() - pos > 2 && s[pos] == 48 && s[pos + 1] == 120 {
        let c2 = s[pos + 2];
        if 48 <= c2 && c2 <= 57 || 97 <= c2 && c2 <= 102 || 65 <= c2 && c2 <= 70 {
            parse_hex_digits(s, pos + 2, 0)
        } else {
            parse_dec_digits(s, pos, 0)
        }
    } else {
        parse_dec_digits(s, pos, 0)
    }
}

/// Reads a register name.
fn parse_reg(s: &[u8], pos: usize) -> (r: Option<(DbgVal, usize)>)
    requires
        pos <= s@.len(),
    ensures
        (match r {
            Some(v) => spec_parse_reg(s@, pos as int) == Some((v.0, v.1 as int)) && pos < v.1
                <= s@.len(),
            None => spec_parse_reg(s@, pos as int) is None,
        }),
{
    if pos >= s.len() {
        return None;
    }
    let c = s[pos];
    if c == 122 {
        if s.len() - pos >= 4 && s[pos + 1] == 101 && s[pos + 2] == 114 && s[pos + 3] == 111 {
            Some((DbgVal::Gpr(Reg::Zero), pos + 4))
        } else {
            None
        }
    } else if s.len() - pos >= 2 {
        let c2 = s[pos + 1];
        if c == 114 && c2 == 118 {
            Some((DbgVal::Gpr(Reg::Rv), pos + 2))
        } else if c == 114 && c2 == 97 {
            Some((DbgVal::Gpr(Reg::Ra), pos + 2))
        } else if c == 97 && c2 == 48 {
            Some((DbgVal::Gpr(Reg::A0), pos + 2))
        } else if c == 97 && c2 == 49 {
            Some((DbgVal::Gpr(Reg::A1), pos + 2))
        } else if c == 97 && c2 == 50 {
            Some((DbgVal::Gpr(Reg::A2), pos + 2))
        } else if c == 115 && c2 == 48 {
            Some((DbgVal::Gpr(Reg::S0), pos + 2))
        } else if c == 115 && c2 == 49 {
            Some((DbgVal::Gpr(Reg::S1), pos + 2))
        } else if c == 115 && c2 == 50 {
            Some((DbgVal::Gpr(Reg::S2), pos + 2))
        } else if c == 115 && c2 == 112 {
            Some((DbgVal::Gpr(Reg::Sp), pos + 2))
        } else if c == 116 && c2 == 48 {
            Some((DbgVal::Gpr(Reg::T0), pos + 2))
        } else if c == 116 && c2 == 49 {
            Some((DbgVal::Gpr(Reg::T1), pos + 2))
        } else if c == 116 && c2 == 50 {
            Some((DbgVal::Gpr(Reg::T2), pos + 2))
        } else if c == 107 && c2 == 48 {
            Some((DbgVal::Gpr(Reg::K0), pos + 2))
        } else if c == 107 && c2 == 49 {
            Some((DbgVal::Gpr(Reg::K1), pos + 2))
        } else if c == 103 && c2 == 112 {
            Some((DbgVal::Gpr(Reg::Gp), pos + 2))
        } else if c == 112 && c2 == 99 {
            Some((DbgVal::Spr(Spr::Pc), pos + 2))
        } else if c == 105 && c2 == 114 {
            Some((DbgVal::Spr(Spr::Ir), pos + 2))
        } else if c == 108 && c2 == 111 {
            Some((DbgVal::Spr(Spr::Lo), pos + 2))
        } else if c == 104 && c2 == 105 {
            Some((DbgVal::Spr(Spr::Hi), pos + 2))
        } else {
            None
        }
    } else {
        None
    }
}

impl DbgVal {
    /// Reads a value expression starting at `pos`; on success, also the
    /// position just past it. Trailing input is left alone.
    pub fn parse(s: &[u8], pos: usize) -> (r: Option<(DbgVal, usize)>)
        requires
            pos <= s@.len(),
        ensures
            (match r {
                Some(v) => spec_parse_val(s@, pos as int) == Some((v.0, v.1 as int)) && pos < v.1
                    <= s@.len(),
                None => spec_parse_val(s@, pos as int) is None,
            }),
        decreases s@.len() - pos,
    {
        if pos >= s.len() {
            return None;
        }
        if s[pos] == 91 {
            let (b, e1) = match DbgVal::parse(s, pos + 1) {
                Some(v) => v,
                None => {
                    return None;
                },
            };
            if e1 < s.len() && s[e1] == 43 {
                let (o, e2) = match DbgVal::parse(s, e1 + 1) {
                    Some(v) => v,
                    None => {
                        return None;
                    },
                };
                if e2 < s.len() && s[e2] == 93 {
                    Some((DbgVal::Mem { base: Box::new(b), offset: Box::new(o) }, e2 + 1))
                } else {
                    None
                }
            } else if e1 < s.len() && s[e1] == 45 {
                let (o, e2) = match DbgVal::parse(s, e1 + 1) {
                    Some(v) => v,
                    None => {
                        return None;
                    },
                };
                if e2 < s.len() && s[e2] == 93 {
                    Some(
                        (
                            DbgVal::Mem {
                                base: Box::new(b),
                                offset: Box::new(DbgVal::Neg(Box::new(o))),
                            },
                            e2 + 1,
                        ),
                    )
                } else {
                    None
                }
            } else if e1 < s.len() && s[e1] == 93 {
                Some((DbgVal::Mem { base: Box::new(b), offset: Box::new(DbgVal::U16(0)) }, e1 + 1))
            } else {
                None
            }
        } else if s[pos] == 45 {
            match DbgVal::parse(s, pos + 1) {
                Some((v, e)) => Some((DbgVal::Neg(Box::new(v)), e)),
                None => None,
            }
        } else if 48 <= s[pos] && s[pos] <= 57 {
            match parse_num(s, pos) {
                Some((n, e)) => Some((DbgVal::U16(n), e)),
                None => None,
            }
        } else if s[pos] == 36 {
            parse_reg(s, pos + 1)
        } else {
            parse_reg(s, pos)
        }
    }
}

impl DbgCmd {
    /// Reads a command line. The alternatives are tried in the grammar's
    /// order, long keyword spellings before their abbreviations; trailing
    /// input is ignored.
    pub fn parse(s: &[u8]) -> (r: Option<DbgCmd>)
        ensures
            (match r {
                Some(c) => spec_parse_cmd(s@) == Some(c),
                None => spec_parse_cmd(s@) is None,
            }),
    {
        match DbgVal::parse(s, 0) {
            Some((lhs, e)) => {
                let e2 = skip_ws(s, e);
                if e2 < s.len() && s[e2] == 61 {
                    let e3 = skip_ws(s, e2 + 1);
                    match DbgVal::parse(s, e3) {
                        Some((rhs, _)) => Some(DbgCmd::Assign(lhs, rhs)),
                        None => Some(DbgCmd::Eval(lhs)),
                    }
                } else {
                    Some(DbgCmd::Eval(lhs))
                }
            },
            None => {
                if s.len() >= 5 && s[0] == 115 && s[1] == 116 && s[2] == 97 && s[3] == 99 && s[4]
                    == 107 {
                    let p = skip_ws(s, 5);
                    match parse_dec_digits(s, p, 0) {
                        Some((d, _)) => Some(DbgCmd::PrintStack { depth: d }),
                        None => Some(DbgCmd::PrintStack { depth: 4 }),
                    }
                } else {
                    let bp_kw: Option<usize> = if s.len() >= 1 && s[0] == 43
                        && match_breakpoint(s, 1) {
                        Some(11)
                    } else if match_breakpoint(s, 0) {
                        Some(10)
                    } else if s.len() >= 2 && s[0] == 43 && s[1] == 98 {
                        Some(2)
                    } else if s.len() >= 1 && s[0] == 98 {
                        Some(1)
                    } else {
                        None
                    };
                    let addbp: Option<DbgCmd> = match bp_kw {
                        Some(k) => {
                            let p = skip_ws(s, k);
                            if p > k {
                                match DbgVal::parse(s, p) {
                                    Some((v, _)) => Some(DbgCmd::AddBreakpoint(v)),
                                    None => None,
                                }
                            } else {
                                None
                            }
                        },
                        None => None,
                    };
                    match addbp {
                        Some(c) => Some(c),
                        None => {
                            let rm_kw: Option<usize> = if s.len() >= 1 && s[0] == 45
                                && match_breakpoint(s, 1) {
                                Some(11)
                            } else if s.len() >= 2 && s[0] == 45 && s[1] == 98 {
                                Some(2)
                            } else {
                                None
                            };
                            let rmbp: Option<DbgCmd> = match rm_kw {
                                Some(k) => {
                                    let p = skip_ws(s, k);
                                    if p > k {
                                        let p2 = if p < s.len() && s[p] == 35 {
                                            p + 1
                                        } else {
                                            p
                                        };
                                        match DbgVal::parse(s, p2) {
                                            Some((v, _)) => Some(DbgCmd::RemoveBreakpoint(v)),
                                            None => None,
                                        }
                                    } else {
                                        None
                                    }
                                },
                                None => None,
                            };
                            match rmbp {
                                Some(c) => Some(c),
                                None => {
                                    if s.len() >= 1 && s[0] == 98 {
                                        Some(DbgCmd::ListBreakpoints)
                                    } else if s.len() >= 1 && s[0] == 99 {
                                        Some(DbgCmd::Continue)
                                    } else if s.len() >= 1 && s[0] == 114 {
                                        Some(DbgCmd::PrintRegs)
                                    } else {
                                        None
                                    }
                                },
                            }
                        },
                    }
                }
            },
        }
    }
}

} // verus!
