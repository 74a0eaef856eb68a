use vstd::prelude::*;
use crate::regs::{Reg, RegsView};
use crate::size::Size;

verus! {

/// A primitive operation of the address-computation interpreter.
#[derive(Clone, Copy, PartialEq, Eq, Structural, Debug)]
pub enum MicroI {
    /// `r := 0`
    Zero(Reg),
    /// `r := x`
    SetImm(Reg, u32),
    /// `dst := src`
    Mov(Reg, Reg),
    /// `r := r + x`, wrapping at 32 bits; `x` is only read.
    Add(Reg, Reg),
    /// `r := r << size.shift()`
    Scale(Reg, Size),
    /// Hand the address held in the operand to the memory subsystem.
    RequestMem(Reg),
}

/// What the executor does after one micro-operation.
#[derive(Clone, Copy, PartialEq, Eq, Structural, Debug)]
pub enum NextAction {
    Next,
    MemRequest(u32),
}

/// Sum of two 32-bit values, wrapping around.
pub open spec fn wrap_add(a: u32, b: u32) -> u32 {
    (a + b) as u32
}

/// An index value scaled by an operand size (bits shifted out are lost).
pub open spec fn scaled(x: u32, s: Size) -> u32 {
    x << s.shift_amount()
}

impl MicroI {
    /// Every operand names an existing location and nothing writes an immediate.
    pub open spec fn wf(self) -> bool {
        match self {
            MicroI::Zero(r) => r.writable(),
            MicroI::SetImm(r, _) => r.writable(),
            MicroI::Mov(dst, src) => dst.writable() && src.valid(),
            MicroI::Add(r, x) => r.writable() && x.valid(),
            MicroI::Scale(r, _) => r.writable(),
            MicroI::RequestMem(a) => a.valid(),
        }
    }
}

/// Register file after applying `m`; a memory request changes nothing.
pub open spec fn step(regs: RegsView, m: MicroI) -> RegsView {
    match m {
        MicroI::Zero(r) => regs.write(r, 0),
        MicroI::SetImm(r, x) => regs.write(r, x),
        MicroI::Mov(dst, src) => regs.write(dst, regs.read(src)),
        MicroI::Add(r, x) => regs.write(r, wrap_add(regs.read(r), regs.read(x))),
        MicroI::Scale(r, s) => regs.write(r, scaled(regs.read(r), s)),
        MicroI::RequestMem(_) => regs,
    }
}

/// What the executor does after applying `m` to `regs`.
pub open spec fn action(regs: RegsView, m: MicroI) -> NextAction {
    match m {
        MicroI::RequestMem(a) => NextAction::MemRequest(regs.read(a)),
        _ => NextAction::Next,
    }
}

/// Runs `ops` until the first memory request or the end: the register file
/// reached, how many operations were consumed, and the requested address.
pub open spec fn run_until(regs: RegsView, ops: Seq<MicroI>) -> (RegsView, nat, Option<u32>)
    decreases ops.len(),
{
    if ops.len() == 0 {
        (regs, 0, None)
    } else {
        match ops[0] {
            MicroI::RequestMem(a) => (regs, 1, Some(regs.read(a))),
            m => {
                let (r, k, p) = run_until(step(regs, m), ops.skip(1));
                (r, k + 1, p)
            },
        }
    }
}

/// Runs `ops` to the end against a memory that answers address `x` with
/// `mem(x)` by filling the I/O buffer: the final register file and the
/// addresses fetched, in order.
pub open spec fn run_ops(regs: RegsView, ops: Seq<MicroI>, mem: spec_fn(u32) -> u32) -> (
    RegsView,
    Seq<u32>,
)
    decreases ops.len(),
{
    if ops.len() == 0 {
        (regs, Seq::empty())
    } else {
        match ops[0] {
            MicroI::RequestMem(a) => {
                let addr = regs.read(a);
                let (r, f) = run_ops(regs.write(Reg::IOBuffer, mem(addr)), ops.skip(1), mem);
                (r, seq![addr] + f)
            },
            m => run_ops(step(regs, m), ops.skip(1), mem),
        }
    }
}

/// Running up to a suspension, answering it, and running the rest is
/// the same as running the whole sequence against that memory.
pub proof fn lemma_run_until_resume(regs: RegsView, ops: Seq<MicroI>, mem: spec_fn(u32) -> u32)
    ensures
        ({
            let (r1, k, p) = run_until(regs, ops);
            &&& k <= ops.len()
            &&& p is None ==> k == ops.len() && run_ops(regs, ops, mem) == (r1, Seq::<u32>::empty())
            &&& p matches Some(addr) ==> run_ops(regs, ops, mem) == ({
                let (r2, f) = run_ops(r1.write(Reg::IOBuffer, mem(addr)), ops.skip(k as int), mem);
                (r2, seq![addr] + f)
            })
        }),
    decreases ops.len(),
{
    if ops.len() > 0 {
        match ops[0] {
            MicroI::RequestMem(a) => {},
            m => {
                lemma_run_until_resume(step(regs, m), ops.skip(1), mem);
                let (r1, k, p) = run_until(step(regs, m), ops.skip(1));
                assert(ops.skip(1).skip(k as int) =~= ops.skip(k + 1int));
            },
        }
    }
}

} // verus!
