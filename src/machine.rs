use vstd::prelude::*;
use std::collections::VecDeque;
use crate::effaddr::{indexed, post_indexed, pre_indexed, EffAddr};
use crate::size::Size;
use crate::micro::{action, run_until, scaled, step, wrap_add, MicroI, NextAction};
use crate::regs::{Reg, RegisterFile, RegsView};

verus! {

/// Where the executor stands after running its queue.
#[derive(Clone, Copy, PartialEq, Eq, Structural, Debug)]
pub enum RunState {
    /// The queue is drained.
    Idle,
    /// A fetch of this address is pending; the queue is paused.
    Suspended(u32),
}

/// The memory subsystem could not serve the fetch of `addr`; the
/// in-flight micro-program was dropped.
#[derive(Clone, Copy, PartialEq, Eq, Structural, Debug)]
pub struct FetchFailure {
    pub addr: u32,
}

/// Mathematical model of a machine.
pub struct MachineView {
    pub regs: RegsView,
    /// Micro-operations not yet applied, oldest first.
    pub queue: Seq<MicroI>,
    /// Address of the fetch the executor waits on, if suspended.
    pub pending: Option<u32>,
}

impl MachineView {
    pub open spec fn wf(self) -> bool {
        &&& self.regs.wf()
        &&& forall|i: int| 0 <= i < self.queue.len() ==> (#[trigger] self.queue[i]).wf()
    }
}

/// Register file, pending micro-program and executor state of one core.
pub struct M68K {
    regs: RegisterFile,
    instrs: VecDeque<MicroI>,
    pending: Option<u32>,
}

impl View for M68K {
    type V = MachineView;

    closed spec fn view(&self) -> MachineView {
        MachineView { regs: self.regs@, queue: self.instrs@, pending: self.pending }
    }
}

impl M68K {
    /// An idle machine with every register cleared.
    pub fn new() -> (m: M68K)
        ensures
            m@.wf(),
            m@.regs.d == Seq::new(8, |i: int| 0u32),
            m@.regs.a == Seq::new(8, |i: int| 0u32),
            m@.regs.pc == 0,
            m@.regs.ccr == 0,
            m@.regs.intern == Seq::new(11, |i: int| 0u32),
            m@.queue.len() == 0,
            m@.pending is None,
    {
        M68K { regs: RegisterFile::new(), instrs: VecDeque::new(), pending: None }
    }

    pub fn read_reg(&self, r: Reg) -> (v: u32)
        requires
            r.valid(),
        ensures
            v == self@.regs.read(r),
    {
        self.regs.read(r)
    }

    pub fn write_reg(&mut self, r: Reg, x: u32)
        requires
            r.writable(),
        ensures
            final(self)@.regs == old(self)@.regs.write(r, x),
            final(self)@.regs.wf(),
            final(self)@.queue == old(self)@.queue,
            final(self)@.pending == old(self)@.pending,
    {
        self.regs.write(r, x);
    }

    /// Applies one micro-operation to the register file.
    pub fn exec(&mut self, m: MicroI) -> (next: NextAction)
        requires
            m.wf(),
        ensures
            final(self)@.regs == step(old(self)@.regs, m),
            final(self)@.regs.wf(),
            next == action(old(self)@.regs, m),
            final(self)@.queue == old(self)@.queue,
            final(self)@.pending == old(self)@.pending,
    {
        proof {
            self.regs.lemma_wf();
        }
        match m {
            MicroI::Zero(r) => {
                self.write_reg(r, 0);
                NextAction::Next
            },
            MicroI::SetImm(r, x) => {
                self.write_reg(r, x);
                NextAction::Next
            },
            MicroI::Mov(dst, src) => {
                let x = self.read_reg(src);
                self.write_reg(dst, x);
                NextAction::Next
            },
            MicroI::Add(r, x) => {
                let a = self.read_reg(r);
                let b = self.read_reg(x);
                let sum = (a as u64 + b as u64) as u32;
                self.write_reg(r, sum);
                NextAction::Next
            },
            MicroI::Scale(r, s) => {
                let x = self.read_reg(r) << s.shift();
                self.write_reg(r, x);
                NextAction::Next
            },
            MicroI::RequestMem(addr) => NextAction::MemRequest(self.read_reg(addr)),
        }
    }

    /// Appends one micro-operation to the queue.
    pub fn add_instr(&mut self, mi: MicroI)
        requires
            old(self)@.wf(),
            mi.wf(),
        ensures
            final(self)@.wf(),
            final(self)@.queue == old(self)@.queue.push(mi),
            final(self)@.regs == old(self)@.regs,
            final(self)@.pending == old(self)@.pending,
    {
        proof {
            self.regs.lemma_wf();
        }
        self.instrs.push_back(mi);
        assert forall|i: int| 0 <= i < self@.queue.len() implies (#[trigger] self@.queue[i]).wf() by {
            if i < old(self)@.queue.len() {
                assert(self@.queue[i] == old(self)@.queue[i]);
            }
        }
    }

    /// Queues the micro-operations that resolve `ea`, after those already
    /// queued; the register file is not read.
    pub fn load_effaddr(&mut self, ea: EffAddr)
        requires
            old(self)@.wf(),
            ea.wf(),
        ensures
            final(self)@.wf(),
            final(self)@.queue == old(self)@.queue + ea.lowered(),
            final(self)@.regs == old(self)@.regs,
            final(self)@.pending == old(self)@.pending,
    {
        match ea {
            EffAddr::DataReg { r } => self.add_instr(MicroI::Mov(Reg::In0, Reg::D(r as usize))),
            EffAddr::AddrReg { r } => self.add_instr(MicroI::Mov(Reg::In0, Reg::A(r as usize))),
            EffAddr::Addr { r } => {
                self.add_instr(MicroI::RequestMem(Reg::A(r as usize)));
                self.add_instr(MicroI::Mov(Reg::In0, Reg::IOBuffer));
            },
            EffAddr::PostInc { r, s } => {
                let a = Reg::A(r as usize);
                self.add_instr(MicroI::RequestMem(a));
                self.add_instr(MicroI::Mov(Reg::In0, Reg::IOBuffer));
                self.add_instr(MicroI::Add(a, Reg::Immediate(s.value())));
            },
            EffAddr::PreDec { r, s } => {
                let a = Reg::A(r as usize);
                self.add_instr(MicroI::Add(a, Reg::Immediate(-s.value())));
                self.add_instr(MicroI::RequestMem(a));
                self.add_instr(MicroI::Mov(Reg::In0, Reg::IOBuffer));
            },
            EffAddr::AddrDisp { r, d } => {
                let a = Reg::A(r as usize);
                self.add_instr(MicroI::Mov(Reg::In0, a));
                self.add_instr(MicroI::Add(Reg::In0, Reg::Immediate(d as i32)));
                self.add_instr(MicroI::RequestMem(Reg::In0));
                self.add_instr(MicroI::Mov(Reg::In0, Reg::IOBuffer));
            },
            EffAddr::AddrIdx { r, idx, d, s } => self.add_indexed(Reg::A(r as usize), d, idx, s),
            EffAddr::AddrIndPostIdx { r, d, idx, s, od } => {
                self.add_post_indexed(Reg::A(r as usize), d, idx, s, od)
            },
            EffAddr::AddrIndPreIdx { r, d, idx, s, od } => {
                self.add_pre_indexed(Reg::A(r as usize), d, idx, s, od)
            },
            EffAddr::PCIndDisp { d } => {
                self.add_instr(MicroI::Mov(Reg::In0, Reg::PC));
                self.add_instr(MicroI::Add(Reg::In0, Reg::Immediate(d)));
                self.add_instr(MicroI::RequestMem(Reg::In0));
                self.add_instr(MicroI::Mov(Reg::In0, Reg::IOBuffer));
            },
            EffAddr::PCIndIdx { d, idx, s } => self.add_indexed(Reg::PC, d, idx, s),
            EffAddr::PCIndPostIdx { d, idx, s, od } => self.add_post_indexed(Reg::PC, d, idx, s, od),
            EffAddr::PCIndPreIdx { d, idx, s, od } => self.add_pre_indexed(Reg::PC, d, idx, s, od),
            EffAddr::AbsShort { addr } => {
                self.add_instr(MicroI::RequestMem(Reg::Immediate(addr as i32)));
                self.add_instr(MicroI::Mov(Reg::In0, Reg::IOBuffer));
            },
            EffAddr::AbsLong { hi, lo } => {
                let long = ((hi as u32) << 16u32) | (lo as u32);
                self.add_instr(MicroI::RequestMem(Reg::Immediate(long as i32)));
                self.add_instr(MicroI::Mov(Reg::In0, Reg::IOBuffer));
            },
            EffAddr::Immediate { addr } => {
                self.add_instr(MicroI::RequestMem(Reg::Immediate(addr as i32)));
                self.add_instr(MicroI::Mov(Reg::In0, Reg::IOBuffer));
            },
        }
        assert(self@.queue =~= old(self)@.queue + ea.lowered());
    }

    fn add_indexed(&mut self, base: Reg, d: i32, idx: Reg, s: Size)
        requires
            old(self)@.wf(),
            base.valid(),
            idx.is_index(),
        ensures
            final(self)@.wf(),
            final(self)@.queue == old(self)@.queue + indexed(base, d, idx, s),
            final(self)@.regs == old(self)@.regs,
            final(self)@.pending == old(self)@.pending,
    {
        self.add_instr(MicroI::Mov(Reg::In0, base));
        self.add_instr(MicroI::Add(Reg::In0, Reg::Immediate(d)));
        self.add_instr(MicroI::Mov(Reg::In1, idx));
        self.add_instr(MicroI::Scale(Reg::In1, s));
        self.add_instr(MicroI::Add(Reg::In0, Reg::In1));
        self.add_instr(MicroI::RequestMem(Reg::In0));
        self.add_instr(MicroI::Mov(Reg::In0, Reg::IOBuffer));
        assert(self@.queue =~= old(self)@.queue + indexed(base, d, idx, s));
    }

    fn add_post_indexed(&mut self, base: Reg, d: i32, idx: Reg, s: Size, od: i32)
        requires
            old(self)@.wf(),
            base.valid(),
            idx.is_index(),
        ensures
            final(self)@.wf(),
            final(self)@.queue == old(self)@.queue + post_indexed(base, d, idx, s, od),
            final(self)@.regs == old(self)@.regs,
            final(self)@.pending == old(self)@.pending,
    {
        self.add_instr(MicroI::Mov(Reg::In0, base));
        self.add_instr(MicroI::Add(Reg::In0, Reg::Immediate(d)));
        self.add_instr(MicroI::RequestMem(Reg::In0));
        self.add_instr(MicroI::Mov(Reg::In0, Reg::IOBuffer));
        self.add_instr(MicroI::Mov(Reg::In1, idx));
        self.add_instr(MicroI::Scale(Reg::In1, s));
        self.add_instr(MicroI::Add(Reg::In0, Reg::In1));
        self.add_instr(MicroI::Add(Reg::In0, Reg::Immediate(od)));
        self.add_instr(MicroI::RequestMem(Reg::In0));
        self.add_instr(MicroI::Mov(Reg::In0, Reg::IOBuffer));
        assert(self@.queue =~= old(self)@.queue + post_indexed(base, d, idx, s, od));
    }

    fn add_pre_indexed(&mut self, base: Reg, d: i32, idx: Reg, s: Size, od: i32)
        requires
            old(self)@.wf(),
            base.valid(),
            idx.is_index(),
        ensures
            final(self)@.wf(),
            final(self)@.queue == old(self)@.queue + pre_indexed(base, d, idx, s, od),
            final(self)@.regs == old(self)@.regs,
            final(self)@.pending == old(self)@.pending,
    {
        self.add_instr(MicroI::Mov(Reg::In0, base));
        self.add_instr(MicroI::Add(Reg::In0, Reg::Immediate(d)));
        self.add_instr(MicroI::Mov(Reg::In1, idx));
        self.add_instr(MicroI::Scale(Reg::In1, s));
        self.add_instr(MicroI::Add(Reg::In0, Reg::In1));
        self.add_instr(MicroI::RequestMem(Reg::In0));
        self.add_instr(MicroI::Mov(Reg::In0, Reg::IOBuffer));
        self.add_instr(MicroI::Add(Reg::In0, Reg::Immediate(od)));
        self.add_instr(MicroI::RequestMem(Reg::In0));
        self.add_instr(MicroI::Mov(Reg::In0, Reg::IOBuffer));
        assert(self@.queue =~= old(self)@.queue + pre_indexed(base, d, idx, s, od));
    }

    /// Applies queued micro-operations in order until the queue is drained
    /// or a memory request suspends the executor.
    pub fn run(&mut self) -> (st: RunState)
        requires
            old(self)@.wf(),
            old(self)@.pending is None,
        ensures
            final(self)@.wf(),
            ({
                let (r, k, p) = run_until(old(self)@.regs, old(self)@.queue);
                &&& final(self)@.regs == r
                &&& final(self)@.queue == old(self)@.queue.skip(k as int)
                &&& final(self)@.pending == p
                &&& st == match p {
                    Some(a) => RunState::Suspended(a),
                    None => RunState::Idle,
                }
            }),
    {
        let ghost q0 = self@.queue;
        let ghost (r0, k0, p0) = run_until(self@.regs, self@.queue);
        let ghost mut done: int = 0;
        loop
            invariant
                self@.wf(),
                self@.pending is None,
                q0 == old(self)@.queue,
                (r0, k0, p0) == run_until(old(self)@.regs, old(self)@.queue),
                0 <= done <= q0.len(),
                self@.queue == q0.skip(done),
                run_until(self@.regs, self@.queue) == (r0, (k0 - done) as nat, p0),
                k0 >= done,
            decreases self@.queue.len(),
        {
            let ghost before = self@;
            match self.instrs.pop_front() {
                None => {
                    assert(run_until(before.regs, before.queue) == (before.regs, 0nat, None::<u32>));
                    assert(done == k0);
                    return RunState::Idle;
                },
                Some(m) => {
                    assert(m == before.queue[0]);
                    assert(self@.queue =~= before.queue.skip(1));
                    assert(q0.skip(done).skip(1) =~= q0.skip(done + 1));
                    let ghost rest = run_until(step(before.regs, m), before.queue.skip(1));
                    assert(run_until(before.regs, before.queue) == match m {
                        MicroI::RequestMem(a) => (before.regs, 1nat, Some(before.regs.read(a))),
                        _ => (rest.0, rest.1 + 1, rest.2),
                    });
                    let next = self.exec(m);
                    proof {
                        done = done + 1;
                    }
                    if let NextAction::MemRequest(addr) = next {
                        self.pending = Some(addr);
                        return RunState::Suspended(addr);
                    }
                },
            }
        }
    }

    /// Hands the fetched value to the suspended executor: it lands in the
    /// I/O buffer and the executor may run again.
    pub fn resume(&mut self, value: u32)
        requires
            old(self)@.wf(),
            old(self)@.pending is Some,
        ensures
            final(self)@.wf(),
            final(self)@.regs == old(self)@.regs.write(Reg::IOBuffer, value),
            final(self)@.queue == old(self)@.queue,
            final(self)@.pending is None,
    {
        self.write_reg(Reg::IOBuffer, value);
        self.pending = None;
    }

    /// Reports that the pending fetch failed: the in-flight micro-program
    /// is dropped and the executor is idle.
    pub fn fail_fetch(&mut self) -> (f: FetchFailure)
        requires
            old(self)@.pending is Some,
        ensures
            old(self)@.pending == Some(f.addr),
            final(self)@.wf(),
            final(self)@.regs == old(self)@.regs,
            final(self)@.queue.len() == 0,
            final(self)@.pending is None,
    {
        proof {
            self.regs.lemma_wf();
        }
        let addr = match self.pending {
            Some(a) => a,
            None => 0,
        };
        self.instrs.clear();
        self.pending = None;
        FetchFailure { addr }
    }

    /// The address of the fetch the executor waits on, if suspended.
    pub fn pending_fetch(&self) -> (p: Option<u32>)
        ensures
            p == self@.pending,
    {
        self.pending
    }

    /// Number of micro-operations still queued.
    pub fn queued(&self) -> (n: usize)
        ensures
            n == self@.queue.len(),
    {
        self.instrs.len()
    }
}

} // verus!
