use vstd::prelude::*;

verus! {

/// Number of indexed internal temporaries (`InTmp`).
pub const NB_INTERNAL_REGS: usize = 8;

/// Number of general data registers, and of address registers.
pub const NB_GENERAL_REGS: usize = 8;

/// A reference to one storage location of the register file, or an
/// immediate literal standing in for one.
#[derive(Clone, Copy, PartialEq, Eq, Structural, Debug)]
pub enum Reg {
    D(usize),
    A(usize),
    PC,
    CCR,
    InTmp(usize),
    In0,
    In1,
    IOBuffer,
    Immediate(i32),
}

/// Why a register reference could not be built.
#[derive(Clone, Copy, PartialEq, Eq, Structural, Debug)]
pub enum RegError {
    /// A data or address register number outside `0..8`.
    OutOfRange { index: u8 },
    /// An index operand that is neither a data nor an address register.
    NotAnIndexRegister,
}

impl Reg {
    /// The reference names an existing location (or is an immediate).
    pub open spec fn valid(self) -> bool {
        match self {
            Reg::D(i) => i < NB_GENERAL_REGS,
            Reg::A(i) => i < NB_GENERAL_REGS,
            Reg::InTmp(i) => i < NB_INTERNAL_REGS,
            _ => true,
        }
    }

    /// The reference may be the target of a write.
    pub open spec fn writable(self) -> bool {
        self.valid() && !(self is Immediate)
    }

    /// The reference can serve as the index operand of an indexed mode.
    pub open spec fn is_index(self) -> bool {
        match self {
            Reg::D(i) => i < NB_GENERAL_REGS,
            Reg::A(i) => i < NB_GENERAL_REGS,
            _ => false,
        }
    }

    /// Data register `n`, rejected unless `n < 8`.
    pub fn data(n: u8) -> (r: Result<Reg, RegError>)
        ensures
            n < 8 ==> r == Ok::<Reg, RegError>(Reg::D(n as usize)),
            n >= 8 ==> r == Err::<Reg, RegError>(RegError::OutOfRange { index: n }),
    {
        if (n as usize) < NB_GENERAL_REGS {
            Ok(Reg::D(n as usize))
        } else {
            Err(RegError::OutOfRange { index: n })
        }
    }

    /// Address register `n`, rejected unless `n < 8`.
    pub fn addr(n: u8) -> (r: Result<Reg, RegError>)
        ensures
            n < 8 ==> r == Ok::<Reg, RegError>(Reg::A(n as usize)),
            n >= 8 ==> r == Err::<Reg, RegError>(RegError::OutOfRange { index: n }),
    {
        if (n as usize) < NB_GENERAL_REGS {
            Ok(Reg::A(n as usize))
        } else {
            Err(RegError::OutOfRange { index: n })
        }
    }
}

/// Mathematical model of the register file.
pub struct RegsView {
    pub d: Seq<u32>,
    pub a: Seq<u32>,
    pub pc: u32,
    pub ccr: u8,
    /// Temporaries `0..8`, then `In0`, `In1` and `IOBuffer`.
    pub intern: Seq<u32>,
}

/// Slot of `In0` among the internal registers.
pub const IN0_SLOT: usize = 8;

/// Slot of `In1` among the internal registers.
pub const IN1_SLOT: usize = 9;

/// Slot of `IOBuffer` among the internal registers.
pub const IOBUF_SLOT: usize = 10;

impl RegsView {
    pub open spec fn wf(self) -> bool {
        &&& self.d.len() == 8
        &&& self.a.len() == 8
        &&& self.intern.len() == 11
    }

    /// Value read through `r`; an immediate reads as its literal, unsigned.
    pub open spec fn read(self, r: Reg) -> u32 {
        match r {
            Reg::D(i) => self.d[i as int],
            Reg::A(i) => self.a[i as int],
            Reg::PC => self.pc,
            Reg::CCR => self.ccr as u32,
            Reg::InTmp(i) => self.intern[i as int],
            Reg::In0 => self.intern[IN0_SLOT as int],
            Reg::In1 => self.intern[IN1_SLOT as int],
            Reg::IOBuffer => self.intern[IOBUF_SLOT as int],
            Reg::Immediate(x) => x as u32,
        }
    }

    /// The register file after writing `x` through `r`; the condition
    /// codes keep the low eight bits; an immediate is left untouched.
    pub open spec fn write(self, r: Reg, x: u32) -> RegsView {
        match r {
            Reg::D(i) => RegsView { d: self.d.update(i as int, x), ..self },
            Reg::A(i) => RegsView { a: self.a.update(i as int, x), ..self },
            Reg::PC => RegsView { pc: x, ..self },
            Reg::CCR => RegsView { ccr: x as u8, ..self },
            Reg::InTmp(i) => RegsView { intern: self.intern.update(i as int, x), ..self },
            Reg::In0 => RegsView { intern: self.intern.update(IN0_SLOT as int, x), ..self },
            Reg::In1 => RegsView { intern: self.intern.update(IN1_SLOT as int, x), ..self },
            Reg::IOBuffer => RegsView {
                intern: self.intern.update(IOBUF_SLOT as int, x),
                ..self
            },
            Reg::Immediate(_) => self,
        }
    }
}

/// All CPU-visible and scratch registers of one machine.
pub struct RegisterFile {
    data_r: [u32; 8],
    addr_r: [u32; 8],
    pc: u32,
    ccr: u8,
    intern_r: [u32; 11],
}

impl View for RegisterFile {
    type V = RegsView;

    closed spec fn view(&self) -> RegsView {
        RegsView {
            d: self.data_r@,
            a: self.addr_r@,
            pc: self.pc,
            ccr: self.ccr,
            intern: self.intern_r@,
        }
    }
}

impl RegisterFile {
    /// A register file with every register cleared.
    pub fn new() -> (rf: RegisterFile)
        ensures
            rf@.wf(),
            rf@.d == Seq::new(8, |i: int| 0u32),
            rf@.a == Seq::new(8, |i: int| 0u32),
            rf@.pc == 0,
            rf@.ccr == 0,
            rf@.intern == Seq::new(11, |i: int| 0u32),
    {
        let rf = RegisterFile { data_r: [0u32; 8], addr_r: [0u32; 8], pc: 0, ccr: 0, intern_r: [0u32; 11] };
        assert(rf@.d =~= Seq::new(8, |i: int| 0u32));
        assert(rf@.a =~= Seq::new(8, |i: int| 0u32));
        assert(rf@.intern =~= Seq::new(11, |i: int| 0u32));
        rf
    }

    /// The model always has its full register banks.
    pub proof fn lemma_wf(&self)
        ensures
            self@.wf(),
    {
    }

    pub fn read(&self, r: Reg) -> (v: u32)
        requires
            r.valid(),
        ensures
            v == self@.read(r),
    {
        match r {
            Reg::D(i) => self.data_r[i],
            Reg::A(i) => self.addr_r[i],
            Reg::PC => self.pc,
            Reg::CCR => self.ccr as u32,
            Reg::InTmp(i) => self.intern_r[i],
            Reg::In0 => self.intern_r[IN0_SLOT],
            Reg::In1 => self.intern_r[IN1_SLOT],
            Reg::IOBuffer => self.intern_r[IOBUF_SLOT],
            Reg::Immediate(x) => x as u32,
        }
    }

    pub fn write(&mut self, r: Reg, x: u32)
        requires
            r.writable(),
        ensures
            final(self)@ == old(self)@.write(r, x),
            final(self)@.wf(),
    {
        match r {
            Reg::D(i) => self.data_r[i] = x,
            Reg::A(i) => self.addr_r[i] = x,
            Reg::PC => self.pc = x,
            Reg::CCR => self.ccr = x as u8,
            Reg::InTmp(i) => self.intern_r[i] = x,
            Reg::In0 => self.intern_r[IN0_SLOT] = x,
            Reg::In1 => self.intern_r[IN1_SLOT] = x,
            Reg::IOBuffer => self.intern_r[IOBUF_SLOT] = x,
            Reg::Immediate(_) => {},
        }
    }
}

} // verus!
