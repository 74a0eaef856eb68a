use vstd::prelude::*;
use crate::micro::MicroI;
use crate::regs::{Reg, RegError, NB_GENERAL_REGS};
use crate::size::Size;

verus! {

/// An addressing-mode descriptor with the operand fields its mode needs.
#[derive(Clone, Copy, PartialEq, Eq, Structural, Debug)]
#[allow(inconsistent_fields)]
pub enum EffAddr {
    /// `Dn`
    DataReg { r: u8 },
    /// `An`
    AddrReg { r: u8 },
    /// `(An)`
    Addr { r: u8 },
    /// `(An)+`
    PostInc { r: u8, s: Size },
    /// `-(An)`
    PreDec { r: u8, s: Size },
    /// `(d16, An)`
    AddrDisp { r: u8, d: i16 },
    /// `(d, An, Xn*scale)`
    AddrIdx { r: u8, idx: Reg, d: i32, s: Size },
    /// `([d, An], Xn*scale, od)`
    AddrIndPostIdx { r: u8, d: i32, idx: Reg, s: Size, od: i32 },
    /// `([d, An, Xn*scale], od)`
    AddrIndPreIdx { r: u8, d: i32, idx: Reg, s: Size, od: i32 },
    /// `(d, PC)`
    PCIndDisp { d: i32 },
    /// `(d, PC, Xn*scale)`
    PCIndIdx { d: i32, idx: Reg, s: Size },
    /// `([d, PC], Xn*scale, od)`
    PCIndPostIdx { d: i32, idx: Reg, s: Size, od: i32 },
    /// `([d, PC, Xn*scale], od)`
    PCIndPreIdx { d: i32, idx: Reg, s: Size, od: i32 },
    /// `(xxx).W`, sign-extended
    AbsShort { addr: i16 },
    /// `(xxx).L`, given as its high and low words
    AbsLong { hi: u16, lo: u16 },
    /// `#imm`, fetched from the location the value stands for
    Immediate { addr: u32 },
}

/// The address an absolute long operand names.
pub open spec fn abs_long_addr(hi: u16, lo: u16) -> u32 {
    ((hi as u32) << 16u32) | (lo as u32)
}

/// The absolute long address is the high word times 65536 plus the low word.
pub proof fn lemma_abs_long_addr(hi: u16, lo: u16)
    ensures
        abs_long_addr(hi, lo) == hi * 65536 + lo,
{
    let x = hi as u32;
    let y = lo as u32;
    assert((x << 16u32) | y == x * 65536 + y) by (bit_vector)
        requires
            x < 65536,
            y < 65536,
    ;
}

impl EffAddr {
    /// Register number of the descriptor (data or address), if it has one.
    pub open spec fn base_reg(self) -> Option<u8> {
        match self {
            EffAddr::DataReg { r } => Some(r),
            EffAddr::AddrReg { r } => Some(r),
            EffAddr::Addr { r } => Some(r),
            EffAddr::PostInc { r, .. } => Some(r),
            EffAddr::PreDec { r, .. } => Some(r),
            EffAddr::AddrDisp { r, .. } => Some(r),
            EffAddr::AddrIdx { r, .. } => Some(r),
            EffAddr::AddrIndPostIdx { r, .. } => Some(r),
            EffAddr::AddrIndPreIdx { r, .. } => Some(r),
            _ => None,
        }
    }

    /// Index operand of the descriptor, if it has one.
    pub open spec fn index_reg(self) -> Option<Reg> {
        match self {
            EffAddr::AddrIdx { idx, .. } => Some(idx),
            EffAddr::AddrIndPostIdx { idx, .. } => Some(idx),
            EffAddr::AddrIndPreIdx { idx, .. } => Some(idx),
            EffAddr::PCIndIdx { idx, .. } => Some(idx),
            EffAddr::PCIndPostIdx { idx, .. } => Some(idx),
            EffAddr::PCIndPreIdx { idx, .. } => Some(idx),
            _ => None,
        }
    }

    /// The first defect of the descriptor: its register number is checked
    /// before its index operand.
    pub open spec fn defect(self) -> Option<RegError> {
        match (self.base_reg(), self.index_reg()) {
            (Some(r), _) if r >= 8 => Some(RegError::OutOfRange { index: r }),
            (_, Some(x)) if !x.is_index() => Some(RegError::NotAnIndexRegister),
            _ => None,
        }
    }

    /// Register numbers are in `0..8` and index operands are data or
    /// address registers.
    pub open spec fn wf(self) -> bool {
        self.defect() is None
    }

    /// The micro-operations that resolve this descriptor, in order.
    pub open spec fn lowered(self) -> Seq<MicroI> {
        match self {
            EffAddr::DataReg { r } => seq![MicroI::Mov(Reg::In0, Reg::D(r as usize))],
            EffAddr::AddrReg { r } => seq![MicroI::Mov(Reg::In0, Reg::A(r as usize))],
            EffAddr::Addr { r } => seq![
                MicroI::RequestMem(Reg::A(r as usize)),
                MicroI::Mov(Reg::In0, Reg::IOBuffer),
            ],
            EffAddr::PostInc { r, s } => seq![
                MicroI::RequestMem(Reg::A(r as usize)),
                MicroI::Mov(Reg::In0, Reg::IOBuffer),
                MicroI::Add(Reg::A(r as usize), Reg::Immediate(s.byte_count())),
            ],
            EffAddr::PreDec { r, s } => seq![
                MicroI::Add(Reg::A(r as usize), Reg::Immediate(s.neg_byte_count())),
                MicroI::RequestMem(Reg::A(r as usize)),
                MicroI::Mov(Reg::In0, Reg::IOBuffer),
            ],
            EffAddr::AddrDisp { r, d } => seq![
                MicroI::Mov(Reg::In0, Reg::A(r as usize)),
                MicroI::Add(Reg::In0, Reg::Immediate(d as i32)),
                MicroI::RequestMem(Reg::In0),
                MicroI::Mov(Reg::In0, Reg::IOBuffer),
            ],
            EffAddr::AddrIdx { r, idx, d, s } => indexed(Reg::A(r as usize), d, idx, s),
            EffAddr::AddrIndPostIdx { r, d, idx, s, od } => post_indexed(
                Reg::A(r as usize),
                d,
                idx,
                s,
                od,
            ),
            EffAddr::AddrIndPreIdx { r, d, idx, s, od } => pre_indexed(
                Reg::A(r as usize),
                d,
                idx,
                s,
                od,
            ),
            EffAddr::PCIndDisp { d } => seq![
                MicroI::Mov(Reg::In0, Reg::PC),
                MicroI::Add(Reg::In0, Reg::Immediate(d)),
                MicroI::RequestMem(Reg::In0),
                MicroI::Mov(Reg::In0, Reg::IOBuffer),
            ],
            EffAddr::PCIndIdx { d, idx, s } => indexed(Reg::PC, d, idx, s),
            EffAddr::PCIndPostIdx { d, idx, s, od } => post_indexed(Reg::PC, d, idx, s, od),
            EffAddr::PCIndPreIdx { d, idx, s, od } => pre_indexed(Reg::PC, d, idx, s, od),
            EffAddr::AbsShort { addr } => seq![
                MicroI::RequestMem(Reg::Immediate(addr as i32)),
                MicroI::Mov(Reg::In0, Reg::IOBuffer),
            ],
            EffAddr::AbsLong { hi, lo } => seq![
                MicroI::RequestMem(Reg::Immediate(abs_long_addr(hi, lo) as i32)),
                MicroI::Mov(Reg::In0, Reg::IOBuffer),
            ],
            EffAddr::Immediate { addr } => seq![
                MicroI::RequestMem(Reg::Immediate(addr as i32)),
                MicroI::Mov(Reg::In0, Reg::IOBuffer),
            ],
        }
    }
}

/// `(d, base, Xn*scale)`: base plus displacement plus scaled index, fetched.
pub open spec fn indexed(base: Reg, d: i32, idx: Reg, s: Size) -> Seq<MicroI> {
    seq![
        MicroI::Mov(Reg::In0, base),
        MicroI::Add(Reg::In0, Reg::Immediate(d)),
        MicroI::Mov(Reg::In1, idx),
        MicroI::Scale(Reg::In1, s),
        MicroI::Add(Reg::In0, Reg::In1),
        MicroI::RequestMem(Reg::In0),
        MicroI::Mov(Reg::In0, Reg::IOBuffer),
    ]
}

/// `([d, base], Xn*scale, od)`: the index joins after the first fetch.
pub open spec fn post_indexed(base: Reg, d: i32, idx: Reg, s: Size, od: i32) -> Seq<MicroI> {
    seq![
        MicroI::Mov(Reg::In0, base),
        MicroI::Add(Reg::In0, Reg::Immediate(d)),
        MicroI::RequestMem(Reg::In0),
        MicroI::Mov(Reg::In0, Reg::IOBuffer),
        MicroI::Mov(Reg::In1, idx),
        MicroI::Scale(Reg::In1, s),
        MicroI::Add(Reg::In0, Reg::In1),
        MicroI::Add(Reg::In0, Reg::Immediate(od)),
        MicroI::RequestMem(Reg::In0),
        MicroI::Mov(Reg::In0, Reg::IOBuffer),
    ]
}

/// `([d, base, Xn*scale], od)`: the index joins before the first fetch.
pub open spec fn pre_indexed(base: Reg, d: i32, idx: Reg, s: Size, od: i32) -> Seq<MicroI> {
    seq![
        MicroI::Mov(Reg::In0, base),
        MicroI::Add(Reg::In0, Reg::Immediate(d)),
        MicroI::Mov(Reg::In1, idx),
        MicroI::Scale(Reg::In1, s),
        MicroI::Add(Reg::In0, Reg::In1),
        MicroI::RequestMem(Reg::In0),
        MicroI::Mov(Reg::In0, Reg::IOBuffer),
        MicroI::Add(Reg::In0, Reg::Immediate(od)),
        MicroI::RequestMem(Reg::In0),
        MicroI::Mov(Reg::In0, Reg::IOBuffer),
    ]
}

impl EffAddr {
    /// Accepts the descriptor when it is well formed, else reports its
    /// first defect.
    pub fn validated(self) -> (r: Result<EffAddr, RegError>)
        ensures
            self.wf() ==> r == Ok::<EffAddr, RegError>(self),
            self.defect() matches Some(e) ==> r == Err::<EffAddr, RegError>(e),
    {
        let base: Option<u8> = match self {
            EffAddr::DataReg { r } => Some(r),
            EffAddr::AddrReg { r } => Some(r),
            EffAddr::Addr { r } => Some(r),
            EffAddr::PostInc { r, .. } => Some(r),
            EffAddr::PreDec { r, .. } => Some(r),
            EffAddr::AddrDisp { r, .. } => Some(r),
            EffAddr::AddrIdx { r, .. } => Some(r),
            EffAddr::AddrIndPostIdx { r, .. } => Some(r),
            EffAddr::AddrIndPreIdx { r, .. } => Some(r),
            _ => None,
        };
        let idx: Option<Reg> = match self {
            EffAddr::AddrIdx { idx, .. } => Some(idx),
            EffAddr::AddrIndPostIdx { idx, .. } => Some(idx),
            EffAddr::AddrIndPreIdx { idx, .. } => Some(idx),
            EffAddr::PCIndIdx { idx, .. } => Some(idx),
            EffAddr::PCIndPostIdx { idx, .. } => Some(idx),
            EffAddr::PCIndPreIdx { idx, .. } => Some(idx),
            _ => None,
        };
        if let Some(r) = base {
            if r as usize >= NB_GENERAL_REGS {
                return Err(RegError::OutOfRange { index: r });
            }
        }
        if let Some(x) = idx {
            let ok = match x {
                Reg::D(i) => i < NB_GENERAL_REGS,
                Reg::A(i) => i < NB_GENERAL_REGS,
                _ => false,
            };
            if !ok {
                return Err(RegError::NotAnIndexRegister);
            }
        }
        Ok(self)
    }
}

} // verus!
