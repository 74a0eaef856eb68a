use vstd::prelude::*;
use crate::effaddr::{abs_long_addr, EffAddr};
use crate::micro::{scaled, wrap_add};
use crate::regs::{Reg, RegsView};
use crate::size::Size;

verus! {

/// `base + d`, the displacement sign-extended to 32 bits.
pub open spec fn disp_addr(base: u32, d: i32) -> u32 {
    wrap_add(base, d as u32)
}

/// `base + d + x * scale`.
pub open spec fn idx_addr(base: u32, d: i32, x: u32, s: Size) -> u32 {
    wrap_add(disp_addr(base, d), scaled(x, s))
}

/// Fetches of `([d, base], Xn*scale, od)`: the pointer at `base + d`,
/// then the operand at that pointer plus the scaled index plus `od`.
pub open spec fn post_idx_fetches(
    base: u32,
    d: i32,
    x: u32,
    s: Size,
    od: i32,
    mem: spec_fn(u32) -> u32,
) -> Seq<u32> {
    let p = disp_addr(base, d);
    seq![p, wrap_add(wrap_add(mem(p), scaled(x, s)), od as u32)]
}

/// Fetches of `([d, base, Xn*scale], od)`: the pointer at
/// `base + d + x * scale`, then the operand at that pointer plus `od`.
pub open spec fn pre_idx_fetches(
    base: u32,
    d: i32,
    x: u32,
    s: Size,
    od: i32,
    mem: spec_fn(u32) -> u32,
) -> Seq<u32> {
    let p = idx_addr(base, d, x, s);
    seq![p, wrap_add(mem(p), od as u32)]
}

/// Addresses fetched, in order, when `ea` is resolved against `regs`.
pub open spec fn ea_fetches(regs: RegsView, ea: EffAddr, mem: spec_fn(u32) -> u32) -> Seq<u32> {
    match ea {
        EffAddr::DataReg { .. } => Seq::empty(),
        EffAddr::AddrReg { .. } => Seq::empty(),
        EffAddr::Addr { r } => seq![regs.a[r as int]],
        EffAddr::PostInc { r, .. } => seq![regs.a[r as int]],
        EffAddr::PreDec { r, s } => seq![wrap_add(regs.a[r as int], s.neg_byte_count() as u32)],
        EffAddr::AddrDisp { r, d } => seq![disp_addr(regs.a[r as int], d as i32)],
        EffAddr::AddrIdx { r, idx, d, s } => seq![
            idx_addr(regs.a[r as int], d, regs.read(idx), s),
        ],
        EffAddr::AddrIndPostIdx { r, d, idx, s, od } => post_idx_fetches(
            regs.a[r as int],
            d,
            regs.read(idx),
            s,
            od,
            mem,
        ),
        EffAddr::AddrIndPreIdx { r, d, idx, s, od } => pre_idx_fetches(
            regs.a[r as int],
            d,
            regs.read(idx),
            s,
            od,
            mem,
        ),
        EffAddr::PCIndDisp { d } => seq![disp_addr(regs.pc, d)],
        EffAddr::PCIndIdx { d, idx, s } => seq![idx_addr(regs.pc, d, regs.read(idx), s)],
        EffAddr::PCIndPostIdx { d, idx, s, od } => post_idx_fetches(
            regs.pc,
            d,
            regs.read(idx),
            s,
            od,
            mem,
        ),
        EffAddr::PCIndPreIdx { d, idx, s, od } => pre_idx_fetches(
            regs.pc,
            d,
            regs.read(idx),
            s,
            od,
            mem,
        ),
        EffAddr::AbsShort { addr } => seq![(addr as i32) as u32],
        EffAddr::AbsLong { hi, lo } => seq![abs_long_addr(hi, lo)],
        EffAddr::Immediate { addr } => seq![addr],
    }
}

/// The value staged in `In0` once `ea` is resolved: the register itself
/// for the direct modes, else what memory holds at the last fetch.
pub open spec fn ea_value(regs: RegsView, ea: EffAddr, mem: spec_fn(u32) -> u32) -> u32 {
    match ea {
        EffAddr::DataReg { r } => regs.d[r as int],
        EffAddr::AddrReg { r } => regs.a[r as int],
        _ => {
            let f = ea_fetches(regs, ea, mem);
            mem(f[f.len() - 1])
        },
    }
}

/// Address registers once `ea` is resolved: post-increment and
/// pre-decrement move theirs by the operand size; no other mode writes one.
pub open spec fn ea_addr_regs(regs: RegsView, ea: EffAddr) -> Seq<u32> {
    match ea {
        EffAddr::PostInc { r, s } => regs.a.update(
            r as int,
            wrap_add(regs.a[r as int], s.byte_count() as u32),
        ),
        EffAddr::PreDec { r, s } => regs.a.update(
            r as int,
            wrap_add(regs.a[r as int], s.neg_byte_count() as u32),
        ),
        _ => regs.a,
    }
}

/// `fin` holds the registers `regs` held, but for the address registers
/// (which it holds as `a`) and the scratch registers `In0`, `In1`, `IOBuffer`.
pub open spec fn same_outside_scratch(fin: RegsView, regs: RegsView, a: Seq<u32>) -> bool {
    &&& fin.wf()
    &&& fin.d == regs.d
    &&& fin.a == a
    &&& fin.pc == regs.pc
    &&& fin.ccr == regs.ccr
    &&& forall|i: int| 0 <= i < 8 ==> fin.intern[i] == regs.intern[i]
}

} // verus!
