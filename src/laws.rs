use vstd::prelude::*;
use crate::effaddr::{abs_long_addr, indexed, post_indexed, pre_indexed, EffAddr};
use crate::meaning::{
    disp_addr, ea_addr_regs, ea_fetches, ea_value, idx_addr, post_idx_fetches, pre_idx_fetches,
    same_outside_scratch,
};
use crate::micro::{run_ops, scaled, wrap_add};
use crate::regs::{Reg, RegsView};
use crate::size::Size;

verus! {

proof fn lemma_indexed_shape(
    regs: RegsView,
    base: Reg,
    d: i32,
    idx: Reg,
    s: Size,
    mem: spec_fn(u32) -> u32,
)
    requires
        regs.wf(),
        base is PC || (base matches Reg::A(i) && i < 8),
        idx.is_index(),
    ensures
        ({
            let (fin, f) = run_ops(regs, indexed(base, d, idx, s), mem);
            let p = idx_addr(regs.read(base), d, regs.read(idx), s);
            &&& f == seq![p]
            &&& fin.read(Reg::In0) == mem(p)
            &&& same_outside_scratch(fin, regs, regs.a)
        }),
{
    reveal_with_fuel(run_ops, 8);
    let ops = indexed(base, d, idx, s);
    assert(ops.skip(1).skip(1).skip(1).skip(1).skip(1).skip(1).skip(1).len() == 0);
}

proof fn lemma_post_indexed_shape(
    regs: RegsView,
    base: Reg,
    d: i32,
    idx: Reg,
    s: Size,
    od: i32,
    mem: spec_fn(u32) -> u32,
)
    requires
        regs.wf(),
        base is PC || (base matches Reg::A(i) && i < 8),
        idx.is_index(),
    ensures
        ({
            let (fin, f) = run_ops(regs, post_indexed(base, d, idx, s, od), mem);
            let want = post_idx_fetches(regs.read(base), d, regs.read(idx), s, od, mem);
            &&& f == want
            &&& fin.read(Reg::In0) == mem(want[1])
            &&& same_outside_scratch(fin, regs, regs.a)
        }),
{
    reveal_with_fuel(run_ops, 11);
    let ops = post_indexed(base, d, idx, s, od);
    assert(ops.skip(1).skip(1).skip(1).skip(1).skip(1).skip(1).skip(1).skip(1).skip(1).skip(1).len() == 0);
    let (fin, f) = run_ops(regs, ops, mem);
    let want = post_idx_fetches(regs.read(base), d, regs.read(idx), s, od, mem);
    assert(f =~= want);
}

proof fn lemma_pre_indexed_shape(
    regs: RegsView,
    base: Reg,
    d: i32,
    idx: Reg,
    s: Size,
    od: i32,
    mem: spec_fn(u32) -> u32,
)
    requires
        regs.wf(),
        base is PC || (base matches Reg::A(i) && i < 8),
        idx.is_index(),
    ensures
        ({
            let (fin, f) = run_ops(regs, pre_indexed(base, d, idx, s, od), mem);
            let want = pre_idx_fetches(regs.read(base), d, regs.read(idx), s, od, mem);
            &&& f == want
            &&& fin.read(Reg::In0) == mem(want[1])
            &&& same_outside_scratch(fin, regs, regs.a)
        }),
{
    reveal_with_fuel(run_ops, 11);
    let ops = pre_indexed(base, d, idx, s, od);
    assert(ops.skip(1).skip(1).skip(1).skip(1).skip(1).skip(1).skip(1).skip(1).skip(1).skip(1).len() == 0);
    let (fin, f) = run_ops(regs, ops, mem);
    let want = pre_idx_fetches(regs.read(base), d, regs.read(idx), s, od, mem);
    assert(f =~= want);
}

proof fn lemma_register_modes(regs: RegsView, ea: EffAddr, mem: spec_fn(u32) -> u32)
    requires
        regs.wf(),
        ea.wf(),
        ea is DataReg || ea is AddrReg || ea is Addr || ea is PostInc || ea is PreDec,
    ensures
        ({
            let (fin, f) = run_ops(regs, ea.lowered(), mem);
            &&& f == ea_fetches(regs, ea, mem)
            &&& fin.read(Reg::In0) == ea_value(regs, ea, mem)
            &&& same_outside_scratch(fin, regs, ea_addr_regs(regs, ea))
        }),
{
    reveal_with_fuel(run_ops, 4);
    let ops = ea.lowered();
    assert(ops.len() <= 3);
    assert(ops.skip(1).len() == 0 || ops.skip(1).skip(1).len() == 0 || ops.skip(1).skip(1).skip(
        1,
    ).len() == 0);
    let (fin, f) = run_ops(regs, ops, mem);
    assert(f =~= ea_fetches(regs, ea, mem));
    assert(fin.a =~= ea_addr_regs(regs, ea));
}

proof fn lemma_displacement_modes(regs: RegsView, ea: EffAddr, mem: spec_fn(u32) -> u32)
    requires
        regs.wf(),
        ea.wf(),
        ea is AddrDisp || ea is PCIndDisp,
    ensures
        ({
            let (fin, f) = run_ops(regs, ea.lowered(), mem);
            &&& f == ea_fetches(regs, ea, mem)
            &&& fin.read(Reg::In0) == ea_value(regs, ea, mem)
            &&& same_outside_scratch(fin, regs, ea_addr_regs(regs, ea))
        }),
{
    reveal_with_fuel(run_ops, 5);
    let ops = ea.lowered();
    assert(ops.skip(1).skip(1).skip(1).skip(1).len() == 0);
    let (fin, f) = run_ops(regs, ops, mem);
    assert(f =~= ea_fetches(regs, ea, mem));
}

proof fn lemma_absolute_modes(regs: RegsView, ea: EffAddr, mem: spec_fn(u32) -> u32)
    requires
        regs.wf(),
        ea is AbsShort || ea is AbsLong || ea is Immediate,
    ensures
        ({
            let (fin, f) = run_ops(regs, ea.lowered(), mem);
            &&& f == ea_fetches(regs, ea, mem)
            &&& fin.read(Reg::In0) == ea_value(regs, ea, mem)
            &&& same_outside_scratch(fin, regs, ea_addr_regs(regs, ea))
        }),
{
    reveal_with_fuel(run_ops, 3);
    let ops = ea.lowered();
    assert(ops.skip(1).skip(1).len() == 0);
    match ea {
        EffAddr::AbsLong { hi, lo } => {
            let x = abs_long_addr(hi, lo);
            assert((x as i32) as u32 == x) by (bit_vector);
        },
        EffAddr::Immediate { addr } => {
            assert((addr as i32) as u32 == addr) by (bit_vector);
        },
        _ => {},
    }
    let (fin, f) = run_ops(regs, ops, mem);
    assert(f =~= ea_fetches(regs, ea, mem));
}

/// Lowering is faithful to each addressing mode: running the micro-program
/// of a well-formed descriptor, against any memory, fetches exactly the
/// mode's addresses in order, stages the mode's value in `In0`, moves an
/// address register only for post-increment and pre-decrement, and leaves
/// every other register but the scratch ones as it was. The outcome is thus
/// a function of the descriptor, the register file and memory alone.
pub proof fn lemma_lowering_meaning(regs: RegsView, ea: EffAddr, mem: spec_fn(u32) -> u32)
    requires
        regs.wf(),
        ea.wf(),
    ensures
        ({
            let (fin, f) = run_ops(regs, ea.lowered(), mem);
            &&& f == ea_fetches(regs, ea, mem)
            &&& fin.read(Reg::In0) == ea_value(regs, ea, mem)
            &&& same_outside_scratch(fin, regs, ea_addr_regs(regs, ea))
        }),
{
    match ea {
        EffAddr::AddrIdx { r, idx, d, s } => lemma_indexed_shape(regs, Reg::A(r as usize), d, idx, s, mem),
        EffAddr::AddrIndPostIdx { r, d, idx, s, od } => {
            lemma_post_indexed_shape(regs, Reg::A(r as usize), d, idx, s, od, mem)
        },
        EffAddr::AddrIndPreIdx { r, d, idx, s, od } => {
            lemma_pre_indexed_shape(regs, Reg::A(r as usize), d, idx, s, od, mem)
        },
        EffAddr::PCIndIdx { d, idx, s } => lemma_indexed_shape(regs, Reg::PC, d, idx, s, mem),
        EffAddr::PCIndPostIdx { d, idx, s, od } => {
            lemma_post_indexed_shape(regs, Reg::PC, d, idx, s, od, mem)
        },
        EffAddr::PCIndPreIdx { d, idx, s, od } => {
            lemma_pre_indexed_shape(regs, Reg::PC, d, idx, s, od, mem)
        },
        EffAddr::AddrDisp { .. } | EffAddr::PCIndDisp { .. } => {
            lemma_displacement_modes(regs, ea, mem)
        },
        EffAddr::AbsShort { .. } | EffAddr::AbsLong { .. } | EffAddr::Immediate { .. } => {
            lemma_absolute_modes(regs, ea, mem)
        },
        _ => lemma_register_modes(regs, ea, mem),
    }
}

/// A 32-bit wrapping sum leaves `x` unchanged only when `y` is zero.
proof fn lemma_wrap_add_moves(x: u32, y: u32)
    ensures
        (wrap_add(x, y) == x) <==> (y == 0),
{
    assert(((x + y) as u32 == x) <==> (y == 0)) by (bit_vector);
}

/// No hidden state leaks between resolutions: two register files that
/// differ only in the scratch registers `In0`, `In1` and `IOBuffer` resolve
/// a descriptor to the same fetches and the same staged value, and end
/// with the same registers outside the scratch ones.
pub proof fn lemma_scratch_does_not_leak(
    r1: RegsView,
    r2: RegsView,
    ea: EffAddr,
    mem: spec_fn(u32) -> u32,
)
    requires
        r1.wf(),
        r2.wf(),
        ea.wf(),
        same_outside_scratch(r2, r1, r1.a),
    ensures
        ({
            let (fin1, f1) = run_ops(r1, ea.lowered(), mem);
            let (fin2, f2) = run_ops(r2, ea.lowered(), mem);
            &&& f1 == f2
            &&& fin1.read(Reg::In0) == fin2.read(Reg::In0)
            &&& same_outside_scratch(fin2, fin1, fin1.a)
        }),
{
    lemma_lowering_meaning(r1, ea, mem);
    lemma_lowering_meaning(r2, ea, mem);
    if let Some(x) = ea.index_reg() {
        assert(r1.read(x) == r2.read(x));
    }
    assert(ea_fetches(r1, ea, mem) == ea_fetches(r2, ea, mem));
}

/// Resolving a data-register-direct, address-register-direct or
/// address-register-indirect descriptor a second time, with memory
/// unchanged, fetches the same addresses and stages the same value.
pub proof fn lemma_plain_modes_idempotent(regs: RegsView, ea: EffAddr, mem: spec_fn(u32) -> u32)
    requires
        regs.wf(),
        ea.wf(),
        ea is DataReg || ea is AddrReg || ea is Addr,
    ensures
        ({
            let (fin1, f1) = run_ops(regs, ea.lowered(), mem);
            let (fin2, f2) = run_ops(fin1, ea.lowered(), mem);
            &&& f2 == f1
            &&& fin2.read(Reg::In0) == fin1.read(Reg::In0)
        }),
{
    lemma_lowering_meaning(regs, ea, mem);
    let (fin1, f1) = run_ops(regs, ea.lowered(), mem);
    lemma_lowering_meaning(fin1, ea, mem);
}

/// Post-increment and pre-decrement are not idempotent: each resolution
/// moves the address register, so a second one fetches elsewhere.
pub proof fn lemma_adjusting_modes_move_register(
    regs: RegsView,
    ea: EffAddr,
    mem: spec_fn(u32) -> u32,
)
    requires
        regs.wf(),
        ea.wf(),
        ea is PostInc || ea is PreDec,
    ensures
        ({
            let r = ea.base_reg()->0 as int;
            let (fin1, f1) = run_ops(regs, ea.lowered(), mem);
            let (fin2, f2) = run_ops(fin1, ea.lowered(), mem);
            &&& fin1.a[r] != regs.a[r]
            &&& f1.len() == 1
            &&& f2.len() == 1
            &&& f2[0] != f1[0]
        }),
{
    lemma_lowering_meaning(regs, ea, mem);
    let (fin1, f1) = run_ops(regs, ea.lowered(), mem);
    lemma_lowering_meaning(fin1, ea, mem);
    let r = ea.base_reg()->0 as int;
    match ea {
        EffAddr::PostInc { s, .. } => {
            assert(s.byte_count() as u32 != 0);
            lemma_wrap_add_moves(regs.a[r], s.byte_count() as u32);
            assert(fin1.a[r] != regs.a[r]);
        },
        EffAddr::PreDec { s, .. } => {
            let v = s.neg_byte_count();
            assert(v as u32 != 0) by (bit_vector)
                requires
                    v == -1i32 || v == -2i32 || v == -4i32,
            ;
            lemma_wrap_add_moves(regs.a[r], s.neg_byte_count() as u32);
            lemma_wrap_add_moves(fin1.a[r], s.neg_byte_count() as u32);
        },
        _ => {},
    }
}

/// Memory-indirect post-indexed and pre-indexed descriptors with the same
/// register, displacements and index each fetch exactly twice; their first
/// (intermediate) fetch addresses differ exactly when the scaled index is
/// not zero, since only pre-indexing adds it before that fetch.
pub proof fn lemma_memory_indirect_fetch_twice(
    regs: RegsView,
    r: u8,
    d: i32,
    idx: Reg,
    s: Size,
    od: i32,
    mem: spec_fn(u32) -> u32,
)
    requires
        regs.wf(),
        r < 8,
        idx.is_index(),
    ensures
        ({
            let post = EffAddr::AddrIndPostIdx { r, d, idx, s, od };
            let pre = EffAddr::AddrIndPreIdx { r, d, idx, s, od };
            let f_post = run_ops(regs, post.lowered(), mem).1;
            let f_pre = run_ops(regs, pre.lowered(), mem).1;
            &&& f_post.len() == 2
            &&& f_pre.len() == 2
            &&& (f_post[0] != f_pre[0] <==> scaled(regs.read(idx), s) != 0)
        }),
{
    let post = EffAddr::AddrIndPostIdx { r, d, idx, s, od };
    let pre = EffAddr::AddrIndPreIdx { r, d, idx, s, od };
    lemma_lowering_meaning(regs, post, mem);
    lemma_lowering_meaning(regs, pre, mem);
    lemma_wrap_add_moves(disp_addr(regs.read(Reg::A(r as usize)), d), scaled(regs.read(idx), s));
}

/// The same law for the program-counter-relative memory-indirect modes.
pub proof fn lemma_pc_memory_indirect_fetch_twice(
    regs: RegsView,
    d: i32,
    idx: Reg,
    s: Size,
    od: i32,
    mem: spec_fn(u32) -> u32,
)
    requires
        regs.wf(),
        idx.is_index(),
    ensures
        ({
            let post = EffAddr::PCIndPostIdx { d, idx, s, od };
            let pre = EffAddr::PCIndPreIdx { d, idx, s, od };
            let f_post = run_ops(regs, post.lowered(), mem).1;
            let f_pre = run_ops(regs, pre.lowered(), mem).1;
            &&& f_post.len() == 2
            &&& f_pre.len() == 2
            &&& (f_post[0] != f_pre[0] <==> scaled(regs.read(idx), s) != 0)
        }),
{
    let post = EffAddr::PCIndPostIdx { d, idx, s, od };
    let pre = EffAddr::PCIndPreIdx { d, idx, s, od };
    lemma_lowering_meaning(regs, post, mem);
    lemma_lowering_meaning(regs, pre, mem);
    lemma_wrap_add_moves(disp_addr(regs.pc, d), scaled(regs.read(idx), s));
}

/// Scaling by a byte, word or long operand shifts by 0, 1 or 2 bits:
/// the index times 1, 2 or 4, wrapping at 32 bits.
pub proof fn lemma_scale_factors(x: u32)
    ensures
        scaled(x, Size::Byte) == x,
        scaled(x, Size::Word) == (x * 2) as u32,
        scaled(x, Size::Long) == (x * 4) as u32,
{
    assert(x << 0u8 == x) by (bit_vector);
    assert(x << 1u8 == (x * 2) as u32) by (bit_vector);
    assert(x << 2u8 == (x * 4) as u32) by (bit_vector);
}

} // verus!
