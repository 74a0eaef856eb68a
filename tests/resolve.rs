use m68k_ea::decode::{decode, AddrMode, DecodeError};
use m68k_ea::effaddr::EffAddr;
use m68k_ea::machine::{FetchFailure, RunState, M68K};
use m68k_ea::micro::{MicroI, NextAction};
use m68k_ea::regs::{Reg, RegError};
use m68k_ea::size::Size;

/// Loads `ea`, then runs the machine to the end, answering each fetch of
/// address `x` with `mem(x)`; returns the addresses fetched.
fn resolve(m: &mut M68K, ea: EffAddr, mem: &dyn Fn(u32) -> u32) -> Vec<u32> {
    m.load_effaddr(ea.validated().unwrap());
    let mut fetched = Vec::new();
    loop {
        match m.run() {
            RunState::Idle => return fetched,
            RunState::Suspended(addr) => {
                fetched.push(addr);
                m.resume(mem(addr));
            }
        }
    }
}

fn memory(addr: u32) -> u32 {
    addr.wrapping_mul(3).wrapping_add(7)
}

#[test]
fn post_increment_word_fetches_then_increments() {
    let mut m = M68K::new();
    m.write_reg(Reg::A(2), 0x2000);
    m.load_effaddr(EffAddr::PostInc { r: 2, s: Size::Word });
    assert_eq!(m.queued(), 3);
    assert_eq!(m.run(), RunState::Suspended(0x2000));
    assert_eq!(m.read_reg(Reg::A(2)), 0x2000);
    m.resume(0xBEEF);
    assert_eq!(m.run(), RunState::Idle);
    assert_eq!(m.read_reg(Reg::In0), 0xBEEF);
    assert_eq!(m.read_reg(Reg::A(2)), 0x2002);
}

#[test]
fn pre_decrement_long_decrements_then_fetches() {
    let mut m = M68K::new();
    m.write_reg(Reg::A(5), 0x3000);
    m.load_effaddr(EffAddr::PreDec { r: 5, s: Size::Long });
    assert_eq!(m.run(), RunState::Suspended(0x2FFC));
    assert_eq!(m.read_reg(Reg::A(5)), 0x2FFC);
    m.resume(0x55);
    assert_eq!(m.run(), RunState::Idle);
    assert_eq!(m.read_reg(Reg::A(5)), 0x2FFC);
    assert_eq!(m.read_reg(Reg::In0), 0x55);
}

#[test]
fn address_plus_displacement_leaves_register() {
    let mut m = M68K::new();
    m.write_reg(Reg::A(1), 0x4000);
    let f = resolve(&mut m, EffAddr::AddrDisp { r: 1, d: 8 }, &memory);
    assert_eq!(f, vec![0x4008]);
    assert_eq!(m.read_reg(Reg::A(1)), 0x4000);
    assert_eq!(m.read_reg(Reg::In0), memory(0x4008));
}

#[test]
fn data_register_direct_issues_no_fetch() {
    let mut m = M68K::new();
    m.write_reg(Reg::D(3), 0x1234);
    m.load_effaddr(EffAddr::DataReg { r: 3 });
    assert_eq!(m.run(), RunState::Idle);
    assert_eq!(m.pending_fetch(), None);
    assert_eq!(m.read_reg(Reg::In0), 0x1234);
}

#[test]
fn memory_indirect_modes_fetch_twice() {
    let idx = Reg::data(4).unwrap();
    let setup = |m: &mut M68K| {
        m.write_reg(Reg::A(6), 0x1000);
        m.write_reg(Reg::D(4), 0x10);
        m.write_reg(Reg::PC, 0x8000);
    };
    let mut m = M68K::new();
    setup(&mut m);
    let post = resolve(&mut m, EffAddr::AddrIndPostIdx { r: 6, d: 0x20, idx, s: Size::Long, od: 4 }, &memory);
    let mut m = M68K::new();
    setup(&mut m);
    let pre = resolve(&mut m, EffAddr::AddrIndPreIdx { r: 6, d: 0x20, idx, s: Size::Long, od: 4 }, &memory);
    assert_eq!(post, vec![0x1020, memory(0x1020) + 0x40 + 4]);
    assert_eq!(pre, vec![0x1060, memory(0x1060) + 4]);
    assert_ne!(post[0], pre[0]);

    let mut m = M68K::new();
    setup(&mut m);
    let post = resolve(&mut m, EffAddr::PCIndPostIdx { d: -0x10, idx, s: Size::Word, od: 0 }, &memory);
    let mut m = M68K::new();
    setup(&mut m);
    let pre = resolve(&mut m, EffAddr::PCIndPreIdx { d: -0x10, idx, s: Size::Word, od: 0 }, &memory);
    assert_eq!(post, vec![0x7FF0, memory(0x7FF0) + 0x20]);
    assert_eq!(pre, vec![0x8010, memory(0x8010)]);
}

#[test]
fn scale_shifts_by_operand_size() {
    for (s, want) in [(Size::Byte, 3u32), (Size::Word, 6), (Size::Long, 12)] {
        let mut m = M68K::new();
        m.write_reg(Reg::In1, 3);
        assert_eq!(m.exec(MicroI::Scale(Reg::In1, s)), NextAction::Next);
        assert_eq!(m.read_reg(Reg::In1), want);
    }
    assert_eq!((Size::Byte.shift(), Size::Word.shift(), Size::Long.shift()), (0, 1, 2));
    assert_eq!((Size::Byte.value(), Size::Word.value(), Size::Long.value()), (1, 2, 4));
}

#[test]
fn scratch_left_over_does_not_change_resolution() {
    let ea = EffAddr::AddrIdx { r: 0, idx: Reg::A(0), d: 2, s: Size::Word };
    let mut m1 = M68K::new();
    m1.write_reg(Reg::A(0), 0x100);
    let mut m2 = M68K::new();
    m2.write_reg(Reg::A(0), 0x100);
    m2.write_reg(Reg::In0, 0xDEAD);
    m2.write_reg(Reg::In1, 0xBEEF);
    m2.write_reg(Reg::IOBuffer, 0x77);
    let f1 = resolve(&mut m1, ea, &memory);
    let f2 = resolve(&mut m2, ea, &memory);
    assert_eq!(f1, vec![0x302]);
    assert_eq!(f1, f2);
    assert_eq!(m1.read_reg(Reg::In0), m2.read_reg(Reg::In0));
}

#[test]
fn lowering_lengths_per_mode() {
    let idx = Reg::D(0);
    let cases = [
        (EffAddr::DataReg { r: 0 }, 1),
        (EffAddr::AddrReg { r: 0 }, 1),
        (EffAddr::Addr { r: 0 }, 2),
        (EffAddr::PostInc { r: 0, s: Size::Byte }, 3),
        (EffAddr::PreDec { r: 0, s: Size::Byte }, 3),
        (EffAddr::AddrDisp { r: 0, d: 1 }, 4),
        (EffAddr::AddrIdx { r: 0, idx, d: 1, s: Size::Byte }, 7),
        (EffAddr::AddrIndPostIdx { r: 0, d: 1, idx, s: Size::Byte, od: 1 }, 10),
        (EffAddr::AddrIndPreIdx { r: 0, d: 1, idx, s: Size::Byte, od: 1 }, 10),
        (EffAddr::PCIndDisp { d: 1 }, 4),
        (EffAddr::PCIndIdx { d: 1, idx, s: Size::Byte }, 7),
        (EffAddr::AbsShort { addr: 1 }, 2),
        (EffAddr::AbsLong { hi: 1, lo: 1 }, 2),
        (EffAddr::Immediate { addr: 1 }, 2),
    ];
    for (ea, n) in cases {
        let mut m = M68K::new();
        m.load_effaddr(ea);
        assert_eq!(m.queued(), n);
    }
}

#[test]
fn plain_modes_resolve_the_same_twice() {
    let mut m = M68K::new();
    m.write_reg(Reg::A(3), 0x500);
    let f1 = resolve(&mut m, EffAddr::Addr { r: 3 }, &memory);
    let v1 = m.read_reg(Reg::In0);
    let f2 = resolve(&mut m, EffAddr::Addr { r: 3 }, &memory);
    assert_eq!(f1, f2);
    assert_eq!(m.read_reg(Reg::In0), v1);

    m.write_reg(Reg::D(7), 42);
    resolve(&mut m, EffAddr::DataReg { r: 7 }, &memory);
    resolve(&mut m, EffAddr::DataReg { r: 7 }, &memory);
    assert_eq!(m.read_reg(Reg::In0), 42);
}

#[test]
fn post_increment_twice_moves_on() {
    let mut m = M68K::new();
    m.write_reg(Reg::A(0), 0x10);
    let f1 = resolve(&mut m, EffAddr::PostInc { r: 0, s: Size::Byte }, &memory);
    let f2 = resolve(&mut m, EffAddr::PostInc { r: 0, s: Size::Byte }, &memory);
    assert_eq!(f1, vec![0x10]);
    assert_eq!(f2, vec![0x11]);
    assert_eq!(m.read_reg(Reg::A(0)), 0x12);
}

#[test]
fn pre_decrement_wraps_below_zero() {
    let mut m = M68K::new();
    let f = resolve(&mut m, EffAddr::PreDec { r: 1, s: Size::Byte }, &memory);
    assert_eq!(f, vec![0xFFFF_FFFF]);
    assert_eq!(m.read_reg(Reg::A(1)), 0xFFFF_FFFF);
}

#[test]
fn displacements_are_sign_extended() {
    let mut m = M68K::new();
    m.write_reg(Reg::A(0), 0x10000);
    assert_eq!(resolve(&mut m, EffAddr::AddrDisp { r: 0, d: i16::MIN }, &memory), vec![0x8000]);
    assert_eq!(resolve(&mut m, EffAddr::AddrDisp { r: 0, d: i16::MAX }, &memory), vec![0x17FFF]);
    assert_eq!(resolve(&mut m, EffAddr::AbsShort { addr: -2 }, &memory), vec![0xFFFF_FFFE]);
    assert_eq!(resolve(&mut m, EffAddr::AbsShort { addr: 0x7000 }, &memory), vec![0x7000]);
}

#[test]
fn absolute_long_and_immediate_addresses() {
    let mut m = M68K::new();
    assert_eq!(resolve(&mut m, EffAddr::AbsLong { hi: 0x12, lo: 0x3456 }, &memory), vec![0x0012_3456]);
    assert_eq!(m.read_reg(Reg::In0), memory(0x0012_3456));
    assert_eq!(resolve(&mut m, EffAddr::Immediate { addr: 0xFFFF_0000 }, &memory), vec![0xFFFF_0000]);
    m.write_reg(Reg::PC, 0x400);
    assert_eq!(resolve(&mut m, EffAddr::PCIndDisp { d: -4 }, &memory), vec![0x3FC]);
}

#[test]
fn register_file_reads_and_writes() {
    let mut m = M68K::new();
    m.write_reg(Reg::CCR, 0x1FF);
    assert_eq!(m.read_reg(Reg::CCR), 0xFF);
    assert_eq!(m.read_reg(Reg::Immediate(-1)), 0xFFFF_FFFF);
    m.write_reg(Reg::InTmp(7), 9);
    assert_eq!(m.read_reg(Reg::InTmp(7)), 9);
    assert_eq!(m.read_reg(Reg::In0), 0);
}

#[test]
fn micro_operations_apply() {
    let mut m = M68K::new();
    m.write_reg(Reg::D(0), 0xFFFF_FFFF);
    assert_eq!(m.exec(MicroI::Add(Reg::D(0), Reg::Immediate(1))), NextAction::Next);
    assert_eq!(m.read_reg(Reg::D(0)), 0);
    m.exec(MicroI::SetImm(Reg::D(1), 77));
    assert_eq!(m.read_reg(Reg::D(1)), 77);
    m.exec(MicroI::Mov(Reg::A(4), Reg::D(1)));
    assert_eq!(m.read_reg(Reg::A(4)), 77);
    m.exec(MicroI::Zero(Reg::D(1)));
    assert_eq!(m.read_reg(Reg::D(1)), 0);
    assert_eq!(m.exec(MicroI::RequestMem(Reg::A(4))), NextAction::MemRequest(77));
    m.add_instr(MicroI::Zero(Reg::A(4)));
    assert_eq!(m.queued(), 1);
    assert_eq!(m.run(), RunState::Idle);
    assert_eq!(m.read_reg(Reg::A(4)), 0);
}

#[test]
fn failed_fetch_drops_the_program() {
    let mut m = M68K::new();
    m.write_reg(Reg::A(2), 0x900);
    m.load_effaddr(EffAddr::AddrIndPreIdx { r: 2, d: 0, idx: Reg::D(0), s: Size::Byte, od: 0 });
    assert_eq!(m.run(), RunState::Suspended(0x900));
    assert_eq!(m.fail_fetch(), FetchFailure { addr: 0x900 });
    assert_eq!(m.queued(), 0);
    assert_eq!(m.pending_fetch(), None);
    assert_eq!(m.run(), RunState::Idle);
}

#[test]
fn register_numbers_are_checked() {
    assert_eq!(Reg::data(7), Ok(Reg::D(7)));
    assert_eq!(Reg::data(8), Err(RegError::OutOfRange { index: 8 }));
    assert_eq!(Reg::addr(0), Ok(Reg::A(0)));
    assert_eq!(Reg::addr(200), Err(RegError::OutOfRange { index: 200 }));
    assert_eq!(EffAddr::Addr { r: 9 }.validated(), Err(RegError::OutOfRange { index: 9 }));
    let bad_idx = EffAddr::PCIndIdx { d: 0, idx: Reg::PC, s: Size::Word };
    assert_eq!(bad_idx.validated(), Err(RegError::NotAnIndexRegister));
    let bad_idx = EffAddr::AddrIdx { r: 0, idx: Reg::D(8), d: 0, s: Size::Word };
    assert_eq!(bad_idx.validated(), Err(RegError::NotAnIndexRegister));
    let both = EffAddr::AddrIdx { r: 8, idx: Reg::PC, d: 0, s: Size::Word };
    assert_eq!(both.validated(), Err(RegError::OutOfRange { index: 8 }));
    let good = EffAddr::AddrIdx { r: 7, idx: Reg::A(7), d: 0, s: Size::Word };
    assert_eq!(good.validated(), Ok(good));
}

#[test]
fn decode_reads_mode_and_register_fields() {
    assert_eq!(decode(0b000_011), Ok(AddrMode::DataReg));
    assert_eq!(decode(0b001_000), Ok(AddrMode::AddrReg));
    assert_eq!(decode(0b010_101), Ok(AddrMode::Addr));
    assert_eq!(decode(0b011_000), Ok(AddrMode::AddrPostInc));
    assert_eq!(decode(0b100_111), Ok(AddrMode::AddrPreDec));
    assert_eq!(decode(0b101_001), Ok(AddrMode::AddrDisp));
    assert_eq!(decode(0b110_010), Ok(AddrMode::AddrIdx));
    assert_eq!(decode(0b111_000), Ok(AddrMode::AbsShort));
    assert_eq!(decode(0b111_001), Ok(AddrMode::AbsLong));
    assert_eq!(decode(0b111_010), Ok(AddrMode::PCDisp));
    assert_eq!(decode(0b111_011), Ok(AddrMode::PCIdx));
    assert_eq!(decode(0b111_100), Ok(AddrMode::Imm));
    assert_eq!(decode(0xFFC0 | 0b010_000), Ok(AddrMode::Addr));
}

#[test]
fn decode_rejects_reserved_encodings() {
    assert_eq!(decode(0b111_101), Err(DecodeError::Reserved { field: 0b111_101 }));
    assert_eq!(decode(0b111_110), Err(DecodeError::Reserved { field: 0b111_110 }));
    assert_eq!(decode(0xFFFF), Err(DecodeError::Reserved { field: 0b111_111 }));
    assert_eq!(AddrMode::from_bits(64), Err(DecodeError::Reserved { field: 64 }));
    assert_eq!(AddrMode::from_bits(0b111_100), Ok(AddrMode::Imm));
}
