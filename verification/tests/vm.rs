//! End-to-end programs run on the machine.

use lark_vm::cpu::{Cpu, LogMsg, Signal};
use lark_vm::interrupts::Interrupt;
use lark_vm::mem::{MemBlock, Memory, ROM_SIZE, STACK_INIT, VTTY_BYTES};
use lark_vm::regs::Reg;
use lark_vm::s16;

fn enc_o(op: u32) -> u32 {
    op << 26
}

fn enc_i(op: u32, imm: u32) -> u32 {
    (op << 26) | ((imm & 0x3FF) << 16)
}

fn enc_ri(op: u32, r: u32, imm: i32) -> u32 {
    (op << 26) | (r << 22) | (((imm as u32) & 0xFFFF) << 6)
}

fn enc_r(op: u32, r: u32) -> u32 {
    (op << 26) | (r << 22)
}

fn enc_rr(op: u32, r1: u32, r2: u32) -> u32 {
    (op << 26) | (r1 << 22) | (r2 << 18)
}

fn enc_rrr(op: u32, r1: u32, r2: u32, r3: u32) -> u32 {
    (op << 26) | (r1 << 22) | (r2 << 18) | (r3 << 14)
}

fn enc_rri(op: u32, r1: u32, r2: u32, imm: i32) -> u32 {
    (op << 26) | (r1 << 22) | (r2 << 18) | (((imm as u32) & 0x3FF) << 8)
}

fn emit(rom: &mut Vec<u8>, word: u32, size: usize) {
    for i in 0..size {
        rom.push(((word >> (24 - 8 * i)) & 0xFF) as u8);
    }
}

fn boot(rom_bytes: Vec<u8>) -> Cpu {
    let rom = MemBlock::<ROM_SIZE>::from_vec(rom_bytes).expect("ROM fits");
    let vtty = MemBlock::<VTTY_BYTES>::new_zeroed();
    Cpu::new(rom, vtty)
}

fn run_until_halt(cpu: &mut Cpu, max_steps: usize) -> Vec<Signal> {
    let mut sigs = Vec::new();
    for _ in 0..max_steps {
        cpu.step(None).expect("step");
        let new = cpu.take_signals();
        let halted = new.iter().any(|s| matches!(s, Signal::Halt));
        sigs.extend(new);
        if halted {
            return sigs;
        }
    }
    panic!("program did not halt");
}

fn count_halts(sigs: &[Signal]) -> usize {
    sigs.iter().filter(|s| matches!(s, Signal::Halt)).count()
}

#[test]
fn li_then_add() {
    let mut rom = Vec::new();
    emit(&mut rom, enc_ri(0x10, 9, 7), 4); // li t0, 7
    emit(&mut rom, enc_ri(0x10, 10, 35), 4); // li t1, 35
    emit(&mut rom, enc_rrr(0x20, 1, 9, 10), 3); // add rv, t0, t1
    emit(&mut rom, enc_o(0x01), 1); // halt
    let mut cpu = boot(rom);
    let sigs = run_until_halt(&mut cpu, 10);
    assert_eq!(cpu.regs.get(Reg::Rv).as_u16(), 42);
    assert_eq!(cpu.regs.get(Reg::T0).as_u16(), 7);
    assert_eq!(cpu.regs.get(Reg::T1).as_u16(), 35);
    assert_eq!(count_halts(&sigs), 1);
}

#[test]
fn halt_leaves_pc_on_the_halt() {
    let mut rom = Vec::new();
    emit(&mut rom, enc_ri(0x10, 9, 7), 4); // li t0, 7
    emit(&mut rom, enc_o(0x01), 1); // halt
    let mut cpu = boot(rom);
    let _ = run_until_halt(&mut cpu, 10);
    assert_eq!(cpu.pc, Memory::ROM_START + 4);
}

#[test]
fn signed_wrap() {
    let mut rom = Vec::new();
    emit(&mut rom, enc_ri(0x10, 9, 32767), 4); // li t0, 32767
    emit(&mut rom, enc_rri(0x28, 1, 9, 1), 3); // addi rv, t0, 1
    emit(&mut rom, enc_o(0x01), 1); // halt
    let mut cpu = boot(rom);
    let _ = run_until_halt(&mut cpu, 10);
    assert_eq!(cpu.regs.get(Reg::Rv).as_i16(), -32768);
    assert_eq!(cpu.regs.get(Reg::Rv).as_u16(), 0x8000);
}

#[test]
fn load_store_round_trip() {
    let mut rom = Vec::new();
    emit(&mut rom, enc_ri(0x10, 9, 0x1234), 4); // li t0, 0x1234
    emit(&mut rom, enc_rri(0x15, 15, 9, -2), 3); // sw -2($sp), t0
    emit(&mut rom, enc_rri(0x11, 1, 15, -2), 3); // lw rv, -2($sp)
    emit(&mut rom, enc_o(0x01), 1); // halt
    let mut cpu = boot(rom);
    let _ = run_until_halt(&mut cpu, 10);
    assert_eq!(cpu.regs.get(Reg::Rv).as_u16(), 0x1234);
    let addr = STACK_INIT - 2;
    assert_eq!(cpu.mem.read_u8(addr).unwrap(), 0x12);
    assert_eq!(cpu.mem.read_u8(addr + 1).unwrap(), 0x34);
}

#[test]
fn zero_register_is_immutable() {
    let mut rom = Vec::new();
    emit(&mut rom, enc_ri(0x10, 0, 5), 4); // li zero, 5
    emit(&mut rom, enc_rrr(0x20, 1, 0, 0), 3); // add rv, zero, zero
    emit(&mut rom, enc_o(0x01), 1); // halt
    let mut cpu = boot(rom);
    let _ = run_until_halt(&mut cpu, 10);
    assert_eq!(cpu.regs.get(Reg::Rv).as_u16(), 0);
    assert_eq!(cpu.regs.get(Reg::Zero).as_u16(), 0);
}

#[test]
fn breakpoint_exception() {
    let mut rom = Vec::new();
    emit(&mut rom, enc_i(0x00, 1), 2); // exn 0x0001
    emit(&mut rom, enc_o(0x01), 1); // halt
    let mut cpu = boot(rom);
    cpu.regs.set(Reg::A0, s16::from_u16(10));
    cpu.step(None).expect("step");
    let sigs = cpu.take_signals();
    let breakpoints = sigs.iter().filter(|s| matches!(s, Signal::Breakpoint)).count();
    assert_eq!(breakpoints, 1);
    assert_eq!(cpu.pc, Memory::ROM_START + 2);
}

#[test]
fn interrupt_dispatch_and_kret() {
    let mut cpu = boot(Vec::new());
    cpu.mem.write_s16(0xFFFE, s16::from_u16(0x3000)).unwrap();
    cpu.mem.write_u8(0x3000, 0x34).unwrap(); // kret, encoded
    assert!(cpu.interrupts_enabled);
    let pc_before = cpu.pc;
    cpu.step_prepare(Some(Interrupt::IllInstr)).expect("prepare");
    assert!(!cpu.interrupts_enabled);
    assert_eq!(cpu.regs.get(Reg::K0).as_u16(), pc_before);
    assert_eq!(cpu.pc, 0x3000);
    cpu.decode_and_execute().expect("kret");
    assert!(cpu.interrupts_enabled);
    assert_eq!(cpu.pc, pc_before);
}

#[test]
fn comparisons_write_one_or_zero() {
    let mut cpu = boot(Vec::new());
    cpu.regs.set(Reg::T0, s16::from_i16(-5));
    cpu.regs.set(Reg::T1, s16::from_u16(7));
    cpu.ir = enc_rrr(0x38, 1, 9, 10); // tlt rv, t0, t1
    cpu.decode_and_execute().unwrap();
    assert_eq!(cpu.regs.get(Reg::Rv).as_u16(), 1);
    cpu.ir = enc_rrr(0x3C, 1, 9, 10); // tltu rv, t0, t1: 0xFFFB < 7 is false
    cpu.decode_and_execute().unwrap();
    assert_eq!(cpu.regs.get(Reg::Rv).as_u16(), 0);
    cpu.ir = enc_rrr(0x3A, 1, 9, 9); // teq rv, t0, t0
    cpu.decode_and_execute().unwrap();
    assert_eq!(cpu.regs.get(Reg::Rv).as_u16(), 1);
}

#[test]
fn mul_splits_product_into_hi_lo() {
    let mut cpu = boot(Vec::new());
    cpu.regs.set(Reg::T0, s16::from_i16(-2));
    cpu.regs.set(Reg::T1, s16::from_u16(3));
    cpu.ir = enc_rr(0x22, 9, 10); // mul t0, t1
    cpu.decode_and_execute().unwrap();
    // -6 as a 32-bit product: high half 0xFFFF, low half 0xFFFA.
    assert_eq!(cpu.lo.as_u16(), 0xFFFA);
    assert_eq!(cpu.hi.as_u16(), 0xFFFF);
    cpu.regs.set(Reg::T0, s16::from_u16(0x8000));
    cpu.regs.set(Reg::T1, s16::from_u16(2));
    cpu.ir = enc_rr(0x32, 9, 10); // mulu t0, t1
    cpu.decode_and_execute().unwrap();
    assert_eq!(cpu.lo.as_u16(), 0x0000);
    assert_eq!(cpu.hi.as_u16(), 0x0001);
}

#[test]
fn div_truncates_and_signs_remainder() {
    let mut cpu = boot(Vec::new());
    cpu.regs.set(Reg::T0, s16::from_i16(-7));
    cpu.regs.set(Reg::T1, s16::from_i16(2));
    cpu.ir = enc_rr(0x23, 9, 10); // div t0, t1
    cpu.decode_and_execute().unwrap();
    assert_eq!(cpu.lo.as_i16(), -3);
    assert_eq!(cpu.hi.as_i16(), -1);
    cpu.regs.set(Reg::T0, s16::from_u16(7));
    cpu.regs.set(Reg::T1, s16::from_u16(2));
    cpu.ir = enc_rr(0x33, 9, 10); // divu t0, t1
    cpu.decode_and_execute().unwrap();
    assert_eq!(cpu.lo.as_u16(), 3);
    assert_eq!(cpu.hi.as_u16(), 1);
}

#[test]
fn div_by_zero_signals_error() {
    let mut cpu = boot(Vec::new());
    cpu.regs.set(Reg::T0, s16::from_u16(7));
    cpu.regs.set(Reg::T1, s16::from_u16(0));
    cpu.ir = enc_rr(0x23, 9, 10); // div t0, t1
    cpu.decode_and_execute().unwrap();
    let sigs = cpu.take_signals();
    let errors = sigs
        .iter()
        .filter(|s| matches!(s, Signal::Log(LogMsg::Error(_))))
        .count();
    assert_eq!(errors, 1);
    assert_eq!(cpu.lo.as_u16(), 0);
    assert_eq!(cpu.hi.as_u16(), 0);
}

#[test]
fn exn_illegal_instr_signals() {
    let mut cpu = boot(Vec::new());
    cpu.ir = enc_i(0x00, 0); // exn 0x0000
    cpu.decode_and_execute().unwrap();
    let sigs = cpu.take_signals();
    assert!(sigs.iter().any(|s| matches!(s, Signal::IllegalInstr)));
}

#[test]
fn exn_reserved_code_fails() {
    let mut cpu = boot(Vec::new());
    cpu.ir = enc_i(0x00, 9); // exn 0x0009, reserved
    let r = cpu.decode_and_execute();
    assert!(matches!(r, Err(lark_vm::dex::DexErr::UnimplementedExn(9))));
}

#[test]
fn kcall_is_unimplemented() {
    let mut cpu = boot(Vec::new());
    cpu.ir = enc_i(0x0E, 0); // kcall
    let r = cpu.decode_and_execute();
    assert!(matches!(r, Err(lark_vm::dex::DexErr::Unimplemented)));
}

#[test]
fn debug_puts_reads_bytes() {
    let mut cpu = boot(Vec::new());
    cpu.mem.write_u8(0x3000, b'h').unwrap();
    cpu.mem.write_u8(0x3001, b'i').unwrap();
    cpu.regs.set(Reg::A0, s16::from_u16(0x3000));
    cpu.regs.set(Reg::A1, s16::from_u16(2));
    cpu.ir = enc_i(0x00, 3); // exn 0x0003
    cpu.decode_and_execute().unwrap();
    let sigs = cpu.take_signals();
    let found = sigs.iter().any(|s| match s {
        Signal::Log(LogMsg::DebugPuts { addr, value }) => {
            *addr == 0x3000 && value == &vec![b'h', b'i']
        },
        _ => false,
    });
    assert!(found);
}

#[test]
fn jump_is_pc_relative() {
    let mut cpu = boot(Vec::new());
    cpu.ir = (0x08 << 26) | ((0x10u32 & 0xFFFF) << 10); // j +16
    let pc0 = cpu.pc;
    cpu.decode_and_execute().unwrap();
    assert_eq!(cpu.pc, pc0 + 16);
}

#[test]
fn branch_taken_and_not_taken() {
    let mut cpu = boot(Vec::new());
    cpu.regs.set(Reg::T0, s16::from_u16(1));
    cpu.ir = enc_ri(0x0C, 9, 32); // bt t0, +32
    let pc0 = cpu.pc;
    cpu.decode_and_execute().unwrap();
    assert_eq!(cpu.pc, pc0 + 32);
    cpu.regs.set(Reg::T0, s16::from_u16(0));
    cpu.ir = enc_ri(0x0C, 9, 32); // bt t0, +32 — not taken
    let pc1 = cpu.pc;
    cpu.decode_and_execute().unwrap();
    assert_eq!(cpu.pc, pc1 + 4);
}

#[test]
fn shifts_behave_logically_and_arithmetically() {
    let mut cpu = boot(Vec::new());
    cpu.regs.set(Reg::T0, s16::from_u16(0x8000));
    cpu.regs.set(Reg::T1, s16::from_u16(3));
    cpu.ir = enc_rrr(0x35, 1, 9, 10); // shr rv, t0, t1
    cpu.decode_and_execute().unwrap();
    assert_eq!(cpu.regs.get(Reg::Rv).as_u16(), 0x1000);
    cpu.ir = enc_rrr(0x36, 1, 9, 10); // shra rv, t0, t1
    cpu.decode_and_execute().unwrap();
    assert_eq!(cpu.regs.get(Reg::Rv).as_u16(), 0xF000);
    cpu.ir = enc_rrr(0x34, 1, 9, 10); // shl rv, t0, t1
    cpu.decode_and_execute().unwrap();
    assert_eq!(cpu.regs.get(Reg::Rv).as_u16(), 0x0000);
}

#[test]
fn bitwise_operations() {
    let mut cpu = boot(Vec::new());
    cpu.regs.set(Reg::T0, s16::from_u16(0b1100));
    cpu.regs.set(Reg::T1, s16::from_u16(0b1010));
    cpu.ir = enc_rrr(0x24, 1, 9, 10); // or
    cpu.decode_and_execute().unwrap();
    assert_eq!(cpu.regs.get(Reg::Rv).as_u16(), 0b1110);
    cpu.ir = enc_rrr(0x25, 1, 9, 10); // xor
    cpu.decode_and_execute().unwrap();
    assert_eq!(cpu.regs.get(Reg::Rv).as_u16(), 0b0110);
    cpu.ir = enc_rrr(0x26, 1, 9, 10); // and
    cpu.decode_and_execute().unwrap();
    assert_eq!(cpu.regs.get(Reg::Rv).as_u16(), 0b1000);
}

#[test]
fn seb_sign_extends_the_low_byte() {
    let mut cpu = boot(Vec::new());
    cpu.regs.set(Reg::T0, s16::from_u16(0x12F0));
    cpu.ir = enc_rr(0x37, 1, 9); // seb rv, t0
    cpu.decode_and_execute().unwrap();
    assert_eq!(cpu.regs.get(Reg::Rv).as_u16(), 0xFFF0);
    assert_eq!(cpu.regs.get(Reg::Rv).as_i16(), -16);
}

#[test]
fn decode_failure_changes_nothing() {
    let mut cpu = boot(Vec::new());
    cpu.ir = 0x07 << 26; // no shape claims opcode 0x07
    let pc0 = cpu.pc;
    let r = cpu.decode_and_execute();
    assert!(matches!(
        r,
        Err(lark_vm::dex::DexErr::RegDecodeError(lark_vm::decode::DecodeErr::Opcode(0x07)))
    ));
    assert_eq!(cpu.pc, pc0);
    assert!(cpu.take_signals().is_empty());
}

#[test]
fn pc_advances_by_instruction_size() {
    let mut cpu = boot(Vec::new());
    let pc0 = cpu.pc;
    cpu.ir = enc_rr(0x14, 1, 9); // mv rv, t0 — 2 bytes
    cpu.decode_and_execute().unwrap();
    assert_eq!(cpu.pc, pc0 + 2);
    cpu.ir = enc_rri(0x28, 1, 9, 1); // addi rv, t0, 1 — 3 bytes
    cpu.decode_and_execute().unwrap();
    assert_eq!(cpu.pc, pc0 + 5);
    cpu.ir = enc_ri(0x10, 9, 3); // li t0, 3 — 4 bytes
    cpu.decode_and_execute().unwrap();
    assert_eq!(cpu.pc, pc0 + 9);
    cpu.ir = enc_o(0x02); // nop — 1 byte
    cpu.decode_and_execute().unwrap();
    assert_eq!(cpu.pc, pc0 + 10);
}

#[test]
fn inre_and_inrd_toggle_interrupts() {
    let mut cpu = boot(Vec::new());
    cpu.ir = enc_o(0x1D); // inrd
    cpu.decode_and_execute().unwrap();
    assert!(!cpu.interrupts_enabled);
    cpu.ir = enc_o(0x1C); // inre
    cpu.decode_and_execute().unwrap();
    assert!(cpu.interrupts_enabled);
}

#[test]
fn load_from_unmapped_mmio_fails() {
    let mut cpu = boot(Vec::new());
    cpu.regs.set(Reg::T0, s16::from_u16(0)); // base 0: MMIO, no word reads
    cpu.ir = enc_rri(0x11, 1, 9, 8); // lw rv, 8($t0)
    let pc0 = cpu.pc;
    let r = cpu.decode_and_execute();
    assert!(matches!(
        r,
        Err(lark_vm::dex::DexErr::Mem(lark_vm::mem::MemErr::UnimplementedMmio(8)))
    ));
    assert_eq!(cpu.pc, pc0);
    assert_eq!(cpu.regs.get(Reg::Rv).as_u16(), 0);
}

#[test]
fn store_past_the_address_space_fails() {
    let mut cpu = boot(Vec::new());
    cpu.regs.set(Reg::T0, s16::from_u16(0xFFFF));
    cpu.ir = enc_rri(0x15, 9, 10, 4); // sw 4($t0), t1
    let r = cpu.decode_and_execute();
    assert!(matches!(
        r,
        Err(lark_vm::dex::DexErr::Mem(lark_vm::mem::MemErr::AddressOverflow))
    ));
}

#[test]
fn jump_past_the_address_space_fails() {
    let mut cpu = boot(Vec::new());
    cpu.pc = 0xFFF0;
    cpu.ir = (0x08 << 26) | ((0x20u32 & 0xFFFF) << 10); // j +32
    let r = cpu.decode_and_execute();
    assert!(matches!(
        r,
        Err(lark_vm::dex::DexErr::Mem(lark_vm::mem::MemErr::AddressOverflow))
    ));
    assert_eq!(cpu.pc, 0xFFF0);
}

#[test]
fn fetch_fails_inside_mmio() {
    let mut cpu = boot(Vec::new());
    cpu.pc = 0x0100;
    assert!(cpu.step_prepare(None).is_err());
}

#[test]
fn byte_loads_zero_and_sign_extend() {
    let mut cpu = boot(Vec::new());
    cpu.mem.write_u8(0x3000, 0xF0).unwrap();
    cpu.regs.set(Reg::T0, s16::from_u16(0x3000));
    cpu.ir = enc_rri(0x13, 1, 9, 0); // lbu rv, 0($t0)
    cpu.decode_and_execute().unwrap();
    assert_eq!(cpu.regs.get(Reg::Rv).as_u16(), 0x00F0);
    cpu.ir = enc_rri(0x12, 1, 9, 0); // lbs rv, 0($t0)
    cpu.decode_and_execute().unwrap();
    assert_eq!(cpu.regs.get(Reg::Rv).as_u16(), 0xFFF0);
    // sb stores only the low byte
    cpu.regs.set(Reg::T1, s16::from_u16(0x12AB));
    cpu.ir = enc_rri(0x16, 9, 10, 1); // sb 1($t0), t1
    cpu.decode_and_execute().unwrap();
    assert_eq!(cpu.mem.read_u8(0x3001).unwrap(), 0xAB);
}

#[test]
fn moves_negation_and_tests() {
    let mut cpu = boot(Vec::new());
    cpu.regs.set(Reg::T0, s16::from_u16(7));
    cpu.ir = enc_rr(0x14, 1, 9); // mv rv, t0
    cpu.decode_and_execute().unwrap();
    assert_eq!(cpu.regs.get(Reg::Rv).as_u16(), 7);
    cpu.ir = enc_rr(0x27, 1, 9); // not rv, t0: boolean negation
    cpu.decode_and_execute().unwrap();
    assert_eq!(cpu.regs.get(Reg::Rv).as_u16(), 0);
    cpu.ir = enc_rr(0x2F, 1, 9); // neg rv, t0
    cpu.decode_and_execute().unwrap();
    assert_eq!(cpu.regs.get(Reg::Rv).as_i16(), -7);
    cpu.ir = enc_rr(0x3E, 1, 9); // tez rv, t0
    cpu.decode_and_execute().unwrap();
    assert_eq!(cpu.regs.get(Reg::Rv).as_u16(), 0);
    cpu.ir = enc_rr(0x3F, 1, 9); // tnz rv, t0
    cpu.decode_and_execute().unwrap();
    assert_eq!(cpu.regs.get(Reg::Rv).as_u16(), 1);
}

#[test]
fn jumps_with_link_save_the_return_address() {
    let mut cpu = boot(Vec::new());
    let pc0 = cpu.pc;
    cpu.ir = enc_ri(0x0A, 2, 0x40); // jal ra, +0x40
    cpu.decode_and_execute().unwrap();
    assert_eq!(cpu.regs.get(Reg::Ra).as_u16(), pc0 + 4);
    assert_eq!(cpu.pc, pc0 + 0x40);
    cpu.regs.set(Reg::T0, s16::from_u16(0x2800));
    let pc1 = cpu.pc;
    cpu.ir = enc_rr(0x0B, 2, 9); // jral ra, t0
    cpu.decode_and_execute().unwrap();
    assert_eq!(cpu.regs.get(Reg::Ra).as_u16(), pc1 + 2);
    assert_eq!(cpu.pc, 0x2800);
    cpu.ir = enc_r(0x09, 2); // jr ra
    cpu.decode_and_execute().unwrap();
    assert_eq!(cpu.pc, pc1 + 2);
}

#[test]
fn mvlo_and_mvhi_read_the_product_halves() {
    let mut cpu = boot(Vec::new());
    cpu.regs.set(Reg::T0, s16::from_u16(0x4000));
    cpu.regs.set(Reg::T1, s16::from_u16(8));
    cpu.ir = enc_rr(0x32, 9, 10); // mulu t0, t1: 0x20000
    cpu.decode_and_execute().unwrap();
    cpu.ir = enc_r(0x2A, 1); // mvlo rv
    cpu.decode_and_execute().unwrap();
    assert_eq!(cpu.regs.get(Reg::Rv).as_u16(), 0x0000);
    cpu.ir = enc_r(0x2B, 1); // mvhi rv
    cpu.decode_and_execute().unwrap();
    assert_eq!(cpu.regs.get(Reg::Rv).as_u16(), 0x0002);
}

#[test]
fn stores_to_rom_are_discarded() {
    let mut cpu = boot(vec![0x55]);
    cpu.regs.set(Reg::T0, s16::from_u16(0x0800));
    cpu.regs.set(Reg::T1, s16::from_u16(0x1234));
    cpu.ir = enc_rri(0x16, 9, 10, 0); // sb 0($t0), t1
    cpu.decode_and_execute().unwrap();
    assert_eq!(cpu.mem.read_u8(0x0800).unwrap(), 0x55);
    cpu.ir = enc_rri(0x15, 9, 10, 0); // sw 0($t0), t1
    cpu.decode_and_execute().unwrap();
    assert_eq!(cpu.mem.read_u8(0x0800).unwrap(), 0x55);
    assert_eq!(cpu.mem.read_u8(0x0801).unwrap(), 0x00);
}

#[test]
fn reset_restores_initial_state() {
    let mut cpu = boot(Vec::new());
    cpu.regs.set(Reg::T0, s16::from_u16(9));
    cpu.pc = 0x3000;
    cpu.interrupts_enabled = false;
    cpu.reset();
    assert_eq!(cpu.pc, Memory::ROM_START);
    assert_eq!(cpu.regs.get(Reg::T0).as_u16(), 0);
    assert_eq!(cpu.regs.get(Reg::Sp).as_u16(), STACK_INIT);
    assert!(cpu.interrupts_enabled);
}
