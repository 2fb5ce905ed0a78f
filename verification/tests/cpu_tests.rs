use nes_core::cartridge::Cartridge;
use nes_core::cpu::Cpu;
use nes_core::error::Error;
use nes_core::interconnect::Interconnect;
use nes_core::memory::Memory;
use nes_core::nes::Nes;

/// An NROM image with `code` placed at CPU address `org` and the reset
/// vector pointing at `org`.
fn make_rom(code: &[u8], org: u16) -> Vec<u8> {
    let mut v = vec![0x4eu8, 0x45, 0x53, 0x1a, 1, 1, 0, 0, 0, 0, 0, 0, 0, 0, 0, 0];
    let mut prg = vec![0u8; 16384];
    let off = ((org as usize) - 0x8000) % 16384;
    for (i, b) in code.iter().enumerate() {
        prg[off + i] = *b;
    }
    prg[0x3ffc] = (org & 0xff) as u8;
    prg[0x3ffd] = (org >> 8) as u8;
    v.extend_from_slice(&prg);
    v.extend_from_slice(&vec![0u8; 8192]);
    v
}

/// A zeroed CPU (per the scenario initial state) and an interconnect
/// around the given code, with PC pointed at the reset vector's target.
fn machine(code: &[u8], org: u16) -> (Cpu, Interconnect) {
    let cart = Cartridge::new(make_rom(code, org)).unwrap();
    let mut ic = Interconnect::new(cart);
    let mut cpu = Cpu::new();
    cpu.reg.pc = ic.cpu_read_u16(0xfffc).unwrap();
    (cpu, ic)
}

/// The same initial state over the flat memory map.
fn flat_machine(code: &[u8], org: u16) -> (Cpu, Memory) {
    let cart = Cartridge::new(make_rom(code, org)).unwrap();
    let mut m = Memory::new(cart);
    let mut cpu = Cpu::new();
    cpu.reg.pc = m.read_u16(0xfffc).unwrap();
    (cpu, m)
}

#[test]
fn lda_immediate_sets_z() {
    let (mut cpu, mut ic) = machine(&[0xa9, 0x00], 0x8000);
    let cycles = cpu.step(&mut ic).unwrap();
    assert_eq!(cpu.reg.a, 0);
    assert!(cpu.flags.z);
    assert!(!cpu.flags.n);
    assert_eq!(cpu.reg.pc, 0x8002);
    assert_eq!(cycles, 2);
}

#[test]
fn adc_without_carry_with_overflow() {
    let (mut cpu, mut ic) = machine(&[0x69, 0x50], 0x8000);
    cpu.reg.a = 0x50;
    let cycles = cpu.step(&mut ic).unwrap();
    assert_eq!(cpu.reg.a, 0xa0);
    assert!(cpu.flags.n);
    assert!(cpu.flags.v);
    assert!(!cpu.flags.c);
    assert!(!cpu.flags.z);
    assert_eq!(cycles, 2);
}

#[test]
fn lda_absolute_x_page_cross() {
    // 0x1F01 + 0xFF crosses into 0x2000, which the flat map serves from
    // the byte-addressable video view.
    let (mut cpu, mut m) = flat_machine(&[0xbd, 0x01, 0x1f], 0x8000);
    cpu.reg.x = 0xff;
    m.write(0x2000, 0xaa).unwrap();
    let cycles = cpu.step(&mut m).unwrap();
    assert_eq!(cpu.reg.a, 0xaa);
    assert_eq!(cycles, 5);
}

#[test]
fn branch_taken_across_page() {
    let (mut cpu, mut ic) = machine(&[0x90, 0x04], 0x80fe);
    let cycles = cpu.step(&mut ic).unwrap();
    assert_eq!(cpu.reg.pc, 0x8104);
    assert_eq!(cycles, 4);
}

#[test]
fn branch_not_taken_is_base_cycles() {
    let (mut cpu, mut ic) = machine(&[0x90, 0x04], 0x8000);
    cpu.flags.c = true;
    let cycles = cpu.step(&mut ic).unwrap();
    assert_eq!(cpu.reg.pc, 0x8002);
    assert_eq!(cycles, 2);
}

#[test]
fn jmp_indirect_page_wrap() {
    // The pointer's high byte comes from the pointer's own page:
    // 0x30FF/0x3000, never 0x3100. The flat map holds the pointer in
    // the video view.
    let (mut cpu, mut m) = flat_machine(&[0x6c, 0xff, 0x30], 0x8000);
    m.write(0x30ff, 0x40).unwrap();
    m.write(0x3000, 0x80).unwrap();
    m.write(0x3100, 0x55).unwrap();
    let cycles = cpu.step(&mut m).unwrap();
    assert_eq!(cpu.reg.pc, 0x8040);
    assert_eq!(cycles, 5);
}

#[test]
fn sprite_dma_stall() {
    let cart = Cartridge::new(make_rom(&[0xa9, 0x01], 0x8000)).unwrap();
    let mut nes = Nes::new(cart).unwrap();
    for i in 0..=255u16 {
        nes.interconnect.cpu_write(0x0200 + i, (i % 256) as u8).unwrap();
    }
    nes.interconnect.cpu_write(0x4014, 0x02).unwrap();
    assert!(nes.interconnect.dma());
    assert_eq!(nes.ppu().read_spr(0), 0);
    assert_eq!(nes.ppu().read_spr(1), 1);
    assert_eq!(nes.ppu().read_spr(255), 255);
    // The next step charges the stall instead of executing.
    let cycles = nes.step().unwrap();
    assert_eq!(cycles, 513);
    assert!(!nes.interconnect.dma());
}

#[test]
fn sprite_dma_stall_odd_cycle() {
    let cart = Cartridge::new(make_rom(&[0xa9, 0x01], 0x8000)).unwrap();
    let mut nes = Nes::new(cart).unwrap();
    nes.cycles = 1;
    nes.interconnect.cpu_write(0x4014, 0x02).unwrap();
    let cycles = nes.step().unwrap();
    assert_eq!(cycles, 514);
}

#[test]
fn decimal_flag_has_no_arithmetic_effect() {
    // SED, then ADC #$19: the sum is plain binary either way.
    let (mut cpu, mut ic) = machine(&[0xf8, 0x69, 0x19], 0x8000);
    cpu.reg.a = 0x28;
    cpu.step(&mut ic).unwrap();
    assert!(cpu.flags.d);
    cpu.step(&mut ic).unwrap();
    assert_eq!(cpu.reg.a, 0x41);

    let (mut cpu2, mut ic2) = machine(&[0x69, 0x19], 0x8000);
    cpu2.reg.a = 0x28;
    cpu2.step(&mut ic2).unwrap();
    assert_eq!(cpu2.reg.a, 0x41);
}

#[test]
fn push_pop_round_trip() {
    // LDA #$37, PHA, LDA #$00, PLA: the accumulator comes back and the
    // stack pointer returns to where it started.
    let (mut cpu, mut ic) = machine(&[0xa9, 0x37, 0x48, 0xa9, 0x00, 0x68], 0x8000);
    let sp0 = cpu.reg.sp;
    cpu.step(&mut ic).unwrap();
    cpu.step(&mut ic).unwrap();
    assert_eq!(cpu.reg.sp, sp0.wrapping_sub(1));
    cpu.step(&mut ic).unwrap();
    assert_eq!(cpu.reg.a, 0x00);
    cpu.step(&mut ic).unwrap();
    assert_eq!(cpu.reg.a, 0x37);
    assert_eq!(cpu.reg.sp, sp0);
}

#[test]
fn jsr_rts_round_trip() {
    // JSR $8010 ... RTS returns to the instruction after the JSR.
    let mut code = vec![0x20, 0x10, 0x80, 0xa9, 0x07];
    while code.len() < 0x10 {
        code.push(0xea);
    }
    code.push(0x60);
    let (mut cpu, mut ic) = machine(&code, 0x8000);
    let cycles = cpu.step(&mut ic).unwrap();
    assert_eq!(cycles, 6);
    assert_eq!(cpu.reg.pc, 0x8010);
    let cycles = cpu.step(&mut ic).unwrap();
    assert_eq!(cycles, 6);
    assert_eq!(cpu.reg.pc, 0x8003);
    cpu.step(&mut ic).unwrap();
    assert_eq!(cpu.reg.a, 0x07);
}

#[test]
fn pc_advance_absolute() {
    // A three-byte instruction advances PC by exactly three.
    let (mut cpu, mut ic) = machine(&[0xad, 0x10, 0x00], 0x8000);
    let cycles = cpu.step(&mut ic).unwrap();
    assert_eq!(cpu.reg.pc, 0x8003);
    assert_eq!(cycles, 4);
}

#[test]
fn decode_error_from_step() {
    let (mut cpu, mut ic) = machine(&[0x02], 0x8000);
    assert_eq!(cpu.step(&mut ic), Err(Error::Decode(0x8000, 0x02)));
}

#[test]
fn bus_error_from_step() {
    // LDA $4000 touches the unimplemented I/O region.
    let (mut cpu, mut ic) = machine(&[0xad, 0x00, 0x40], 0x8000);
    assert_eq!(cpu.step(&mut ic), Err(Error::Bus(0x4000)));
}

#[test]
fn asl_accumulator_carries_out() {
    let (mut cpu, mut ic) = machine(&[0x0a], 0x8000);
    cpu.reg.a = 0x81;
    let cycles = cpu.step(&mut ic).unwrap();
    assert_eq!(cpu.reg.a, 0x02);
    assert!(cpu.flags.c);
    assert!(!cpu.flags.n && !cpu.flags.z);
    assert_eq!(cycles, 2);
}

#[test]
fn lsr_shifts_bit_into_carry() {
    let (mut cpu, mut ic) = machine(&[0x4a], 0x8000);
    cpu.reg.a = 0x01;
    cpu.step(&mut ic).unwrap();
    assert_eq!(cpu.reg.a, 0x00);
    assert!(cpu.flags.c);
    assert!(cpu.flags.z);
}

#[test]
fn rotates_go_through_carry() {
    // ROL A with carry in: bit 0 becomes the old carry.
    let (mut cpu, mut ic) = machine(&[0x2a], 0x8000);
    cpu.reg.a = 0x80;
    cpu.flags.c = true;
    cpu.step(&mut ic).unwrap();
    assert_eq!(cpu.reg.a, 0x01);
    assert!(cpu.flags.c);

    // ROR A with carry in: bit 7 becomes the old carry.
    let (mut cpu2, mut ic2) = machine(&[0x6a], 0x8000);
    cpu2.reg.a = 0x01;
    cpu2.flags.c = true;
    cpu2.step(&mut ic2).unwrap();
    assert_eq!(cpu2.reg.a, 0x80);
    assert!(cpu2.flags.c);
}

#[test]
fn inc_zero_page_wraps() {
    // Store 0xFF at $10, then INC $10 wraps to zero.
    let (mut cpu, mut ic) = machine(&[0xa9, 0xff, 0x85, 0x10, 0xe6, 0x10], 0x8000);
    cpu.step(&mut ic).unwrap();
    cpu.step(&mut ic).unwrap();
    let cycles = cpu.step(&mut ic).unwrap();
    assert_eq!(ic.cpu_read(0x0010), Ok(0x00));
    assert!(cpu.flags.z);
    assert_eq!(cycles, 5);
}

#[test]
fn cmp_sets_carry_on_greater_equal() {
    let (mut cpu, mut ic) = machine(&[0xc9, 0x03], 0x8000);
    cpu.reg.a = 0x05;
    cpu.step(&mut ic).unwrap();
    assert!(cpu.flags.c);
    assert!(!cpu.flags.z);
    assert!(!cpu.flags.n);

    let (mut cpu2, mut ic2) = machine(&[0xc9, 0x06], 0x8000);
    cpu2.reg.a = 0x05;
    cpu2.step(&mut ic2).unwrap();
    assert!(!cpu2.flags.c);
    assert!(cpu2.flags.n);
}

#[test]
fn sbc_borrows_without_carry() {
    // With carry set, SBC #$01 from 0x03 is 0x02 and keeps carry.
    let (mut cpu, mut ic) = machine(&[0xe9, 0x01], 0x8000);
    cpu.reg.a = 0x03;
    cpu.flags.c = true;
    cpu.step(&mut ic).unwrap();
    assert_eq!(cpu.reg.a, 0x02);
    assert!(cpu.flags.c);

    // With carry clear, an extra one is subtracted and 0 - 1 borrows.
    let (mut cpu2, mut ic2) = machine(&[0xe9, 0x00], 0x8000);
    cpu2.reg.a = 0x00;
    cpu2.step(&mut ic2).unwrap();
    assert_eq!(cpu2.reg.a, 0xff);
    assert!(!cpu2.flags.c);
}

#[test]
fn bit_masks_accumulator() {
    // BIT $10 with operand 0xC0: N and V copied from bits 7 and 6,
    // Z set because the mask misses the accumulator.
    let (mut cpu, mut ic) = machine(&[0xa9, 0xc0, 0x85, 0x10, 0xa9, 0x01, 0x24, 0x10], 0x8000);
    cpu.step(&mut ic).unwrap();
    cpu.step(&mut ic).unwrap();
    cpu.step(&mut ic).unwrap();
    cpu.step(&mut ic).unwrap();
    assert!(cpu.flags.n);
    assert!(cpu.flags.v);
    assert!(cpu.flags.z);
}

#[test]
fn nes_reset_state() {
    let cart = Cartridge::new(make_rom(&[0xa9, 0x01], 0x8123)).unwrap();
    let nes = Nes::new(cart).unwrap();
    assert_eq!(nes.cpu().reg.pc, 0x8123);
    assert_eq!(nes.cpu().reg.sp, 0xfd);
    assert!(nes.cpu().flags.i);
    assert!(!nes.cpu().flags.d);
    assert_eq!(nes.cycles(), 0);
}

#[test]
fn nes_run_counts_cycles() {
    // Three two-cycle loads, then stop at the unknown opcode.
    let cart = Cartridge::new(make_rom(&[0xa9, 0x01, 0xa9, 0x02, 0xa9, 0x03, 0x02], 0x8000)).unwrap();
    let mut nes = Nes::new(cart).unwrap();
    let e = nes.run(1000);
    assert_eq!(e, Some(Error::Decode(0x8006, 0x02)));
    assert_eq!(nes.cycles(), 6);

    let cart2 = Cartridge::new(make_rom(&[0xa9, 0x01, 0xa9, 0x02], 0x8000)).unwrap();
    let mut nes2 = Nes::new(cart2).unwrap();
    assert_eq!(nes2.run(2), None);
    assert_eq!(nes2.cycles(), 4);
}

#[test]
fn brk_pushes_and_vectors() {
    // BRK at 0x8000; the vector at 0xFFFE points back into PRG.
    let mut code = vec![0x00u8];
    let cart = {
        let mut v = vec![0x4eu8, 0x45, 0x53, 0x1a, 1, 1, 0, 0, 0, 0, 0, 0, 0, 0, 0, 0];
        let mut prg = vec![0u8; 16384];
        prg[0] = code.remove(0);
        prg[0x3ffc] = 0x00;
        prg[0x3ffd] = 0x80;
        prg[0x3ffe] = 0x50;
        prg[0x3fff] = 0x90;
        v.extend_from_slice(&prg);
        v.extend_from_slice(&vec![0u8; 8192]);
        Cartridge::new(v).unwrap()
    };
    let mut ic = Interconnect::new(cart);
    let mut cpu = Cpu::new();
    cpu.reg.pc = 0x8000;
    let cycles = cpu.step(&mut ic).unwrap();
    assert_eq!(cycles, 7);
    assert_eq!(cpu.reg.pc, 0x9050);
    assert!(cpu.flags.i);
    // Return address 0x8002 and the status byte sit on the stack.
    assert_eq!(ic.cpu_read(0x01fd), Ok(0x80));
    assert_eq!(ic.cpu_read(0x01fc), Ok(0x02));
    assert_eq!(ic.cpu_read(0x01fb), Ok(0x30));
    assert_eq!(cpu.reg.sp, 0xfa);
}

#[test]
fn indirect_indexed_page_cross() {
    // LDA ($10),Y with the zero-page pointer 0x01FF and Y = 1 crosses
    // into page 0x02: five base cycles plus one.
    let (mut cpu, mut ic) = machine(&[0xb1, 0x10], 0x8000);
    ic.cpu_write(0x0010, 0xff).unwrap();
    ic.cpu_write(0x0011, 0x01).unwrap();
    ic.cpu_write(0x0200, 0x5a).unwrap();
    cpu.reg.y = 0x01;
    let cycles = cpu.step(&mut ic).unwrap();
    assert_eq!(cpu.reg.a, 0x5a);
    assert_eq!(cycles, 6);
}

#[test]
fn store_charges_no_page_cross() {
    // STA $0101,X with X = 0xFF crosses a page but still costs the
    // five worst-case base cycles.
    let (mut cpu, mut ic) = machine(&[0x9d, 0x01, 0x01], 0x8000);
    cpu.reg.a = 0x77;
    cpu.reg.x = 0xff;
    let cycles = cpu.step(&mut ic).unwrap();
    assert_eq!(ic.cpu_read(0x0200), Ok(0x77));
    assert_eq!(cycles, 5);
}

#[test]
fn x_indexed_indirect_wraps_zero_page() {
    // LDA ($FE,X) with X = 3: the pointer wraps to 0x01, whose word
    // wraps again through 0x02.
    let (mut cpu, mut ic) = machine(&[0xa1, 0xfe], 0x8000);
    cpu.reg.x = 0x03;
    ic.cpu_write(0x0001, 0x34).unwrap();
    ic.cpu_write(0x0002, 0x02).unwrap();
    ic.cpu_write(0x0234, 0x99).unwrap();
    let cycles = cpu.step(&mut ic).unwrap();
    assert_eq!(cpu.reg.a, 0x99);
    assert_eq!(cycles, 6);
}

#[test]
fn plp_discards_pushed_only_bits() {
    // PHP pushes with bits 4 and 5 set; PLP pulls them back out with
    // bit 4 discarded.
    let (mut cpu, mut ic) = machine(&[0x38, 0x08, 0x18, 0x28], 0x8000);
    cpu.step(&mut ic).unwrap();
    cpu.step(&mut ic).unwrap();
    assert_eq!(ic.cpu_read(0x01fd), Ok(0x31));
    cpu.step(&mut ic).unwrap();
    assert!(!cpu.flags.c);
    cpu.step(&mut ic).unwrap();
    assert!(cpu.flags.c);
    assert!(!cpu.flags.b);
}

#[test]
fn transfers_move_registers() {
    // TAX, TXS, TSX, TYA in sequence.
    let (mut cpu, mut ic) = machine(&[0xaa, 0x9a, 0xba, 0x98], 0x8000);
    cpu.reg.a = 0x41;
    cpu.reg.y = 0x55;
    cpu.step(&mut ic).unwrap();
    assert_eq!(cpu.reg.x, 0x41);
    cpu.step(&mut ic).unwrap();
    assert_eq!(cpu.reg.sp, 0x41);
    cpu.step(&mut ic).unwrap();
    assert_eq!(cpu.reg.x, 0x41);
    cpu.step(&mut ic).unwrap();
    assert_eq!(cpu.reg.a, 0x55);
}

#[test]
fn rti_restores_status_and_pc() {
    // Hand-build a stack frame: status 0xC3, return address 0x8010.
    let mut code = vec![0x40u8];
    while code.len() < 0x10 {
        code.push(0xea);
    }
    code.push(0xa9);
    code.push(0x09);
    let (mut cpu, mut ic) = machine(&code, 0x8000);
    ic.cpu_write(0x01fb, 0xc3).unwrap();
    ic.cpu_write(0x01fc, 0x10).unwrap();
    ic.cpu_write(0x01fd, 0x80).unwrap();
    cpu.reg.sp = 0xfa;
    let cycles = cpu.step(&mut ic).unwrap();
    assert_eq!(cycles, 6);
    assert_eq!(cpu.reg.pc, 0x8010);
    assert!(cpu.flags.n && cpu.flags.v && cpu.flags.z && cpu.flags.c);
    assert!(!cpu.flags.b);
    assert_eq!(cpu.reg.sp, 0xfd);
}
