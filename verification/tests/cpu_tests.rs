use nes_emu::bus::CPUBus;
use nes_emu::cpu::opcode::lookup;
use nes_emu::cpu::{AddressingType, Flags, Inst, Opcode, Regs, CPU};
use nes_emu::ram::CPURam;
use nes_emu::rom::Cartridge;

const PROGRAM: usize = 0x0200;

/// An image with one PRG bank that holds `prg` at its start.
fn image(prg: &[(usize, u8)]) -> Vec<u8> {
    let mut image = vec![0x4e, 0x45, 0x53, 0x1a, 1, 0, 0, 0, 0, 0, 0, 0, 0, 0, 0, 0];
    image.resize(16 + 0x4000, 0);
    for (offset, byte) in prg {
        image[16 + offset] = *byte;
    }
    image
}

/// A processor at `PROGRAM` with `program` there and `data` elsewhere in RAM.
fn cpu_with(program: &[u8], data: &[(usize, u8)]) -> CPU {
    cpu_over(&image(&[]), program, data)
}

fn cpu_over(image: &[u8], program: &[u8], data: &[(usize, u8)]) -> CPU {
    let cartridge = Cartridge::new(image).unwrap();
    let mut ram = CPURam::default();
    for (i, byte) in program.iter().enumerate() {
        ram.write(PROGRAM + i, *byte);
    }
    for (address, byte) in data {
        ram.write(*address, *byte);
    }
    CPU::new(CPUBus::connect(cartridge, ram), PROGRAM)
}

/// Decodes and executes `n` instructions.
fn run(cpu: &mut CPU, n: usize) {
    for _ in 0..n {
        let inst = cpu.get_next_inst();
        cpu.exec_once(&inst);
    }
}

fn flags(cpu: &CPU) -> u8 {
    cpu.get_regs().P.bits()
}

#[test]
fn cpu_test() {
    println!("{:#x}", (5usize.wrapping_add(1)));
    assert_eq!(5usize.wrapping_add(1), 6);
}

#[test]
fn reset_state() {
    let cpu = cpu_with(&[], &[]);
    let expected = Regs {
        A: 0,
        X: 0,
        Y: 0,
        SP: 0xfd,
        P: Flags { bits: 0x24 },
        PC: 0x0200,
    };
    assert_eq!(cpu.get_regs(), expected);
    let reset = Regs::default();
    assert_eq!(reset.SP, 0xfd);
    assert_eq!(reset.PC, 0);
    assert_eq!(reset.P, Flags::new());
    assert!(Flags::new().contains(Flags::U));
    assert!(Flags::new().contains(Flags::I));
    assert!(!Flags::new().contains(Flags::C));
    assert_eq!(Flags::new().bits(), 0x24);
}

#[test]
fn new_keeps_the_low_16_bits_of_pc() {
    let cartridge = Cartridge::new(&image(&[])).unwrap();
    let cpu = CPU::new(CPUBus::connect(cartridge, CPURam::default()), 0x1c000);
    assert_eq!(cpu.get_regs().PC, 0xc000);
}

#[test]
fn snapshots_compare_every_register() {
    let base = Regs::default();
    assert_eq!(base, Regs::default());
    assert_ne!(base, Regs { A: 1, ..base });
    assert_ne!(base, Regs { X: 1, ..base });
    assert_ne!(base, Regs { Y: 1, ..base });
    assert_ne!(base, Regs { SP: 1, ..base });
    assert_ne!(base, Regs { PC: 1, ..base });
    assert_ne!(base, Regs { P: Flags { bits: 0 }, ..base });
}

#[test]
fn flags_set_insert_remove() {
    let mut p = Flags::from_bits_truncate(0);
    p.insert(Flags::C);
    assert_eq!(p.bits(), 0x01);
    p.set(Flags::N, true);
    assert_eq!(p.bits(), 0x81);
    p.set(Flags::C, false);
    assert_eq!(p.bits(), 0x80);
    p.remove(Flags::N);
    assert_eq!(p.bits(), 0x00);
    assert_eq!(p.carry(), 0);
    p.insert(Flags::C | Flags::V);
    assert!(p.contains(Flags::C | Flags::V));
    assert!(!p.contains(Flags::C | Flags::Z));
    assert_eq!(p.carry(), 1);
    assert_eq!(Flags::from_bits_truncate(0xff).bits(), 0xff);
}

#[test]
fn handle_flag_update_touches_only_zero_and_negative() {
    let mut cpu = cpu_with(&[0x38], &[]);
    run(&mut cpu, 1);
    assert_eq!(flags(&cpu), 0x25);
    cpu.handle_flag_update(0);
    assert_eq!(flags(&cpu), 0x27);
    cpu.handle_flag_update(0x80);
    assert_eq!(flags(&cpu), 0xa5);
    cpu.handle_flag_update(0x7f);
    assert_eq!(flags(&cpu), 0x25);
}

#[test]
fn zero_page_x_wraps_within_the_zero_page() {
    // LDX #$02; LDA $FF,X
    let mut cpu = cpu_with(&[0xa2, 0x02, 0xb5, 0xff], &[(0x0001, 0x11), (0x0101, 0x22)]);
    run(&mut cpu, 1);
    assert_eq!(cpu.operand_address(&AddressingType::ZeroPageX), 0x0001);
    run(&mut cpu, 1);
    assert_eq!(cpu.get_regs().A, 0x11);
}

#[test]
fn zero_page_y_wraps_within_the_zero_page() {
    // LDY #$81; LDX $80,Y
    let mut cpu = cpu_with(&[0xa0, 0x81, 0xb6, 0x80], &[(0x0001, 0x33), (0x0101, 0x44)]);
    run(&mut cpu, 1);
    assert_eq!(cpu.operand_address(&AddressingType::ZeroPageY), 0x0001);
    run(&mut cpu, 1);
    assert_eq!(cpu.get_regs().X, 0x33);
}

#[test]
fn absolute_x_wraps_at_16_bits() {
    // LDX #$01; LDA $FFFF,X
    let mut cpu = cpu_with(&[0xa2, 0x01, 0xbd, 0xff, 0xff], &[(0x0000, 0x5a)]);
    run(&mut cpu, 1);
    assert_eq!(cpu.operand_address(&AddressingType::AbsoluteX), 0x0000);
    run(&mut cpu, 1);
    assert_eq!(cpu.get_regs().A, 0x5a);
}

#[test]
fn absolute_y_wraps_at_16_bits() {
    // LDY #$01; LDA $FFFF,Y
    let mut cpu = cpu_with(&[0xa0, 0x01, 0xb9, 0xff, 0xff], &[(0x0000, 0x5b)]);
    run(&mut cpu, 1);
    assert_eq!(cpu.operand_address(&AddressingType::AbsoluteY), 0x0000);
    run(&mut cpu, 1);
    assert_eq!(cpu.get_regs().A, 0x5b);
}

#[test]
fn absolute_x_carries_into_the_high_byte() {
    // LDX #$01; LDA $02FF,X
    let mut cpu = cpu_with(&[0xa2, 0x01, 0xbd, 0xff, 0x02], &[(0x0300, 0x77)]);
    run(&mut cpu, 1);
    assert_eq!(cpu.operand_address(&AddressingType::AbsoluteX), 0x0300);
    run(&mut cpu, 1);
    assert_eq!(cpu.get_regs().A, 0x77);
}

#[test]
fn indirect_jump_takes_the_high_byte_from_the_same_page() {
    // JMP ($30FF)
    let mut cpu = cpu_with(
        &[0x6c, 0xff, 0x30],
        &[(0x30ff, 0x40), (0x3100, 0x01), (0x3000, 0x02)],
    );
    assert_eq!(cpu.operand_address(&AddressingType::Indirect), 0x0240);
    run(&mut cpu, 1);
    assert_eq!(cpu.get_regs().PC, 0x0240);
}

#[test]
fn indirect_jump_within_a_page() {
    // JMP ($3010)
    let mut cpu = cpu_with(&[0x6c, 0x10, 0x30], &[(0x3010, 0x34), (0x3011, 0x12)]);
    run(&mut cpu, 1);
    assert_eq!(cpu.get_regs().PC, 0x1234);
}

#[test]
fn indirect_jump_wraps_in_cartridge_pages_too() {
    // JMP ($80FF), with the pointer in PRG-ROM
    let rom = image(&[(0x00ff, 0x40), (0x0100, 0x01), (0x0000, 0x02)]);
    let mut cpu = cpu_over(&rom, &[0x6c, 0xff, 0x80], &[]);
    run(&mut cpu, 1);
    assert_eq!(cpu.get_regs().PC, 0x0240);
}

#[test]
fn indexed_indirect_reads_its_pointer_from_the_zero_page() {
    // LDX #$04; LDA ($20,X)
    let mut cpu = cpu_with(
        &[0xa2, 0x04, 0xa1, 0x20],
        &[(0x0024, 0x00), (0x0025, 0x03), (0x0300, 0x99)],
    );
    run(&mut cpu, 1);
    assert_eq!(cpu.operand_address(&AddressingType::IndirectX), 0x0300);
    run(&mut cpu, 1);
    assert_eq!(cpu.get_regs().A, 0x99);
}

#[test]
fn indexed_indirect_pointer_wraps_in_the_zero_page() {
    // LDX #$01; LDA ($FE,X): the pointer is at $FF, its high byte at $00
    let mut cpu = cpu_with(
        &[0xa2, 0x01, 0xa1, 0xfe],
        &[(0x00ff, 0x10), (0x0000, 0x03), (0x0100, 0x07), (0x0310, 0x66)],
    );
    run(&mut cpu, 1);
    assert_eq!(cpu.operand_address(&AddressingType::IndirectX), 0x0310);
    run(&mut cpu, 1);
    assert_eq!(cpu.get_regs().A, 0x66);
}

#[test]
fn indirect_indexed_adds_y_to_the_base() {
    // LDY #$10; LDA ($20),Y
    let mut cpu = cpu_with(
        &[0xa0, 0x10, 0xb1, 0x20],
        &[(0x0020, 0xf8), (0x0021, 0x03), (0x0408, 0x55)],
    );
    run(&mut cpu, 1);
    assert_eq!(cpu.operand_address(&AddressingType::IndirectY), 0x0408);
    run(&mut cpu, 1);
    assert_eq!(cpu.get_regs().A, 0x55);
}

#[test]
fn indirect_indexed_wraps_at_16_bits() {
    // LDY #$02; LDA ($20),Y with base $FFFF
    let mut cpu = cpu_with(
        &[0xa0, 0x02, 0xb1, 0x20],
        &[(0x0020, 0xff), (0x0021, 0xff), (0x0001, 0x44)],
    );
    run(&mut cpu, 1);
    assert_eq!(cpu.operand_address(&AddressingType::IndirectY), 0x0001);
    run(&mut cpu, 1);
    assert_eq!(cpu.get_regs().A, 0x44);
}

#[test]
fn immediate_and_zero_page_resolve() {
    // LDA #$12
    let cpu = cpu_with(&[0xa9, 0x12], &[]);
    assert_eq!(cpu.operand_address(&AddressingType::Immediate), 0x0201);
    assert_eq!(cpu.operand_address(&AddressingType::ZeroPage), 0x0012);
    assert_eq!(cpu.operand_address(&AddressingType::Absolute), 0x0012);
}

#[test]
fn operand_fetch_wraps_past_the_top_of_memory() {
    // LDA #imm with the opcode in the last byte of PRG-ROM
    let rom = image(&[(0x3fff, 0xa9)]);
    let cartridge = Cartridge::new(&rom).unwrap();
    let mut ram = CPURam::default();
    ram.write(0x0000, 0x77);
    let mut cpu = CPU::new(CPUBus::connect(cartridge, ram), 0xffff);
    run(&mut cpu, 1);
    assert_eq!(cpu.get_regs().A, 0x77);
    assert_eq!(cpu.get_regs().PC, 0x0001);
}

#[test]
fn jsr_rts_round_trip() {
    // JSR $0400 ... RTS
    let mut cpu = cpu_with(&[0x20, 0x00, 0x04], &[(0x0400, 0x60)]);
    let before = cpu.get_regs();
    run(&mut cpu, 1);
    assert_eq!(cpu.get_regs().PC, 0x0400);
    assert_eq!(cpu.get_regs().SP, 0xfb);
    assert_eq!(cpu.bus_port().read(0x01fd), 0x02);
    assert_eq!(cpu.bus_port().read(0x01fc), 0x02);
    run(&mut cpu, 1);
    assert_eq!(cpu.get_regs().PC, before.PC + 3);
    assert_eq!(cpu.get_regs().SP, before.SP);
}

#[test]
fn jsr_pushes_the_address_of_its_last_byte_high_first() {
    let cartridge = Cartridge::new(&image(&[])).unwrap();
    let mut ram = CPURam::default();
    ram.write(0x12fe, 0x20);
    ram.write(0x12ff, 0x00);
    ram.write(0x1300, 0x04);
    let mut cpu = CPU::new(CPUBus::connect(cartridge, ram), 0x12fe);
    run(&mut cpu, 1);
    assert_eq!(cpu.bus_port().read(0x01fd), 0x13);
    assert_eq!(cpu.bus_port().read(0x01fc), 0x00);
}

#[test]
fn php_plp_clears_break_and_sets_unused() {
    // SEC; SED; PHP; PLP
    let mut cpu = cpu_with(&[0x38, 0xf8, 0x08, 0x28], &[]);
    run(&mut cpu, 3);
    assert_eq!(flags(&cpu), 0x2d);
    assert_eq!(cpu.bus_port().read(0x01fd), 0x3d);
    assert_eq!(cpu.get_regs().SP, 0xfc);
    run(&mut cpu, 1);
    assert_eq!(flags(&cpu), 0x2d);
    assert!(!cpu.get_regs().P.contains(Flags::B));
    assert!(cpu.get_regs().P.contains(Flags::U));
    assert_eq!(cpu.get_regs().SP, 0xfd);
}

#[test]
fn plp_forces_break_and_unused_whatever_the_stack_holds() {
    // LDA #$FF; PHA; PLP; LDA #$00; PHA; PLP
    let mut cpu = cpu_with(&[0xa9, 0xff, 0x48, 0x28, 0xa9, 0x00, 0x48, 0x28], &[]);
    run(&mut cpu, 3);
    assert_eq!(flags(&cpu), 0xef);
    run(&mut cpu, 3);
    assert_eq!(flags(&cpu), 0x20);
}

#[test]
fn adc_overflow_scenario() {
    // LDA #$50; ADC #$50
    let mut cpu = cpu_with(&[0xa9, 0x50, 0x69, 0x50], &[]);
    run(&mut cpu, 2);
    let regs = cpu.get_regs();
    assert_eq!(regs.A, 0xa0);
    assert!(!regs.P.contains(Flags::C));
    assert!(regs.P.contains(Flags::V));
    assert!(regs.P.contains(Flags::N));
    assert!(!regs.P.contains(Flags::Z));
    assert_eq!(regs.P.bits(), 0xe4);
}

#[test]
fn adc_carries_out_and_in() {
    // SEC; LDA #$FF; ADC #$00; ADC #$00
    let mut cpu = cpu_with(&[0x38, 0xa9, 0xff, 0x69, 0x00, 0x69, 0x00], &[]);
    run(&mut cpu, 3);
    assert_eq!(cpu.get_regs().A, 0x00);
    assert_eq!(flags(&cpu), 0x27);
    run(&mut cpu, 1);
    assert_eq!(cpu.get_regs().A, 0x01);
    assert_eq!(flags(&cpu), 0x24);
}

#[test]
fn adc_negative_overflow() {
    // LDA #$80; ADC #$FF
    let mut cpu = cpu_with(&[0xa9, 0x80, 0x69, 0xff], &[]);
    run(&mut cpu, 2);
    assert_eq!(cpu.get_regs().A, 0x7f);
    assert_eq!(flags(&cpu), 0x65);
}

#[test]
fn sbc_without_borrow() {
    // SEC; LDA #$05; SBC #$03
    let mut cpu = cpu_with(&[0x38, 0xa9, 0x05, 0xe9, 0x03], &[]);
    run(&mut cpu, 3);
    assert_eq!(cpu.get_regs().A, 0x02);
    assert_eq!(flags(&cpu), 0x25);
}

#[test]
fn sbc_with_borrow_in() {
    // CLC; LDA #$05; SBC #$03
    let mut cpu = cpu_with(&[0x18, 0xa9, 0x05, 0xe9, 0x03], &[]);
    run(&mut cpu, 3);
    assert_eq!(cpu.get_regs().A, 0x01);
    assert_eq!(flags(&cpu), 0x25);
}

#[test]
fn sbc_borrows_out() {
    // SEC; LDA #$50; SBC #$F0
    let mut cpu = cpu_with(&[0x38, 0xa9, 0x50, 0xe9, 0xf0], &[]);
    run(&mut cpu, 3);
    assert_eq!(cpu.get_regs().A, 0x60);
    assert_eq!(flags(&cpu), 0x24);
}

#[test]
fn sbc_overflow() {
    // SEC; LDA #$50; SBC #$B0
    let mut cpu = cpu_with(&[0x38, 0xa9, 0x50, 0xe9, 0xb0], &[]);
    run(&mut cpu, 3);
    assert_eq!(cpu.get_regs().A, 0xa0);
    assert_eq!(flags(&cpu), 0xe4);
}

#[test]
fn sbc_result_with_bit_7_set_keeps_carry() {
    // SEC; LDA #$F0; SBC #$10: no borrow, though the result is negative
    let mut cpu = cpu_with(&[0x38, 0xa9, 0xf0, 0xe9, 0x10], &[]);
    run(&mut cpu, 3);
    assert_eq!(cpu.get_regs().A, 0xe0);
    assert_eq!(flags(&cpu), 0xa5);
}

#[test]
fn undocumented_sbc_behaves_as_sbc() {
    // SEC; LDA #$05; SBC #$03 under opcode $EB
    let mut cpu = cpu_with(&[0x38, 0xa9, 0x05, 0xeb, 0x03], &[]);
    run(&mut cpu, 3);
    assert_eq!(cpu.get_regs().A, 0x02);
    assert_eq!(flags(&cpu), 0x25);
}

#[test]
fn compare_sets_carry_zero_negative() {
    // LDA #$10; CMP #$10; CMP #$20; CMP #$05
    let mut cpu = cpu_with(&[0xa9, 0x10, 0xc9, 0x10, 0xc9, 0x20, 0xc9, 0x05], &[]);
    run(&mut cpu, 2);
    assert_eq!(flags(&cpu), 0x27);
    run(&mut cpu, 1);
    assert_eq!(flags(&cpu), 0xa4);
    run(&mut cpu, 1);
    assert_eq!(flags(&cpu), 0x25);
    assert_eq!(cpu.get_regs().A, 0x10);
}

#[test]
fn cpx_and_cpy_compare_their_registers() {
    // LDX #$03; CPX #$03; LDY #$01; CPY #$02
    let mut cpu = cpu_with(&[0xa2, 0x03, 0xe0, 0x03, 0xa0, 0x01, 0xc0, 0x02], &[]);
    run(&mut cpu, 2);
    assert_eq!(flags(&cpu), 0x27);
    run(&mut cpu, 2);
    assert_eq!(flags(&cpu), 0xa4);
}

#[test]
fn logic_operations() {
    // LDA #$F0; AND #$3C; ORA #$03; EOR #$FF
    let mut cpu = cpu_with(&[0xa9, 0xf0, 0x29, 0x3c, 0x09, 0x03, 0x49, 0xff], &[]);
    run(&mut cpu, 2);
    assert_eq!(cpu.get_regs().A, 0x30);
    assert_eq!(flags(&cpu), 0x24);
    run(&mut cpu, 1);
    assert_eq!(cpu.get_regs().A, 0x33);
    run(&mut cpu, 1);
    assert_eq!(cpu.get_regs().A, 0xcc);
    assert_eq!(flags(&cpu), 0xa4);
}

#[test]
fn and_to_zero_sets_zero() {
    // LDA #$F0; AND #$0F
    let mut cpu = cpu_with(&[0xa9, 0xf0, 0x29, 0x0f], &[]);
    run(&mut cpu, 2);
    assert_eq!(cpu.get_regs().A, 0x00);
    assert_eq!(flags(&cpu), 0x26);
}

#[test]
fn bit_copies_bits_6_and_7_and_tests_the_mask() {
    // LDA #$0F; BIT $10
    let mut cpu = cpu_with(&[0xa9, 0x0f, 0x24, 0x10], &[(0x0010, 0xc0)]);
    run(&mut cpu, 2);
    assert_eq!(flags(&cpu), 0xe6);
    assert_eq!(cpu.get_regs().A, 0x0f);
    // LDA #$01; BIT $10 with $10 = $01
    let mut cpu = cpu_with(&[0xa9, 0x01, 0x24, 0x10], &[(0x0010, 0x01)]);
    run(&mut cpu, 2);
    assert_eq!(flags(&cpu), 0x24);
}

#[test]
fn shifts_on_the_accumulator() {
    // LDA #$81; ASL A
    let mut cpu = cpu_with(&[0xa9, 0x81, 0x0a], &[]);
    run(&mut cpu, 2);
    assert_eq!(cpu.get_regs().A, 0x02);
    assert_eq!(flags(&cpu), 0x25);
    // LDA #$01; LSR A
    let mut cpu = cpu_with(&[0xa9, 0x01, 0x4a], &[]);
    run(&mut cpu, 2);
    assert_eq!(cpu.get_regs().A, 0x00);
    assert_eq!(flags(&cpu), 0x27);
}

#[test]
fn rotates_fold_the_carry_in() {
    // SEC; LDA #$80; ROL A
    let mut cpu = cpu_with(&[0x38, 0xa9, 0x80, 0x2a], &[]);
    run(&mut cpu, 3);
    assert_eq!(cpu.get_regs().A, 0x01);
    assert_eq!(flags(&cpu), 0x25);
    // SEC; LDA #$01; ROR A
    let mut cpu = cpu_with(&[0x38, 0xa9, 0x01, 0x6a], &[]);
    run(&mut cpu, 3);
    assert_eq!(cpu.get_regs().A, 0x80);
    assert_eq!(flags(&cpu), 0xa5);
    // CLC; LDA #$01; ROR A
    let mut cpu = cpu_with(&[0x18, 0xa9, 0x01, 0x6a], &[]);
    run(&mut cpu, 3);
    assert_eq!(cpu.get_regs().A, 0x00);
    assert_eq!(flags(&cpu), 0x27);
}

#[test]
fn rotate_in_memory_sets_zero_from_the_result() {
    // LDA #$01; ROL $10 with $10 = $80 and carry clear
    let mut cpu = cpu_with(&[0xa9, 0x01, 0x26, 0x10], &[(0x0010, 0x80)]);
    run(&mut cpu, 2);
    assert_eq!(cpu.bus_port().read(0x0010), 0x00);
    assert_eq!(cpu.get_regs().A, 0x01);
    assert_eq!(flags(&cpu), 0x27);
    // LDA #$00; ROR $10 with $10 = $02 and carry clear
    let mut cpu = cpu_with(&[0xa9, 0x00, 0x66, 0x10], &[(0x0010, 0x02)]);
    run(&mut cpu, 1);
    assert_eq!(flags(&cpu), 0x26);
    run(&mut cpu, 1);
    assert_eq!(cpu.bus_port().read(0x0010), 0x01);
    assert_eq!(flags(&cpu), 0x24);
}

#[test]
fn shifts_in_memory_write_back() {
    // ASL $10; LSR $0311
    let mut cpu = cpu_with(
        &[0x06, 0x10, 0x4e, 0x11, 0x03],
        &[(0x0010, 0x40), (0x0311, 0x03)],
    );
    run(&mut cpu, 1);
    assert_eq!(cpu.bus_port().read(0x0010), 0x80);
    assert_eq!(flags(&cpu), 0xa4);
    run(&mut cpu, 1);
    assert_eq!(cpu.bus_port().read(0x0311), 0x01);
    assert_eq!(flags(&cpu), 0x25);
    assert_eq!(cpu.get_regs().PC, 0x0205);
}

#[test]
fn increments_and_decrements_wrap() {
    // INC $10; DEC $10; DEC $10
    let mut cpu = cpu_with(&[0xe6, 0x10, 0xc6, 0x10, 0xc6, 0x10], &[(0x0010, 0xff)]);
    run(&mut cpu, 1);
    assert_eq!(cpu.bus_port().read(0x0010), 0x00);
    assert_eq!(flags(&cpu), 0x26);
    run(&mut cpu, 1);
    assert_eq!(cpu.bus_port().read(0x0010), 0xff);
    assert_eq!(flags(&cpu), 0xa4);
    run(&mut cpu, 1);
    assert_eq!(cpu.bus_port().read(0x0010), 0xfe);
    // LDX #$FF; INX; DEX; LDY #$00; DEY; INY
    let mut cpu = cpu_with(&[0xa2, 0xff, 0xe8, 0xca, 0xa0, 0x00, 0x88, 0xc8], &[]);
    run(&mut cpu, 2);
    assert_eq!(cpu.get_regs().X, 0x00);
    assert_eq!(flags(&cpu), 0x26);
    run(&mut cpu, 1);
    assert_eq!(cpu.get_regs().X, 0xff);
    assert_eq!(flags(&cpu), 0xa4);
    run(&mut cpu, 2);
    assert_eq!(cpu.get_regs().Y, 0xff);
    assert_eq!(flags(&cpu), 0xa4);
    run(&mut cpu, 1);
    assert_eq!(cpu.get_regs().Y, 0x00);
    assert_eq!(flags(&cpu), 0x26);
}

#[test]
fn taken_branch_adds_the_displacement_to_the_next_address() {
    // LDA #$01; BNE +2
    let mut cpu = cpu_with(&[0xa9, 0x01, 0xd0, 0x02], &[]);
    run(&mut cpu, 2);
    assert_eq!(cpu.get_regs().PC, 0x0206);
    // LDA #$01; BNE -4
    let mut cpu = cpu_with(&[0xa9, 0x01, 0xd0, 0xfc], &[]);
    run(&mut cpu, 2);
    assert_eq!(cpu.get_regs().PC, 0x0200);
    // LDA #$01; BNE -128
    let mut cpu = cpu_with(&[0xa9, 0x01, 0xd0, 0x80], &[]);
    run(&mut cpu, 2);
    assert_eq!(cpu.get_regs().PC, 0x0184);
    // LDA #$01; BNE +127
    let mut cpu = cpu_with(&[0xa9, 0x01, 0xd0, 0x7f], &[]);
    run(&mut cpu, 2);
    assert_eq!(cpu.get_regs().PC, 0x0283);
}

#[test]
fn branch_not_taken_only_steps_over_the_instruction() {
    // LDA #$01; BEQ +2
    let mut cpu = cpu_with(&[0xa9, 0x01, 0xf0, 0x02], &[]);
    let before = cpu.get_regs();
    run(&mut cpu, 2);
    assert_eq!(cpu.get_regs().PC, 0x0204);
    assert_eq!(cpu.get_regs().SP, before.SP);
    assert_eq!(flags(&cpu), 0x24);
}

#[test]
fn each_branch_tests_its_flag() {
    // (setup, branch opcode, taken)
    let cases: [(&[u8], u8, bool); 16] = [
        (&[0x18], 0x90, true),
        (&[0x38], 0x90, false),
        (&[0x38], 0xb0, true),
        (&[0x18], 0xb0, false),
        (&[0xa9, 0x00], 0xf0, true),
        (&[0xa9, 0x01], 0xf0, false),
        (&[0xa9, 0x01], 0xd0, true),
        (&[0xa9, 0x00], 0xd0, false),
        (&[0xa9, 0x80], 0x30, true),
        (&[0xa9, 0x01], 0x30, false),
        (&[0xa9, 0x01], 0x10, true),
        (&[0xa9, 0x80], 0x10, false),
        (&[0xb8], 0x50, true),
        (&[0xa9, 0x50, 0x69, 0x50], 0x50, false),
        (&[0xa9, 0x50, 0x69, 0x50], 0x70, true),
        (&[0xb8], 0x70, false),
    ];
    for (setup, opcode, taken) in cases {
        let mut program = setup.to_vec();
        let steps = if setup.len() == 4 { 2 } else { 1 };
        let at = 0x0200 + program.len() as u16;
        program.push(opcode);
        program.push(0x10);
        let mut cpu = cpu_with(&program, &[]);
        run(&mut cpu, steps + 1);
        let expected = if taken { at + 2 + 0x10 } else { at + 2 };
        assert_eq!(cpu.get_regs().PC, expected, "opcode {:#x}", opcode);
    }
}

#[test]
fn jmp_absolute() {
    let mut cpu = cpu_with(&[0x4c, 0x34, 0x12], &[]);
    let before = cpu.get_regs();
    run(&mut cpu, 1);
    assert_eq!(cpu.get_regs(), Regs { PC: 0x1234, ..before });
}

#[test]
fn rti_restores_flags_then_pc_without_adding_one() {
    // LDA #$12; PHA; LDA #$34; PHA; LDA #$FF; PHA; RTI
    let mut cpu = cpu_with(
        &[0xa9, 0x12, 0x48, 0xa9, 0x34, 0x48, 0xa9, 0xff, 0x48, 0x40],
        &[],
    );
    run(&mut cpu, 7);
    assert_eq!(cpu.get_regs().PC, 0x1234);
    assert_eq!(flags(&cpu), 0xef);
    assert_eq!(cpu.get_regs().SP, 0xfd);
}

#[test]
fn rts_adds_one_to_the_popped_address() {
    // LDA #$12; PHA; LDA #$33; PHA; RTS
    let mut cpu = cpu_with(&[0xa9, 0x12, 0x48, 0xa9, 0x33, 0x48, 0x60], &[]);
    run(&mut cpu, 5);
    assert_eq!(cpu.get_regs().PC, 0x1234);
    assert_eq!(cpu.get_regs().SP, 0xfd);
}

#[test]
fn brk_only_steps_over_its_two_bytes() {
    let mut cpu = cpu_with(&[0x00, 0x00], &[]);
    let before = cpu.get_regs();
    run(&mut cpu, 1);
    assert_eq!(cpu.get_regs(), Regs { PC: 0x0202, ..before });
}

#[test]
fn stack_push_and_pop() {
    // LDA #$42; PHA; LDA #$00; PLA
    let mut cpu = cpu_with(&[0xa9, 0x42, 0x48, 0xa9, 0x00, 0x68], &[]);
    run(&mut cpu, 2);
    assert_eq!(cpu.get_regs().SP, 0xfc);
    assert_eq!(cpu.bus_port().read(0x01fd), 0x42);
    run(&mut cpu, 1);
    assert_eq!(flags(&cpu), 0x26);
    run(&mut cpu, 1);
    assert_eq!(cpu.get_regs().A, 0x42);
    assert_eq!(cpu.get_regs().SP, 0xfd);
    assert_eq!(flags(&cpu), 0x24);
}

#[test]
fn stack_pointer_wraps_within_the_stack_page() {
    // LDX #$00; TXS; LDA #$7E; PHA; PLA
    let mut cpu = cpu_with(&[0xa2, 0x00, 0x9a, 0xa9, 0x7e, 0x48, 0x68], &[]);
    run(&mut cpu, 4);
    assert_eq!(cpu.get_regs().SP, 0xff);
    assert_eq!(cpu.bus_port().read(0x0100), 0x7e);
    run(&mut cpu, 1);
    assert_eq!(cpu.get_regs().SP, 0x00);
    assert_eq!(cpu.get_regs().A, 0x7e);
}

#[test]
fn push_stack_and_pop_stack() {
    let mut cpu = cpu_with(&[], &[]);
    cpu.push_stack(0xab);
    assert_eq!(cpu.get_regs().SP, 0xfc);
    assert_eq!(cpu.bus_port().read(0x01fd), 0xab);
    cpu.push_stack(0xcd);
    assert_eq!(cpu.pop_stack(), 0xcd);
    assert_eq!(cpu.pop_stack(), 0xab);
    assert_eq!(cpu.get_regs().SP, 0xfd);
}

#[test]
fn transfers() {
    // LDA #$80; TAX; TAY; LDA #$00; TXA; LDX #$10; TXS; TSX; TYA
    let mut cpu = cpu_with(
        &[0xa9, 0x80, 0xaa, 0xa8, 0xa9, 0x00, 0x8a, 0xa2, 0x10, 0x9a, 0xba, 0x98],
        &[],
    );
    run(&mut cpu, 3);
    assert_eq!(cpu.get_regs().X, 0x80);
    assert_eq!(cpu.get_regs().Y, 0x80);
    assert_eq!(flags(&cpu), 0xa4);
    run(&mut cpu, 2);
    assert_eq!(cpu.get_regs().A, 0x80);
    run(&mut cpu, 1);
    assert_eq!(flags(&cpu), 0x24);
    run(&mut cpu, 1);
    assert_eq!(cpu.get_regs().SP, 0x10);
    assert_eq!(flags(&cpu), 0x24);
    run(&mut cpu, 1);
    assert_eq!(cpu.get_regs().X, 0x10);
    run(&mut cpu, 1);
    assert_eq!(cpu.get_regs().A, 0x80);
    assert_eq!(flags(&cpu), 0xa4);
}

#[test]
fn flag_instructions() {
    // SEC; SED; SEI; CLC; CLD; CLI; CLV
    let mut cpu = cpu_with(&[0x38, 0xf8, 0x78, 0x18, 0xd8, 0x58, 0xb8], &[]);
    run(&mut cpu, 1);
    assert_eq!(flags(&cpu), 0x25);
    run(&mut cpu, 1);
    assert_eq!(flags(&cpu), 0x2d);
    run(&mut cpu, 1);
    assert_eq!(flags(&cpu), 0x2d);
    run(&mut cpu, 1);
    assert_eq!(flags(&cpu), 0x2c);
    run(&mut cpu, 1);
    assert_eq!(flags(&cpu), 0x24);
    run(&mut cpu, 1);
    assert_eq!(flags(&cpu), 0x20);
    run(&mut cpu, 1);
    assert_eq!(flags(&cpu), 0x20);
    assert_eq!(cpu.get_regs().PC, 0x0207);
}

#[test]
fn clv_clears_overflow() {
    // LDA #$50; ADC #$50; CLV
    let mut cpu = cpu_with(&[0xa9, 0x50, 0x69, 0x50, 0xb8], &[]);
    run(&mut cpu, 3);
    assert_eq!(flags(&cpu), 0xa4);
}

#[test]
fn loads_set_zero_and_negative() {
    // LDA #$00; LDX #$80; LDY #$7F; LDA $0310
    let mut cpu = cpu_with(
        &[0xa9, 0x00, 0xa2, 0x80, 0xa0, 0x7f, 0xad, 0x10, 0x03],
        &[(0x0310, 0x9c)],
    );
    run(&mut cpu, 1);
    assert_eq!(flags(&cpu), 0x26);
    run(&mut cpu, 1);
    assert_eq!(flags(&cpu), 0xa4);
    run(&mut cpu, 1);
    assert_eq!(flags(&cpu), 0x24);
    run(&mut cpu, 1);
    assert_eq!(
        cpu.get_regs(),
        Regs {
            A: 0x9c,
            X: 0x80,
            Y: 0x7f,
            SP: 0xfd,
            P: Flags { bits: 0xa4 },
            PC: 0x0209
        }
    );
}

#[test]
fn stores_write_without_touching_flags() {
    // LDA #$11; LDX #$22; LDY #$33; STA $0300; STX $10; STY $11,X
    let mut cpu = cpu_with(
        &[0xa9, 0x11, 0xa2, 0x22, 0xa0, 0x33, 0x8d, 0x00, 0x03, 0x86, 0x10, 0x94, 0x11],
        &[],
    );
    run(&mut cpu, 6);
    assert_eq!(cpu.bus_port().read(0x0300), 0x11);
    assert_eq!(cpu.bus_port().read(0x0010), 0x22);
    assert_eq!(cpu.bus_port().read(0x0033), 0x33);
    assert_eq!(flags(&cpu), 0x24);
    assert_eq!(cpu.get_regs().PC, 0x020d);
}

#[test]
fn stores_reach_program_ram_and_leave_rom_alone() {
    // LDA #$5A; STA $6000; STA $8000; STA $2002
    let mut cpu = cpu_with(
        &[0xa9, 0x5a, 0x8d, 0x00, 0x60, 0x8d, 0x00, 0x80, 0x8d, 0x02, 0x20],
        &[],
    );
    run(&mut cpu, 4);
    assert_eq!(cpu.bus_port().read(0x6000), 0x5a);
    assert_eq!(cpu.bus_port().read(0x8000), 0x00);
    assert_eq!(cpu.bus_port().read(0x2002), 0x5a);
}

#[test]
fn lax_loads_both_registers() {
    let mut cpu = cpu_with(&[0xa7, 0x10], &[(0x0010, 0x80)]);
    run(&mut cpu, 1);
    assert_eq!(cpu.get_regs().A, 0x80);
    assert_eq!(cpu.get_regs().X, 0x80);
    assert_eq!(flags(&cpu), 0xa4);
    assert_eq!(cpu.get_regs().PC, 0x0202);
}

#[test]
fn sax_stores_a_and_x() {
    // LDA #$F0; LDX #$3C; SAX $10
    let mut cpu = cpu_with(&[0xa9, 0xf0, 0xa2, 0x3c, 0x87, 0x10], &[]);
    run(&mut cpu, 2);
    let before = flags(&cpu);
    run(&mut cpu, 1);
    assert_eq!(cpu.bus_port().read(0x0010), 0x30);
    assert_eq!(flags(&cpu), before);
}

#[test]
fn dcp_decrements_then_compares() {
    // LDA #$0F; DCP $10
    let mut cpu = cpu_with(&[0xa9, 0x0f, 0xc7, 0x10], &[(0x0010, 0x10)]);
    run(&mut cpu, 2);
    assert_eq!(cpu.bus_port().read(0x0010), 0x0f);
    assert_eq!(cpu.get_regs().A, 0x0f);
    assert_eq!(flags(&cpu), 0x27);
}

#[test]
fn isc_increments_then_subtracts() {
    // SEC; LDA #$20; ISC $10
    let mut cpu = cpu_with(&[0x38, 0xa9, 0x20, 0xe7, 0x10], &[(0x0010, 0x0f)]);
    run(&mut cpu, 3);
    assert_eq!(cpu.bus_port().read(0x0010), 0x10);
    assert_eq!(cpu.get_regs().A, 0x10);
    assert_eq!(flags(&cpu), 0x25);
}

#[test]
fn isc_borrow_clears_carry() {
    // SEC; LDA #$10; ISC $10 with $10 = $1F
    let mut cpu = cpu_with(&[0x38, 0xa9, 0x10, 0xe7, 0x10], &[(0x0010, 0x1f)]);
    run(&mut cpu, 3);
    assert_eq!(cpu.bus_port().read(0x0010), 0x20);
    assert_eq!(cpu.get_regs().A, 0xf0);
    assert_eq!(flags(&cpu), 0xa4);
}

#[test]
fn slo_shifts_then_ors() {
    // LDA #$01; SLO $10
    let mut cpu = cpu_with(&[0xa9, 0x01, 0x07, 0x10], &[(0x0010, 0x81)]);
    run(&mut cpu, 2);
    assert_eq!(cpu.bus_port().read(0x0010), 0x02);
    assert_eq!(cpu.get_regs().A, 0x03);
    assert_eq!(flags(&cpu), 0x25);
}

#[test]
fn rla_rotates_then_ands() {
    // SEC; LDA #$FF; RLA $10
    let mut cpu = cpu_with(&[0x38, 0xa9, 0xff, 0x27, 0x10], &[(0x0010, 0x80)]);
    run(&mut cpu, 3);
    assert_eq!(cpu.bus_port().read(0x0010), 0x01);
    assert_eq!(cpu.get_regs().A, 0x01);
    assert_eq!(flags(&cpu), 0x25);
}

#[test]
fn sre_shifts_then_xors() {
    // LDA #$FF; SRE $10
    let mut cpu = cpu_with(&[0xa9, 0xff, 0x47, 0x10], &[(0x0010, 0x03)]);
    run(&mut cpu, 2);
    assert_eq!(cpu.bus_port().read(0x0010), 0x01);
    assert_eq!(cpu.get_regs().A, 0xfe);
    assert_eq!(flags(&cpu), 0xa5);
}

#[test]
fn rra_rotates_then_adds() {
    // SEC; LDA #$10; RRA $10
    let mut cpu = cpu_with(&[0x38, 0xa9, 0x10, 0x67, 0x10], &[(0x0010, 0x02)]);
    run(&mut cpu, 3);
    assert_eq!(cpu.bus_port().read(0x0010), 0x81);
    assert_eq!(cpu.get_regs().A, 0x91);
    assert_eq!(flags(&cpu), 0xa4);
}

#[test]
fn rra_adds_the_carry_that_the_rotate_shifted_out() {
    // CLC; LDA #$10; RRA $10 with $10 = $03
    let mut cpu = cpu_with(&[0x18, 0xa9, 0x10, 0x67, 0x10], &[(0x0010, 0x03)]);
    run(&mut cpu, 3);
    assert_eq!(cpu.bus_port().read(0x0010), 0x01);
    assert_eq!(cpu.get_regs().A, 0x12);
    assert_eq!(flags(&cpu), 0x24);
}

#[test]
fn combined_operation_on_rom_works_on_the_changed_value() {
    // LDA #$01; SLO $8000 with $8000 = $81: the ROM keeps its byte
    let rom = image(&[(0x0000, 0x81)]);
    let mut cpu = cpu_over(&rom, &[0xa9, 0x01, 0x0f, 0x00, 0x80], &[]);
    run(&mut cpu, 2);
    assert_eq!(cpu.bus_port().read(0x8000), 0x81);
    assert_eq!(cpu.get_regs().A, 0x03);
    assert_eq!(flags(&cpu), 0x25);
}

#[test]
fn no_ops_step_over_their_length() {
    let cases: [(u8, u16); 9] = [
        (0xea, 1),
        (0x1a, 1),
        (0x04, 2),
        (0x80, 2),
        (0x0c, 3),
        (0xfc, 3),
        (0x02, 1),
        (0x82, 2),
        (0x9c, 3),
    ];
    for (opcode, len) in cases {
        let mut cpu = cpu_with(&[opcode, 0xff, 0xff], &[]);
        let before = cpu.get_regs();
        run(&mut cpu, 1);
        assert_eq!(
            cpu.get_regs(),
            Regs { PC: 0x0200 + len, ..before },
            "opcode {:#x}",
            opcode
        );
    }
}

#[test]
fn get_next_inst_decodes_the_byte_at_pc() {
    let cpu = cpu_with(&[0x6c, 0x00, 0x00], &[]);
    assert_eq!(cpu.get_next_inst(), lookup(0x6c));
    assert_eq!(cpu.get_regs().PC, 0x0200);
    let cpu = cpu_with(&[0xa9], &[]);
    assert_eq!(
        cpu.get_next_inst(),
        Inst::new(AddressingType::Immediate, Opcode::LDA, 2, 2, false)
    );
}

#[test]
fn every_opcode_executes() {
    for opcode in 0..=255u8 {
        let inst = lookup(opcode);
        assert!(inst.is_executable(), "opcode {:#x}", opcode);
        let mut cpu = cpu_with(&[opcode, 0x10, 0x03], &[]);
        let before = cpu.get_regs();
        let decoded = cpu.get_next_inst();
        assert_eq!(decoded, inst);
        cpu.exec_once(&decoded);
        let after = cpu.get_regs();
        match inst.opcode {
            Opcode::JMP | Opcode::JSR | Opcode::RTS | Opcode::RTI => {}
            Opcode::BCC
            | Opcode::BCS
            | Opcode::BEQ
            | Opcode::BNE
            | Opcode::BMI
            | Opcode::BPL
            | Opcode::BVC
            | Opcode::BVS => {
                assert!(after.PC == before.PC + 2 || after.PC == before.PC + 2 + 0x10);
            }
            _ => assert_eq!(after.PC, before.PC + inst.inst_len as u16),
        }
    }
}

#[test]
fn executable_rejects_pairings_without_an_operand() {
    let store_immediate = Inst::new(AddressingType::Immediate, Opcode::STA, 2, 2, false);
    assert!(!store_immediate.is_executable());
    let load_indirect = Inst::new(AddressingType::Indirect, Opcode::LDA, 3, 2, false);
    assert!(!load_indirect.is_executable());
    let jump_zero_page = Inst::new(AddressingType::ZeroPage, Opcode::JMP, 2, 2, false);
    assert!(!jump_zero_page.is_executable());
    let shift_implied = Inst::new(AddressingType::Implied, Opcode::ASL, 1, 2, false);
    assert!(!shift_implied.is_executable());
    let shift_accumulator = Inst::new(AddressingType::Accumulator, Opcode::ASL, 1, 2, false);
    assert!(shift_accumulator.is_executable());
    let nop_anywhere = Inst::new(AddressingType::Indirect, Opcode::NOP, 3, 2, false);
    assert!(nop_anywhere.is_executable());
    assert!(AddressingType::Implied.is_readable());
    assert!(!AddressingType::Indirect.is_readable());
    assert!(AddressingType::AbsoluteY.is_writable());
    assert!(!AddressingType::Relative.is_writable());
}

#[test]
fn the_host_reaches_memory_between_instructions() {
    // LDA $2002
    let mut cpu = cpu_with(&[0xad, 0x02, 0x20], &[]);
    let before = cpu.get_regs();
    cpu.bus_port_mut().write(0x2002, 0x80);
    assert_eq!(cpu.get_regs(), before);
    run(&mut cpu, 1);
    assert_eq!(cpu.get_regs().A, 0x80);
    let (regs, bus) = cpu.into_bus();
    assert_eq!(regs.A, 0x80);
    assert_eq!(regs.PC, 0x0203);
    assert_eq!(bus.read(0x2002), 0x80);
}
