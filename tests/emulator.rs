use rusty_boy::cartridge::{Cartridge, CartridgeError};
use rusty_boy::cpu::{Cpu, CpuError};
use rusty_boy::display_manager::{DisplayColor, DisplayManager};
use rusty_boy::gameboy::Gameboy;
use rusty_boy::gamepad::Gamepad;
use rusty_boy::interrupt_handler::InterruptHandler;
use rusty_boy::memory_manager::MemoryManager;

fn rom_with(cartridge_type: u8, size: usize, bytes: &[(usize, u8)]) -> Vec<u8> {
    let mut rom = vec![0u8; size];
    rom[0x147] = cartridge_type;
    for &(address, byte) in bytes {
        rom[address] = byte;
    }
    rom
}

fn machine(bytes: &[(usize, u8)]) -> (Cpu, MemoryManager) {
    let cartridge = Cartridge::new(rom_with(0x00, 0x8000, bytes)).unwrap();
    (Cpu::new(), MemoryManager::new(cartridge))
}

fn zero(cpu: &Cpu) -> bool {
    cpu.reg_af.lo & 0x80 != 0
}

fn subtract(cpu: &Cpu) -> bool {
    cpu.reg_af.lo & 0x40 != 0
}

fn half_carry(cpu: &Cpu) -> bool {
    cpu.reg_af.lo & 0x20 != 0
}

fn carry(cpu: &Cpu) -> bool {
    cpu.reg_af.lo & 0x10 != 0
}

#[test]
fn memory_manager_clock_enabled() {
    let cartridge = Cartridge::new(rom_with(0x00, 0x8000, &[])).unwrap();
    let mut memory_manager = MemoryManager::new(cartridge);
    memory_manager.write_memory(0xFF07, 2);
    // TAC bit 1 selects the frequency; bit 2 is the enable.
    assert_eq!(memory_manager.clock_enabled(), false);
}

#[test]
fn clock_enabled_by_tac_bit_two() {
    let (_, mut bus) = machine(&[]);
    bus.write_memory(0xFF07, 0x04);
    assert!(bus.clock_enabled());
    assert_eq!(bus.get_frequency(), 0);
}

#[test]
fn timer_overflow_reloads_from_tma() {
    let (_, mut bus) = machine(&[]);
    bus.write_memory(0xFF07, 0x05);
    assert_eq!(bus.timer_counter, 16);
    bus.write_memory(0xFF05, 0xFF);
    bus.write_memory(0xFF06, 0x42);
    bus.update_timers(16);
    assert_eq!(bus.read_memory(0xFF05), 0x42);
    assert_eq!(bus.read_memory(0xFF0F) & 0x04, 0x04);
}

#[test]
fn timer_counts_without_overflow() {
    let (_, mut bus) = machine(&[]);
    bus.write_memory(0xFF07, 0x05);
    bus.write_memory(0xFF05, 0x10);
    bus.update_timers(40);
    assert_eq!(bus.read_memory(0xFF05), 0x12);
    assert_eq!(bus.timer_counter, 8);
    assert_eq!(bus.read_memory(0xFF0F) & 0x04, 0);
}

#[test]
fn timer_disabled_leaves_tima() {
    let (_, mut bus) = machine(&[]);
    bus.write_memory(0xFF07, 0x01);
    bus.write_memory(0xFF05, 0x10);
    bus.update_timers(100);
    assert_eq!(bus.read_memory(0xFF05), 0x10);
}

#[test]
fn divider_counts_every_256_cycles() {
    let (_, mut bus) = machine(&[]);
    bus.update_timers(255);
    assert_eq!(bus.read_memory(0xFF04), 0);
    bus.update_timers(1);
    assert_eq!(bus.read_memory(0xFF04), 1);
    bus.update_timers(512);
    assert_eq!(bus.read_memory(0xFF04), 3);
    bus.write_memory(0xFF04, 0x77);
    assert_eq!(bus.read_memory(0xFF04), 0);
    assert_eq!(bus.div_counter, 0);
}

#[test]
fn palette_e4_maps_indices_in_order() {
    let (_, mut bus) = machine(&[]);
    bus.write_memory(0xFF47, 0xE4);
    let display = DisplayManager::new();
    assert_eq!(display.get_color(&bus, 0, 0xFF47), DisplayColor::White);
    assert_eq!(display.get_color(&bus, 1, 0xFF47), DisplayColor::LightGray);
    assert_eq!(display.get_color(&bus, 2, 0xFF47), DisplayColor::DarkGray);
    assert_eq!(display.get_color(&bus, 3, 0xFF47), DisplayColor::Black);
}

#[test]
fn palette_fc_maps_index_zero_to_white() {
    let (_, bus) = machine(&[]);
    let display = DisplayManager::new();
    assert_eq!(display.get_color(&bus, 0, 0xFF47), DisplayColor::White);
    assert_eq!(display.get_color(&bus, 1, 0xFF47), DisplayColor::Black);
}

#[test]
fn ld_a_immediate_then_ld_b_a() {
    let (mut cpu, mut bus) = machine(&[(0x100, 0x3E), (0x101, 0x55), (0x102, 0x47)]);
    let first = cpu.interpret_opcode(&mut bus).unwrap();
    let second = cpu.interpret_opcode(&mut bus).unwrap();
    assert_eq!(cpu.reg_pc, 0x0103);
    assert_eq!(cpu.reg_af.hi, 0x55);
    assert_eq!(cpu.reg_bc.hi, 0x55);
    assert_eq!(first + second, 12);
}

#[test]
fn add_with_half_carry() {
    let (mut cpu, mut bus) = machine(&[(0x100, 0x80)]);
    cpu.reg_af.hi = 0x3A;
    cpu.reg_bc.hi = 0xC6;
    let cycles = cpu.interpret_opcode(&mut bus).unwrap();
    assert_eq!(cpu.reg_af.hi, 0x00);
    assert!(zero(&cpu));
    assert!(!subtract(&cpu));
    assert!(half_carry(&cpu));
    assert!(carry(&cpu));
    assert_eq!(cycles, 4);
}

#[test]
fn adc_across_carry() {
    let (mut cpu, mut bus) = machine(&[(0x100, 0x88)]);
    cpu.reg_af.hi = 0xFF;
    cpu.reg_bc.hi = 0x00;
    cpu.reg_af.lo = 0x10;
    cpu.interpret_opcode(&mut bus).unwrap();
    assert_eq!(cpu.reg_af.hi, 0x00);
    assert!(zero(&cpu));
    assert!(!subtract(&cpu));
    assert!(half_carry(&cpu));
    assert!(carry(&cpu));
}

#[test]
fn jr_nz_not_taken_and_taken() {
    let (mut cpu, mut bus) = machine(&[(0x200, 0x20), (0x201, 0x05)]);
    cpu.reg_pc = 0x0200;
    cpu.reg_af.lo = 0x80;
    let cycles = cpu.interpret_opcode(&mut bus).unwrap();
    assert_eq!(cpu.reg_pc, 0x0202);
    assert_eq!(cycles, 8);
    cpu.reg_pc = 0x0200;
    cpu.reg_af.lo = 0x00;
    let cycles = cpu.interpret_opcode(&mut bus).unwrap();
    assert_eq!(cpu.reg_pc, 0x0207);
    assert_eq!(cycles, 12);
}

#[test]
fn jr_backwards_offset() {
    let (mut cpu, mut bus) = machine(&[(0x300, 0x18), (0x301, 0xFE)]);
    cpu.reg_pc = 0x0300;
    let cycles = cpu.interpret_opcode(&mut bus).unwrap();
    assert_eq!(cpu.reg_pc, 0x0300);
    assert_eq!(cycles, 12);
}

#[test]
fn call_then_ret_round_trip() {
    let (mut cpu, mut bus) =
        machine(&[(0x100, 0xCD), (0x101, 0x34), (0x102, 0x12), (0x1234, 0xC9)]);
    assert_eq!(cpu.reg_sp.get_pair(), 0xFFFE);
    let call = cpu.interpret_opcode(&mut bus).unwrap();
    assert_eq!(cpu.reg_pc, 0x1234);
    assert_eq!(cpu.reg_sp.get_pair(), 0xFFFC);
    assert_eq!(bus.read_memory(0xFFFD), 0x01);
    assert_eq!(bus.read_memory(0xFFFC), 0x03);
    let ret = cpu.interpret_opcode(&mut bus).unwrap();
    assert_eq!(cpu.reg_sp.get_pair(), 0xFFFE);
    assert_eq!(cpu.reg_pc, 0x0103);
    assert_eq!(call + ret, 24 + 16);
}

#[test]
fn conditional_jp_and_call_costs() {
    let (mut cpu, mut bus) = machine(&[(0x100, 0xCA), (0x101, 0x00), (0x102, 0x20), (0x103, 0xC4), (0x104, 0x00), (0x105, 0x30)]);
    cpu.reg_af.lo = 0x00;
    assert_eq!(cpu.interpret_opcode(&mut bus).unwrap(), 12);
    assert_eq!(cpu.reg_pc, 0x0103);
    assert_eq!(cpu.interpret_opcode(&mut bus).unwrap(), 24);
    assert_eq!(cpu.reg_pc, 0x3000);
    assert_eq!(cpu.reg_sp.get_pair(), 0xFFFC);
}

#[test]
fn push_then_pop_restores_value() {
    let (mut cpu, mut bus) = machine(&[]);
    cpu.reg_sp.set_pair(0xD000);
    cpu.stack_push(&mut bus, 0xBEEF);
    assert_eq!(cpu.reg_sp.get_pair(), 0xCFFE);
    let v = cpu.stack_pop(&bus);
    assert_eq!(v, 0xBEEF);
    assert_eq!(cpu.reg_sp.get_pair(), 0xD000);
}

#[test]
fn pop_af_clears_low_nibble() {
    let (mut cpu, mut bus) = machine(&[(0x100, 0xC5), (0x101, 0xF1)]);
    cpu.reg_bc.set_pair(0x12FF);
    cpu.interpret_opcode(&mut bus).unwrap();
    cpu.interpret_opcode(&mut bus).unwrap();
    assert_eq!(cpu.reg_af.get_pair(), 0x12F0);
}

#[test]
fn mbc1_bank_switch_with_auto_correction() {
    let mut rom = rom_with(0x01, 0x20000, &[]);
    for bank in 0..8 {
        rom[bank * 0x4000] = 0xA0 + bank as u8;
    }
    let expected_five = rom[5 * 0x4000];
    let expected_one = rom[1 * 0x4000];
    let mut bus = MemoryManager::new(Cartridge::new(rom).unwrap());
    bus.write_memory(0x2000, 0x05);
    assert_eq!(bus.read_memory(0x4000), expected_five);
    bus.write_memory(0x2000, 0x00);
    assert_eq!(bus.read_memory(0x4000), expected_one);
}

#[test]
fn mbc1_bank_wraps_modulo_bank_count() {
    let mut rom = rom_with(0x01, 0x20000, &[]);
    for bank in 0..8 {
        rom[bank * 0x4000] = 0xA0 + bank as u8;
    }
    let mut bus = MemoryManager::new(Cartridge::new(rom).unwrap());
    bus.write_memory(0x2000, 0x0B);
    assert_eq!(bus.read_memory(0x4000), 0xA3);
    assert_eq!(bus.read_memory(0x0000), 0xA0);
}

#[test]
fn mbc1_ram_bank_and_enable() {
    let mut bus = MemoryManager::new(Cartridge::new(rom_with(0x03, 0x8000, &[])).unwrap());
    bus.write_memory(0xA000, 0x11);
    assert_eq!(bus.read_memory(0xA000), 0x00);
    bus.write_memory(0x0000, 0x0A);
    bus.write_memory(0xA000, 0x11);
    assert_eq!(bus.read_memory(0xA000), 0x11);
    bus.write_memory(0x6000, 0x01);
    bus.write_memory(0x4000, 0x02);
    assert_eq!(bus.cartridge.get_current_ram_bank(), 2);
    assert_eq!(bus.read_memory(0xA000), 0x00);
    bus.write_memory(0x6000, 0x00);
    assert_eq!(bus.cartridge.get_current_ram_bank(), 0);
    assert_eq!(bus.read_memory(0xA000), 0x11);
    bus.write_memory(0x0000, 0x00);
    bus.write_memory(0xA000, 0x22);
    assert_eq!(bus.read_memory(0xA000), 0x11);
}

#[test]
fn echo_ram_mirrors_both_ways() {
    let (_, mut bus) = machine(&[]);
    bus.write_memory(0xC123, 0x5A);
    assert_eq!(bus.read_memory(0xE123), 0x5A);
    bus.write_memory(0xE456, 0xA5);
    assert_eq!(bus.read_memory(0xC456), 0xA5);
}

#[test]
fn unusable_memory_discards_writes_and_ly_resets() {
    let (_, mut bus) = machine(&[]);
    bus.write_memory(0xFEA5, 0x33);
    assert_eq!(bus.read_memory(0xFEA5), 0x00);
    bus.memory[0xFF44] = 0x40;
    bus.write_memory(0xFF44, 0x12);
    assert_eq!(bus.read_memory(0xFF44), 0x00);
}

#[test]
fn dma_copies_160_bytes_to_oam() {
    let (_, mut bus) = machine(&[]);
    for i in 0..0xA0u16 {
        bus.write_memory(0xC000 + i, i as u8 ^ 0x5A);
    }
    bus.write_memory(0xFF46, 0xC0);
    for i in 0..0xA0u16 {
        assert_eq!(bus.read_memory(0xFE00 + i), i as u8 ^ 0x5A);
    }
}

#[test]
fn joypad_reads_selected_group() {
    let (_, mut bus) = machine(&[]);
    let mut pad = Gamepad::new();
    bus.write_memory(0xFF00, 0x20);
    pad.key_pressed(&mut bus, 2);
    assert_eq!(bus.read_memory(0xFF00) & 0x0F, 0x0B);
    assert_eq!(bus.read_memory(0xFF00) & 0x30, 0x20);
    assert_eq!(bus.read_memory(0xFF0F) & 0x10, 0x10);
    bus.write_memory(0xFF00, 0x10);
    pad.key_pressed(&mut bus, 7);
    assert_eq!(bus.read_memory(0xFF00) & 0x0F, 0x07);
    pad.key_released(&mut bus, 7);
    assert_eq!(bus.read_memory(0xFF00) & 0x0F, 0x0F);
    assert_eq!(bus.gamepad_state, 0xFB);
}

#[test]
fn joypad_press_of_unselected_group_requests_nothing() {
    let (_, mut bus) = machine(&[]);
    let mut pad = Gamepad::new();
    bus.write_memory(0xFF00, 0x10);
    pad.key_pressed(&mut bus, 1);
    assert_eq!(bus.read_memory(0xFF0F) & 0x10, 0);
    assert_eq!(bus.gamepad_state, 0xFD);
}

#[test]
fn interrupt_service_pushes_pc_and_jumps() {
    let (mut cpu, mut bus) = machine(&[]);
    let mut handler = InterruptHandler::new();
    cpu.reg_pc = 0x1234;
    cpu.interrupts_enabled = true;
    bus.write_memory(0xFFFF, 0x05);
    handler.request_interrupt(&mut bus, 2);
    handler.request_interrupt(&mut bus, 0);
    handler.check_interrupts(&mut cpu, &mut bus);
    assert_eq!(cpu.reg_pc, 0x0040);
    assert!(!cpu.interrupts_enabled);
    assert_eq!(bus.read_memory(0xFF0F), 0x04);
    assert_eq!(cpu.reg_sp.get_pair(), 0xFFFC);
    assert_eq!(cpu.stack_pop(&bus), 0x1234);
}

#[test]
fn halt_resumes_on_pending_interrupt_without_ime() {
    let (mut cpu, mut bus) = machine(&[(0x100, 0x76), (0x101, 0x00)]);
    let mut handler = InterruptHandler::new();
    assert_eq!(cpu.interpret_opcode(&mut bus).unwrap(), 4);
    assert!(cpu.halted);
    assert_eq!(cpu.interpret_opcode(&mut bus).unwrap(), 4);
    assert_eq!(cpu.reg_pc, 0x0101);
    bus.write_memory(0xFFFF, 0x04);
    handler.request_interrupt(&mut bus, 2);
    handler.check_interrupts(&mut cpu, &mut bus);
    assert!(!cpu.halted);
    assert_eq!(cpu.reg_pc, 0x0101);
}

#[test]
fn illegal_opcode_is_an_error() {
    let (mut cpu, mut bus) = machine(&[(0x100, 0xD3)]);
    assert_eq!(cpu.interpret_opcode(&mut bus), Err(CpuError::IllegalOpcode(0xD3)));
}

#[test]
fn cartridge_rejects_bad_sizes_and_types() {
    assert_eq!(Cartridge::new(vec![0u8; 0x7000]).err(), Some(CartridgeError::InvalidSize(0x7000)));
    assert_eq!(Cartridge::new(vec![0u8; 0x400000]).err(), Some(CartridgeError::InvalidSize(0x400000)));
    assert_eq!(Cartridge::new(vec![]).err(), Some(CartridgeError::InvalidSize(0)));
    assert_eq!(
        Cartridge::new(rom_with(0x04, 0x8000, &[])).err(),
        Some(CartridgeError::UnsupportedType(0x04))
    );
    assert!(Cartridge::new(rom_with(0x13, 0x8000, &[])).is_ok());
    assert!(Gameboy::new(rom_with(0x20, 0x8000, &[])).is_err());
}

#[test]
fn sub_sets_borrow_flags() {
    let (mut cpu, mut bus) = machine(&[(0x100, 0xD6), (0x101, 0x01)]);
    cpu.reg_af.hi = 0x10;
    assert_eq!(cpu.interpret_opcode(&mut bus).unwrap(), 8);
    assert_eq!(cpu.reg_af.hi, 0x0F);
    assert!(!zero(&cpu) && subtract(&cpu) && half_carry(&cpu) && !carry(&cpu));
    assert_eq!(cpu.reg_pc, 0x0102);
}

#[test]
fn cp_keeps_a_and_sets_zero() {
    let (mut cpu, mut bus) = machine(&[(0x100, 0xFE), (0x101, 0x42)]);
    cpu.reg_af.hi = 0x42;
    cpu.interpret_opcode(&mut bus).unwrap();
    assert_eq!(cpu.reg_af.hi, 0x42);
    assert!(zero(&cpu) && subtract(&cpu) && !half_carry(&cpu) && !carry(&cpu));
}

#[test]
fn and_or_xor_flags() {
    let (mut cpu, mut bus) = machine(&[(0x100, 0xA0), (0x101, 0xB0), (0x102, 0xA8)]);
    cpu.reg_af.hi = 0xF0;
    cpu.reg_bc.hi = 0x0F;
    cpu.interpret_opcode(&mut bus).unwrap();
    assert_eq!(cpu.reg_af.hi, 0x00);
    assert!(zero(&cpu) && !subtract(&cpu) && half_carry(&cpu) && !carry(&cpu));
    cpu.interpret_opcode(&mut bus).unwrap();
    assert_eq!(cpu.reg_af.hi, 0x0F);
    assert!(!zero(&cpu) && !half_carry(&cpu));
    cpu.interpret_opcode(&mut bus).unwrap();
    assert_eq!(cpu.reg_af.hi, 0x00);
    assert!(zero(&cpu));
}

#[test]
fn inc_dec_keep_carry() {
    let (mut cpu, mut bus) = machine(&[(0x100, 0x04), (0x101, 0x05)]);
    cpu.reg_bc.hi = 0x0F;
    cpu.reg_af.lo = 0x10;
    cpu.interpret_opcode(&mut bus).unwrap();
    assert_eq!(cpu.reg_bc.hi, 0x10);
    assert!(half_carry(&cpu) && carry(&cpu) && !subtract(&cpu));
    cpu.interpret_opcode(&mut bus).unwrap();
    assert_eq!(cpu.reg_bc.hi, 0x0F);
    assert!(half_carry(&cpu) && carry(&cpu) && subtract(&cpu));
}

#[test]
fn add_hl_flags() {
    let (mut cpu, mut bus) = machine(&[(0x100, 0x09)]);
    cpu.reg_hl.set_pair(0x8FFF);
    cpu.reg_bc.set_pair(0x8001);
    cpu.reg_af.lo = 0x80;
    assert_eq!(cpu.interpret_opcode(&mut bus).unwrap(), 8);
    assert_eq!(cpu.reg_hl.get_pair(), 0x1000);
    assert!(zero(&cpu) && half_carry(&cpu) && carry(&cpu) && !subtract(&cpu));
}

#[test]
fn add_sp_signed_offset() {
    let (mut cpu, mut bus) = machine(&[(0x100, 0xE8), (0x101, 0xFF), (0x102, 0xF8), (0x103, 0x02)]);
    cpu.reg_sp.set_pair(0x0001);
    assert_eq!(cpu.interpret_opcode(&mut bus).unwrap(), 16);
    assert_eq!(cpu.reg_sp.get_pair(), 0x0000);
    assert!(!zero(&cpu) && half_carry(&cpu) && carry(&cpu));
    assert_eq!(cpu.interpret_opcode(&mut bus).unwrap(), 12);
    assert_eq!(cpu.reg_hl.get_pair(), 0x0002);
}

#[test]
fn daa_after_addition() {
    let (mut cpu, mut bus) = machine(&[(0x100, 0x80), (0x101, 0x27)]);
    cpu.reg_af.hi = 0x15;
    cpu.reg_bc.hi = 0x27;
    cpu.interpret_opcode(&mut bus).unwrap();
    cpu.interpret_opcode(&mut bus).unwrap();
    assert_eq!(cpu.reg_af.hi, 0x42);
    assert!(!carry(&cpu));
}

#[test]
fn daa_after_subtraction() {
    let (mut cpu, mut bus) = machine(&[(0x100, 0x90), (0x101, 0x27)]);
    cpu.reg_af.hi = 0x10;
    cpu.reg_bc.hi = 0x01;
    cpu.interpret_opcode(&mut bus).unwrap();
    cpu.interpret_opcode(&mut bus).unwrap();
    assert_eq!(cpu.reg_af.hi, 0x09);
    assert!(subtract(&cpu));
}

#[test]
fn rotates_and_swap() {
    let (mut cpu, mut bus) = machine(&[(0x100, 0x07), (0x101, 0xCB), (0x102, 0x37), (0x103, 0xCB), (0x104, 0x3F)]);
    cpu.reg_af.hi = 0x80;
    cpu.interpret_opcode(&mut bus).unwrap();
    assert_eq!(cpu.reg_af.hi, 0x01);
    assert!(carry(&cpu) && !zero(&cpu));
    assert_eq!(cpu.interpret_opcode(&mut bus).unwrap(), 8);
    assert_eq!(cpu.reg_af.hi, 0x10);
    assert!(!carry(&cpu));
    cpu.interpret_opcode(&mut bus).unwrap();
    assert_eq!(cpu.reg_af.hi, 0x08);
}

#[test]
fn sra_keeps_bit_seven() {
    let (mut cpu, _) = machine(&[]);
    assert_eq!(cpu.sra_u8(0x81), 0xC0);
    assert!(carry(&cpu));
    assert_eq!(cpu.srl_u8(0x81), 0x40);
    assert_eq!(cpu.sla_u8(0x81), 0x02);
    assert!(carry(&cpu));
}

#[test]
fn bit_res_set_on_memory() {
    let (mut cpu, mut bus) = machine(&[(0x100, 0xCB), (0x101, 0x46), (0x102, 0xCB), (0x103, 0xC6), (0x104, 0xCB), (0x105, 0x46), (0x106, 0xCB), (0x107, 0x86)]);
    cpu.reg_hl.set_pair(0xC000);
    assert_eq!(cpu.interpret_opcode(&mut bus).unwrap(), 12);
    assert!(zero(&cpu) && half_carry(&cpu));
    assert_eq!(cpu.interpret_opcode(&mut bus).unwrap(), 16);
    assert_eq!(bus.read_memory(0xC000), 0x01);
    cpu.interpret_opcode(&mut bus).unwrap();
    assert!(!zero(&cpu));
    cpu.interpret_opcode(&mut bus).unwrap();
    assert_eq!(bus.read_memory(0xC000), 0x00);
}

#[test]
fn ld_bc_immediate_advances_three() {
    let (mut cpu, mut bus) = machine(&[(0x100, 0x01), (0x101, 0x34), (0x102, 0x12)]);
    assert_eq!(cpu.interpret_opcode(&mut bus).unwrap(), 12);
    assert_eq!(cpu.reg_pc, 0x0103);
    assert_eq!(cpu.reg_bc.get_pair(), 0x1234);
}

#[test]
fn stop_consumes_two_bytes() {
    let (mut cpu, mut bus) = machine(&[(0x100, 0x10)]);
    assert_eq!(cpu.interpret_opcode(&mut bus).unwrap(), 4);
    assert_eq!(cpu.reg_pc, 0x0102);
}

#[test]
fn frame_walks_every_line_once() {
    let mut gameboy = Gameboy::new(rom_with(0x00, 0x8000, &[])).unwrap();
    let mut lines = vec![0u32; 154];
    let mut last = gameboy.memory_manager.read_memory(0xFF44);
    lines[last as usize] += 1;
    let mut total = 0;
    let mut vblank_seen = false;
    while total < 70224 {
        total += gameboy.run_instruction().unwrap();
        let ly = gameboy.memory_manager.read_memory(0xFF44);
        if ly != last {
            lines[ly as usize] += 1;
            if ly == 144 {
                vblank_seen = gameboy.memory_manager.read_memory(0xFF0F) & 1 == 1;
            }
            last = ly;
        }
    }
    assert_eq!(total, 70224);
    assert!(vblank_seen);
    assert!(lines[1..].iter().all(|&n| n == 1));
    assert_eq!(lines[0], 2);
}

#[test]
fn frame_step_runs_a_frame() {
    let mut gameboy = Gameboy::new(rom_with(0x00, 0x8000, &[])).unwrap();
    let cycles = gameboy.step().unwrap();
    assert!(cycles >= 70224 && cycles < 70224 + 24);
}

#[test]
fn background_line_uses_palette() {
    let (_, mut bus) = machine(&[]);
    let mut display = DisplayManager::new();
    bus.write_memory(0xFF40, 0x91);
    bus.write_memory(0xFF47, 0xE4);
    bus.write_memory(0x8010, 0xFF);
    bus.write_memory(0x8011, 0x00);
    bus.write_memory(0x9800, 0x01);
    display.draw_scanline(&bus);
    assert_eq!(display.display[0], 0xCC);
    assert_eq!(display.display[7 * 3], 0xCC);
    assert_eq!(display.display[8 * 3], 0xFF);
    assert_eq!(display.line_color_ids[0], 1);
}

#[test]
fn sprite_drawn_over_background() {
    let (_, mut bus) = machine(&[]);
    let mut display = DisplayManager::new();
    bus.write_memory(0xFF40, 0x93);
    bus.write_memory(0xFF47, 0xE4);
    bus.write_memory(0xFF48, 0xE4);
    bus.write_memory(0x8020, 0x80);
    bus.write_memory(0x8021, 0x80);
    bus.write_memory(0xFE00, 16);
    bus.write_memory(0xFE01, 8 + 10);
    bus.write_memory(0xFE02, 2);
    bus.write_memory(0xFE03, 0);
    display.draw_scanline(&bus);
    assert_eq!(display.display[10 * 3], 0x00);
    assert_eq!(display.display[11 * 3], 0xFF);
}

#[test]
fn stat_mode_follows_line_budget() {
    let (_, mut bus) = machine(&[]);
    let mut display = DisplayManager::new();
    display.update_display(&mut bus, 4);
    assert_eq!(bus.read_memory(0xFF41) & 0x03, 2);
    display.remaining_cycles = 300;
    display.update_display(&mut bus, 4);
    assert_eq!(bus.read_memory(0xFF41) & 0x03, 3);
    display.remaining_cycles = 100;
    display.update_display(&mut bus, 4);
    assert_eq!(bus.read_memory(0xFF41) & 0x03, 0);
    bus.write_memory(0xFF40, 0x11);
    display.update_display(&mut bus, 4);
    assert_eq!(bus.read_memory(0xFF41) & 0x03, 1);
    assert_eq!(display.remaining_cycles, 456);
}

#[test]
fn register_pair_round_trip() {
    let mut pair = rusty_boy::register_pair::RegisterPair::new(0xABCD);
    assert_eq!(pair.hi, 0xAB);
    assert_eq!(pair.lo, 0xCD);
    rusty_boy::instructions::inc_reg_pair(&mut pair);
    assert_eq!(pair.get_pair(), 0xABCE);
    let mut wrap = rusty_boy::register_pair::RegisterPair::new(0x0000);
    rusty_boy::instructions::dec_reg_pair(&mut wrap);
    assert_eq!(wrap.get_pair(), 0xFFFF);
    assert!(rusty_boy::instructions::test_bit(0x80, 7));
    assert!(!rusty_boy::instructions::test_bit(0x80, 6));
}

#[test]
fn core_update_runs_a_frame() {
    let mut core = rusty_boy::gameboy::Core::new(rom_with(0x00, 0x8000, &[])).unwrap();
    let cycles = core.update().unwrap();
    assert!(cycles >= 70224);
    assert!(rusty_boy::gameboy::Core::new(vec![0u8; 100]).is_err());
}

#[test]
fn register_holds_value() {
    let mut register = rusty_boy::register::Register::new(0x12);
    assert_eq!(register.get_val(), 0x12);
    register.set_val(0x34);
    assert_eq!(register.get_val(), 0x34);
}

#[test]
fn flag_register_masks_low_nibble() {
    let mut cpu = Cpu::new();
    cpu.set_reg_f(0xFF);
    assert_eq!(cpu.reg_af.lo, 0xF0);
    cpu.set_reg_af(0x1234);
    assert_eq!(cpu.reg_af.get_pair(), 0x1230);
    cpu.update_zero_flag(false);
    assert_eq!(cpu.reg_af.lo, 0x30);
    cpu.update_carry_flag(false);
    assert_eq!(cpu.reg_af.lo, 0x20);
}

#[test]
fn mbc2_ram_enable_needs_address_bit_eight_clear() {
    let mut bus = MemoryManager::new(Cartridge::new(rom_with(0x05, 0x8000, &[])).unwrap());
    bus.write_memory(0x0100, 0x0A);
    assert!(!bus.cartridge.ram_write_enabled);
    bus.write_memory(0x0000, 0x0A);
    assert!(bus.cartridge.ram_write_enabled);
    bus.write_memory(0x2000, 0x13);
    assert_eq!(bus.cartridge.get_current_rom_bank(), 0x03);
}

#[test]
fn mbc3_rom_bank_uses_seven_bits() {
    let mut bus = MemoryManager::new(Cartridge::new(rom_with(0x11, 0x8000, &[])).unwrap());
    bus.write_memory(0x2000, 0xFF);
    assert_eq!(bus.cartridge.get_current_rom_bank(), 0x7F);
    bus.write_memory(0x4000, 0x02);
    assert_eq!(bus.cartridge.get_current_ram_bank(), 0x02);
    bus.write_memory(0x4000, 0x08);
    assert_eq!(bus.cartridge.get_current_ram_bank(), 0x02);
}

#[test]
fn ei_and_di_switch_master_enable() {
    let (mut cpu, mut bus) = machine(&[(0x100, 0xFB), (0x101, 0xF3)]);
    cpu.interpret_opcode(&mut bus).unwrap();
    assert!(cpu.interrupts_enabled);
    cpu.interpret_opcode(&mut bus).unwrap();
    assert!(!cpu.interrupts_enabled);
}

#[test]
fn reti_pops_and_enables_interrupts() {
    let (mut cpu, mut bus) = machine(&[(0x100, 0xD9)]);
    cpu.stack_push(&mut bus, 0x4321);
    cpu.interpret_opcode(&mut bus).unwrap();
    assert_eq!(cpu.reg_pc, 0x4321);
    assert!(cpu.interrupts_enabled);
    assert_eq!(cpu.reg_sp.get_pair(), 0xFFFE);
}

#[test]
fn rst_jumps_to_fixed_vector() {
    let (mut cpu, mut bus) = machine(&[(0x100, 0xEF)]);
    assert_eq!(cpu.interpret_opcode(&mut bus).unwrap(), 16);
    assert_eq!(cpu.reg_pc, 0x0028);
    assert_eq!(cpu.stack_pop(&bus), 0x0101);
}

#[test]
fn joypad_press_of_held_key_requests_again() {
    let (_, mut bus) = machine(&[]);
    let mut pad = Gamepad::new();
    bus.write_memory(0xFF00, 0x20);
    pad.key_pressed(&mut bus, 0);
    bus.write_memory(0xFF0F, 0x00);
    pad.key_pressed(&mut bus, 0);
    assert_eq!(bus.read_memory(0xFF0F) & 0x10, 0x10);
    assert_eq!(bus.gamepad_state, 0xFE);
}

#[test]
fn no_controller_keeps_rom_bank() {
    let (_, mut bus) = machine(&[]);
    bus.cartridge.change_lo_rom_bank(0x05);
    assert_eq!(bus.cartridge.get_current_rom_bank(), 1);
    bus.write_memory(0x2000, 0x05);
    assert_eq!(bus.cartridge.get_current_rom_bank(), 1);
}

#[test]
fn power_on_registers() {
    let gameboy = Gameboy::new(rom_with(0x00, 0x8000, &[])).unwrap();
    assert_eq!(gameboy.cpu.reg_af.get_pair(), 0x01B0);
    assert_eq!(gameboy.cpu.reg_bc.get_pair(), 0x0013);
    assert_eq!(gameboy.cpu.reg_de.get_pair(), 0x00D8);
    assert_eq!(gameboy.cpu.reg_hl.get_pair(), 0x014D);
    assert_eq!(gameboy.cpu.reg_sp.get_pair(), 0xFFFE);
    assert_eq!(gameboy.memory_manager.read_memory(0xFF40), 0x91);
    assert_eq!(gameboy.memory_manager.read_memory(0xFF47), 0xFC);
    assert_eq!(gameboy.display_manager.remaining_cycles, 456);
}
