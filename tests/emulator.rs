use gameboy::cpu::Cpu;
use gameboy::emulator::Emulator;
use gameboy::joypad::{joypad_state, Inputs};
use gameboy::ppu::Color;

fn rom_with_program(kind: u8, program: &[u8]) -> Vec<u8> {
    let mut data = vec![0u8; 0x8000];
    data[0x147] = kind;
    data[0x100..0x100 + program.len()].copy_from_slice(program);
    data
}

fn emulator(program: &[u8]) -> Emulator {
    Emulator::from_file(rom_with_program(0, program)).unwrap()
}

#[test]
fn timer_overflow_raises_interrupt_and_dispatches() {
    let mut emu = emulator(&[]);
    emu.write_memory(0xFF06, 0xAB);
    emu.write_memory(0xFF05, 0xFF);
    emu.write_memory(0xFF07, 0x05);
    emu.write_memory(0xFFFF, 0x04);
    emu.write_memory(0xFF0F, 0x00);
    emu.cpu.ime = true;
    emu.update_timers(16);
    assert_eq!(emu.read_memory(0xFF05), 0xAB);
    assert_eq!(emu.read_memory(0xFF0F) & 0x04, 0x04);
    let sp = emu.cpu.sp;
    let cycles = emu.step();
    assert_eq!(cycles, 20);
    assert_eq!(emu.cpu.pc, 0x50);
    assert_eq!(emu.cpu.sp, sp - 2);
    assert_eq!(emu.read_memory(emu.cpu.sp as usize), 0x00);
    assert_eq!(emu.read_memory(emu.cpu.sp as usize + 1), 0x01);
    assert_eq!(emu.read_memory(0xFF0F) & 0x04, 0);
    assert!(!emu.cpu.ime);
}

#[test]
fn timer_counts_at_selected_rate() {
    let mut emu = emulator(&[]);
    emu.write_memory(0xFF05, 0x00);
    emu.write_memory(0xFF07, 0x06);
    emu.update_timers(64 * 3);
    assert_eq!(emu.read_memory(0xFF05), 3);
    emu.write_memory(0xFF07, 0x02);
    emu.update_timers(1000);
    assert_eq!(emu.read_memory(0xFF05), 3);
}

#[test]
fn divider_counts_every_256_t_states() {
    let mut emu = emulator(&[]);
    emu.update_timers(256 * 5 + 10);
    assert_eq!(emu.read_memory(0xFF04), 5);
    emu.write_memory(0xFF04, 0x33);
    assert_eq!(emu.read_memory(0xFF04), 0);
}

#[test]
fn lcd_off_holds_ly_and_mode() {
    let mut emu = emulator(&[]);
    emu.write_memory(0xFF40, 0x11);
    emu.write_memory(0xFF0F, 0x00);
    let before = emu.screen_buffer.clone();
    emu.update_graphics(70224);
    assert_eq!(emu.read_memory(0xFF44), 0);
    assert_eq!(emu.read_memory(0xFF41) & 3, 1);
    assert_eq!(emu.read_memory(0xFF0F) & 0x01, 0);
    assert_eq!(emu.screen_buffer, before);
}

#[test]
fn joypad_press_raises_interrupt_and_dispatches() {
    let mut emu = emulator(&[]);
    emu.write_memory(0xFFFF, 0x10);
    emu.write_memory(0xFF0F, 0x00);
    emu.cpu.ime = true;
    emu.write_memory(0xFF00, 0x10);
    emu.input_down(Inputs::A);
    assert_eq!(emu.read_memory(0xFF0F) & 0x10, 0x10);
    emu.step();
    assert_eq!(emu.cpu.pc, 0x60);
}

#[test]
fn joypad_press_in_other_row_is_silent() {
    let mut emu = emulator(&[]);
    emu.write_memory(0xFF0F, 0x00);
    emu.write_memory(0xFF00, 0x10);
    emu.input_down(Inputs::Right);
    assert_eq!(emu.read_memory(0xFF0F) & 0x10, 0);
    emu.input_down(Inputs::Start);
    assert_eq!(emu.read_memory(0xFF0F) & 0x10, 0x10);
    emu.write_memory(0xFF0F, 0x00);
    emu.input_down(Inputs::Start);
    assert_eq!(emu.read_memory(0xFF0F) & 0x10, 0);
}

#[test]
fn joypad_register_reports_selected_row() {
    let mut emu = emulator(&[]);
    emu.input_down(Inputs::Right);
    emu.input_down(Inputs::B);
    emu.write_memory(0xFF00, 0x20);
    assert_eq!(emu.read_memory(0xFF00), 0xEE);
    emu.write_memory(0xFF00, 0x10);
    assert_eq!(emu.read_memory(0xFF00), 0xDD);
    emu.write_memory(0xFF00, 0x00);
    assert_eq!(emu.read_memory(0xFF00), 0xCC);
    emu.write_memory(0xFF00, 0x30);
    assert_eq!(emu.read_memory(0xFF00), 0xFF);
    emu.input_up(Inputs::Right);
    emu.write_memory(0xFF00, 0x20);
    assert_eq!(emu.joypad_state(), 0xEF);
    assert_eq!(joypad_state(0x20, 0x01), 0xEE);
}

#[test]
fn background_line_renders_tile() {
    let mut emu = emulator(&[]);
    for i in 0..8usize {
        emu.write_memory(0x8000 + 2 * i, 0xFF);
        emu.write_memory(0x8000 + 2 * i + 1, 0x00);
    }
    emu.write_memory(0x9800, 0);
    emu.write_memory(0xFF42, 0);
    emu.write_memory(0xFF43, 0);
    emu.write_memory(0xFF40, 0x91);
    emu.write_memory(0xFF47, 0xE4);
    // Line 1 is drawn as LY reaches it; line 0 when LY wraps back to 0.
    emu.update_graphics(456);
    assert_eq!(emu.read_memory(0xFF44), 1);
    assert_eq!(&emu.screen_buffer[1][0..3], &[0xCC, 0xCC, 0xCC]);
    assert_eq!(emu.screen_buffer[0][0], 0);
    emu.update_graphics(456 * 153);
    assert_eq!(emu.read_memory(0xFF44), 0);
    for x in 0..8usize {
        assert_eq!(&emu.screen_buffer[0][3 * x..3 * x + 3], &[0xCC, 0xCC, 0xCC]);
    }
}

#[test]
fn sprite_draws_over_background() {
    let mut emu = emulator(&[]);
    // Tile 1: every row colour 3.
    for i in 0..16usize {
        emu.write_memory(0x8010 + i, 0xFF);
    }
    // Sprite 0 on lines 1..9, columns 4..12.
    emu.write_memory(0xFE00, 17);
    emu.write_memory(0xFE01, 8 + 4);
    emu.write_memory(0xFE02, 1);
    emu.write_memory(0xFE03, 0);
    emu.write_memory(0xFF48, 0xE4);
    emu.write_memory(0xFF47, 0xE4);
    emu.write_memory(0xFF40, 0x93);
    emu.update_graphics(456);
    assert_eq!(emu.screen_buffer[1][0], 0xFF);
    assert_eq!(emu.screen_buffer[1][3 * 4], 0x00);
    assert_eq!(emu.screen_buffer[1][3 * 11], 0x00);
    assert_eq!(emu.screen_buffer[1][3 * 12], 0xFF);
}

#[test]
fn line_144_is_not_drawn() {
    let mut emu = emulator(&[]);
    emu.write_memory(0xFF47, 0xFF);
    emu.update_graphics(456 * 143);
    assert_eq!(emu.read_memory(0xFF44), 143);
    let before = emu.screen_buffer.clone();
    emu.write_memory(0xFF0F, 0x00);
    emu.update_graphics(456);
    assert_eq!(emu.read_memory(0xFF44), 144);
    assert_eq!(emu.read_memory(0xFF0F) & 0x01, 0x01);
    assert_eq!(emu.screen_buffer, before);
}

#[test]
fn lyc_match_keeps_raising_stat_interrupt() {
    let mut emu = emulator(&[]);
    emu.write_memory(0xFF45, 0);
    emu.write_memory(0xFF41, 0x40);
    emu.update_graphics(1);
    assert_eq!(emu.read_memory(0xFF41) & 0x04, 0x04);
    emu.write_memory(0xFF0F, 0x00);
    emu.update_graphics(1);
    assert_eq!(emu.read_memory(0xFF0F) & 0x02, 0x02);
}

#[test]
fn ly_advances_once_per_line_and_vblank_at_144() {
    let mut emu = emulator(&[]);
    emu.write_memory(0xFF0F, 0x00);
    emu.update_graphics(455);
    assert_eq!(emu.read_memory(0xFF44), 0);
    emu.update_graphics(1);
    assert_eq!(emu.read_memory(0xFF44), 1);
    let mut last = 1u8;
    for _ in 0..153 {
        emu.update_graphics(456);
        let ly = emu.read_memory(0xFF44);
        assert_eq!(ly, (last + 1) % 154);
        last = ly;
    }
    assert_eq!(last, 0);
    assert_eq!(emu.read_memory(0xFF0F) & 0x01, 0x01);
}

#[test]
fn stat_mode_follows_line_position() {
    let mut emu = emulator(&[]);
    emu.update_graphics(10);
    assert_eq!(emu.read_memory(0xFF41) & 3, 2);
    emu.update_graphics(80);
    assert_eq!(emu.read_memory(0xFF41) & 3, 3);
    emu.update_graphics(200);
    assert_eq!(emu.read_memory(0xFF41) & 3, 0);
    emu.update_graphics(456 * 144);
    assert_eq!(emu.read_memory(0xFF41) & 3, 1);
}

#[test]
fn frame_hands_out_exact_t_states() {
    let mut emu = emulator(&[]);
    let start = emu.clock;
    emu.update();
    assert_eq!(emu.clock - start, 70224);
    emu.update();
    assert_eq!(emu.clock - start, 2 * 70224);
}

#[test]
fn load_add_sets_half_carry() {
    // LD A,0x0F ; ADD A,0x01
    let mut emu = emulator(&[0x3E, 0x0F, 0xC6, 0x01]);
    assert_eq!(emu.step(), 8);
    assert_eq!(emu.cpu.a, 0x0F);
    assert_eq!(emu.step(), 8);
    assert_eq!(emu.cpu.a, 0x10);
    assert_eq!(emu.cpu.f, 0x20);
}

#[test]
fn flags_low_bits_stay_zero_after_pop_af() {
    // LD BC,0x12FF ; PUSH BC ; POP AF
    let mut emu = emulator(&[0x01, 0xFF, 0x12, 0xC5, 0xF1]);
    emu.step();
    emu.step();
    emu.step();
    assert_eq!(emu.cpu.a, 0x12);
    assert_eq!(emu.cpu.f, 0xF0);
}

#[test]
fn call_and_return() {
    // CALL 0x0110 ; ... at 0x110: RET
    let mut program = vec![0u8; 0x11];
    program[0] = 0xCD;
    program[1] = 0x10;
    program[2] = 0x01;
    program[0x10] = 0xC9;
    let mut emu = emulator(&program);
    assert_eq!(emu.step(), 24);
    assert_eq!(emu.cpu.pc, 0x110);
    assert_eq!(emu.step(), 16);
    assert_eq!(emu.cpu.pc, 0x103);
    assert_eq!(emu.cpu.sp, 0xFFFE);
}

#[test]
fn ei_takes_effect_after_next_instruction() {
    // DI ; EI ; NOP
    let mut emu = emulator(&[0xF3, 0xFB, 0x00]);
    emu.step();
    assert!(!emu.cpu.ime);
    emu.step();
    assert!(!emu.cpu.ime);
    emu.step();
    assert!(emu.cpu.ime);
}

#[test]
fn halt_waits_for_request() {
    // DI ; HALT
    let mut emu = emulator(&[0xF3, 0x76]);
    emu.write_memory(0xFFFF, 0x01);
    emu.write_memory(0xFF0F, 0x00);
    emu.step();
    emu.step();
    assert!(emu.cpu.halted);
    assert_eq!(emu.step(), 4);
    assert!(emu.cpu.halted);
    emu.write_memory(0xFF0F, 0x01);
    assert_eq!(emu.step(), 4);
    assert!(!emu.cpu.halted);
    assert_eq!(emu.cpu.pc, 0x102);
}

#[test]
fn unknown_opcode_stops_cpu() {
    let mut emu = emulator(&[0xD3]);
    emu.step();
    assert_eq!(emu.cpu.fault, Some(0xD3));
    let pc = emu.cpu.pc;
    emu.step();
    assert_eq!(emu.cpu.pc, pc);
}

#[test]
fn cb_swap_and_bit() {
    // LD A,0x1F ; SWAP A ; BIT 7,A
    let mut emu = emulator(&[0x3E, 0x1F, 0xCB, 0x37, 0xCB, 0x7F]);
    emu.step();
    assert_eq!(emu.step(), 8);
    assert_eq!(emu.cpu.a, 0xF1);
    emu.step();
    assert_eq!(emu.cpu.f & 0x80, 0);
    assert_eq!(emu.cpu.f & 0x20, 0x20);
}

#[test]
fn daa_adjusts_bcd_sum() {
    // LD A,0x15 ; ADD A,0x27 ; DAA
    let mut emu = emulator(&[0x3E, 0x15, 0xC6, 0x27, 0x27]);
    emu.step();
    emu.step();
    emu.step();
    assert_eq!(emu.cpu.a, 0x42);
}

#[test]
fn palette_colors() {
    let emu = emulator(&[]);
    assert_eq!(emu.get_color(0, 0xFF47), Color::White);
    assert_eq!(emu.get_color(3, 0xFF47), Color::Black);
    assert_eq!(Color::LightGrey.rgb(), (0xCC, 0xCC, 0xCC));
    assert_eq!(Color::DarkGrey.rgb(), (0x77, 0x77, 0x77));
}

#[test]
fn cpu_power_up_state() {
    let cpu = Cpu::new();
    assert_eq!(cpu.pc, 0x100);
    assert_eq!(cpu.sp, 0xFFFE);
    assert_eq!(cpu.f & 0x0F, 0);
}

#[test]
fn jumps_absolute_and_relative() {
    // JP 0x0108 ; (skipped) ; at 0x108: JR -2 back to 0x108
    let mut program = vec![0u8; 0x0A];
    program[0] = 0xC3;
    program[1] = 0x08;
    program[2] = 0x01;
    program[8] = 0x18;
    program[9] = 0xFE;
    let mut emu = emulator(&program);
    assert_eq!(emu.step(), 16);
    assert_eq!(emu.cpu.pc, 0x108);
    assert_eq!(emu.step(), 12);
    assert_eq!(emu.cpu.pc, 0x108);
}

#[test]
fn inc_and_dec_set_zero_and_half_carry() {
    // LD B,0xFF ; INC B ; DEC B
    let mut emu = emulator(&[0x06, 0xFF, 0x04, 0x05]);
    emu.step();
    emu.step();
    assert_eq!(emu.cpu.b, 0x00);
    assert_eq!(emu.cpu.f & 0xE0, 0xA0);
    emu.step();
    assert_eq!(emu.cpu.b, 0xFF);
    assert_eq!(emu.cpu.f & 0xE0, 0x60);
}

#[test]
fn sub_sets_carry_on_borrow() {
    // LD A,0x10 ; SUB 0x20 ; CP 0xF0
    let mut emu = emulator(&[0x3E, 0x10, 0xD6, 0x20, 0xFE, 0xF0]);
    emu.step();
    emu.step();
    assert_eq!(emu.cpu.a, 0xF0);
    assert_eq!(emu.cpu.f, 0x50);
    emu.step();
    assert_eq!(emu.cpu.a, 0xF0);
    assert_eq!(emu.cpu.f, 0xC0);
}

#[test]
fn lyc_match_raises_stat_interrupt() {
    let mut emu = emulator(&[]);
    emu.write_memory(0xFF45, 2);
    emu.write_memory(0xFF41, 0x40);
    emu.write_memory(0xFF0F, 0x00);
    emu.update_graphics(456);
    assert_eq!(emu.read_memory(0xFF0F) & 0x02, 0);
    emu.update_graphics(456);
    assert_eq!(emu.read_memory(0xFF0F) & 0x02, 0x02);
    assert_eq!(emu.read_memory(0xFF41) & 0x04, 0x04);
}

#[test]
fn stop_waits_for_button() {
    // STOP ; INC A
    let mut emu = emulator(&[0x10, 0x00, 0x3C]);
    emu.step();
    assert!(emu.cpu.stopped);
    let a = emu.cpu.a;
    emu.step();
    assert!(emu.cpu.stopped);
    assert_eq!(emu.cpu.pc, 0x102);
    emu.input_down(Inputs::Start);
    emu.step();
    assert!(!emu.cpu.stopped);
    emu.step();
    assert_eq!(emu.cpu.a, a.wrapping_add(1));
}

#[test]
fn cb_rotate_set_and_reset_on_register() {
    // LD B,0x81 ; RLC B ; SET 1,B ; RES 0,B
    let mut emu = emulator(&[0x06, 0x81, 0xCB, 0x00, 0xCB, 0xC8, 0xCB, 0x80]);
    emu.step();
    assert_eq!(emu.step(), 8);
    assert_eq!(emu.cpu.b, 0x03);
    assert_eq!(emu.cpu.f, 0x10);
    emu.step();
    assert_eq!(emu.cpu.b, 0x03);
    emu.step();
    assert_eq!(emu.cpu.b, 0x02);
}

#[test]
fn high_page_store_and_load() {
    // LD A,0x5A ; LDH (0x80),A ; LD A,0 ; LDH A,(0x80)
    let mut emu = emulator(&[0x3E, 0x5A, 0xE0, 0x80, 0x3E, 0x00, 0xF0, 0x80]);
    emu.step();
    assert_eq!(emu.step(), 12);
    assert_eq!(emu.read_memory(0xFF80), 0x5A);
    emu.step();
    assert_eq!(emu.step(), 12);
    assert_eq!(emu.cpu.a, 0x5A);
}

#[test]
fn reti_returns_and_enables_interrupts() {
    // LD BC,0x0200 ; PUSH BC ; DI ; RETI
    let mut emu = emulator(&[0x01, 0x00, 0x02, 0xC5, 0xF3, 0xD9]);
    emu.step();
    emu.step();
    emu.step();
    assert!(!emu.cpu.ime);
    assert_eq!(emu.step(), 16);
    assert_eq!(emu.cpu.pc, 0x0200);
    assert!(emu.cpu.ime);
}

#[test]
fn add_hl_and_inc_pair() {
    // LD HL,0x0FFF ; LD BC,0x0001 ; ADD HL,BC ; INC BC
    let mut emu = emulator(&[0x21, 0xFF, 0x0F, 0x01, 0x01, 0x00, 0x09, 0x03]);
    emu.step();
    emu.step();
    assert_eq!(emu.step(), 8);
    assert_eq!((emu.cpu.h, emu.cpu.l), (0x10, 0x00));
    assert_eq!(emu.cpu.f & 0x70, 0x20);
    emu.step();
    assert_eq!((emu.cpu.b, emu.cpu.c), (0x00, 0x02));
}
