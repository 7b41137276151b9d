use chip8::{adjust_speed, decode, tone_action, Chip8, Chip8Error, Instruction, Quirks, ToneAction};

fn exec_all(c: &mut Chip8, ops: &[u16]) {
    for &op in ops {
        c.execute(op).unwrap();
    }
}

#[test]
fn new_machine_state() {
    let c = Chip8::new();
    assert_eq!(c.pc(), 0x200);
    assert_eq!(c.index(), 0);
    assert_eq!(c.stack_depth(), 0);
    assert_eq!(c.read_byte(0), Some(0xF0));
    assert_eq!(c.read_byte(5), Some(0x20));
    assert_eq!(c.read_byte(79), Some(0x80));
    assert_eq!(c.read_byte(80), Some(0));
    assert_eq!(c.read_byte(0x200), Some(0));
    assert_eq!(c.read_byte(4096), None);
    for x in 0..16 {
        assert_eq!(c.register(x), 0);
        assert!(!c.key(x));
    }
    assert!(c.display_snapshot().iter().all(|p| !p));
}

#[test]
fn load_rom_and_fetch_big_endian() {
    let mut c = Chip8::new();
    c.load_rom(&[0x12, 0x34, 0xAB]).unwrap();
    assert_eq!(c.read_byte(0x200), Some(0x12));
    assert_eq!(c.read_byte(0x202), Some(0xAB));
    assert_eq!(c.fetch(), Ok(0x1234));
    assert_eq!(c.pc(), 0x202);
}

#[test]
fn load_rom_capacity() {
    let mut c = Chip8::new();
    let fits = vec![7u8; 4096 - 0x200];
    assert_eq!(c.load_rom(&fits), Ok(()));
    assert_eq!(c.read_byte(4095), Some(7));
    let mut d = Chip8::new();
    let too_big = vec![7u8; 4096 - 0x200 + 1];
    assert_eq!(d.load_rom(&too_big), Err(Chip8Error::CapacityExceeded));
    assert_eq!(d.read_byte(0x200), Some(0));
}

#[test]
fn fetch_past_end_fails() {
    let mut c = Chip8::new();
    c.set_pc(4095);
    assert_eq!(c.fetch(), Err(Chip8Error::AddressOutOfRange));
    assert_eq!(c.pc(), 4095);
    c.set_pc(4094);
    assert_eq!(c.fetch(), Ok(0));
    assert_eq!(c.pc(), 4096);
}

#[test]
fn load_immediate_every_register_and_value() {
    for x in 0..16u16 {
        for nn in 0..256u16 {
            let mut c = Chip8::new();
            for r in 0..16 {
                c.set_register(r, 0xAA);
            }
            c.execute(0x6000 | (x << 8) | nn).unwrap();
            for r in 0..16 {
                let expected = if r == x as usize { nn as u8 } else { 0xAA };
                assert_eq!(c.register(r), expected);
            }
            assert_eq!(c.pc(), 0x200);
        }
    }
}

#[test]
fn set_index_a123() {
    let mut c = Chip8::new();
    c.execute(0xA123).unwrap();
    assert_eq!(c.index(), 0x123);
}

#[test]
fn clear_display_after_drawing() {
    let mut c = Chip8::new();
    // Draw glyph 0 at (0, 0) and glyph 8 at (10, 5).
    exec_all(&mut c, &[0xA000, 0xD005, 0x600A, 0x6105, 0xA028, 0xD015]);
    assert!(c.display_snapshot().iter().any(|p| *p));
    c.execute(0x00E0).unwrap();
    assert!(c.display_snapshot().iter().all(|p| !p));
}

#[test]
fn draw_single_pixel_and_collide() {
    let mut c = Chip8::new();
    c.write_byte(0x300, 0x80).unwrap();
    exec_all(&mut c, &[0xA300, 0x6000, 0x6100]);
    c.execute(0xD011).unwrap();
    assert!(c.pixel(0, 0));
    assert_eq!(c.register(0xF), 0);
    c.execute(0xD011).unwrap();
    assert!(!c.pixel(0, 0));
    assert_eq!(c.register(0xF), 1);
}

#[test]
fn draw_wraps_horizontally() {
    let mut c = Chip8::new();
    c.write_byte(0x300, 0xFF).unwrap();
    exec_all(&mut c, &[0xA300, 0x603C, 0x6100, 0xD011]);
    for x in 0..64 {
        let expected = x >= 60 || x < 4;
        assert_eq!(c.pixel(x, 0), expected, "column {}", x);
    }
    for x in 0..64 {
        assert!(!c.pixel(x, 1));
    }
    assert_eq!(c.register(0xF), 0);
}

#[test]
fn draw_wraps_vertically_and_reduces_origin() {
    let mut c = Chip8::new();
    c.write_byte(0x300, 0x80).unwrap();
    c.write_byte(0x301, 0x40).unwrap();
    // Vx = 64 + 2 reduces to column 2; Vy = 31 puts the second row on row 0.
    exec_all(&mut c, &[0xA300, 0x6042, 0x611F, 0xD012]);
    assert!(c.pixel(2, 31));
    assert!(c.pixel(3, 0));
    assert_eq!(c.display_snapshot().iter().filter(|p| **p).count(), 2);
}

#[test]
fn draw_past_memory_fails() {
    let mut c = Chip8::new();
    c.set_index(4094);
    assert_eq!(c.execute(0xD003), Err(Chip8Error::AddressOutOfRange));
    assert!(c.display_snapshot().iter().all(|p| !p));
    assert_eq!(c.execute(0xD002), Ok(()));
}

#[test]
fn store_then_load_restores_registers() {
    let mut c = Chip8::new();
    for r in 0..16 {
        c.set_register(r, (r as u8) * 17 + 3);
    }
    c.set_index(0x400);
    c.execute(0xF755).unwrap();
    assert_eq!(c.read_byte(0x400), Some(3));
    assert_eq!(c.read_byte(0x407), Some(7 * 17 + 3));
    assert_eq!(c.read_byte(0x408), Some(0));
    for r in 0..=7 {
        c.set_register(r, 0);
    }
    c.execute(0xF765).unwrap();
    for r in 0..16 {
        assert_eq!(c.register(r), (r as u8) * 17 + 3);
    }
    assert_eq!(c.index(), 0x400);
}

#[test]
fn store_past_memory_fails() {
    let mut c = Chip8::new();
    c.set_index(4090);
    assert_eq!(c.execute(0xF655), Err(Chip8Error::AddressOutOfRange));
    assert_eq!(c.execute(0xF665), Err(Chip8Error::AddressOutOfRange));
    assert_eq!(c.execute(0xF555), Ok(()));
}

#[test]
fn call_then_return() {
    let mut c = Chip8::new();
    c.load_rom(&[0x23, 0x00]).unwrap();
    c.write_byte(0x300, 0x00).unwrap();
    c.write_byte(0x301, 0xEE).unwrap();
    assert_eq!(c.step(), Ok(Instruction::Call { nnn: 0x300 }));
    assert_eq!(c.pc(), 0x300);
    assert_eq!(c.stack_depth(), 1);
    c.step().unwrap();
    assert_eq!(c.pc(), 0x202);
    assert_eq!(c.stack_depth(), 0);
}

#[test]
fn return_on_empty_stack_underflows() {
    let mut c = Chip8::new();
    assert_eq!(c.execute(0x00EE), Err(Chip8Error::StackUnderflow));
    assert_eq!(c.pc(), 0x200);
}

#[test]
fn call_depth_is_bounded() {
    let mut c = Chip8::new();
    for _ in 0..16 {
        c.execute(0x2400).unwrap();
    }
    assert_eq!(c.stack_depth(), 16);
    assert_eq!(c.execute(0x2400), Err(Chip8Error::StackOverflow));
    assert_eq!(c.stack_depth(), 16);
}

#[test]
fn add_with_carry_all_operands() {
    for a in 0..256u16 {
        for b in 0..256u16 {
            let mut c = Chip8::new();
            c.set_register(1, a as u8);
            c.set_register(2, b as u8);
            c.execute(0x8124).unwrap();
            assert_eq!(c.register(1), ((a + b) % 256) as u8);
            assert_eq!(c.register(0xF), if a + b > 255 { 1 } else { 0 });
        }
    }
}

#[test]
fn subtract_and_reverse_subtract() {
    let mut c = Chip8::new();
    exec_all(&mut c, &[0x6005, 0x6107, 0x8015]);
    assert_eq!(c.register(0), 254);
    assert_eq!(c.register(0xF), 0);
    exec_all(&mut c, &[0x6009, 0x6103, 0x8015]);
    assert_eq!(c.register(0), 6);
    assert_eq!(c.register(0xF), 1);
    exec_all(&mut c, &[0x6009, 0x6103, 0x8017]);
    assert_eq!(c.register(0), 250);
    assert_eq!(c.register(0xF), 0);
    exec_all(&mut c, &[0x6003, 0x6109, 0x8017]);
    assert_eq!(c.register(0), 6);
    assert_eq!(c.register(0xF), 1);
}

#[test]
fn logic_and_add_immediate() {
    let mut c = Chip8::new();
    exec_all(&mut c, &[0x60F0, 0x613C, 0x8011]);
    assert_eq!(c.register(0), 0xFC);
    exec_all(&mut c, &[0x60F0, 0x8012]);
    assert_eq!(c.register(0), 0x30);
    exec_all(&mut c, &[0x60F0, 0x8013]);
    assert_eq!(c.register(0), 0xCC);
    exec_all(&mut c, &[0x8010]);
    assert_eq!(c.register(0), 0x3C);
    c.set_register(0xF, 9);
    exec_all(&mut c, &[0x60FF, 0x7002]);
    assert_eq!(c.register(0), 1);
    assert_eq!(c.register(0xF), 9);
}

#[test]
fn shifts_use_vx_by_default() {
    let mut c = Chip8::new();
    exec_all(&mut c, &[0x6081, 0x6102, 0x8016]);
    assert_eq!(c.register(0), 0x40);
    assert_eq!(c.register(0xF), 1);
    exec_all(&mut c, &[0x6081, 0x801E]);
    assert_eq!(c.register(0), 0x02);
    assert_eq!(c.register(0xF), 1);
    exec_all(&mut c, &[0x6040, 0x801E]);
    assert_eq!(c.register(0), 0x80);
    assert_eq!(c.register(0xF), 0);
}

#[test]
fn shift_quirk_reads_vy() {
    let mut c = Chip8::with_quirks(Quirks { shift_uses_vy: true, jump_uses_vx: false });
    exec_all(&mut c, &[0x6000, 0x6103, 0x8016]);
    assert_eq!(c.register(0), 0x01);
    assert_eq!(c.register(0xF), 1);
    assert_eq!(c.register(1), 0x03);
}

#[test]
fn jump_with_offset_and_quirk() {
    let mut c = Chip8::new();
    exec_all(&mut c, &[0x6010, 0x6320, 0xB300]);
    assert_eq!(c.pc(), 0x310);
    let mut q = Chip8::with_quirks(Quirks { shift_uses_vy: false, jump_uses_vx: true });
    exec_all(&mut q, &[0x6010, 0x6320, 0xB300]);
    assert_eq!(q.pc(), 0x320);
    exec_all(&mut q, &[0x1ABC]);
    assert_eq!(q.pc(), 0xABC);
}

#[test]
fn conditional_skips() {
    let mut c = Chip8::new();
    exec_all(&mut c, &[0x6005, 0x6105]);
    c.execute(0x3005).unwrap();
    assert_eq!(c.pc(), 0x202);
    c.execute(0x3006).unwrap();
    assert_eq!(c.pc(), 0x202);
    c.execute(0x4006).unwrap();
    assert_eq!(c.pc(), 0x204);
    c.execute(0x5010).unwrap();
    assert_eq!(c.pc(), 0x206);
    c.execute(0x9010).unwrap();
    assert_eq!(c.pc(), 0x206);
}

#[test]
fn random_masked_with_zero_is_zero() {
    let mut c = Chip8::new();
    for _ in 0..200 {
        c.set_register(3, 0x55);
        c.execute(0xC300).unwrap();
        assert_eq!(c.register(3), 0);
        c.execute(0xC30F).unwrap();
        assert_eq!(c.register(3) & 0xF0, 0);
    }
    c.execute_with(Instruction::Random { x: 3, nn: 0x3C }, 0xA5).unwrap();
    assert_eq!(c.register(3), 0x24);
}

#[test]
fn timers_and_tone() {
    let mut c = Chip8::new();
    exec_all(&mut c, &[0x6003, 0xF015, 0x6001, 0xF018]);
    assert_eq!(c.delay_timer(), 3);
    assert_eq!(c.sound_timer(), 1);
    assert_eq!(c.tick(false), ToneAction::Start);
    assert_eq!(c.delay_timer(), 2);
    assert_eq!(c.sound_timer(), 0);
    assert_eq!(c.tick(true), ToneAction::Stop);
    assert_eq!(c.tick(false), ToneAction::Keep);
    assert_eq!(c.delay_timer(), 0);
    assert_eq!(c.sound_timer(), 0);
    c.execute(0xF507).unwrap();
    assert_eq!(c.register(5), 0);
    assert_eq!(tone_action(true, 4), ToneAction::Keep);
}

#[test]
fn index_font_and_bcd() {
    let mut c = Chip8::new();
    exec_all(&mut c, &[0x600B, 0xF029]);
    assert_eq!(c.index(), 55);
    exec_all(&mut c, &[0xA500, 0x6205, 0xF21E]);
    assert_eq!(c.index(), 0x505);
    exec_all(&mut c, &[0x609C, 0xF033]);
    assert_eq!(c.read_byte(0x505), Some(1));
    assert_eq!(c.read_byte(0x506), Some(5));
    assert_eq!(c.read_byte(0x507), Some(6));
    c.set_index(4094);
    assert_eq!(c.execute(0xF033), Err(Chip8Error::AddressOutOfRange));
}

#[test]
fn key_skips_and_range() {
    let mut c = Chip8::new();
    let mut keys = [false; 16];
    keys[0xA] = true;
    c.set_keys(keys);
    exec_all(&mut c, &[0x650A, 0xE59E]);
    assert_eq!(c.pc(), 0x202);
    c.execute(0xE5A1).unwrap();
    assert_eq!(c.pc(), 0x202);
    exec_all(&mut c, &[0x6503, 0xE5A1]);
    assert_eq!(c.pc(), 0x204);
    c.set_register(5, 16);
    assert_eq!(c.execute(0xE59E), Err(Chip8Error::KeyOutOfRange));
    assert_eq!(c.execute(0xE5A1), Err(Chip8Error::KeyOutOfRange));
}

#[test]
fn wait_for_key() {
    let mut c = Chip8::new();
    c.load_rom(&[0xF4, 0x0A]).unwrap();
    c.step().unwrap();
    assert_eq!(c.pc(), 0x200);
    let mut keys = [false; 16];
    keys[0x9] = true;
    keys[0x3] = true;
    c.set_keys(keys);
    c.step().unwrap();
    assert_eq!(c.pc(), 0x202);
    assert_eq!(c.register(4), 3);
    c.set_pc(0);
    c.set_keys([false; 16]);
    c.execute(0xF40A).unwrap();
    assert_eq!(c.pc(), 0);
}

#[test]
fn unknown_opcodes_are_ignored() {
    let mut c = Chip8::new();
    for op in [0x0123u16, 0x8008, 0xE000, 0xF0FF] {
        assert_eq!(decode(op), Instruction::Unknown { opcode: op });
        c.execute(op).unwrap();
    }
    assert_eq!(c.pc(), 0x200);
}

#[test]
fn decode_fields() {
    assert_eq!(decode(0xD12F), Instruction::Draw { x: 1, y: 2, n: 15 });
    assert_eq!(decode(0x8ABE), Instruction::ShiftLeft { x: 0xA, y: 0xB });
    assert_eq!(decode(0x2FFF), Instruction::Call { nnn: 0xFFF });
    assert_eq!(decode(0xF965), Instruction::LoadRegs { x: 9 });
}

#[test]
fn display_buffer_colours() {
    let mut c = Chip8::new();
    exec_all(&mut c, &[0xA000, 0xD001]);
    let buf = c.get_display_buffer();
    assert_eq!(buf.len(), 64 * 32);
    assert_eq!(buf[0], 0xFFFFFF);
    assert_eq!(buf[3], 0xFFFFFF);
    assert_eq!(buf[4], 0);
    assert_eq!(buf[64], 0);
}

#[test]
fn run_frame_budget() {
    let mut c = Chip8::new();
    c.load_rom(&[0x70, 0x01, 0x80, 0x08, 0x12, 0x00]).unwrap();
    assert_eq!(c.run_frame(9), Ok(vec![0x8008, 0x8008, 0x8008]));
    assert_eq!(c.register(0), 3);
    assert_eq!(c.pc(), 0x200);
    let mut d = Chip8::new();
    d.set_pc(4094);
    assert_eq!(d.run_frame(10), Ok(vec![]));
    assert_eq!(d.pc(), 4094);
}

#[test]
fn speed_adjustment() {
    assert_eq!(adjust_speed(10, true), 12);
    assert_eq!(adjust_speed(49, true), 50);
    assert_eq!(adjust_speed(50, true), 50);
    assert_eq!(adjust_speed(10, false), 8);
    assert_eq!(adjust_speed(3, false), 2);
    assert_eq!(adjust_speed(0, false), 2);
}

#[test]
fn blit_toggles_and_reports_collision() {
    let mut c = Chip8::new();
    assert!(!c.blit(63, 31, true));
    assert!(c.pixel(63, 31));
    assert!(!c.blit(63, 31, false));
    assert!(c.pixel(63, 31));
    assert!(c.blit(63, 31, true));
    assert!(!c.pixel(63, 31));
    c.set_delay_timer(9);
    c.set_sound_timer(4);
    assert_eq!(c.delay_timer(), 9);
    assert_eq!(c.sound_timer(), 4);
}
