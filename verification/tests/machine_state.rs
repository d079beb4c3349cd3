use chippy::Chip8;

const FONT: [u8; 80] = [
    0xF0, 0x90, 0x90, 0x90, 0xF0, 0x20, 0x60, 0x20, 0x20, 0x70, 0xF0, 0x10, 0xF0, 0x80, 0xF0,
    0xF0, 0x10, 0xF0, 0x10, 0xF0, 0x90, 0x90, 0xF0, 0x10, 0x10, 0xF0, 0x80, 0xF0, 0x10, 0xF0,
    0xF0, 0x80, 0xF0, 0x90, 0xF0, 0xF0, 0x10, 0x20, 0x40, 0x40, 0xF0, 0x90, 0xF0, 0x90, 0xF0,
    0xF0, 0x90, 0xF0, 0x10, 0xF0, 0xF0, 0x90, 0xF0, 0x90, 0x90, 0xE0, 0x90, 0xE0, 0x90, 0xE0,
    0xF0, 0x80, 0x80, 0x80, 0xF0, 0xE0, 0x90, 0x90, 0x90, 0xE0, 0xF0, 0x80, 0xF0, 0x80, 0xF0,
    0xF0, 0x80, 0xF0, 0x80, 0x80,
];

#[test]
fn new_machine_shape() {
    let c = Chip8::new();
    assert_eq!(c.pc, 0x200);
    assert_eq!(c.sp, 0);
    assert_eq!(c.index, 0);
    assert_eq!(c.memory.len(), 4096);
    assert_eq!(c.stack.len(), 16);
    assert_eq!(c.registers.len(), 16);
    assert_eq!(c.screen.len(), 32);
    for row in &c.screen {
        assert_eq!(row.len(), 64);
        assert!(row.iter().all(|p| !p));
    }
    assert_eq!(&c.memory[0..80], &FONT[..]);
    assert!(c.memory[80..].iter().all(|&b| b == 0));
    assert_eq!(c.delay_timer, 0);
    assert_eq!(c.sound_timer, 0);
    assert_eq!(c.keypad.keys.len(), 16);
}

#[test]
fn load_rom_resets_all_prior_state() {
    let mut c = Chip8::new();
    // Dirty every piece of mutable state.
    c.pc = 0x999;
    c.index = 0x123;
    c.delay_timer = 77;
    c.sound_timer = 88;
    for i in 0..16 {
        c.registers[i] = 0xAB;
        c.stack[i] = 0xCDE;
        c.keypad.keys[i] = i % 2 == 0;
    }
    for i in 0..4096 {
        c.memory[i] = 0x5A;
    }
    for row in c.screen.iter_mut() {
        for p in row.iter_mut() {
            *p = true;
        }
    }

    c.load_rom(vec![0xDE, 0xAD]);

    assert_eq!(c.pc, 0x200);
    assert_eq!(c.index, 0);
    assert_eq!(c.delay_timer, 0);
    assert_eq!(c.sound_timer, 0);
    assert!(c.registers.iter().all(|&r| r == 0));
    assert!(c.stack.iter().all(|&s| s == 0));
    assert_eq!(&c.memory[0..80], &FONT[..]);
    assert!(c.screen.iter().all(|row| row.iter().all(|p| !p)));
    // The program bytes stand at 0x200, the rest of the area is
    // zero-padded.
    assert_eq!(c.memory[0x200], 0xDE);
    assert_eq!(c.memory[0x201], 0xAD);
    assert!(c.memory[0x202..4096].iter().all(|&b| b == 0));
}

#[test]
fn load_rom_truncates_oversized_program() {
    let mut c = Chip8::new();
    // 4000 bytes: longer than the 3584-byte program area.
    let rom: Vec<u8> = (0..4000u32).map(|i| (i % 251) as u8).collect();
    c.load_rom(rom.clone());

    assert_eq!(c.memory.len(), 4096);
    for i in 0..3584 {
        assert_eq!(c.memory[512 + i], rom[i]);
    }
}

#[test]
fn screen_rgba_renders_white_on_black() {
    let mut c = Chip8::new();
    c.screen[0][0] = true;
    c.screen[31][63] = true;
    let rgba = c.screen_rgba();
    assert_eq!(rgba.len(), 32 * 64 * 4);
    // A lit pixel is opaque white.
    assert_eq!(&rgba[0..4], &[255, 255, 255, 255]);
    let last = (32 * 64 - 1) * 4;
    assert_eq!(&rgba[last..last + 4], &[255, 255, 255, 255]);
    // An unlit pixel is opaque black.
    assert_eq!(&rgba[4..8], &[0, 0, 0, 255]);
}

#[test]
fn tick_timers_decrement_on_threshold() {
    let mut c = Chip8::new();
    c.delay_timer = 5;
    c.sound_timer = 1;

    // Under the ~16.666 ms threshold nothing moves, however many
    // instructions have run meanwhile.
    c.tick_timers(0);
    c.tick_timers(16665);
    assert_eq!(c.delay_timer, 5);
    assert_eq!(c.sound_timer, 1);

    // At the threshold each non-zero timer drops exactly once.
    c.tick_timers(16666);
    assert_eq!(c.delay_timer, 4);
    assert_eq!(c.sound_timer, 0);

    // A zero timer stays at zero: never below 0.
    c.tick_timers(100000);
    assert_eq!(c.delay_timer, 3);
    assert_eq!(c.sound_timer, 0);
}
