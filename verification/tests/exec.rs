use chippy::Chip8;

/// A machine with `program` loaded, ready at 0x200.
fn with_program(program: &[u8]) -> Chip8 {
    let mut c = Chip8::new();
    c.load_rom(program.to_vec());
    c
}

#[test]
fn add_sets_carry_flag() {
    // ADD V0, V1 with V0=0xFF, V1=0x01: wraps to 0 and sets VF.
    let mut c = with_program(&[0x80, 0x14]);
    c.registers[0] = 0xFF;
    c.registers[1] = 0x01;
    assert!(c.can_step());
    c.step_with(0, 0);
    assert_eq!(c.registers[0], 0x00);
    assert_eq!(c.registers[15], 1);
    assert_eq!(c.pc, 0x202);

    // Without overflow VF is cleared.
    let mut c = with_program(&[0x80, 0x14]);
    c.registers[0] = 0x01;
    c.registers[1] = 0x01;
    c.step_with(0, 0);
    assert_eq!(c.registers[0], 0x02);
    assert_eq!(c.registers[15], 0);
}

#[test]
fn sub_sets_not_borrow_flag() {
    // SUB V0, V1 with V0=5, V1=3: VF=1 because V0 > V1.
    let mut c = with_program(&[0x80, 0x15]);
    c.registers[0] = 5;
    c.registers[1] = 3;
    c.step_with(0, 0);
    assert_eq!(c.registers[0], 2);
    assert_eq!(c.registers[15], 1);
}

#[test]
fn subn_wraps_and_clears_flag() {
    // SUBN V0, V1 with V0=5, V1=3: V0 = 3 - 5 wrapped, VF=0 because
    // V1 is not greater than V0.
    let mut c = with_program(&[0x80, 0x17]);
    c.registers[0] = 5;
    c.registers[1] = 3;
    c.step_with(0, 0);
    assert_eq!(c.registers[0], 3u8.wrapping_sub(5));
    assert_eq!(c.registers[15], 0);
}

#[test]
fn shr_shl_move_edge_bits_into_flag() {
    // SHR V0 with V0=0x03: VF takes the low bit.
    let mut c = with_program(&[0x80, 0x16]);
    c.registers[0] = 0x03;
    c.step_with(0, 0);
    assert_eq!(c.registers[0], 0x01);
    assert_eq!(c.registers[15], 1);

    // SHL V0 with V0=0x80: VF takes the high bit, V0 wraps to 0.
    let mut c = with_program(&[0x80, 0x1E]);
    c.registers[0] = 0x80;
    c.step_with(0, 0);
    assert_eq!(c.registers[0], 0x00);
    assert_eq!(c.registers[15], 1);
}

#[test]
fn draw_lights_then_clears_pixels() {
    // DRW V0, V1, 1 with an all-set 8x1 sprite at (0, 0).
    let mut c = with_program(&[0xD0, 0x11]);
    c.index = 0x300;
    c.memory[0x300] = 0xFF;
    c.step_with(0, 0);
    for x in 0..8 {
        assert!(c.screen[0][x]);
    }
    assert_eq!(c.screen[0].iter().filter(|&&p| p).count(), 8);
    assert!(c.screen[1..].iter().all(|row| row.iter().all(|p| !p)));
    // No pixel was lit before, so the last bit saw no collision.
    assert_eq!(c.registers[15], 0);

    // The identical sprite at the same spot clears those pixels and
    // reports the collision.
    c.pc = 0x200;
    c.step_with(0, 0);
    assert!(c.screen.iter().all(|row| row.iter().all(|p| !p)));
    assert_eq!(c.registers[15], 1);
}

#[test]
fn draw_wraps_around_edges() {
    // DRW V0, V1, 1 at (60, 31): the row wraps horizontally, the
    // coordinates vertically.
    let mut c = with_program(&[0xD0, 0x11]);
    c.index = 0x300;
    c.memory[0x300] = 0xFF;
    c.registers[0] = 60;
    c.registers[1] = 31;
    c.step_with(0, 0);
    for x in [60, 61, 62, 63, 0, 1, 2, 3] {
        assert!(c.screen[31][x]);
    }
}

#[test]
fn end_to_end_three_cycles() {
    // LD V0, 5; LD V1, 3; ADD V0, V1; JP 0x200.
    let mut c = with_program(&[0x60, 0x05, 0x61, 0x03, 0x80, 0x14, 0x12, 0x00]);
    for _ in 0..3 {
        assert!(c.can_step());
        c.interpreter();
    }
    assert_eq!(c.registers[0], 8);
    assert_eq!(c.registers[15], 0);
    // The third cycle performed the ADD; pc now rests past it, and the
    // fourth cycle's JP returns to 0x200.
    c.interpreter();
    assert_eq!(c.pc, 0x200);
}

#[test]
fn ret_on_empty_stack_is_lenient() {
    // RET with sp == 0 reports underflow and continues unchanged.
    let mut c = with_program(&[0x00, 0xEE]);
    c.step_with(0, 0);
    assert_eq!(c.sp, 0);
    assert_eq!(c.pc, 0x202);
}

#[test]
fn call_on_full_stack_is_lenient() {
    // CALL with sp == 15 reports overflow and continues unchanged.
    let mut c = with_program(&[0x22, 0x00]);
    c.sp = 15;
    c.step_with(0, 0);
    assert_eq!(c.sp, 15);
    assert_eq!(c.pc, 0x202);
}

#[test]
fn call_and_ret_round_trip() {
    // CALL 0x206 ... RET: the return lands just past the call.
    let mut c = with_program(&[0x22, 0x06, 0x00, 0x00, 0x00, 0x00, 0x00, 0xEE]);
    c.step_with(0, 0);
    assert_eq!(c.pc, 0x206);
    assert_eq!(c.sp, 1);
    assert_eq!(c.stack[0], 0x200);
    c.step_with(0, 0);
    assert_eq!(c.pc, 0x202);
    assert_eq!(c.sp, 0);
}

#[test]
fn rnd_masks_the_random_byte() {
    // RND V0, 0x0F with the random byte pinned to 0xAB.
    let mut c = with_program(&[0xC0, 0x0F]);
    c.step_with(0xAB, 0);
    assert_eq!(c.registers[0], 0xAB & 0x0F);
}

#[test]
fn bcd_stores_decimal_digits() {
    // LD B, V0 with V0 = 234 stores 2, 3, 4 at index.
    let mut c = with_program(&[0xF0, 0x33]);
    c.registers[0] = 234;
    c.index = 0x300;
    c.step_with(0, 0);
    assert_eq!(c.memory[0x300], 2);
    assert_eq!(c.memory[0x301], 3);
    assert_eq!(c.memory[0x302], 4);
}

#[test]
fn store_and_load_registers() {
    // LD [I], V2 stores V0..=V2; LD V2, [I] reads them back.
    let mut c = with_program(&[0xF2, 0x55, 0xF2, 0x65]);
    c.registers[0] = 11;
    c.registers[1] = 22;
    c.registers[2] = 33;
    c.registers[3] = 44;
    c.index = 0x320;
    c.step_with(0, 0);
    assert_eq!(c.memory[0x320], 11);
    assert_eq!(c.memory[0x321], 22);
    assert_eq!(c.memory[0x322], 33);
    assert_eq!(c.memory[0x323], 0);

    c.registers[0] = 0;
    c.registers[1] = 0;
    c.registers[2] = 0;
    c.step_with(0, 0);
    assert_eq!(c.registers[0], 11);
    assert_eq!(c.registers[1], 22);
    assert_eq!(c.registers[2], 33);
    // V3 lies beyond the transfer and keeps its value.
    assert_eq!(c.registers[3], 44);
}

#[test]
fn wait_for_key_holds_and_captures_highest() {
    // LD V0, K: with no key pressed the machine holds in place.
    let mut c = with_program(&[0xF0, 0x0A]);
    c.step_with(0, 0);
    assert_eq!(c.pc, 0x200);

    // With keys 3 and 7 pressed, the ascending scan captures the
    // highest pressed index.
    c.keypad.keys[3] = true;
    c.keypad.keys[7] = true;
    c.step_with(0, 0);
    assert_eq!(c.registers[0], 7);
    assert_eq!(c.pc, 0x202);
}

#[test]
fn skip_instructions_follow_key_state() {
    // SKP V0 with key 4 pressed skips the next instruction.
    let mut c = with_program(&[0xE0, 0x9E]);
    c.registers[0] = 4;
    c.keypad.keys[4] = true;
    c.step_with(0, 0);
    assert_eq!(c.pc, 0x204);

    // SKNP V0 with key 4 pressed does not skip.
    let mut c = with_program(&[0xE0, 0xA1]);
    c.registers[0] = 4;
    c.keypad.keys[4] = true;
    c.step_with(0, 0);
    assert_eq!(c.pc, 0x202);
}

#[test]
fn index_arithmetic() {
    // ADD I, V0 wraps in 16 bits.
    let mut c = with_program(&[0xF0, 0x1E]);
    c.index = 0xFFFF;
    c.registers[0] = 2;
    c.step_with(0, 0);
    assert_eq!(c.index, 1);

    // LD F, V0 points the index at the glyph for the digit in V0.
    let mut c = with_program(&[0xF0, 0x29]);
    c.registers[0] = 0xA;
    c.step_with(0, 0);
    assert_eq!(c.index, 50);
}

#[test]
fn jump_with_offset() {
    // JP V0, 0x200 with V0 = 4.
    let mut c = with_program(&[0xB2, 0x00]);
    c.registers[0] = 4;
    c.step_with(0, 0);
    assert_eq!(c.pc, 0x204);
}

#[test]
fn conditional_skips_on_bytes_and_registers() {
    // SE V0, 0x05 skips when equal.
    let mut c = with_program(&[0x30, 0x05]);
    c.registers[0] = 5;
    c.step_with(0, 0);
    assert_eq!(c.pc, 0x204);

    // SNE V0, 0x05 does not skip when equal.
    let mut c = with_program(&[0x40, 0x05]);
    c.registers[0] = 5;
    c.step_with(0, 0);
    assert_eq!(c.pc, 0x202);

    // SE V0, V1 skips when the registers agree.
    let mut c = with_program(&[0x50, 0x10]);
    c.registers[0] = 9;
    c.registers[1] = 9;
    c.step_with(0, 0);
    assert_eq!(c.pc, 0x204);

    // SNE V0, V1 skips when they differ.
    let mut c = with_program(&[0x90, 0x10]);
    c.registers[0] = 9;
    c.registers[1] = 8;
    c.step_with(0, 0);
    assert_eq!(c.pc, 0x204);
}

#[test]
fn bitwise_ops_land_in_vx() {
    let mut c = with_program(&[0x80, 0x11, 0x80, 0x12, 0x80, 0x13]);
    c.registers[0] = 0b1010;
    c.registers[1] = 0b0110;
    c.step_with(0, 0);
    assert_eq!(c.registers[0], 0b1110);

    c.registers[0] = 0b1010;
    c.step_with(0, 0);
    assert_eq!(c.registers[0], 0b0010);

    c.registers[0] = 0b1010;
    c.step_with(0, 0);
    assert_eq!(c.registers[0], 0b1100);
}

#[test]
fn timer_instructions_move_timer_values() {
    // LD DT, V0 then LD V1, DT round-trips through the delay timer;
    // LD ST, V2 sets the sound timer.
    let mut c = with_program(&[0xF0, 0x15, 0xF1, 0x07, 0xF2, 0x18]);
    c.registers[0] = 42;
    c.registers[2] = 9;
    c.step_with(0, 0);
    assert_eq!(c.delay_timer, 42);
    c.step_with(0, 0);
    assert_eq!(c.registers[1], 42);
    c.step_with(0, 0);
    assert_eq!(c.sound_timer, 9);
}

#[test]
fn can_step_rejects_out_of_bounds_bcd() {
    // LD B, V0 with the index too close to the end of memory would
    // write outside the 4096 bytes.
    let mut c = with_program(&[0xF0, 0x33]);
    c.index = 4094;
    assert!(!c.can_step());
    c.index = 4093;
    assert!(c.can_step());
}

#[test]
fn can_step_rejects_out_of_range_key_test() {
    // SKP V0 with V0 beyond the 16 keys cannot be executed.
    let mut c = with_program(&[0xE0, 0x9E]);
    c.registers[0] = 16;
    assert!(!c.can_step());
    c.registers[0] = 15;
    assert!(c.can_step());
}
