//! Behavioral tests for the individual instruction semantics, driven
//! through the public instruction methods and the opcode dispatcher.

use chip8::errors::ExecutionError;
use chip8::machine::Chip8;

fn fresh() -> Chip8 {
    Chip8::new(false)
}

#[test]
fn add_register_sets_sum_and_carry() {
    let mut m = fresh();
    m.v[1] = 200;
    m.v[2] = 100;
    m.add_vx_vy(1, 2);
    assert_eq!(m.v[1], 44); // (200 + 100) mod 256
    assert_eq!(m.v[15], 1); // carry out of the 9th bit
    assert_eq!(m.pc, 0x202);

    let mut m2 = fresh();
    m2.v[1] = 1;
    m2.v[2] = 2;
    m2.add_vx_vy(1, 2);
    assert_eq!(m2.v[1], 3);
    assert_eq!(m2.v[15], 0);
}

#[test]
fn subtract_with_borrow_clears_flag() {
    let mut m = fresh();
    m.v[0] = 0x01;
    m.v[1] = 0x02;
    m.sub_vx_vy(0, 1);
    assert_eq!(m.v[0], 0xFF);
    assert_eq!(m.v[15], 0); // a borrow occurred
}

#[test]
fn subtract_without_borrow_sets_flag() {
    let mut m = fresh();
    m.v[0] = 0x05;
    m.v[1] = 0x02;
    m.sub_vx_vy(0, 1);
    assert_eq!(m.v[0], 0x03);
    assert_eq!(m.v[15], 1); // no borrow
}

#[test]
fn subtract_reverse_uses_swapped_operands() {
    let mut m = fresh();
    m.v[0] = 0x02;
    m.v[1] = 0x05;
    m.subn_vx_vy(0, 1);
    assert_eq!(m.v[0], 0x03);
    assert_eq!(m.v[15], 1);

    let mut m2 = fresh();
    m2.v[0] = 0x05;
    m2.v[1] = 0x02;
    m2.subn_vx_vy(0, 1);
    assert_eq!(m2.v[0], 0xFD);
    assert_eq!(m2.v[15], 0);
}

#[test]
fn right_shift_from_x_when_quirk_off() {
    let mut m = fresh();
    m.v[4] = 0b0000_0011;
    m.rshft_vx_vy(4, 5);
    assert_eq!(m.v[4], 0b0000_0001);
    assert_eq!(m.v[15], 1); // the bit shifted out
}

#[test]
fn right_shift_from_y_when_quirk_on() {
    let mut m = Chip8::new(true);
    m.v[4] = 0xFF;
    m.v[5] = 0b0000_0100;
    m.rshft_vx_vy(4, 5);
    assert_eq!(m.v[4], 0b0000_0010);
    assert_eq!(m.v[15], 0);
}

#[test]
fn left_shift_reports_high_bit() {
    let mut m = fresh();
    m.v[2] = 0b1000_0001;
    m.lshft_vx_vy(2, 3);
    assert_eq!(m.v[2], 0b0000_0010);
    assert_eq!(m.v[15], 1);
}

#[test]
fn bcd_store_writes_digits() {
    let mut m = fresh();
    m.v[7] = 157;
    m.i = 0x300;
    assert_eq!(m.set_bcd_vx(7), Ok(()));
    assert_eq!(&m.memory[0x300..0x303], &[1, 5, 7]);
    assert_eq!(m.pc, 0x202);
}

#[test]
fn bcd_store_out_of_bounds_is_error() {
    let mut m = fresh();
    m.i = 4094;
    assert_eq!(
        m.set_bcd_vx(0),
        Err(ExecutionError::OutOfBounds { address: 4096 })
    );
    assert_eq!(m.pc, 0x200); // nothing happened
}

#[test]
fn block_store_then_load_round_trips() {
    let mut m = fresh();
    m.v[0] = 10;
    m.v[1] = 20;
    m.v[2] = 30;
    m.v[3] = 40;
    m.i = 0x400;
    assert_eq!(m.set_mem_regs(3), Ok(()));
    assert_eq!(m.i, 0x404); // pre-op value plus 4
    assert_eq!(&m.memory[0x400..0x404], &[10, 20, 30, 40]);

    m.i = 0x400;
    m.v[0] = 0;
    m.v[1] = 0;
    m.v[2] = 0;
    m.v[3] = 0;
    assert_eq!(m.fill_regs_mem(3), Ok(()));
    assert_eq!(m.i, 0x404); // pre-op value plus 4 again
    assert_eq!(m.v[0], 10);
    assert_eq!(m.v[1], 20);
    assert_eq!(m.v[2], 30);
    assert_eq!(m.v[3], 40);
    assert_eq!(m.v[4], 0); // registers past X untouched
}

#[test]
fn block_store_out_of_bounds_is_error() {
    let mut m = fresh();
    m.i = 4090;
    assert_eq!(
        m.set_mem_regs(15),
        Err(ExecutionError::OutOfBounds { address: 4105 })
    );
}

#[test]
fn block_load_out_of_bounds_is_error() {
    let mut m = fresh();
    m.i = 4095;
    assert_eq!(
        m.fill_regs_mem(1),
        Err(ExecutionError::OutOfBounds { address: 4096 })
    );
}

#[test]
fn call_pushes_and_return_pops() {
    let mut m = fresh();
    assert_eq!(m.pc, 0x200);
    assert_eq!(m.call_sub(0x300), Ok(()));
    assert_eq!(m.pc, 0x300);
    assert_eq!(m.stack.len(), 1);
    assert_eq!(m.stack[0], 0x200); // the pre-call program counter
    assert_eq!(m.ret(), Ok(()));
    assert_eq!(m.pc, 0x200); // exactly the pushed value
    assert_eq!(m.stack.len(), 0); // depth back to pre-call
}

#[test]
fn seventeenth_call_overflows_stack() {
    let mut m = fresh();
    for _ in 0..16 {
        assert_eq!(m.call_sub(0x300), Ok(()));
    }
    assert_eq!(m.stack.len(), 16);
    assert_eq!(m.call_sub(0x300), Err(ExecutionError::StackOverflow));
    assert_eq!(m.stack.len(), 16);
}

#[test]
fn empty_stack_return_underflows() {
    let mut m = fresh();
    assert_eq!(m.ret(), Err(ExecutionError::StackUnderflow));
    assert_eq!(m.pc, 0x200);
}

#[test]
fn skip_equal_immediate() {
    let mut m = fresh();
    m.v[3] = 0x42;
    m.se_vx(3, 0x42);
    assert_eq!(m.pc, 0x204);
    m.se_vx(3, 0x41);
    assert_eq!(m.pc, 0x206);
}

#[test]
fn skip_not_equal_immediate() {
    let mut m = fresh();
    m.v[3] = 0x42;
    m.sne_vx(3, 0x41);
    assert_eq!(m.pc, 0x204);
    m.sne_vx(3, 0x42);
    assert_eq!(m.pc, 0x206);
}

#[test]
fn skip_on_register_comparison() {
    let mut m = fresh();
    m.v[1] = 7;
    m.v[2] = 7;
    m.se_vx_vy(1, 2);
    assert_eq!(m.pc, 0x204);
    m.skip_ne_vx_vy(1, 2);
    assert_eq!(m.pc, 0x206);
    m.v[2] = 8;
    m.skip_ne_vx_vy(1, 2);
    assert_eq!(m.pc, 0x20A);
}

#[test]
fn bitwise_ops_have_no_flag_side_effect() {
    let mut m = fresh();
    m.v[0] = 0b1100;
    m.v[1] = 0b1010;
    m.v[15] = 0x77;
    m.or_vx_vy(0, 1);
    assert_eq!(m.v[0], 0b1110);
    m.v[0] = 0b1100;
    m.and_vx_vy(0, 1);
    assert_eq!(m.v[0], 0b1000);
    m.v[0] = 0b1100;
    m.xor_vx_vy(0, 1);
    assert_eq!(m.v[0], 0b0110);
    assert_eq!(m.v[15], 0x77); // flag untouched
    assert_eq!(m.pc, 0x206);
}

#[test]
fn font_sprite_addressing_uses_resident_table() {
    let mut m = fresh();
    // The font really is resident in low memory.
    assert_eq!(&m.memory[0..5], &[0xF0, 0x90, 0x90, 0x90, 0xF0]);
    assert_eq!(&m.memory[75..80], &[0xF0, 0x80, 0xF0, 0x80, 0x80]);
    m.v[6] = 0xA;
    m.set_i_sprite(6);
    assert_eq!(m.i, 50); // glyph A at 10 * 5
}

#[test]
fn add_to_index_wraps_at_16_bits() {
    let mut m = fresh();
    m.i = 0xFFFF;
    m.v[0] = 2;
    m.add_vx_to_i(0);
    assert_eq!(m.i, 1);
    assert_eq!(m.pc, 0x202);
}

#[test]
fn timers_load_and_store() {
    let mut m = fresh();
    m.v[2] = 9;
    m.set_vx_delay(2);
    assert_eq!(m.delay_timer, 9);
    m.set_vx_sound(2);
    assert_eq!(m.sound_timer, 9);
    m.set_delay(4);
    assert_eq!(m.v[4], 9);
    m.tick_timers();
    assert_eq!(m.delay_timer, 8);
    assert_eq!(m.sound_timer, 8);
    m.delay_timer = 0;
    m.tick_timers();
    assert_eq!(m.delay_timer, 0); // never below zero
    assert_eq!(m.sound_timer, 7);
}
