//! Tests for the fetch-decode-execute cycle, the dispatcher's error
//! reporting, the wait-for-key state machine, the display, and the
//! host-facing state management.

use chip8::display::Display;
use chip8::errors::ExecutionError;
use chip8::machine::{Chip8, WaitState};

fn fresh() -> Chip8 {
    Chip8::new(false)
}

/// Places one opcode at the program counter.
fn poke_opcode(m: &mut Chip8, addr: usize, ops: u16) {
    m.memory[addr] = (ops >> 8) as u8;
    m.memory[addr + 1] = (ops & 0xFF) as u8;
}

#[test]
fn fetch_combines_bytes_big_endian() {
    let mut m = fresh();
    poke_opcode(&mut m, 0x200, 0x6A42);
    assert_eq!(m.get_opcode(), Ok(0x6A42));
}

#[test]
fn fetch_at_end_of_memory_is_error() {
    let mut m = fresh();
    m.pc = 4095;
    assert_eq!(
        m.get_opcode(),
        Err(ExecutionError::OutOfBounds { address: 4096 })
    );
    assert_eq!(
        m.execute_cycle(),
        Err(ExecutionError::OutOfBounds { address: 4096 })
    );
}

#[test]
fn unmatched_opcode_reports_opcode_and_pc() {
    let mut m = fresh();
    poke_opcode(&mut m, 0x200, 0x0123); // no pattern matches 0x0123
    assert_eq!(
        m.execute_cycle(),
        Err(ExecutionError::UnimplementedOpcode {
            opcode: 0x0123,
            pc: 0x200
        })
    );
    assert_eq!(m.pc, 0x200);

    let mut m2 = fresh();
    m2.pc = 0x208;
    assert_eq!(
        m2.check_opcode(0x5121), // 5xy1 is a reserved bit pattern
        Err(ExecutionError::UnimplementedOpcode {
            opcode: 0x5121,
            pc: 0x208
        })
    );
    assert_eq!(
        m2.check_opcode(0x8ABF),
        Err(ExecutionError::UnimplementedOpcode {
            opcode: 0x8ABF,
            pc: 0x208
        })
    );
    assert_eq!(
        m2.check_opcode(0xF0FF),
        Err(ExecutionError::UnimplementedOpcode {
            opcode: 0xF0FF,
            pc: 0x208
        })
    );
}

#[test]
fn small_program_executes() {
    let mut m = fresh();
    let rom: Vec<u8> = vec![
        0x61, 0x05, // V1 = 5
        0x71, 0x03, // V1 += 3
        0x82, 0x10, // V2 = V1
        0x12, 0x00, // jump back to 0x200
    ];
    assert_eq!(m.load_rom(&rom), Ok(()));
    assert_eq!(m.execute_cycle(), Ok(()));
    assert_eq!(m.v[1], 5);
    assert_eq!(m.execute_cycle(), Ok(()));
    assert_eq!(m.v[1], 8);
    assert_eq!(m.execute_cycle(), Ok(()));
    assert_eq!(m.v[2], 8);
    assert_eq!(m.pc, 0x206);
    assert_eq!(m.execute_cycle(), Ok(()));
    assert_eq!(m.pc, 0x200);
}

#[test]
fn add_immediate_wraps_without_flag() {
    let mut m = fresh();
    m.v[1] = 250;
    m.v[15] = 0x33;
    assert_eq!(m.check_opcode(0x710A), Ok(()));
    assert_eq!(m.v[1], 4); // (250 + 10) mod 256
    assert_eq!(m.v[15], 0x33); // no flag side effect
}

#[test]
fn jump_with_offset_adds_v0() {
    let mut m = fresh();
    m.v[0] = 0x10;
    assert_eq!(m.check_opcode(0xB300), Ok(()));
    assert_eq!(m.pc, 0x310);
}

#[test]
fn random_respects_mask() {
    let mut m = fresh();
    m.v[5] = 0xAA;
    assert_eq!(m.check_opcode(0xC500), Ok(())); // mask 0x00 forces 0
    assert_eq!(m.v[5], 0);
    assert_eq!(m.pc, 0x202);
    for _ in 0..32 {
        assert_eq!(m.check_opcode(0xC60F), Ok(()));
        assert_eq!(m.v[6] & 0xF0, 0); // high nibble always masked off
    }
}

#[test]
fn wait_for_key_suspends_until_resumed() {
    let mut m = fresh();
    poke_opcode(&mut m, 0x200, 0xF30A); // wait for key into V3
    assert_eq!(m.execute_cycle(), Ok(()));
    assert_eq!(m.pc, 0x200); // no advancement
    assert_eq!(m.wait_for_key, WaitState::AwaitingKey { reg: 3 });
    // Repeated steps are pure no-ops while blocked.
    assert_eq!(m.execute_cycle(), Ok(()));
    assert_eq!(m.execute_cycle(), Ok(()));
    assert_eq!(m.pc, 0x200);
    assert_eq!(m.wait_for_key, WaitState::AwaitingKey { reg: 3 });
    m.resume_with_key(0xB);
    assert_eq!(m.v[3], 0xB);
    assert_eq!(m.pc, 0x202); // advanced by exactly 2 from before the wait
    assert_eq!(m.wait_for_key, WaitState::Running);
}

#[test]
fn resume_without_pending_wait_is_ignored() {
    let mut m = fresh();
    m.resume_with_key(0x4);
    assert_eq!(m.pc, 0x200);
    assert_eq!(m.v[4], 0);
    assert_eq!(m.wait_for_key, WaitState::Running);
}

#[test]
fn key_skips_follow_snapshot() {
    let mut m = fresh();
    m.v[2] = 0x7;
    m.set_key(0x7, true);
    assert_eq!(m.check_opcode(0xE29E), Ok(())); // skip if pressed
    assert_eq!(m.pc, 0x204);
    assert_eq!(m.check_opcode(0xE2A1), Ok(())); // skip if not pressed
    assert_eq!(m.pc, 0x206);
    m.set_key(0x7, false);
    assert_eq!(m.check_opcode(0xE29E), Ok(()));
    assert_eq!(m.pc, 0x208);
    assert_eq!(m.check_opcode(0xE2A1), Ok(()));
    assert_eq!(m.pc, 0x20C);
}

#[test]
fn draw_sets_pixels_and_reports_collision_on_erase() {
    let mut m = fresh();
    // Draw the resident glyph 0 (5 rows at address 0) at (0, 0).
    m.i = 0;
    m.v[0] = 0;
    m.v[1] = 0;
    assert_eq!(m.check_opcode(0xD015), Ok(()));
    assert_eq!(m.v[15], 0); // nothing was erased
    // Top row of glyph 0 is 0xF0: four set pixels.
    assert_eq!(&m.display.screen[0..8], &[1, 1, 1, 1, 0, 0, 0, 0]);
    // Drawing the same sprite again erases everything it set.
    assert_eq!(m.check_opcode(0xD015), Ok(()));
    assert_eq!(m.v[15], 1); // collision
    assert!(m.display.screen.iter().all(|&p| p == 0));
}

#[test]
fn draw_wraps_start_coordinates() {
    let mut m = fresh();
    m.i = 0;
    m.v[0] = 64; // wraps to column 0
    m.v[1] = 33; // wraps to row 1
    assert_eq!(m.check_opcode(0xD011), Ok(()));
    assert_eq!(
        &m.display.screen[Display::get_coord(0, 1)..Display::get_coord(8, 1)],
        &[1, 1, 1, 1, 0, 0, 0, 0]
    );
}

#[test]
fn draw_reading_past_memory_is_error() {
    let mut m = fresh();
    m.i = 4093;
    assert_eq!(
        m.check_opcode(0xD015),
        Err(ExecutionError::OutOfBounds { address: 4097 })
    );
    assert_eq!(m.pc, 0x200);
}

#[test]
fn clear_screen_unsets_every_pixel() {
    let mut m = fresh();
    m.i = 0;
    assert_eq!(m.check_opcode(0xD013), Ok(()));
    assert!(m.display.screen.iter().any(|&p| p == 1));
    assert_eq!(m.check_opcode(0x00E0), Ok(()));
    assert!(m.display.screen.iter().all(|&p| p == 0));
    assert_eq!(m.pc, 0x204);
}

#[test]
fn subroutine_return_opcode_pops_stack() {
    let mut m = fresh();
    poke_opcode(&mut m, 0x200, 0x2400); // call 0x400
    poke_opcode(&mut m, 0x400, 0x00EE); // return
    assert_eq!(m.execute_cycle(), Ok(()));
    assert_eq!(m.pc, 0x400);
    assert_eq!(m.execute_cycle(), Ok(()));
    assert_eq!(m.pc, 0x200);
    assert_eq!(m.stack.len(), 0);
}

#[test]
fn load_rom_writes_at_load_address() {
    let mut m = fresh();
    m.memory[0x1FF] = 0xEE;
    let rom: Vec<u8> = vec![0xAB, 0xCD];
    assert_eq!(m.load_rom(&rom), Ok(()));
    assert_eq!(m.memory[0x200], 0xAB);
    assert_eq!(m.memory[0x201], 0xCD);
    assert_eq!(m.memory[0x1FF], 0xEE); // bytes below the load address kept
}

#[test]
fn load_rom_rejects_overflow() {
    let mut m = fresh();
    let rom: Vec<u8> = vec![0u8; 4096 - 0x200 + 1];
    assert_eq!(
        m.load_rom(&rom),
        Err(ExecutionError::OutOfBounds { address: 4096 })
    );
    let exact: Vec<u8> = vec![7u8; 4096 - 0x200];
    assert_eq!(m.load_rom(&exact), Ok(()));
    assert_eq!(m.memory[4095], 7);
}

#[test]
fn reset_preserves_memory_and_timers() {
    let mut m = fresh();
    let rom: Vec<u8> = vec![0x61, 0x05];
    assert_eq!(m.load_rom(&rom), Ok(()));
    assert_eq!(m.execute_cycle(), Ok(()));
    m.i = 0x123;
    m.delay_timer = 42;
    assert_eq!(m.call_sub(0x300), Ok(()));
    m.reset();
    assert_eq!(m.pc, 0x200);
    assert_eq!(m.i, 0);
    assert_eq!(m.stack.len(), 0);
    assert!(m.v.iter().all(|&r| r == 0));
    assert_eq!(m.memory[0x200], 0x61); // the program survives
    assert_eq!(m.delay_timer, 42);
}

#[test]
fn display_coord_is_row_major() {
    assert_eq!(Display::get_coord(0, 0), 0);
    assert_eq!(Display::get_coord(63, 0), 63);
    assert_eq!(Display::get_coord(0, 1), 64);
    assert_eq!(Display::get_coord(63, 31), 2047);
    let d = Display::new();
    assert_eq!(d.screen.len(), 2048);
    assert!(d.screen.iter().all(|&p| p == 0));
}

#[test]
fn register_accessors_round_trip() {
    let mut m = fresh();
    m.set_reg_vn(9, 0x5C);
    assert_eq!(m.read_reg_vn(9), 0x5C);
    assert_eq!(m.pc, 0x202);
    m.set_i_addr(0x7FF);
    assert_eq!(m.i, 0x7FF);
}
