//! The mathematical statement of each instruction's semantics.
//!
//! Every instruction is described by a transition predicate over the
//! machine state before and after the step; the executable instruction
//! methods promise exactly these predicates, and the dispatcher's
//! contract ties each opcode pattern to the predicate of the instruction
//! it selects.

use vstd::prelude::*;

use crate::display::{spec_collision, spec_coord, spec_drawn_pixel};
use crate::errors::ExecutionError;
use crate::machine::{Chip8, WaitState};

verus! {

/// The opcode's high nibble.
pub open spec fn spec_hi(ops: u16) -> u16 {
    ops / 0x1000
}

/// The opcode's second nibble, the X register selector.
pub open spec fn spec_x(ops: u16) -> u16 {
    (ops / 0x100) % 0x10
}

/// The opcode's third nibble, the Y register selector.
pub open spec fn spec_y(ops: u16) -> u16 {
    (ops / 0x10) % 0x10
}

/// The opcode's low nibble.
pub open spec fn spec_n(ops: u16) -> u16 {
    ops % 0x10
}

/// The opcode's low byte, the 8-bit immediate.
pub open spec fn spec_nn(ops: u16) -> u8 {
    (ops % 0x100) as u8
}

/// The opcode's low 12 bits, the address immediate.
pub open spec fn spec_nnn(ops: u16) -> u16 {
    ops % 0x1000
}

/// Whether the opcode matches some dispatch pattern. An opcode outside
/// this set is reported as unimplemented, never treated as a no-op.
pub open spec fn spec_implemented(ops: u16) -> bool {
    let hi = spec_hi(ops);
    let n = spec_n(ops);
    let nn = spec_nn(ops);
    ||| ops == 0x00E0
    ||| ops == 0x00EE
    ||| hi == 0x1
    ||| hi == 0x2
    ||| hi == 0x3
    ||| hi == 0x4
    ||| (hi == 0x5 && n == 0)
    ||| hi == 0x6
    ||| hi == 0x7
    ||| (hi == 0x8 && (n == 0 || n == 1 || n == 2 || n == 3 || n == 4 || n == 5 || n == 6 || n == 7
        || n == 0xE))
    ||| (hi == 0x9 && n == 0)
    ||| hi == 0xA
    ||| hi == 0xB
    ||| hi == 0xC
    ||| hi == 0xD
    ||| (hi == 0xE && (nn == 0x9E || nn == 0xA1))
    ||| (hi == 0xF && (nn == 0x07 || nn == 0x0A || nn == 0x15 || nn == 0x18 || nn == 0x1E || nn
        == 0x29 || nn == 0x33 || nn == 0x55 || nn == 0x65))
}

/// Every component except the program counter is unchanged.
pub open spec fn eq_except_pc(pre: Chip8, post: Chip8) -> bool {
    &&& post.i == pre.i
    &&& post.v == pre.v
    &&& post.stack == pre.stack
    &&& post.memory == pre.memory
    &&& post.delay_timer == pre.delay_timer
    &&& post.sound_timer == pre.sound_timer
    &&& post.wait_for_key == pre.wait_for_key
    &&& post.shift_vy == pre.shift_vy
    &&& post.display == pre.display
    &&& post.keys == pre.keys
}

/// Every component except the program counter and the registers is
/// unchanged.
pub open spec fn eq_except_pc_v(pre: Chip8, post: Chip8) -> bool {
    &&& post.i == pre.i
    &&& post.stack == pre.stack
    &&& post.memory == pre.memory
    &&& post.delay_timer == pre.delay_timer
    &&& post.sound_timer == pre.sound_timer
    &&& post.wait_for_key == pre.wait_for_key
    &&& post.shift_vy == pre.shift_vy
    &&& post.display == pre.display
    &&& post.keys == pre.keys
}

/// Every component except the program counter and the index register is
/// unchanged.
pub open spec fn eq_except_pc_i(pre: Chip8, post: Chip8) -> bool {
    &&& post.v == pre.v
    &&& post.stack == pre.stack
    &&& post.memory == pre.memory
    &&& post.delay_timer == pre.delay_timer
    &&& post.sound_timer == pre.sound_timer
    &&& post.wait_for_key == pre.wait_for_key
    &&& post.shift_vy == pre.shift_vy
    &&& post.display == pre.display
    &&& post.keys == pre.keys
}

/// Every component except the program counter and the call stack is
/// unchanged.
pub open spec fn eq_except_pc_stack(pre: Chip8, post: Chip8) -> bool {
    &&& post.i == pre.i
    &&& post.v == pre.v
    &&& post.memory == pre.memory
    &&& post.delay_timer == pre.delay_timer
    &&& post.sound_timer == pre.sound_timer
    &&& post.wait_for_key == pre.wait_for_key
    &&& post.shift_vy == pre.shift_vy
    &&& post.display == pre.display
    &&& post.keys == pre.keys
}

/// Every component except the program counter and memory is unchanged.
pub open spec fn eq_except_pc_mem(pre: Chip8, post: Chip8) -> bool {
    &&& post.i == pre.i
    &&& post.v == pre.v
    &&& post.stack == pre.stack
    &&& post.delay_timer == pre.delay_timer
    &&& post.sound_timer == pre.sound_timer
    &&& post.wait_for_key == pre.wait_for_key
    &&& post.shift_vy == pre.shift_vy
    &&& post.display == pre.display
    &&& post.keys == pre.keys
}

/// Every component except the program counter, memory and the index
/// register is unchanged.
pub open spec fn eq_except_pc_mem_i(pre: Chip8, post: Chip8) -> bool {
    &&& post.v == pre.v
    &&& post.stack == pre.stack
    &&& post.delay_timer == pre.delay_timer
    &&& post.sound_timer == pre.sound_timer
    &&& post.wait_for_key == pre.wait_for_key
    &&& post.shift_vy == pre.shift_vy
    &&& post.display == pre.display
    &&& post.keys == pre.keys
}

/// Every component except the program counter, the registers and the
/// index register is unchanged.
pub open spec fn eq_except_pc_v_i(pre: Chip8, post: Chip8) -> bool {
    &&& post.stack == pre.stack
    &&& post.memory == pre.memory
    &&& post.delay_timer == pre.delay_timer
    &&& post.sound_timer == pre.sound_timer
    &&& post.wait_for_key == pre.wait_for_key
    &&& post.shift_vy == pre.shift_vy
    &&& post.display == pre.display
    &&& post.keys == pre.keys
}

/// Every component except the program counter and the delay timer is
/// unchanged.
pub open spec fn eq_except_pc_delay(pre: Chip8, post: Chip8) -> bool {
    &&& post.i == pre.i
    &&& post.v == pre.v
    &&& post.stack == pre.stack
    &&& post.memory == pre.memory
    &&& post.sound_timer == pre.sound_timer
    &&& post.wait_for_key == pre.wait_for_key
    &&& post.shift_vy == pre.shift_vy
    &&& post.display == pre.display
    &&& post.keys == pre.keys
}

/// Every component except the program counter and the sound timer is
/// unchanged.
pub open spec fn eq_except_pc_sound(pre: Chip8, post: Chip8) -> bool {
    &&& post.i == pre.i
    &&& post.v == pre.v
    &&& post.stack == pre.stack
    &&& post.memory == pre.memory
    &&& post.delay_timer == pre.delay_timer
    &&& post.wait_for_key == pre.wait_for_key
    &&& post.shift_vy == pre.shift_vy
    &&& post.display == pre.display
    &&& post.keys == pre.keys
}

/// Every component except the wait state is unchanged; in particular the
/// program counter still points at the waiting instruction.
pub open spec fn eq_except_wait(pre: Chip8, post: Chip8) -> bool {
    &&& post.i == pre.i
    &&& post.pc == pre.pc
    &&& post.v == pre.v
    &&& post.stack == pre.stack
    &&& post.memory == pre.memory
    &&& post.delay_timer == pre.delay_timer
    &&& post.sound_timer == pre.sound_timer
    &&& post.shift_vy == pre.shift_vy
    &&& post.display == pre.display
    &&& post.keys == pre.keys
}

/// Every component except the program counter and the display is
/// unchanged.
pub open spec fn eq_except_pc_display(pre: Chip8, post: Chip8) -> bool {
    &&& post.i == pre.i
    &&& post.v == pre.v
    &&& post.stack == pre.stack
    &&& post.memory == pre.memory
    &&& post.delay_timer == pre.delay_timer
    &&& post.sound_timer == pre.sound_timer
    &&& post.wait_for_key == pre.wait_for_key
    &&& post.shift_vy == pre.shift_vy
    &&& post.keys == pre.keys
}

/// Every component except the program counter, the registers and the
/// display is unchanged.
pub open spec fn eq_except_pc_v_display(pre: Chip8, post: Chip8) -> bool {
    &&& post.i == pre.i
    &&& post.stack == pre.stack
    &&& post.memory == pre.memory
    &&& post.delay_timer == pre.delay_timer
    &&& post.sound_timer == pre.sound_timer
    &&& post.wait_for_key == pre.wait_for_key
    &&& post.shift_vy == pre.shift_vy
    &&& post.keys == pre.keys
}

/// Clear screen: every pixel unset, program counter advanced by 2.
pub open spec fn t_cls(pre: Chip8, post: Chip8) -> bool {
    &&& post.display.screen@ == Seq::new(2048, |k: int| 0u8)
    &&& post.pc == pre.pc + 2
    &&& eq_except_pc_display(pre, post)
}

/// Return from subroutine: pops one address and jumps to it; an empty
/// stack is a `StackUnderflow`, leaving the machine unchanged.
pub open spec fn t_ret(pre: Chip8, post: Chip8, r: Result<(), ExecutionError>) -> bool {
    if pre.stack@.len() == 0 {
        &&& r == Err::<(), ExecutionError>(ExecutionError::StackUnderflow)
        &&& post == pre
    } else {
        &&& r == Ok::<(), ExecutionError>(())
        &&& post.pc == pre.stack@.last()
        &&& post.stack@ == pre.stack@.drop_last()
        &&& eq_except_pc_stack(pre, post)
    }
}

/// Jump: the program counter is set absolutely to the target address.
pub open spec fn t_jump(pre: Chip8, post: Chip8, addr: u16) -> bool {
    &&& post.pc == addr
    &&& eq_except_pc(pre, post)
}

/// Call: pushes the pre-call program counter and jumps to the target; a
/// full stack is a `StackOverflow`, leaving the machine unchanged.
pub open spec fn t_call(pre: Chip8, post: Chip8, addr: u16, r: Result<(), ExecutionError>) -> bool {
    if pre.stack@.len() >= 16 {
        &&& r == Err::<(), ExecutionError>(ExecutionError::StackOverflow)
        &&& post == pre
    } else {
        &&& r == Ok::<(), ExecutionError>(())
        &&& post.stack@ == pre.stack@.push(pre.pc)
        &&& post.pc == addr
        &&& eq_except_pc_stack(pre, post)
    }
}

/// Skip-if-equal against an immediate: the program counter advances by 4
/// when VX equals the immediate, else by 2.
pub open spec fn t_se(pre: Chip8, post: Chip8, x: int, nn: u8) -> bool {
    &&& post.pc == pre.pc + (if pre.v@[x] == nn {
        4int
    } else {
        2int
    })
    &&& eq_except_pc(pre, post)
}

/// Skip-if-not-equal against an immediate.
pub open spec fn t_sne(pre: Chip8, post: Chip8, x: int, nn: u8) -> bool {
    &&& post.pc == pre.pc + (if pre.v@[x] != nn {
        4int
    } else {
        2int
    })
    &&& eq_except_pc(pre, post)
}

/// Skip-if-equal between two registers.
pub open spec fn t_se_reg(pre: Chip8, post: Chip8, x: int, y: int) -> bool {
    &&& post.pc == pre.pc + (if pre.v@[x] == pre.v@[y] {
        4int
    } else {
        2int
    })
    &&& eq_except_pc(pre, post)
}

/// Skip-if-not-equal between two registers.
pub open spec fn t_sne_reg(pre: Chip8, post: Chip8, x: int, y: int) -> bool {
    &&& post.pc == pre.pc + (if pre.v@[x] != pre.v@[y] {
        4int
    } else {
        2int
    })
    &&& eq_except_pc(pre, post)
}

/// Load immediate: VX receives the immediate.
pub open spec fn t_ld_imm(pre: Chip8, post: Chip8, x: int, nn: u8) -> bool {
    &&& post.v@ == pre.v@.update(x, nn)
    &&& post.pc == pre.pc + 2
    &&& eq_except_pc_v(pre, post)
}

/// Add immediate: wrapping 8-bit add into VX, no flag side effect.
pub open spec fn t_add_imm(pre: Chip8, post: Chip8, x: int, nn: u8) -> bool {
    &&& post.v@ == pre.v@.update(x, ((pre.v@[x] + nn) % 256) as u8)
    &&& post.pc == pre.pc + 2
    &&& eq_except_pc_v(pre, post)
}

/// Register move: VX receives VY.
pub open spec fn t_mov(pre: Chip8, post: Chip8, x: int, y: int) -> bool {
    &&& post.v@ == pre.v@.update(x, pre.v@[y])
    &&& post.pc == pre.pc + 2
    &&& eq_except_pc_v(pre, post)
}

/// Bitwise OR into VX, no flag side effect.
pub open spec fn t_or(pre: Chip8, post: Chip8, x: int, y: int) -> bool {
    &&& post.v@ == pre.v@.update(x, pre.v@[x] | pre.v@[y])
    &&& post.pc == pre.pc + 2
    &&& eq_except_pc_v(pre, post)
}

/// Bitwise AND into VX, no flag side effect.
pub open spec fn t_and(pre: Chip8, post: Chip8, x: int, y: int) -> bool {
    &&& post.v@ == pre.v@.update(x, pre.v@[x] & pre.v@[y])
    &&& post.pc == pre.pc + 2
    &&& eq_except_pc_v(pre, post)
}

/// Bitwise XOR into VX, no flag side effect.
pub open spec fn t_xor(pre: Chip8, post: Chip8, x: int, y: int) -> bool {
    &&& post.v@ == pre.v@.update(x, pre.v@[x] ^ pre.v@[y])
    &&& post.pc == pre.pc + 2
    &&& eq_except_pc_v(pre, post)
}

/// Add register to register: 9-bit addition, the low 8 bits land in VX
/// and the flag register receives the carry bit.
pub open spec fn t_add_reg(pre: Chip8, post: Chip8, x: int, y: int) -> bool {
    let sum = pre.v@[x] + pre.v@[y];
    &&& post.v@ == pre.v@.update(x, (sum % 256) as u8).update(
        15,
        if sum > 255 {
            1u8
        } else {
            0u8
        },
    )
    &&& post.pc == pre.pc + 2
    &&& eq_except_pc_v(pre, post)
}

/// Subtract VY from VX, wrapping; the flag register is 1 exactly when no
/// borrow occurs (VX was at least VY), else 0.
pub open spec fn t_sub(pre: Chip8, post: Chip8, x: int, y: int) -> bool {
    let diff = (pre.v@[x] + 256 - pre.v@[y]) % 256;
    &&& post.v@ == pre.v@.update(x, diff as u8).update(
        15,
        if pre.v@[x] >= pre.v@[y] {
            1u8
        } else {
            0u8
        },
    )
    &&& post.pc == pre.pc + 2
    &&& eq_except_pc_v(pre, post)
}

/// Subtract-reverse: VX receives VY minus VX, wrapping, with the same
/// no-borrow flag convention.
pub open spec fn t_subn(pre: Chip8, post: Chip8, x: int, y: int) -> bool {
    let diff = (pre.v@[y] + 256 - pre.v@[x]) % 256;
    &&& post.v@ == pre.v@.update(x, diff as u8).update(
        15,
        if pre.v@[y] >= pre.v@[x] {
            1u8
        } else {
            0u8
        },
    )
    &&& post.pc == pre.pc + 2
    &&& eq_except_pc_v(pre, post)
}

/// The register a shift instruction reads its source operand from: VY
/// under the original quirk, VX otherwise.
pub open spec fn shift_src(pre: Chip8, x: int, y: int) -> int {
    if pre.shift_vy {
        y
    } else {
        x
    }
}

/// Shift right by one: the flag register receives the source's least
/// significant bit, VX receives the source halved.
pub open spec fn t_shr(pre: Chip8, post: Chip8, x: int, y: int) -> bool {
    let s = pre.v@[shift_src(pre, x, y)];
    &&& post.v@ == pre.v@.update(15, (s % 2) as u8).update(x, (s / 2) as u8)
    &&& post.pc == pre.pc + 2
    &&& eq_except_pc_v(pre, post)
}

/// Shift left by one: the flag register receives the source's most
/// significant bit, VX receives the source doubled modulo 256.
pub open spec fn t_shl(pre: Chip8, post: Chip8, x: int, y: int) -> bool {
    let s = pre.v@[shift_src(pre, x, y)];
    &&& post.v@ == pre.v@.update(15, (s / 128) as u8).update(x, ((s * 2) % 256) as u8)
    &&& post.pc == pre.pc + 2
    &&& eq_except_pc_v(pre, post)
}

/// Set index register to the address immediate.
pub open spec fn t_ld_i(pre: Chip8, post: Chip8, addr: u16) -> bool {
    &&& post.i == addr
    &&& post.pc == pre.pc + 2
    &&& eq_except_pc_i(pre, post)
}

/// Jump with offset: the program counter is set absolutely to the address
/// immediate plus V0.
pub open spec fn t_jump_v0(pre: Chip8, post: Chip8, addr: u16) -> bool {
    &&& post.pc == addr + pre.v@[0]
    &&& eq_except_pc(pre, post)
}

/// Random: VX receives some byte ANDed with the immediate mask.
pub open spec fn t_rnd(pre: Chip8, post: Chip8, x: int, nn: u8) -> bool {
    &&& exists|b: u8| post.v@ == pre.v@.update(x, b & nn)
    &&& post.pc == pre.pc + 2
    &&& eq_except_pc_v(pre, post)
}

/// Draw sprite: n rows read from memory at the index register are
/// XOR-composited at (VX mod 64, VY mod 32); the flag register records
/// whether any set pixel was unset. Reading past memory is an
/// `OutOfBounds` error that leaves the machine unchanged.
pub open spec fn t_draw(
    pre: Chip8,
    post: Chip8,
    x: int,
    y: int,
    n: int,
    r: Result<(), ExecutionError>,
) -> bool {
    if n > 0 && pre.i + n > 4096 {
        &&& r == Err::<(), ExecutionError>(
            ExecutionError::OutOfBounds { address: (pre.i + n - 1) as usize },
        )
        &&& post == pre
    } else {
        let rows = if n == 0 {
            Seq::<u8>::empty()
        } else {
            pre.memory@.subrange(pre.i as int, pre.i + n)
        };
        let px = pre.v@[x] % 64;
        let py = pre.v@[y] % 32;
        let coll = spec_collision(pre.display.screen@, rows, px as int, py as int);
        &&& r == Ok::<(), ExecutionError>(())
        &&& post.display.screen@.len() == 2048
        &&& forall|cx: int, cy: int|
            0 <= cx < 64 && 0 <= cy < 32 ==> post.display.screen@[spec_coord(cx, cy)]
                == spec_drawn_pixel(
                pre.display.screen@,
                rows,
                px as int,
                py as int,
                cx,
                cy,
            )
        &&& post.v@ == pre.v@.update(
            15,
            if coll {
                1u8
            } else {
                0u8
            },
        )
        &&& post.pc == pre.pc + 2
        &&& eq_except_pc_v_display(pre, post)
    }
}

/// The keypad key a key-skip instruction tests: the low nibble of VX.
pub open spec fn key_of(pre: Chip8, x: int) -> int {
    (pre.v@[x] % 16) as int
}

/// Skip if the key named by VX is pressed in the keypad snapshot.
pub open spec fn t_skp(pre: Chip8, post: Chip8, x: int) -> bool {
    &&& post.pc == pre.pc + (if pre.keys@[key_of(pre, x)] {
        4int
    } else {
        2int
    })
    &&& eq_except_pc(pre, post)
}

/// Skip if the key named by VX is not pressed in the keypad snapshot.
pub open spec fn t_sknp(pre: Chip8, post: Chip8, x: int) -> bool {
    &&& post.pc == pre.pc + (if !pre.keys@[key_of(pre, x)] {
        4int
    } else {
        2int
    })
    &&& eq_except_pc(pre, post)
}

/// Load the delay timer into VX.
pub open spec fn t_ld_delay(pre: Chip8, post: Chip8, x: int) -> bool {
    &&& post.v@ == pre.v@.update(x, pre.delay_timer)
    &&& post.pc == pre.pc + 2
    &&& eq_except_pc_v(pre, post)
}

/// Wait for key: execution pauses with register X pending; the program
/// counter does not advance until the host resumes with a key code.
pub open spec fn t_wait(pre: Chip8, post: Chip8, x: int) -> bool {
    &&& post.wait_for_key == (WaitState::AwaitingKey { reg: x as u8 })
    &&& eq_except_wait(pre, post)
}

/// Set the delay timer from VX.
pub open spec fn t_st_delay(pre: Chip8, post: Chip8, x: int) -> bool {
    &&& post.delay_timer == pre.v@[x]
    &&& post.pc == pre.pc + 2
    &&& eq_except_pc_delay(pre, post)
}

/// Set the sound timer from VX.
pub open spec fn t_st_sound(pre: Chip8, post: Chip8, x: int) -> bool {
    &&& post.sound_timer == pre.v@[x]
    &&& post.pc == pre.pc + 2
    &&& eq_except_pc_sound(pre, post)
}

/// Add VX to the index register, wrapping at 16 bits.
pub open spec fn t_add_i(pre: Chip8, post: Chip8, x: int) -> bool {
    &&& post.i == ((pre.i + pre.v@[x]) % 0x10000) as u16
    &&& post.pc == pre.pc + 2
    &&& eq_except_pc_i(pre, post)
}

/// Set the index register to the resident font sprite for the value of
/// VX; each glyph occupies 5 bytes.
pub open spec fn t_font(pre: Chip8, post: Chip8, x: int) -> bool {
    &&& post.i == pre.v@[x] * 5
    &&& post.pc == pre.pc + 2
    &&& eq_except_pc_i(pre, post)
}

/// BCD store: the hundreds, tens and units digits of VX land at
/// addresses I, I+1 and I+2; an access past memory is an `OutOfBounds`
/// error that leaves the machine unchanged.
pub open spec fn t_bcd(pre: Chip8, post: Chip8, x: int, r: Result<(), ExecutionError>) -> bool {
    if pre.i + 2 >= 4096 {
        &&& r == Err::<(), ExecutionError>(
            ExecutionError::OutOfBounds { address: (pre.i + 2) as usize },
        )
        &&& post == pre
    } else {
        let vx = pre.v@[x];
        &&& r == Ok::<(), ExecutionError>(())
        &&& post.memory@ == pre.memory@.update(pre.i as int, (vx / 100) as u8).update(
            pre.i + 1,
            ((vx / 10) % 10) as u8,
        ).update(pre.i + 2, (vx % 10) as u8)
        &&& post.pc == pre.pc + 2
        &&& eq_except_pc_mem(pre, post)
    }
}

/// Block store: registers V0 to VX land at memory I onward, and the index
/// register advances past the stored block; an access past memory is an
/// `OutOfBounds` error that leaves the machine unchanged.
pub open spec fn t_store_regs(
    pre: Chip8,
    post: Chip8,
    x: int,
    r: Result<(), ExecutionError>,
) -> bool {
    if pre.i + x >= 4096 {
        &&& r == Err::<(), ExecutionError>(
            ExecutionError::OutOfBounds { address: (pre.i + x) as usize },
        )
        &&& post == pre
    } else {
        &&& r == Ok::<(), ExecutionError>(())
        &&& post.memory@.len() == 4096
        &&& forall|a: int|
            0 <= a < 4096 ==> post.memory@[a] == (if pre.i <= a <= pre.i + x {
                pre.v@[a - pre.i]
            } else {
                pre.memory@[a]
            })
        &&& post.i == pre.i + x + 1
        &&& post.pc == pre.pc + 2
        &&& eq_except_pc_mem_i(pre, post)
    }
}

/// Block load: registers V0 to VX receive memory I onward, and the index
/// register advances past the loaded block; an access past memory is an
/// `OutOfBounds` error that leaves the machine unchanged.
pub open spec fn t_load_regs(
    pre: Chip8,
    post: Chip8,
    x: int,
    r: Result<(), ExecutionError>,
) -> bool {
    if pre.i + x >= 4096 {
        &&& r == Err::<(), ExecutionError>(
            ExecutionError::OutOfBounds { address: (pre.i + x) as usize },
        )
        &&& post == pre
    } else {
        &&& r == Ok::<(), ExecutionError>(())
        &&& post.v@.len() == 16
        &&& forall|k: int|
            0 <= k < 16 ==> post.v@[k] == (if k <= x {
                pre.memory@[pre.i + k]
            } else {
                pre.v@[k]
            })
        &&& post.i == pre.i + x + 1
        &&& post.pc == pre.pc + 2
        &&& eq_except_pc_v_i(pre, post)
    }
}

/// The dispatcher's whole contract: for the opcode `ops`, the machine
/// transition and result follow the one instruction whose pattern
/// matches, and an opcode matching no pattern yields
/// `UnimplementedOpcode` with the machine unchanged.
pub open spec fn dispatch_spec(
    pre: Chip8,
    ops: u16,
    post: Chip8,
    r: Result<(), ExecutionError>,
) -> bool {
    let hi = spec_hi(ops);
    let x = spec_x(ops) as int;
    let y = spec_y(ops) as int;
    let n = spec_n(ops);
    let nn = spec_nn(ops);
    let nnn = spec_nnn(ops);
    &&& (ops == 0x00E0 ==> t_cls(pre, post) && r == Ok::<(), ExecutionError>(()))
    &&& (ops == 0x00EE ==> t_ret(pre, post, r))
    &&& (hi == 0x1 ==> t_jump(pre, post, nnn) && r == Ok::<(), ExecutionError>(()))
    &&& (hi == 0x2 ==> t_call(pre, post, nnn, r))
    &&& (hi == 0x3 ==> t_se(pre, post, x, nn) && r == Ok::<(), ExecutionError>(()))
    &&& (hi == 0x4 ==> t_sne(pre, post, x, nn) && r == Ok::<(), ExecutionError>(()))
    &&& (hi == 0x5 && n == 0 ==> t_se_reg(pre, post, x, y) && r == Ok::<(), ExecutionError>(()))
    &&& (hi == 0x6 ==> t_ld_imm(pre, post, x, nn) && r == Ok::<(), ExecutionError>(()))
    &&& (hi == 0x7 ==> t_add_imm(pre, post, x, nn) && r == Ok::<(), ExecutionError>(()))
    &&& (hi == 0x8 && n == 0x0 ==> t_mov(pre, post, x, y) && r == Ok::<(), ExecutionError>(()))
    &&& (hi == 0x8 && n == 0x1 ==> t_or(pre, post, x, y) && r == Ok::<(), ExecutionError>(()))
    &&& (hi == 0x8 && n == 0x2 ==> t_and(pre, post, x, y) && r == Ok::<(), ExecutionError>(()))
    &&& (hi == 0x8 && n == 0x3 ==> t_xor(pre, post, x, y) && r == Ok::<(), ExecutionError>(()))
    &&& (hi == 0x8 && n == 0x4 ==> t_add_reg(pre, post, x, y) && r == Ok::<(), ExecutionError>(()))
    &&& (hi == 0x8 && n == 0x5 ==> t_sub(pre, post, x, y) && r == Ok::<(), ExecutionError>(()))
    &&& (hi == 0x8 && n == 0x6 ==> t_shr(pre, post, x, y) && r == Ok::<(), ExecutionError>(()))
    &&& (hi == 0x8 && n == 0x7 ==> t_subn(pre, post, x, y) && r == Ok::<(), ExecutionError>(()))
    &&& (hi == 0x8 && n == 0xE ==> t_shl(pre, post, x, y) && r == Ok::<(), ExecutionError>(()))
    &&& (hi == 0x9 && n == 0 ==> t_sne_reg(pre, post, x, y) && r == Ok::<(), ExecutionError>(()))
    &&& (hi == 0xA ==> t_ld_i(pre, post, nnn) && r == Ok::<(), ExecutionError>(()))
    &&& (hi == 0xB ==> t_jump_v0(pre, post, nnn) && r == Ok::<(), ExecutionError>(()))
    &&& (hi == 0xC ==> t_rnd(pre, post, x, nn) && r == Ok::<(), ExecutionError>(()))
    &&& (hi == 0xD ==> t_draw(pre, post, x, y, n as int, r))
    &&& (hi == 0xE && nn == 0x9E ==> t_skp(pre, post, x) && r == Ok::<(), ExecutionError>(()))
    &&& (hi == 0xE && nn == 0xA1 ==> t_sknp(pre, post, x) && r == Ok::<(), ExecutionError>(()))
    &&& (hi == 0xF && nn == 0x07 ==> t_ld_delay(pre, post, x) && r == Ok::<(), ExecutionError>(()))
    &&& (hi == 0xF && nn == 0x0A ==> t_wait(pre, post, x) && r == Ok::<(), ExecutionError>(()))
    &&& (hi == 0xF && nn == 0x15 ==> t_st_delay(pre, post, x) && r == Ok::<(), ExecutionError>(()))
    &&& (hi == 0xF && nn == 0x18 ==> t_st_sound(pre, post, x) && r == Ok::<(), ExecutionError>(()))
    &&& (hi == 0xF && nn == 0x1E ==> t_add_i(pre, post, x) && r == Ok::<(), ExecutionError>(()))
    &&& (hi == 0xF && nn == 0x29 ==> t_font(pre, post, x) && r == Ok::<(), ExecutionError>(()))
    &&& (hi == 0xF && nn == 0x33 ==> t_bcd(pre, post, x, r))
    &&& (hi == 0xF && nn == 0x55 ==> t_store_regs(pre, post, x, r))
    &&& (hi == 0xF && nn == 0x65 ==> t_load_regs(pre, post, x, r))
    &&& (!spec_implemented(ops) ==> post == pre && r == Err::<(), ExecutionError>(
        ExecutionError::UnimplementedOpcode { opcode: ops, pc: pre.pc },
    ))
}

} // verus!
