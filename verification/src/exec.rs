//! The executable instruction set: one method per instruction, each
//! proved against its transition predicate, plus the opcode dispatcher
//! and the per-cycle step entry point.

use vstd::prelude::*;

use crate::errors::ExecutionError;
use crate::machine::{Chip8, WaitState, FLAG, MEMORY_SIZE, STACK_SIZE};
use crate::semantics::{
    dispatch_spec, spec_hi, spec_implemented, spec_n, spec_nn, spec_nnn, spec_x, spec_y, t_add_i,
    t_add_imm, t_add_reg, t_and, t_bcd, t_call, t_cls, t_draw, t_font, t_jump, t_jump_v0,
    t_ld_delay, t_ld_i, t_ld_imm, t_load_regs, t_mov, t_or, t_ret, t_rnd, t_se, t_se_reg, t_shl,
    t_shr, t_skp, t_sknp, t_sne, t_sne_reg, t_st_delay, t_st_sound, t_store_regs, t_sub, t_subn,
    t_wait, t_xor,
};

verus! {

/// Relies on rand::random: one uniformly distributed value per call.
/// Nothing is promised of which value comes back.
pub assume_specification<T>[ rand::random::<T> ]() -> (r: T)
    where
        rand::distributions::Standard: rand::distributions::Distribution<T>,
;

impl Chip8 {
    /// Clear screen: unsets every pixel.
    pub fn cls(&mut self)
        requires
            old(self).wf(),
            old(self).pc + 2 <= u16::MAX,
        ensures
            final(self).wf(),
            t_cls(*old(self), *final(self)),
    {
        self.display.clear();
        self.pc = self.pc + 2;
    }

    /// Return from subroutine: pops the stored address into the program
    /// counter; an empty stack is a `StackUnderflow`.
    pub fn ret(&mut self) -> (r: Result<(), ExecutionError>)
        requires
            old(self).wf(),
        ensures
            final(self).wf(),
            t_ret(*old(self), *final(self), r),
    {
        if self.stack.len() == 0 {
            return Err(ExecutionError::StackUnderflow);
        }
        match self.stack.pop() {
            None => {
                proof {
                    assert(false);
                }
                Err(ExecutionError::StackUnderflow)
            },
            Some(addr) => {
                self.pc = addr;
                Ok(())
            },
        }
    }

    /// Jump: sets the program counter to `addr`.
    pub fn jump_addr(&mut self, addr: u16)
        requires
            old(self).wf(),
        ensures
            final(self).wf(),
            t_jump(*old(self), *final(self), addr),
    {
        self.pc = addr;
    }

    /// Call subroutine: pushes the current program counter and jumps; a
    /// full stack is a `StackOverflow`.
    pub fn call_sub(&mut self, addr: u16) -> (r: Result<(), ExecutionError>)
        requires
            old(self).wf(),
        ensures
            final(self).wf(),
            t_call(*old(self), *final(self), addr, r),
    {
        if self.stack.len() >= STACK_SIZE {
            return Err(ExecutionError::StackOverflow);
        }
        self.stack.push(self.pc);
        self.pc = addr;
        Ok(())
    }

    /// Skip the next instruction if VX equals the immediate.
    pub fn se_vx(&mut self, x: u8, nn: u8)
        requires
            old(self).wf(),
            x < 16,
            old(self).pc + 4 <= u16::MAX,
        ensures
            final(self).wf(),
            t_se(*old(self), *final(self), x as int, nn),
    {
        self.pc = self.pc + (if self.v[x as usize] == nn {
            4
        } else {
            2
        });
    }

    /// Skip the next instruction if VX differs from the immediate.
    pub fn sne_vx(&mut self, x: u8, nn: u8)
        requires
            old(self).wf(),
            x < 16,
            old(self).pc + 4 <= u16::MAX,
        ensures
            final(self).wf(),
            t_sne(*old(self), *final(self), x as int, nn),
    {
        self.pc = self.pc + (if self.v[x as usize] != nn {
            4
        } else {
            2
        });
    }

    /// Skip the next instruction if VX equals VY.
    pub fn se_vx_vy(&mut self, x: u8, y: u8)
        requires
            old(self).wf(),
            x < 16,
            y < 16,
            old(self).pc + 4 <= u16::MAX,
        ensures
            final(self).wf(),
            t_se_reg(*old(self), *final(self), x as int, y as int),
    {
        self.pc = self.pc + (if self.v[x as usize] == self.v[y as usize] {
            4
        } else {
            2
        });
    }

    /// Skip the next instruction if VX differs from VY.
    pub fn skip_ne_vx_vy(&mut self, x: u8, y: u8)
        requires
            old(self).wf(),
            x < 16,
            y < 16,
            old(self).pc + 4 <= u16::MAX,
        ensures
            final(self).wf(),
            t_sne_reg(*old(self), *final(self), x as int, y as int),
    {
        self.pc = self.pc + (if self.v[x as usize] != self.v[y as usize] {
            4
        } else {
            2
        });
    }

    /// Bitwise OR of VY into VX.
    pub fn or_vx_vy(&mut self, x: u8, y: u8)
        requires
            old(self).wf(),
            x < 16,
            y < 16,
            old(self).pc + 2 <= u16::MAX,
        ensures
            final(self).wf(),
            t_or(*old(self), *final(self), x as int, y as int),
    {
        let val: u8 = self.v[x as usize] | self.v[y as usize];
        self.v.set(x as usize, val);
        self.pc = self.pc + 2;
    }

    /// Bitwise AND of VY into VX.
    pub fn and_vx_vy(&mut self, x: u8, y: u8)
        requires
            old(self).wf(),
            x < 16,
            y < 16,
            old(self).pc + 2 <= u16::MAX,
        ensures
            final(self).wf(),
            t_and(*old(self), *final(self), x as int, y as int),
    {
        let val: u8 = self.v[x as usize] & self.v[y as usize];
        self.v.set(x as usize, val);
        self.pc = self.pc + 2;
    }

    /// Bitwise XOR of VY into VX.
    pub fn xor_vx_vy(&mut self, x: u8, y: u8)
        requires
            old(self).wf(),
            x < 16,
            y < 16,
            old(self).pc + 2 <= u16::MAX,
        ensures
            final(self).wf(),
            t_xor(*old(self), *final(self), x as int, y as int),
    {
        let val: u8 = self.v[x as usize] ^ self.v[y as usize];
        self.v.set(x as usize, val);
        self.pc = self.pc + 2;
    }

    /// Add VY to VX: 9-bit addition, low 8 bits into VX, carry into the
    /// flag register.
    pub fn add_vx_vy(&mut self, x: u8, y: u8)
        requires
            old(self).wf(),
            x < 16,
            y < 16,
            old(self).pc + 2 <= u16::MAX,
        ensures
            final(self).wf(),
            t_add_reg(*old(self), *final(self), x as int, y as int),
    {
        let sum: u16 = self.v[x as usize] as u16 + self.v[y as usize] as u16;
        self.v.set(x as usize, (sum % 256) as u8);
        self.v.set(FLAG, if sum > 255 {
            1
        } else {
            0
        });
        self.pc = self.pc + 2;
    }

    /// Subtract VY from VX, wrapping; the flag register is 1 exactly when
    /// no borrow occurs.
    pub fn sub_vx_vy(&mut self, x: u8, y: u8)
        requires
            old(self).wf(),
            x < 16,
            y < 16,
            old(self).pc + 2 <= u16::MAX,
        ensures
            final(self).wf(),
            t_sub(*old(self), *final(self), x as int, y as int),
    {
        let a: u8 = self.v[x as usize];
        let b: u8 = self.v[y as usize];
        let diff: u8 = if a >= b {
            a - b
        } else {
            (a as u16 + 256 - b as u16) as u8
        };
        self.v.set(x as usize, diff);
        self.v.set(FLAG, if a >= b {
            1
        } else {
            0
        });
        self.pc = self.pc + 2;
    }

    /// Subtract-reverse: VX receives VY minus VX, wrapping, with the same
    /// no-borrow flag convention.
    pub fn subn_vx_vy(&mut self, x: u8, y: u8)
        requires
            old(self).wf(),
            x < 16,
            y < 16,
            old(self).pc + 2 <= u16::MAX,
        ensures
            final(self).wf(),
            t_subn(*old(self), *final(self), x as int, y as int),
    {
        let a: u8 = self.v[x as usize];
        let b: u8 = self.v[y as usize];
        let diff: u8 = if b >= a {
            b - a
        } else {
            (b as u16 + 256 - a as u16) as u8
        };
        self.v.set(x as usize, diff);
        self.v.set(FLAG, if b >= a {
            1
        } else {
            0
        });
        self.pc = self.pc + 2;
    }

    /// Shift right by one: the flag register receives the source's least
    /// significant bit; the source is VY or VX per the quirk flag.
    pub fn rshft_vx_vy(&mut self, x: u8, y: u8)
        requires
            old(self).wf(),
            x < 16,
            y < 16,
            old(self).pc + 2 <= u16::MAX,
        ensures
            final(self).wf(),
            t_shr(*old(self), *final(self), x as int, y as int),
    {
        let src: u8 = if self.shift_vy {
            y
        } else {
            x
        };
        let s: u8 = self.v[src as usize];
        self.v.set(FLAG, s % 2);
        self.v.set(x as usize, s / 2);
        self.pc = self.pc + 2;
    }

    /// Shift left by one: the flag register receives the source's most
    /// significant bit; the source is VY or VX per the quirk flag.
    pub fn lshft_vx_vy(&mut self, x: u8, y: u8)
        requires
            old(self).wf(),
            x < 16,
            y < 16,
            old(self).pc + 2 <= u16::MAX,
        ensures
            final(self).wf(),
            t_shl(*old(self), *final(self), x as int, y as int),
    {
        let src: u8 = if self.shift_vy {
            y
        } else {
            x
        };
        let s: u8 = self.v[src as usize];
        self.v.set(FLAG, s / 128);
        self.v.set(x as usize, ((s as u16 * 2) % 256) as u8);
        self.pc = self.pc + 2;
    }

    /// Set the index register to the address immediate.
    pub fn set_i_addr(&mut self, addr: u16)
        requires
            old(self).wf(),
            old(self).pc + 2 <= u16::MAX,
        ensures
            final(self).wf(),
            t_ld_i(*old(self), *final(self), addr),
    {
        self.i = addr;
        self.pc = self.pc + 2;
    }

    /// Random: VX receives a fresh random byte ANDed with the mask.
    pub fn rnd_vx_nn(&mut self, x: u8, nn: u8)
        requires
            old(self).wf(),
            x < 16,
            old(self).pc + 2 <= u16::MAX,
        ensures
            final(self).wf(),
            t_rnd(*old(self), *final(self), x as int, nn),
    {
        let b: u8 = rand::random::<u8>();
        self.v.set(x as usize, b & nn);
        self.pc = self.pc + 2;
        proof {
            assert(self.v@ == old(self).v@.update(x as int, b & nn));
        }
    }

    /// Draw sprite: `n` rows read from memory at the index register are
    /// XOR-composited at (VX mod 64, VY mod 32); the flag register
    /// records whether any set pixel was unset.
    pub fn draw_vx_vy(&mut self, x: u8, y: u8, n: u8) -> (r: Result<(), ExecutionError>)
        requires
            old(self).wf(),
            x < 16,
            y < 16,
            n < 16,
            old(self).pc + 2 <= u16::MAX,
        ensures
            final(self).wf(),
            t_draw(*old(self), *final(self), x as int, y as int, n as int, r),
    {
        let base: usize = self.i as usize;
        if n > 0 && base + n as usize > MEMORY_SIZE {
            return Err(ExecutionError::OutOfBounds { address: base + n as usize - 1 });
        }
        let mut rows: Vec<u8> = Vec::new();
        proof {
            if n > 0 {
                assert(rows@ =~= old(self).memory@.subrange(base as int, base as int));
            }
        }
        let mut k: usize = 0;
        while k < n as usize
            invariant
                old(self).wf(),
                *self == *old(self),
                n < 16,
                base == old(self).i as usize,
                n > 0 ==> base + n <= 4096,
                k <= n as usize,
                rows@.len() == k,
                n > 0 ==> rows@ == old(self).memory@.subrange(base as int, base + k),
            decreases n as int - k,
        {
            let b: u8 = self.memory[base + k];
            rows.push(b);
            proof {
                assert(rows@ =~= old(self).memory@.subrange(base as int, base + k + 1));
            }
            k += 1;
        }
        proof {
            if n == 0 {
                assert(rows@ =~= Seq::<u8>::empty());
            }
        }
        let px: u8 = self.v[x as usize] % 64;
        let py: u8 = self.v[y as usize] % 32;
        let collision: bool = self.display.draw_sprite(px, py, &rows);
        self.v.set(FLAG, if collision {
            1
        } else {
            0
        });
        self.pc = self.pc + 2;
        Ok(())
    }

    /// Skip the next instruction if the key named by VX's low nibble is
    /// pressed in the keypad snapshot.
    pub fn skip_vx(&mut self, x: u8)
        requires
            old(self).wf(),
            x < 16,
            old(self).pc + 4 <= u16::MAX,
        ensures
            final(self).wf(),
            t_skp(*old(self), *final(self), x as int),
    {
        let key: u8 = self.v[x as usize] % 16;
        let pressed: bool = self.keys[key as usize];
        self.pc = self.pc + (if pressed {
            4
        } else {
            2
        });
    }

    /// Skip the next instruction if the key named by VX's low nibble is
    /// not pressed in the keypad snapshot.
    pub fn skipn_vx(&mut self, x: u8)
        requires
            old(self).wf(),
            x < 16,
            old(self).pc + 4 <= u16::MAX,
        ensures
            final(self).wf(),
            t_sknp(*old(self), *final(self), x as int),
    {
        let key: u8 = self.v[x as usize] % 16;
        let pressed: bool = self.keys[key as usize];
        self.pc = self.pc + (if pressed {
            2
        } else {
            4
        });
    }

    /// Load the delay timer into VX.
    pub fn set_delay(&mut self, x: u8)
        requires
            old(self).wf(),
            x < 16,
            old(self).pc + 2 <= u16::MAX,
        ensures
            final(self).wf(),
            t_ld_delay(*old(self), *final(self), x as int),
    {
        let dt: u8 = self.delay_timer;
        self.v.set(x as usize, dt);
        self.pc = self.pc + 2;
    }

    /// Wait for key: pauses execution with register X pending; the
    /// program counter stays on this instruction until the host resumes.
    pub fn wait_vx(&mut self, x: u8)
        requires
            old(self).wf(),
            x < 16,
        ensures
            final(self).wf(),
            t_wait(*old(self), *final(self), x as int),
    {
        self.wait_for_key = WaitState::AwaitingKey { reg: x };
    }

    /// Set the delay timer from VX.
    pub fn set_vx_delay(&mut self, x: u8)
        requires
            old(self).wf(),
            x < 16,
            old(self).pc + 2 <= u16::MAX,
        ensures
            final(self).wf(),
            t_st_delay(*old(self), *final(self), x as int),
    {
        self.delay_timer = self.v[x as usize];
        self.pc = self.pc + 2;
    }

    /// Set the sound timer from VX.
    pub fn set_vx_sound(&mut self, x: u8)
        requires
            old(self).wf(),
            x < 16,
            old(self).pc + 2 <= u16::MAX,
        ensures
            final(self).wf(),
            t_st_sound(*old(self), *final(self), x as int),
    {
        self.sound_timer = self.v[x as usize];
        self.pc = self.pc + 2;
    }

    /// Add VX to the index register, wrapping at 16 bits.
    pub fn add_vx_to_i(&mut self, x: u8)
        requires
            old(self).wf(),
            x < 16,
            old(self).pc + 2 <= u16::MAX,
        ensures
            final(self).wf(),
            t_add_i(*old(self), *final(self), x as int),
    {
        let s: u32 = self.i as u32 + self.v[x as usize] as u32;
        self.i = (s % 0x10000) as u16;
        self.pc = self.pc + 2;
    }

    /// Set the index register to the resident font sprite for VX's value;
    /// each glyph occupies 5 bytes.
    pub fn set_i_sprite(&mut self, x: u8)
        requires
            old(self).wf(),
            x < 16,
            old(self).pc + 2 <= u16::MAX,
        ensures
            final(self).wf(),
            t_font(*old(self), *final(self), x as int),
    {
        self.i = self.v[x as usize] as u16 * 5;
        self.pc = self.pc + 2;
    }

    /// BCD store: the hundreds, tens and units digits of VX land at
    /// addresses I, I+1 and I+2.
    pub fn set_bcd_vx(&mut self, x: u8) -> (r: Result<(), ExecutionError>)
        requires
            old(self).wf(),
            x < 16,
            old(self).pc + 2 <= u16::MAX,
        ensures
            final(self).wf(),
            t_bcd(*old(self), *final(self), x as int, r),
    {
        let base: usize = self.i as usize;
        if base + 2 >= MEMORY_SIZE {
            return Err(ExecutionError::OutOfBounds { address: base + 2 });
        }
        let vx: u8 = self.v[x as usize];
        self.memory.set(base, vx / 100);
        self.memory.set(base + 1, (vx / 10) % 10);
        self.memory.set(base + 2, vx % 10);
        self.pc = self.pc + 2;
        Ok(())
    }

    /// Block store: registers V0 to VX land at memory I onward; the index
    /// register advances past the stored block.
    pub fn set_mem_regs(&mut self, x: u8) -> (r: Result<(), ExecutionError>)
        requires
            old(self).wf(),
            x < 16,
            old(self).pc + 2 <= u16::MAX,
        ensures
            final(self).wf(),
            t_store_regs(*old(self), *final(self), x as int, r),
    {
        let base: usize = self.i as usize;
        let xi: usize = x as usize;
        if base + xi >= MEMORY_SIZE {
            return Err(ExecutionError::OutOfBounds { address: base + xi });
        }
        let mut k: usize = 0;
        while k <= xi
            invariant
                old(self).wf(),
                xi < 16,
                base == old(self).i as usize,
                base + xi < 4096,
                k <= xi + 1,
                self.memory@.len() == 4096,
                forall|a: int|
                    0 <= a < 4096 ==> self.memory@[a] == (if base <= a < base + k {
                        old(self).v@[a - base]
                    } else {
                        old(self).memory@[a]
                    }),
                self.i == old(self).i,
                self.pc == old(self).pc,
                self.v == old(self).v,
                self.stack == old(self).stack,
                self.delay_timer == old(self).delay_timer,
                self.sound_timer == old(self).sound_timer,
                self.wait_for_key == old(self).wait_for_key,
                self.shift_vy == old(self).shift_vy,
                self.display == old(self).display,
                self.keys == old(self).keys,
            decreases xi + 1 - k,
        {
            let val: u8 = self.v[k];
            self.memory.set(base + k, val);
            k += 1;
        }
        self.i = self.i + x as u16 + 1;
        self.pc = self.pc + 2;
        Ok(())
    }

    /// Decodes the opcode into its four nibbles and executes the one
    /// instruction whose pattern matches; an opcode matching no pattern
    /// is reported as `UnimplementedOpcode` and changes nothing.
    pub fn check_opcode(&mut self, ops: u16) -> (r: Result<(), ExecutionError>)
        requires
            old(self).wf(),
            old(self).pc + 4 <= u16::MAX,
        ensures
            final(self).wf(),
            dispatch_spec(*old(self), ops, *final(self), r),
    {
        let hi: u16 = ops / 0x1000;
        let x: u8 = ((ops / 0x100) % 0x10) as u8;
        let y: u8 = ((ops / 0x10) % 0x10) as u8;
        let n: u8 = (ops % 0x10) as u8;
        let nn: u8 = (ops % 0x100) as u8;
        let nnn: u16 = ops % 0x1000;
        match hi {
            0x0 => {
                if ops == 0x00E0 {
                    self.cls();
                    Ok(())
                } else if ops == 0x00EE {
                    self.ret()
                } else {
                    Err(ExecutionError::UnimplementedOpcode { opcode: ops, pc: self.pc })
                }
            },
            0x1 => {
                self.jump_addr(nnn);
                Ok(())
            },
            0x2 => self.call_sub(nnn),
            0x3 => {
                self.se_vx(x, nn);
                Ok(())
            },
            0x4 => {
                self.sne_vx(x, nn);
                Ok(())
            },
            0x5 => {
                if n == 0 {
                    self.se_vx_vy(x, y);
                    Ok(())
                } else {
                    Err(ExecutionError::UnimplementedOpcode { opcode: ops, pc: self.pc })
                }
            },
            0x6 => {
                self.set_reg_vn(x, nn);
                Ok(())
            },
            0x7 => {
                let vx: u8 = self.read_reg_vn(x);
                let sum: u16 = vx as u16 + nn as u16;
                self.set_reg_vn(x, (sum % 256) as u8);
                Ok(())
            },
            0x8 => match n {
                0x0 => {
                    let vy: u8 = self.read_reg_vn(y);
                    self.set_reg_vn(x, vy);
                    Ok(())
                },
                0x1 => {
                    self.or_vx_vy(x, y);
                    Ok(())
                },
                0x2 => {
                    self.and_vx_vy(x, y);
                    Ok(())
                },
                0x3 => {
                    self.xor_vx_vy(x, y);
                    Ok(())
                },
                0x4 => {
                    self.add_vx_vy(x, y);
                    Ok(())
                },
                0x5 => {
                    self.sub_vx_vy(x, y);
                    Ok(())
                },
                0x6 => {
                    self.rshft_vx_vy(x, y);
                    Ok(())
                },
                0x7 => {
                    self.subn_vx_vy(x, y);
                    Ok(())
                },
                0xE => {
                    self.lshft_vx_vy(x, y);
                    Ok(())
                },
                _ => Err(ExecutionError::UnimplementedOpcode { opcode: ops, pc: self.pc }),
            },
            0x9 => {
                if n == 0 {
                    self.skip_ne_vx_vy(x, y);
                    Ok(())
                } else {
                    Err(ExecutionError::UnimplementedOpcode { opcode: ops, pc: self.pc })
                }
            },
            0xA => {
                self.set_i_addr(nnn);
                Ok(())
            },
            0xB => {
                let v0: u8 = self.read_reg_vn(0);
                self.jump_addr(nnn + v0 as u16);
                Ok(())
            },
            0xC => {
                self.rnd_vx_nn(x, nn);
                Ok(())
            },
            0xD => self.draw_vx_vy(x, y, n),
            0xE => {
                if nn == 0x9E {
                    self.skip_vx(x);
                    Ok(())
                } else if nn == 0xA1 {
                    self.skipn_vx(x);
                    Ok(())
                } else {
                    Err(ExecutionError::UnimplementedOpcode { opcode: ops, pc: self.pc })
                }
            },
            0xF => match nn {
                0x07 => {
                    self.set_delay(x);
                    Ok(())
                },
                0x0A => {
                    self.wait_vx(x);
                    Ok(())
                },
                0x15 => {
                    self.set_vx_delay(x);
                    Ok(())
                },
                0x18 => {
                    self.set_vx_sound(x);
                    Ok(())
                },
                0x1E => {
                    self.add_vx_to_i(x);
                    Ok(())
                },
                0x29 => {
                    self.set_i_sprite(x);
                    Ok(())
                },
                0x33 => self.set_bcd_vx(x),
                0x55 => self.set_mem_regs(x),
                0x65 => self.fill_regs_mem(x),
                _ => Err(ExecutionError::UnimplementedOpcode { opcode: ops, pc: self.pc }),
            },
            _ => Err(ExecutionError::UnimplementedOpcode { opcode: ops, pc: self.pc }),
        }
    }

    /// One fetch-decode-execute step, the sole per-cycle entry point.
    /// While execution is paused awaiting a key the step is a pure no-op;
    /// otherwise the opcode at the program counter is fetched and
    /// executed, and any fatal condition is returned as a typed error
    /// with the machine left as the failing instruction left it.
    pub fn execute_cycle(&mut self) -> (r: Result<(), ExecutionError>)
        requires
            old(self).wf(),
        ensures
            final(self).wf(),
            old(self).wait_for_key != WaitState::Running ==> r == Ok::<(), ExecutionError>(())
                && *final(self) == *old(self),
            old(self).wait_for_key == WaitState::Running && old(self).pc + 1 >= 4096 ==> r
                == Err::<(), ExecutionError>(
                ExecutionError::OutOfBounds { address: (old(self).pc + 1) as usize },
            ) && *final(self) == *old(self),
            old(self).wait_for_key == WaitState::Running && old(self).pc + 1 < 4096
                ==> dispatch_spec(*old(self), old(self).spec_fetched(), *final(self), r),
    {
        match self.wait_for_key {
            WaitState::AwaitingKey { .. } => {
                return Ok(());
            },
            WaitState::Running => {},
        }
        let ops: u16 = match self.get_opcode() {
            Ok(o) => o,
            Err(e) => {
                return Err(e);
            },
        };
        self.check_opcode(ops)
    }

    /// Block load: registers V0 to VX receive memory I onward; the index
    /// register advances past the loaded block.
    pub fn fill_regs_mem(&mut self, x: u8) -> (r: Result<(), ExecutionError>)
        requires
            old(self).wf(),
            x < 16,
            old(self).pc + 2 <= u16::MAX,
        ensures
            final(self).wf(),
            t_load_regs(*old(self), *final(self), x as int, r),
    {
        let base: usize = self.i as usize;
        let xi: usize = x as usize;
        if base + xi >= MEMORY_SIZE {
            return Err(ExecutionError::OutOfBounds { address: base + xi });
        }
        let mut k: usize = 0;
        while k <= xi
            invariant
                old(self).wf(),
                xi < 16,
                base == old(self).i as usize,
                base + xi < 4096,
                k <= xi + 1,
                self.v@.len() == 16,
                forall|j: int|
                    0 <= j < 16 ==> self.v@[j] == (if j < k {
                        old(self).memory@[base + j]
                    } else {
                        old(self).v@[j]
                    }),
                self.i == old(self).i,
                self.pc == old(self).pc,
                self.memory == old(self).memory,
                self.stack == old(self).stack,
                self.delay_timer == old(self).delay_timer,
                self.sound_timer == old(self).sound_timer,
                self.wait_for_key == old(self).wait_for_key,
                self.shift_vy == old(self).shift_vy,
                self.display == old(self).display,
                self.keys == old(self).keys,
            decreases xi + 1 - k,
        {
            let val: u8 = self.memory[base + k];
            self.v.set(k, val);
            k += 1;
        }
        self.i = self.i + x as u16 + 1;
        self.pc = self.pc + 2;
        Ok(())
    }
}

} // verus!
