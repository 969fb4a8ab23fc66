//! The machine's architectural state and the host-facing entry points
//! that manage it: construction, soft reset, ROM loading, the 60 Hz timer
//! tick, the keypad snapshot, and resumption from the wait-for-key state.

use vstd::prelude::*;

use crate::display::Display;
use crate::errors::ExecutionError;

verus! {

/// Index of the register used as the carry/borrow/collision flag output.
pub const FLAG: usize = 15;
/// Capacity of the call stack.
pub const STACK_SIZE: usize = 16;
/// Number of general-purpose registers.
pub const REGISTER_SIZE: usize = 16;
/// Address programs are loaded at.
pub const PROGRAM_START: u16 = 0x200;
/// Number of addressable bytes of machine memory.
pub const MEMORY_SIZE: usize = 4096;
/// Number of bytes of resident font data, 16 glyphs of 5 bytes each.
pub const FONT_BYTES: usize = 80;

/// Whether execution is running normally or paused awaiting a key
/// release, and which register receives the key code on resumption.
#[derive(Clone, Copy, PartialEq, Eq, Structural, Debug)]
pub enum WaitState {
    /// Executing instructions normally.
    Running,
    /// Paused by the wait-for-key instruction; `reg` receives the key.
    AwaitingKey { reg: u8 },
}

/// The font glyph data resident in low memory: five rows per hexadecimal
/// digit, one byte per row.
pub open spec fn spec_font() -> Seq<u8> {
    seq![
        0xF0u8, 0x90, 0x90, 0x90, 0xF0,
        0x20, 0x60, 0x20, 0x20, 0x70,
        0xF0, 0x10, 0xF0, 0x80, 0xF0,
        0xF0, 0x10, 0xF0, 0x10, 0xF0,
        0x90, 0x90, 0xF0, 0x10, 0x10,
        0xF0, 0x80, 0xF0, 0x10, 0xF0,
        0xF0, 0x80, 0xF0, 0x90, 0xF0,
        0xF0, 0x10, 0x20, 0x40, 0x40,
        0xF0, 0x90, 0xF0, 0x90, 0xF0,
        0xF0, 0x90, 0xF0, 0x10, 0xF0,
        0xF0, 0x90, 0xF0, 0x90, 0x90,
        0xE0, 0x90, 0xE0, 0x90, 0xE0,
        0xF0, 0x80, 0x80, 0x80, 0xF0,
        0xE0, 0x90, 0x90, 0x90, 0xE0,
        0xF0, 0x80, 0xF0, 0x80, 0xF0,
        0xF0, 0x80, 0xF0, 0x80, 0x80,
    ]
}

/// The CHIP-8 machine state.
pub struct Chip8 {
    /// Index register, used by memory-relative instructions.
    pub i: u16,
    /// Program counter.
    pub pc: u16,
    /// General-purpose registers V0 to VF; VF is the flag output.
    pub v: Vec<u8>,
    /// Call stack of return addresses, capacity `STACK_SIZE`.
    pub stack: Vec<u16>,
    /// Machine memory, `MEMORY_SIZE` bytes.
    pub memory: Vec<u8>,
    /// Delay timer, decremented at 60 Hz by the host.
    pub delay_timer: u8,
    /// Sound timer, decremented at 60 Hz by the host; a tone plays while
    /// it is nonzero.
    pub sound_timer: u8,
    /// Whether execution is paused awaiting a key release.
    pub wait_for_key: WaitState,
    /// Shift instructions read their source from VY when set (original
    /// COSMAC VIP behavior), from VX otherwise. Fixed at construction.
    pub shift_vy: bool,
    /// The logical pixel grid.
    pub display: Display,
    /// Host-maintained snapshot of the 16 keypad keys: `true` is pressed.
    pub keys: Vec<bool>,
}

impl Chip8 {
    /// The state is well-formed: every fixed-size component has its size,
    /// the stack is within capacity, and a pending wait names a real
    /// register.
    pub open spec fn wf(&self) -> bool {
        &&& self.v@.len() == 16
        &&& self.memory@.len() == 4096
        &&& self.stack@.len() <= 16
        &&& self.keys@.len() == 16
        &&& self.display.wf()
        &&& match self.wait_for_key {
            WaitState::AwaitingKey { reg } => reg < 16,
            WaitState::Running => true,
        }
    }

    /// A machine with zeroed registers and memory, the font resident in
    /// low memory, the program counter at the load address, an empty
    /// stack, and the shift-quirk flag fixed to `shift_vy`.
    pub fn new(shift_vy: bool) -> (m: Chip8)
        ensures
            m.wf(),
            m.pc == 0x200,
            m.i == 0,
            m.v@ == Seq::new(16, |k: int| 0u8),
            m.stack@.len() == 0,
            m.delay_timer == 0,
            m.sound_timer == 0,
            m.wait_for_key == WaitState::Running,
            m.shift_vy == shift_vy,
            m.keys@ == Seq::new(16, |k: int| false),
            m.display.screen@ == Seq::new(2048, |k: int| 0u8),
            forall|k: int| 0 <= k < 80 ==> m.memory@[k] == spec_font()[k],
            forall|k: int| 80 <= k < 4096 ==> m.memory@[k] == 0,
    {
        let font: Vec<u8> = vec![
            0xF0u8, 0x90, 0x90, 0x90, 0xF0,
            0x20, 0x60, 0x20, 0x20, 0x70,
            0xF0, 0x10, 0xF0, 0x80, 0xF0,
            0xF0, 0x10, 0xF0, 0x10, 0xF0,
            0x90, 0x90, 0xF0, 0x10, 0x10,
            0xF0, 0x80, 0xF0, 0x10, 0xF0,
            0xF0, 0x80, 0xF0, 0x90, 0xF0,
            0xF0, 0x10, 0x20, 0x40, 0x40,
            0xF0, 0x90, 0xF0, 0x90, 0xF0,
            0xF0, 0x90, 0xF0, 0x10, 0xF0,
            0xF0, 0x90, 0xF0, 0x90, 0x90,
            0xE0, 0x90, 0xE0, 0x90, 0xE0,
            0xF0, 0x80, 0x80, 0x80, 0xF0,
            0xE0, 0x90, 0x90, 0x90, 0xE0,
            0xF0, 0x80, 0xF0, 0x80, 0xF0,
            0xF0, 0x80, 0xF0, 0x80, 0x80,
        ];
        proof {
            assert(font@ =~= spec_font());
        }
        let mut memory: Vec<u8> = vec![0u8; 4096];
        let mut k: usize = 0;
        while k < FONT_BYTES
            invariant
                memory@.len() == 4096,
                font@ == spec_font(),
                k <= 80,
                forall|j: int| 0 <= j < k ==> memory@[j] == spec_font()[j],
                forall|j: int| k <= j < 4096 ==> memory@[j] == 0,
            decreases 80 - k,
        {
            memory.set(k, font[k]);
            k += 1;
        }
        Chip8 {
            i: 0,
            pc: PROGRAM_START,
            v: vec![0u8; 16],
            stack: Vec::new(),
            memory,
            delay_timer: 0,
            sound_timer: 0,
            wait_for_key: WaitState::Running,
            shift_vy,
            display: Display::new(),
            keys: vec![false; 16],
        }
    }

    /// Reinitializes registers, stack, program counter and index register
    /// to their construction values while keeping memory, timers, display,
    /// keypad, wait state and the quirk flag as they are.
    pub fn reset(&mut self)
        ensures
            old(self).wf() ==> final(self).wf(),
            final(self).v@ == Seq::new(16, |k: int| 0u8),
            final(self).stack@.len() == 0,
            final(self).pc == 0x200,
            final(self).i == 0,
            final(self).memory == old(self).memory,
            final(self).delay_timer == old(self).delay_timer,
            final(self).sound_timer == old(self).sound_timer,
            final(self).wait_for_key == old(self).wait_for_key,
            final(self).shift_vy == old(self).shift_vy,
            final(self).display == old(self).display,
            final(self).keys == old(self).keys,
    {
        self.v = vec![0u8; 16];
        self.stack.clear();
        self.pc = PROGRAM_START;
        self.i = 0;
    }

    /// Writes the program bytes into memory starting at the load address.
    /// A sequence that would run past the end of memory is rejected whole,
    /// leaving the machine unchanged.
    pub fn load_rom(&mut self, rom: &Vec<u8>) -> (r: Result<(), ExecutionError>)
        requires
            old(self).wf(),
            rom@.len() + 0x200 <= usize::MAX,
        ensures
            final(self).wf(),
            rom@.len() <= 4096 - 0x200 ==> {
                &&& r == Ok::<(), ExecutionError>(())
                &&& final(self).memory@.len() == 4096
                &&& forall|a: int|
                    0x200 <= a < 0x200 + rom@.len() ==> final(self).memory@[a] == rom@[a - 0x200]
                &&& forall|a: int|
                    0 <= a < 4096 && !(0x200 <= a < 0x200 + rom@.len()) ==> final(self).memory@[a]
                        == old(self).memory@[a]
            },
            rom@.len() > 4096 - 0x200 ==> {
                &&& r == Err::<(), ExecutionError>(
                    ExecutionError::OutOfBounds { address: (0x200 + rom@.len() - 1) as usize },
                )
                &&& *final(self) == *old(self)
            },
            final(self).pc == old(self).pc,
            final(self).i == old(self).i,
            final(self).v == old(self).v,
            final(self).stack == old(self).stack,
            final(self).delay_timer == old(self).delay_timer,
            final(self).sound_timer == old(self).sound_timer,
            final(self).wait_for_key == old(self).wait_for_key,
            final(self).shift_vy == old(self).shift_vy,
            final(self).display == old(self).display,
            final(self).keys == old(self).keys,
    {
        if rom.len() > MEMORY_SIZE - 0x200 {
            return Err(ExecutionError::OutOfBounds { address: 0x200 + rom.len() - 1 });
        }
        let mut j: usize = 0;
        while j < rom.len()
            invariant
                old(self).wf(),
                rom@.len() <= 4096 - 0x200,
                j <= rom@.len(),
                self.memory@.len() == 4096,
                forall|a: int| 0x200 <= a < 0x200 + j ==> self.memory@[a] == rom@[a - 0x200],
                forall|a: int|
                    0 <= a < 4096 && !(0x200 <= a < 0x200 + j) ==> self.memory@[a] == old(
                        self,
                    ).memory@[a],
                self.pc == old(self).pc,
                self.i == old(self).i,
                self.v == old(self).v,
                self.stack == old(self).stack,
                self.delay_timer == old(self).delay_timer,
                self.sound_timer == old(self).sound_timer,
                self.wait_for_key == old(self).wait_for_key,
                self.shift_vy == old(self).shift_vy,
                self.display == old(self).display,
                self.keys == old(self).keys,
            decreases rom@.len() - j,
        {
            self.memory.set(0x200 + j, rom[j]);
            j += 1;
        }
        Ok(())
    }

    /// Decrements each timer by 1 if it is nonzero; the host calls this at
    /// a fixed 60 Hz cadence.
    pub fn tick_timers(&mut self)
        ensures
            final(self).delay_timer == if old(self).delay_timer > 0 {
                (old(self).delay_timer - 1) as u8
            } else {
                0u8
            },
            final(self).sound_timer == if old(self).sound_timer > 0 {
                (old(self).sound_timer - 1) as u8
            } else {
                0u8
            },
            final(self).i == old(self).i,
            final(self).pc == old(self).pc,
            final(self).v == old(self).v,
            final(self).stack == old(self).stack,
            final(self).memory == old(self).memory,
            final(self).wait_for_key == old(self).wait_for_key,
            final(self).shift_vy == old(self).shift_vy,
            final(self).display == old(self).display,
            final(self).keys == old(self).keys,
            final(self).wf() == old(self).wf(),
    {
        if self.delay_timer > 0 {
            self.delay_timer = self.delay_timer - 1;
        }
        if self.sound_timer > 0 {
            self.sound_timer = self.sound_timer - 1;
        }
    }

    /// Records in the keypad snapshot that key `key` is pressed or
    /// released; the host mirrors its input source here.
    pub fn set_key(&mut self, key: u8, pressed: bool)
        requires
            old(self).wf(),
            key < 16,
        ensures
            final(self).wf(),
            final(self).keys@ == old(self).keys@.update(key as int, pressed),
            final(self).i == old(self).i,
            final(self).pc == old(self).pc,
            final(self).v == old(self).v,
            final(self).stack == old(self).stack,
            final(self).memory == old(self).memory,
            final(self).delay_timer == old(self).delay_timer,
            final(self).sound_timer == old(self).sound_timer,
            final(self).wait_for_key == old(self).wait_for_key,
            final(self).shift_vy == old(self).shift_vy,
            final(self).display == old(self).display,
    {
        self.keys.set(key as usize, pressed);
    }

    /// Completes a pending wait-for-key: stores the released key's code in
    /// the pending register, advances the program counter past the wait
    /// instruction, and returns to normal execution. When no wait is
    /// pending the call is ignored and the machine is unchanged.
    pub fn resume_with_key(&mut self, key: u8)
        requires
            old(self).wf(),
            key < 16,
            old(self).pc + 2 <= u16::MAX,
        ensures
            final(self).wf(),
            old(self).wait_for_key == WaitState::Running ==> *final(self) == *old(self),
            old(self).wait_for_key matches WaitState::AwaitingKey { reg: xr } ==> {
                    &&& final(self).v@ == old(self).v@.update(xr as int, key)
                    &&& final(self).pc == old(self).pc + 2
                    &&& final(self).wait_for_key == WaitState::Running
                    &&& final(self).i == old(self).i
                    &&& final(self).stack == old(self).stack
                    &&& final(self).memory == old(self).memory
                    &&& final(self).delay_timer == old(self).delay_timer
                    &&& final(self).sound_timer == old(self).sound_timer
                    &&& final(self).shift_vy == old(self).shift_vy
                    &&& final(self).display == old(self).display
                    &&& final(self).keys == old(self).keys
                },
    {
        match self.wait_for_key {
            WaitState::Running => {},
            WaitState::AwaitingKey { reg } => {
                self.v.set(reg as usize, key);
                self.pc = self.pc + 2;
                self.wait_for_key = WaitState::Running;
            },
        }
    }

    /// Sets register `n` to `val` and advances the program counter.
    pub fn set_reg_vn(&mut self, n: u8, val: u8)
        requires
            old(self).wf(),
            n < 16,
            old(self).pc + 2 <= u16::MAX,
        ensures
            final(self).wf(),
            final(self).v@ == old(self).v@.update(n as int, val),
            final(self).pc == old(self).pc + 2,
            final(self).i == old(self).i,
            final(self).stack == old(self).stack,
            final(self).memory == old(self).memory,
            final(self).delay_timer == old(self).delay_timer,
            final(self).sound_timer == old(self).sound_timer,
            final(self).wait_for_key == old(self).wait_for_key,
            final(self).shift_vy == old(self).shift_vy,
            final(self).display == old(self).display,
            final(self).keys == old(self).keys,
    {
        self.v.set(n as usize, val);
        self.pc = self.pc + 2;
    }

    /// Reads the value of register `n`.
    pub fn read_reg_vn(&mut self, n: u8) -> (val: u8)
        requires
            old(self).wf(),
            n < 16,
        ensures
            *final(self) == *old(self),
            val == old(self).v@[n as int],
    {
        self.v[n as usize]
    }

    /// The 16-bit opcode two consecutive memory bytes at the program
    /// counter spell, big-endian.
    pub open spec fn spec_fetched(&self) -> u16 {
        (self.memory@[self.pc as int] * 256 + self.memory@[self.pc as int + 1]) as u16
    }

    /// Fetches the two bytes at the program counter and combines them
    /// big-endian into an opcode; fails when the second byte would lie
    /// outside memory.
    pub fn get_opcode(&self) -> (r: Result<u16, ExecutionError>)
        requires
            self.wf(),
        ensures
            self.pc + 1 < 4096 ==> r == Ok::<u16, ExecutionError>(self.spec_fetched()),
            self.pc + 1 >= 4096 ==> r == Err::<u16, ExecutionError>(
                ExecutionError::OutOfBounds { address: (self.pc + 1) as usize },
            ),
    {
        let pc: usize = self.pc as usize;
        if pc + 1 >= MEMORY_SIZE {
            return Err(ExecutionError::OutOfBounds { address: pc + 1 });
        }
        let hi: u8 = self.memory[pc];
        let lo: u8 = self.memory[pc + 1];
        Ok((hi as u16) * 256 + (lo as u16))
    }
}

} // verus!
