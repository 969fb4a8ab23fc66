//! Laws the instruction semantics obey, stated and proved over the same
//! transition predicates the executable instruction methods promise.

use vstd::prelude::*;

use crate::errors::ExecutionError;
use crate::machine::{Chip8, WaitState};
use crate::semantics::{
    dispatch_spec, spec_implemented, t_add_reg, t_call, t_load_regs, t_ret, t_store_regs, t_wait,
};

verus! {

/// For all 8-bit values `a` and `b` in the operand registers, the
/// add-register instruction stores `(a + b) mod 256` in the destination
/// and sets the flag register to 1 exactly when `a + b > 255`.
pub proof fn lemma_add_carry(pre: Chip8, post: Chip8, x: int, y: int)
    requires
        pre.wf(),
        0 <= x < 16,
        0 <= y < 16,
        t_add_reg(pre, post, x, y),
    ensures
        x != 15 ==> post.v@[x] == (pre.v@[x] + pre.v@[y]) % 256,
        post.v@[15] == (if pre.v@[x] + pre.v@[y] > 255 {
            1u8
        } else {
            0u8
        }),
{
}

/// Calling pushes the pre-call program counter; returning sets the
/// program counter to exactly that pushed value and the stack depth
/// returns to its pre-call value.
pub proof fn lemma_call_then_return(s0: Chip8, s1: Chip8, s2: Chip8, addr: u16)
    requires
        t_call(s0, s1, addr, Ok(())),
        t_ret(s1, s2, Ok(())),
    ensures
        s1.pc == addr,
        s1.stack@.len() == s0.stack@.len() + 1,
        s2.pc == s0.pc,
        s2.stack@ == s0.stack@,
{
    assert(s1.stack@ == s0.stack@.push(s0.pc));
    assert(s2.stack@ =~= s0.stack@);
}

/// Storing registers V0 to VX at the index register and then loading V0
/// to VX back from the same memory region restores the original register
/// file, and each operation advances the index register by exactly x + 1.
pub proof fn lemma_block_round_trip(s0: Chip8, s1: Chip8, mid: Chip8, s2: Chip8, x: int)
    requires
        s0.wf(),
        0 <= x < 16,
        t_store_regs(s0, s1, x, Ok(())),
        mid.i == s0.i,
        mid.memory == s1.memory,
        mid.v == s1.v,
        t_load_regs(mid, s2, x, Ok(())),
    ensures
        s1.i == s0.i + x + 1,
        s2.i == s0.i + x + 1,
        forall|k: int| 0 <= k < 16 ==> s2.v@[k] == s0.v@[k],
{
    assert(s0.i + x < 4096);
    assert forall|k: int| 0 <= k < 16 implies s2.v@[k] == s0.v@[k] by {
        if k <= x {
            assert(s2.v@[k] == mid.memory@[mid.i + k]);
            assert(s1.memory@[s0.i + k] == s0.v@[k]);
        } else {
            assert(s2.v@[k] == mid.v@[k]);
            assert(s1.v == s0.v);
        }
    }
}

/// An opcode matching no dispatch pattern yields `UnimplementedOpcode`
/// carrying the exact opcode and the program counter at the time of the
/// fetch, and leaves the machine unchanged.
pub proof fn lemma_unimplemented_reported(
    pre: Chip8,
    post: Chip8,
    ops: u16,
    r: Result<(), ExecutionError>,
)
    requires
        dispatch_spec(pre, ops, post, r),
        !spec_implemented(ops),
    ensures
        r == Err::<(), ExecutionError>(
            ExecutionError::UnimplementedOpcode { opcode: ops, pc: pre.pc },
        ),
        post == pre,
{
}

/// Entering wait-for-key leaves the program counter on the waiting
/// instruction; resuming with a key code writes the code into the target
/// register and advances the program counter by exactly 2 relative to
/// before the wait began. (That every step taken while blocked changes
/// nothing is stated by the step entry point's own contract.)
pub proof fn lemma_wait_then_resume(s0: Chip8, s1: Chip8, s2: Chip8, x: int, key: u8)
    requires
        s0.wf(),
        0 <= x < 16,
        t_wait(s0, s1, x),
        s2.v@ == s1.v@.update(x, key),
        s2.pc == s1.pc + 2,
        s2.wait_for_key == WaitState::Running,
    ensures
        s1.pc == s0.pc,
        s1.wait_for_key == (WaitState::AwaitingKey { reg: x as u8 }),
        s2.pc == s0.pc + 2,
        s2.v@[x] == key,
{
}

} // verus!
