//! Spec-level semantics of the machine: the effect of each handler, one
//! fetch-decode-execute step, and iterated execution. The executable
//! methods in [`crate::cpu`] are proved to follow these functions exactly.

use vstd::prelude::*;

use crate::decode::{op_d, op_nnn, op_o, op_x, op_y};
use crate::state::{AbsCpu, VmError, VmStatus, FLAG_REGISTER};

verus! {

/// The instruction word at `s.pc`: the byte at `pc` is the high byte,
/// the byte at `pc + 1` the low byte.
pub open spec fn fetch_spec(s: AbsCpu) -> u16 {
    ((s.mem[s.pc as int] as u16) << 8) | (s.mem[s.pc as int + 1] as u16)
}

/// Effect of a successful subroutine call: push the current program
/// counter onto the stack, bump the stack pointer, and jump to `addr`.
pub open spec fn call_spec(s: AbsCpu, addr: u16) -> AbsCpu {
    AbsCpu {
        stack: s.stack.update(s.sp as int, s.pc as u16),
        sp: s.sp + 1,
        pc: addr as nat,
        ..s
    }
}

/// Effect of a successful return: pop the most recently saved address and
/// resume there. On an empty stack the state is returned unchanged; the
/// step function and the executable method report that case as a
/// stack-underflow failure instead of applying this function.
pub open spec fn ret_spec(s: AbsCpu) -> AbsCpu {
    if s.sp == 0 {
        s
    } else {
        AbsCpu { sp: (s.sp - 1) as nat, pc: s.stack[s.sp - 1] as nat, ..s }
    }
}

/// Effect of add-with-carry: register `x` receives the sum of registers
/// `x` and `y` modulo 256, and the flag register receives 1 exactly when
/// the unwrapped sum exceeded 255, else 0.
pub open spec fn add_spec(s: AbsCpu, x: u8, y: u8) -> AbsCpu {
    let sum = s.regs[x as int] + s.regs[y as int];
    let wrapped = (sum % 256) as u8;
    let flag: u8 = if sum > 255 { 1u8 } else { 0u8 };
    AbsCpu { regs: s.regs.update(x as int, wrapped).update(FLAG_REGISTER as int, flag), ..s }
}

/// One fetch-decode-execute step. A halted machine stays put. Otherwise:
/// fetch (failing if the two instruction bytes are not both in memory),
/// advance the program counter by 2, decode, and dispatch on the opcode
/// pattern; an unrecognized pattern is a fatal error, never a silent skip.
pub open spec fn step_spec(s: AbsCpu) -> (AbsCpu, VmStatus) {
    if s.halted {
        (s, VmStatus::Halted)
    } else if s.pc + 1 >= s.mem.len() {
        (s, VmStatus::Failed(VmError::OutOfBoundsFetch))
    } else {
        let word = fetch_spec(s);
        let s2 = AbsCpu { pc: s.pc + 2, ..s };
        let o = op_o(word);
        let x = op_x(word);
        let y = op_y(word);
        let d = op_d(word);
        if o == 0 && x == 0 && y == 0 && d == 0 {
            (AbsCpu { halted: true, ..s2 }, VmStatus::Halted)
        } else if o == 0 && x == 0 && y == 0xE && d == 0xE {
            if s2.sp == 0 {
                (s2, VmStatus::Failed(VmError::StackUnderflow))
            } else {
                (ret_spec(s2), VmStatus::Running)
            }
        } else if o == 2 {
            if s2.sp >= s2.stack.len() {
                (s2, VmStatus::Failed(VmError::StackOverflow))
            } else {
                (call_spec(s2, op_nnn(word)), VmStatus::Running)
            }
        } else if o == 8 && d == 4 {
            (add_spec(s2, x, y), VmStatus::Running)
        } else {
            (s2, VmStatus::Failed(VmError::UnimplementedInstruction))
        }
    }
}

/// The machine after `n` steps from `s`, with its status. Once the status
/// leaves `Running`, further steps change nothing.
pub open spec fn run_spec(s: AbsCpu, n: nat) -> (AbsCpu, VmStatus)
    decreases n,
{
    if n == 0 {
        (s, VmStatus::Running)
    } else {
        let prev = run_spec(s, (n - 1) as nat);
        if prev.1 is Running {
            step_spec(prev.0)
        } else {
            prev
        }
    }
}

/// Loop measure helper: how much room is left ahead of address `a`.
/// Any address the machine can hold is below 4200, so this is positive
/// on live addresses and strictly shrinks as execution moves forward.
pub open spec fn rem_at(a: nat) -> nat {
    if a < 4200 {
        (4200 - a) as nat
    } else {
        0
    }
}

/// Loop measure: the room left at call-nesting level `i`. For live stack
/// levels it is measured at the saved return address, at the current
/// level at the program counter, and it is zero beyond the current level.
/// The sequence of these values, read from level 0 upward, decreases
/// lexicographically at every step the machine takes: the run loop of
/// [`crate::cpu::CPU::run`] terminates on every input.
pub open spec fn frame_rem(s: AbsCpu, i: int) -> nat {
    if i < s.sp {
        rem_at(s.stack[i] as nat)
    } else if i == s.sp {
        rem_at(s.pc)
    } else {
        0
    }
}

} // verus!
