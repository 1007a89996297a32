//! Executable interpreter core: fetch, the opcode handlers, and the
//! fetch-decode-execute loop, each proved against the spec-level
//! semantics in [`crate::semantics`].

use vstd::prelude::*;

use crate::decode::decode;
use crate::semantics::{add_spec, call_spec, fetch_spec, frame_rem, ret_spec, run_spec, step_spec};
use crate::state::{AbsCpu, VmError, VmStatus, CPU, FLAG_REGISTER, MEMORY_SIZE, NUM_REGISTERS,
    STACK_CAPACITY};

verus! {

impl CPU {
    /// Read the two bytes at the program counter as one big-endian
    /// instruction word: `(memory[pc] << 8) | memory[pc + 1]`.
    /// No side effects; the program counter does not move.
    pub fn read_opcode(&self) -> (word: u16)
        requires
            self.wf(),
            self.position_in_memory + 1 < MEMORY_SIZE,
        ensures
            word == fetch_spec(self@),
    {
        let p = self.position_in_memory;
        let op_byte1 = self.memory[p];
        let op_byte2 = self.memory[p + 1];
        ((op_byte1 as u16) << 8) | (op_byte2 as u16)
    }

    /// Subroutine call: push the current program counter (already
    /// advanced past the call instruction) onto the stack and jump to
    /// `addr`. With the stack at capacity, fails with `StackOverflow`
    /// before any mutation.
    pub fn call(&mut self, addr: u16) -> (r: Result<(), VmError>)
        requires
            old(self).wf(),
            old(self).position_in_memory <= u16::MAX,
        ensures
            final(self).wf(),
            old(self)@.sp < STACK_CAPACITY ==> r == Ok::<(), VmError>(())
                && final(self)@ == call_spec(old(self)@, addr),
            old(self)@.sp >= STACK_CAPACITY ==> r == Err::<(), VmError>(VmError::StackOverflow)
                && final(self)@ == old(self)@,
    {
        let sp = self.stack_pointer;
        if sp >= STACK_CAPACITY {
            return Err(VmError::StackOverflow);
        }
        self.stack.set(sp, self.position_in_memory as u16);
        self.stack_pointer = sp + 1;
        self.position_in_memory = addr as usize;
        proof {
            assert(self@ =~= call_spec(old(self)@, addr));
        }
        Ok(())
    }

    /// Return from a subroutine: pop the most recently saved address and
    /// set the program counter to it. With an empty stack, fails with
    /// `StackUnderflow` and changes nothing.
    pub fn ret(&mut self) -> (r: Result<(), VmError>)
        requires
            old(self).wf(),
        ensures
            final(self).wf(),
            old(self)@.sp == 0 ==> r == Err::<(), VmError>(VmError::StackUnderflow)
                && final(self)@ == old(self)@,
            old(self)@.sp > 0 ==> r == Ok::<(), VmError>(())
                && final(self)@ == ret_spec(old(self)@),
    {
        if self.stack_pointer == 0 {
            return Err(VmError::StackUnderflow);
        }
        self.stack_pointer = self.stack_pointer - 1;
        let addr = self.stack[self.stack_pointer];
        self.position_in_memory = addr as usize;
        proof {
            assert(self@ =~= ret_spec(old(self)@));
        }
        Ok(())
    }

    /// Add-with-carry: write the sum of registers `x` and `y` modulo 256
    /// into register `x`, then set the flag register to 1 exactly when
    /// the unwrapped sum exceeded 255, else to 0.
    pub fn add_xy(&mut self, x: u8, y: u8)
        requires
            old(self).wf(),
            x < NUM_REGISTERS,
            y < NUM_REGISTERS,
        ensures
            final(self).wf(),
            final(self)@ == add_spec(old(self)@, x, y),
    {
        let arg1 = self.registers[x as usize];
        let arg2 = self.registers[y as usize];
        let sum: u16 = arg1 as u16 + arg2 as u16;
        let val: u8 = (sum % 256) as u8;
        let overflow_detected = sum > 255;
        self.registers.set(x as usize, val);
        if overflow_detected {
            self.registers.set(FLAG_REGISTER, 1);
        } else {
            self.registers.set(FLAG_REGISTER, 0);
        }
        proof {
            assert(self@ =~= add_spec(old(self)@, x, y));
        }
    }

    /// The fetch-decode-execute loop: repeatedly fetch the instruction at
    /// the program counter, advance it by 2, decode, and dispatch, until
    /// the halt instruction is executed (`Ok`) or a fatal condition stops
    /// execution (`Err`). The result and the final state are exactly what
    /// iterating [`step_spec`] from the initial state yields; the state at
    /// the moment of a failure is left in place for inspection. Invoked on
    /// an already-halted machine, it fetches nothing and changes nothing.
    ///
    /// The loop always terminates: the instruction subset has no jump, so
    /// per call-nesting level the machine only ever moves forward (the
    /// lexicographic measure below, see [`frame_rem`]).
    #[verifier::loop_isolation(false)]
    pub fn run(&mut self) -> (r: Result<(), VmError>)
        requires
            old(self).wf(),
        ensures
            final(self).wf(),
            match r {
                Ok(()) => exists|n: nat|
                    run_spec(old(self)@, n) == (final(self)@, VmStatus::Halted),
                Err(e) => exists|n: nat|
                    run_spec(old(self)@, n) == (final(self)@, VmStatus::Failed(e)),
            },
    {
        let ghost mut n: nat = 0;
        loop
            invariant
                self.wf(),
                run_spec(old(self)@, n) == (self@, VmStatus::Running),
            decreases
                frame_rem(self@, 0),
                frame_rem(self@, 1),
                frame_rem(self@, 2),
                frame_rem(self@, 3),
                frame_rem(self@, 4),
                frame_rem(self@, 5),
                frame_rem(self@, 6),
                frame_rem(self@, 7),
                frame_rem(self@, 8),
                frame_rem(self@, 9),
                frame_rem(self@, 10),
                frame_rem(self@, 11),
                frame_rem(self@, 12),
                frame_rem(self@, 13),
                frame_rem(self@, 14),
                frame_rem(self@, 15),
                frame_rem(self@, 16),
        {
            let ghost pre: AbsCpu = self@;
            if self.halted {
                proof {
                    assert(run_spec(old(self)@, n + 1) == (self@, VmStatus::Halted));
                }
                return Ok(());
            }
            if self.position_in_memory >= MEMORY_SIZE - 1 {
                proof {
                    assert(run_spec(old(self)@, n + 1)
                        == (self@, VmStatus::Failed(VmError::OutOfBoundsFetch)));
                }
                return Err(VmError::OutOfBoundsFetch);
            }
            let opcode = self.read_opcode();
            self.position_in_memory = self.position_in_memory + 2;
            let (o, x, y, d, nnn) = decode(opcode);
            proof {
                assert(self@ =~= AbsCpu { pc: pre.pc + 2, ..pre });
            }
            match (o, x, y, d) {
                (0, 0, 0, 0) => {
                    self.halted = true;
                    proof {
                        assert(step_spec(pre).0 =~= self@);
                        assert(run_spec(old(self)@, n + 1) == (self@, VmStatus::Halted));
                    }
                    return Ok(());
                }
                (0, 0, 0xE, 0xE) => {
                    let res = self.ret();
                    match res {
                        Ok(()) => {
                            proof {
                                assert(step_spec(pre) == (self@, VmStatus::Running));
                                n = n + 1;
                            }
                        },
                        Err(e) => {
                            proof {
                                assert(run_spec(old(self)@, n + 1)
                                    == (self@, VmStatus::Failed(e)));
                            }
                            return Err(e);
                        },
                    }
                },
                (2, _, _, _) => {
                    let res = self.call(nnn);
                    match res {
                        Ok(()) => {
                            proof {
                                assert(step_spec(pre) == (self@, VmStatus::Running));
                                n = n + 1;
                            }
                        },
                        Err(e) => {
                            proof {
                                assert(run_spec(old(self)@, n + 1)
                                    == (self@, VmStatus::Failed(e)));
                            }
                            return Err(e);
                        },
                    }
                },
                (8, _, _, 4) => {
                    self.add_xy(x, y);
                    proof {
                        assert(step_spec(pre) == (self@, VmStatus::Running));
                        n = n + 1;
                    }
                },
                _ => {
                    proof {
                        assert(run_spec(old(self)@, n + 1)
                            == (self@, VmStatus::Failed(VmError::UnimplementedInstruction)));
                    }
                    return Err(VmError::UnimplementedInstruction);
                },
            }
        }
    }
}

} // verus!
