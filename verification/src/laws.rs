//! General properties of the machine semantics, proved once and for all:
//! call/return round trips, nested calls and returns, stability of a
//! finished execution, and halt idempotence.

use vstd::prelude::*;

use crate::semantics::{call_spec, ret_spec, run_spec, step_spec};
use crate::state::{AbsCpu, VmStatus, STACK_CAPACITY};

verus! {

/// Calling and then immediately returning restores the program counter
/// to the value it held just after the call instruction was fetched, and
/// the stack depth to its pre-call value; registers, memory, the halt
/// flag, and the live part of the stack are untouched.
pub proof fn lemma_call_ret_roundtrip(s: AbsCpu, addr: u16)
    requires
        s.stack.len() == STACK_CAPACITY,
        s.sp < STACK_CAPACITY,
        s.pc <= u16::MAX,
    ensures
        ret_spec(call_spec(s, addr)).pc == s.pc,
        ret_spec(call_spec(s, addr)).sp == s.sp,
        ret_spec(call_spec(s, addr)).regs == s.regs,
        ret_spec(call_spec(s, addr)).mem == s.mem,
        ret_spec(call_spec(s, addr)).halted == s.halted,
        forall|i: int| 0 <= i < s.sp ==> ret_spec(call_spec(s, addr)).stack[i] == s.stack[i],
{
}

/// The state after performing the calls of `addrs` in order, each from
/// the state the previous one produced.
pub open spec fn calls_spec(s: AbsCpu, addrs: Seq<u16>) -> AbsCpu
    decreases addrs.len(),
{
    if addrs.len() == 0 {
        s
    } else {
        calls_spec(call_spec(s, addrs[0]), addrs.drop_first())
    }
}

/// The state after `n` consecutive returns.
pub open spec fn rets_spec(s: AbsCpu, n: nat) -> AbsCpu
    decreases n,
{
    if n == 0 {
        s
    } else {
        rets_spec(ret_spec(s), (n - 1) as nat)
    }
}

/// Returning `n + 1` times is returning `n` times and then once more.
proof fn lemma_rets_compose(s: AbsCpu, n: nat)
    ensures
        rets_spec(s, n + 1) == ret_spec(rets_spec(s, n)),
    decreases n,
{
    if n > 0 {
        lemma_rets_compose(ret_spec(s), (n - 1) as nat);
        assert(rets_spec(s, n) == rets_spec(ret_spec(s), (n - 1) as nat));
        assert(rets_spec(s, n + 1) == rets_spec(ret_spec(s), n));
    } else {
        assert(rets_spec(s, 0) == s);
        assert(rets_spec(ret_spec(s), 0) == ret_spec(s));
    }
}

/// Nested call/return: any sequence of calls that fits in the stack,
/// followed by as many returns, restores the program counter and the
/// stack depth to their original values and leaves registers, memory,
/// the halt flag, and the originally live part of the stack untouched.
/// (A further call from a full stack, and a return from an empty one,
/// fail instead: see the contracts of `CPU::call` and `CPU::ret`.)
pub proof fn lemma_nested_call_ret(s: AbsCpu, addrs: Seq<u16>)
    requires
        s.stack.len() == STACK_CAPACITY,
        s.sp + addrs.len() <= STACK_CAPACITY,
        s.pc <= u16::MAX,
    ensures
        calls_spec(s, addrs).sp == s.sp + addrs.len(),
        rets_spec(calls_spec(s, addrs), addrs.len()).pc == s.pc,
        rets_spec(calls_spec(s, addrs), addrs.len()).sp == s.sp,
        rets_spec(calls_spec(s, addrs), addrs.len()).regs == s.regs,
        rets_spec(calls_spec(s, addrs), addrs.len()).mem == s.mem,
        rets_spec(calls_spec(s, addrs), addrs.len()).halted == s.halted,
        rets_spec(calls_spec(s, addrs), addrs.len()).stack.len() == STACK_CAPACITY,
        forall|i: int| 0 <= i < s.sp
            ==> rets_spec(calls_spec(s, addrs), addrs.len()).stack[i] == s.stack[i],
    decreases addrs.len(),
{
    if addrs.len() > 0 {
        let s1 = call_spec(s, addrs[0]);
        let rest = addrs.drop_first();
        lemma_nested_call_ret(s1, rest);
        lemma_rets_compose(calls_spec(s1, rest), rest.len());
        let r1 = rets_spec(calls_spec(s1, rest), rest.len());
        assert(s1.stack[s.sp as int] == s.pc as u16);
        assert(r1.stack[s.sp as int] == s1.stack[s.sp as int]);
        assert(calls_spec(s, addrs) == calls_spec(s1, rest));
        assert(rets_spec(calls_spec(s, addrs), addrs.len()) == ret_spec(r1));
        assert forall|i: int| 0 <= i < s.sp implies ret_spec(r1).stack[i] == s.stack[i] by {
            assert(r1.stack[i] == s1.stack[i]);
            assert(s1.stack[i] == s.stack[i]);
        }
    }
}

/// Once an execution has stopped (halted or failed), running further
/// steps changes neither the state nor the status: the outcome of a run
/// is unique.
pub proof fn lemma_run_spec_stable(s: AbsCpu, n: nat, m: nat)
    requires
        n <= m,
        !(run_spec(s, n).1 is Running),
    ensures
        run_spec(s, m) == run_spec(s, n),
    decreases m,
{
    if m > n {
        lemma_run_spec_stable(s, n, (m - 1) as nat);
    }
}

/// Halt idempotence, spec side: from a halted state every positive number
/// of steps fetches nothing and yields the same state, still halted.
pub proof fn lemma_halt_idempotent(s: AbsCpu, n: nat)
    requires
        s.halted,
        n >= 1,
    ensures
        run_spec(s, n) == (s, VmStatus::Halted),
    decreases n,
{
    if n > 1 {
        lemma_halt_idempotent(s, (n - 1) as nat);
    } else {
        assert(run_spec(s, 0) == (s, VmStatus::Running));
        assert(step_spec(s) == (s, VmStatus::Halted));
    }
}

/// Halt idempotence, run side: any outcome that `CPU::run` can report
/// from an already-halted state is `Halted` with the state unchanged —
/// re-invoking the loop neither advances the program counter nor mutates
/// registers, memory, or the stack.
pub proof fn lemma_run_on_halted(s: AbsCpu, t: AbsCpu, st: VmStatus, n: nat)
    requires
        s.halted,
        run_spec(s, n) == (t, st),
        !(st is Running),
    ensures
        t == s,
        st is Halted,
{
    lemma_halt_idempotent(s, n);
}

} // verus!
