//! Machine state: the register file, memory, program counter, call stack,
//! and the halt flag, together with the spec-level model of that state.

use vstd::prelude::*;

verus! {

/// Number of general-purpose registers (indices 0x0 through 0xF).
pub const NUM_REGISTERS: usize = 16;

/// Size of the flat byte memory: a 12-bit address space.
pub const MEMORY_SIZE: usize = 4096;

/// Capacity of the call stack (maximum nesting depth of subroutine calls).
pub const STACK_CAPACITY: usize = 16;

/// Index of the register reserved as the carry/overflow flag.
pub const FLAG_REGISTER: usize = 15;

/// The four fatal conditions that abort execution. None is recoverable
/// inside the core: the run loop stops and reports the condition; the
/// machine state at the moment of failure is left in place for inspection.
#[derive(Clone, Copy, Debug, PartialEq, Eq, Structural)]
pub enum VmError {
    /// The program counter (or its successor) fell outside memory at a fetch.
    OutOfBoundsFetch,
    /// A call was attempted with the stack already at capacity.
    StackOverflow,
    /// A return was attempted with an empty stack.
    StackUnderflow,
    /// The decoded instruction matches no recognized opcode pattern.
    UnimplementedInstruction,
}

/// Spec-level execution status of the machine after some number of steps.
pub enum VmStatus {
    /// More instructions remain to be executed.
    Running,
    /// The all-zero halt instruction was fetched; the machine is stopped.
    Halted,
    /// Execution aborted with the given fatal condition.
    Failed(VmError),
}

/// Mathematical model of the machine state: the view of [`CPU`].
#[verifier::ext_equal]
pub ghost struct AbsCpu {
    /// The sixteen 8-bit registers; index `FLAG_REGISTER` is the carry flag.
    pub regs: Seq<u8>,
    /// The 4096-byte memory.
    pub mem: Seq<u8>,
    /// Program counter: index of the next instruction's first byte.
    pub pc: nat,
    /// Saved return addresses; only the first `sp` entries are live.
    pub stack: Seq<u16>,
    /// Stack pointer: the next free stack slot; 0 means empty.
    pub sp: nat,
    /// Whether the machine has executed the halt instruction.
    pub halted: bool,
}

/// The machine state: one self-contained value, constructed once,
/// mutated only by the run loop and its handlers.
pub struct CPU {
    /// Sixteen 8-bit general-purpose registers.
    pub registers: Vec<u8>,
    /// Flat addressable memory of 4096 bytes, holding instruction encodings.
    pub memory: Vec<u8>,
    /// Program counter: index into `memory` of the next instruction to fetch.
    pub position_in_memory: usize,
    /// Fixed-capacity stack of saved return addresses.
    pub stack: Vec<u16>,
    /// Next free slot in `stack`.
    pub stack_pointer: usize,
    /// Set when the halt instruction is executed; terminal.
    pub halted: bool,
}

impl View for CPU {
    type V = AbsCpu;

    open spec fn view(&self) -> AbsCpu {
        AbsCpu {
            regs: self.registers@,
            mem: self.memory@,
            pc: self.position_in_memory as nat,
            stack: self.stack@,
            sp: self.stack_pointer as nat,
            halted: self.halted,
        }
    }
}

impl CPU {
    /// Well-formedness: the containers have their declared fixed sizes and
    /// the stack pointer stays within the stack's capacity.
    pub open spec fn wf(&self) -> bool {
        &&& self.registers@.len() == NUM_REGISTERS
        &&& self.memory@.len() == MEMORY_SIZE
        &&& self.stack@.len() == STACK_CAPACITY
        &&& self.stack_pointer <= STACK_CAPACITY
    }

    /// A machine with every field zero-initialized: registers, memory and
    /// stack all zero, program counter at 0, stack empty, not halted.
    pub fn new() -> (cpu: CPU)
        ensures
            cpu.wf(),
            forall|i: int| 0 <= i < NUM_REGISTERS ==> cpu@.regs[i] == 0,
            forall|i: int| 0 <= i < MEMORY_SIZE ==> cpu@.mem[i] == 0,
            forall|i: int| 0 <= i < STACK_CAPACITY ==> cpu@.stack[i] == 0,
            cpu@.pc == 0,
            cpu@.sp == 0,
            !cpu@.halted,
    {
        CPU {
            registers: zeroed_bytes(NUM_REGISTERS),
            memory: zeroed_bytes(MEMORY_SIZE),
            position_in_memory: 0,
            stack: zeroed_words(STACK_CAPACITY),
            stack_pointer: 0,
            halted: false,
        }
    }
}

/// A vector of `n` zero bytes.
fn zeroed_bytes(n: usize) -> (v: Vec<u8>)
    ensures
        v@.len() == n,
        forall|i: int| 0 <= i < n ==> v@[i] == 0,
{
    let mut v: Vec<u8> = Vec::new();
    let mut k: usize = 0;
    while k < n
        invariant
            k <= n,
            v@.len() == k,
            forall|i: int| 0 <= i < k ==> v@[i] == 0,
        decreases n - k,
    {
        v.push(0);
        k = k + 1;
    }
    v
}

/// A vector of `n` zero 16-bit words.
fn zeroed_words(n: usize) -> (v: Vec<u16>)
    ensures
        v@.len() == n,
        forall|i: int| 0 <= i < n ==> v@[i] == 0,
{
    let mut v: Vec<u16> = Vec::new();
    let mut k: usize = 0;
    while k < n
        invariant
            k <= n,
            v@.len() == k,
            forall|i: int| 0 <= i < k ==> v@[i] == 0,
        decreases n - k,
    {
        v.push(0);
        k = k + 1;
    }
    v
}

} // verus!
