//! The machine as a mathematical object: its state, and what resolving an
//! address, executing one instruction and running to a stop do to it.
//!
//! All arithmetic on addresses and registers wraps at the width of the
//! value: 8-bit values at 256, 16-bit values at 65536.

use crate::addressing::AddressingMode;
use crate::error::CpuError;
use crate::memory::{
    lemma_write_then_read_u16, read_u16, read_zero_page_u16, write_u16, MEMORY_SIZE, PROGRAM_BASE,
    RESET_VECTOR,
};
use crate::opcodes::{descriptor, OpCode, Operation, HALT};
use crate::status::{
    flag_set, lemma_zero_and_negative, with_zero_and_negative, CARRY, NEGATIVE, ZERO,
};
use vstd::prelude::*;

verus! {

/// Whether the machine goes on after an instruction.
#[derive(Debug, Clone, Copy, PartialEq, Eq, Structural)]
pub enum ExecutionState {
    /// The next instruction may be executed.
    Running,
    /// The halt instruction was executed.
    Halted,
}

/// The registers and the memory of the machine.
#[verifier::ext_equal]
pub ghost struct CpuState {
    /// The accumulator.
    pub register_a: u8,
    /// Index register X.
    pub register_x: u8,
    /// Index register Y.
    pub register_y: u8,
    /// The status flags.
    pub status: u8,
    /// The address of the next byte of the instruction stream.
    pub program_counter: u16,
    /// The stack pointer.
    pub stack_pointer: u8,
    /// The address space.
    pub memory: Seq<u8>,
}

/// `a` plus `b`, wrapped to eight bits.
pub open spec fn wrap8(a: u8, b: u8) -> u8 {
    ((a + b) % 256) as u8
}

/// `a` plus `b`, wrapped to sixteen bits.
pub open spec fn wrap16(a: u16, b: u16) -> u16 {
    ((a + b) % 0x10000) as u16
}

impl CpuState {
    /// The state in which every register and every byte of memory is zero.
    pub open spec fn zeroed() -> CpuState {
        CpuState {
            register_a: 0,
            register_x: 0,
            register_y: 0,
            status: 0,
            program_counter: 0,
            stack_pointer: 0,
            memory: Seq::new(MEMORY_SIZE as nat, |i: int| 0u8),
        }
    }

    /// Whether the memory is a full address space.
    pub open spec fn wf(self) -> bool {
        self.memory.len() == MEMORY_SIZE
    }

    /// The byte at `addr`.
    pub open spec fn byte_at(self, addr: u16) -> u8 {
        self.memory[addr as int]
    }

    /// The little-endian word at `addr`.
    pub open spec fn word_at(self, addr: u16) -> u16 {
        read_u16(self.memory, addr)
    }

    /// The byte at the program counter.
    pub open spec fn fetch(self) -> u8 {
        self.byte_at(self.program_counter)
    }

    /// The address of the operand in `mode`, with the program counter at the
    /// first operand byte; `None` for the mode that has no operand.
    pub open spec fn operand_address(self, mode: AddressingMode) -> Option<u16> {
        match mode {
            AddressingMode::Immediate => Some(self.program_counter),
            AddressingMode::ZeroPage => Some(self.fetch() as u16),
            AddressingMode::ZeroPage_X => Some(wrap8(self.fetch(), self.register_x) as u16),
            AddressingMode::ZeroPage_Y => Some(wrap8(self.fetch(), self.register_y) as u16),
            AddressingMode::Absolute => Some(self.word_at(self.program_counter)),
            AddressingMode::Absolute_X => Some(
                wrap16(self.word_at(self.program_counter), self.register_x as u16),
            ),
            AddressingMode::Absolute_Y => Some(
                wrap16(self.word_at(self.program_counter), self.register_y as u16),
            ),
            AddressingMode::Indirect_X => Some(
                read_zero_page_u16(self.memory, wrap8(self.fetch(), self.register_x)),
            ),
            AddressingMode::Indirect_Y => Some(
                wrap16(read_zero_page_u16(self.memory, self.fetch()), self.register_y as u16),
            ),
            AddressingMode::NoneAddressing => None,
        }
    }

    /// The state with the program counter moved `n` bytes forward.
    pub open spec fn advance(self, n: u16) -> CpuState {
        CpuState { program_counter: wrap16(self.program_counter, n), ..self }
    }

    /// The state with `data` stored at `addr`.
    pub open spec fn store(self, addr: u16, data: u8) -> CpuState {
        CpuState { memory: self.memory.update(addr as int, data), ..self }
    }

    /// The state with the word `data` stored at `addr`, low byte first.
    pub open spec fn store_u16(self, addr: u16, data: u16) -> CpuState {
        CpuState { memory: write_u16(self.memory, addr, data), ..self }
    }

    /// The state with the Zero and Negative flags set from `result`.
    pub open spec fn flags_from(self, result: u8) -> CpuState {
        CpuState { status: with_zero_and_negative(self.status, result), ..self }
    }

    /// Load the accumulator with the byte at `addr`.
    pub open spec fn load_accumulator(self, addr: u16) -> CpuState {
        CpuState { register_a: self.byte_at(addr), ..self }.flags_from(self.byte_at(addr))
    }

    /// Transfer the accumulator to index X.
    pub open spec fn transfer_a_to_x(self) -> CpuState {
        CpuState { register_x: self.register_a, ..self }.flags_from(self.register_a)
    }

    /// Increment index X, wrapping from `0xFF` to `0x00`.
    pub open spec fn increment_x(self) -> CpuState {
        CpuState { register_x: wrap8(self.register_x, 1), ..self }.flags_from(
            wrap8(self.register_x, 1),
        )
    }

    /// The state with the first `n` bytes of `program` copied into memory
    /// from `PROGRAM_BASE` on.
    pub open spec fn copy_in(self, program: Seq<u8>, n: int) -> CpuState {
        CpuState {
            memory: Seq::new(
                self.memory.len(),
                |i: int|
                    if PROGRAM_BASE <= i < PROGRAM_BASE + n {
                        program[i - PROGRAM_BASE]
                    } else {
                        self.memory[i]
                    },
            ),
            ..self
        }
    }

    /// The state with `program` copied into memory from `PROGRAM_BASE` on
    /// and the reset vector, written after it, pointing at `PROGRAM_BASE`.
    pub open spec fn load(self, program: Seq<u8>) -> CpuState {
        self.copy_in(program, program.len() as int).store_u16(RESET_VECTOR, PROGRAM_BASE)
    }

    /// The state after a reset: accumulator, index X and the status flags
    /// cleared, and the program counter taken from the reset vector.
    pub open spec fn reset(self) -> CpuState {
        CpuState {
            register_a: 0,
            register_x: 0,
            status: 0,
            program_counter: self.word_at(RESET_VECTOR),
            ..self
        }
    }

    /// The effect of the instruction `op`, with the program counter just
    /// behind its opcode byte: the operation, then the program counter moved
    /// over the operand bytes.
    pub open spec fn execute(self, op: OpCode) -> CpuState {
        let done = match op.operation {
            Operation::Lda => match self.operand_address(op.mode) {
                Some(addr) => self.load_accumulator(addr),
                None => self,
            },
            Operation::Tax => self.transfer_a_to_x(),
            Operation::Inx => self.increment_x(),
            Operation::Brk => self,
        };
        done.advance(op.mode.operand_length())
    }

    /// The state after one instruction. The opcode byte is fetched and the
    /// program counter moved over it; an opcode without an entry in the
    /// table changes nothing more.
    pub open spec fn step(self) -> CpuState {
        match descriptor(self.fetch()) {
            Some(op) => self.advance(1).execute(op),
            None => self.advance(1),
        }
    }

    /// How one instruction ends: halted if the opcode is `HALT`, in an error
    /// if it has no entry in the opcode table, running otherwise.
    pub open spec fn step_result(self) -> Result<ExecutionState, CpuError> {
        if self.fetch() == HALT {
            Ok(ExecutionState::Halted)
        } else if descriptor(self.fetch()) is Some {
            Ok(ExecutionState::Running)
        } else {
            Err(CpuError::UnimplementedOpcode(self.fetch()))
        }
    }

    /// Whether the next instruction leaves the machine running.
    pub open spec fn goes_on(self) -> bool {
        self.step_result() == Ok::<ExecutionState, CpuError>(ExecutionState::Running)
    }

    /// Where and how a run from this state stops, if it stops with at most
    /// `limit` instructions executed before the one that stops it. A run
    /// stops with the halt instruction or with an opcode that is not
    /// implemented.
    pub open spec fn run_within(self, limit: nat) -> Option<(CpuState, Result<(), CpuError>)>
        decreases limit,
    {
        match self.step_result() {
            Ok(ExecutionState::Halted) => Some((self.step(), Ok(()))),
            Err(e) => Some((self.step(), Err(e))),
            Ok(ExecutionState::Running) => if limit == 0 {
                None
            } else {
                self.step().run_within((limit - 1) as nat)
            },
        }
    }

    /// Whether a run from this state ever stops.
    pub open spec fn halts(self) -> bool {
        exists|limit: nat| self.run_within(limit) is Some
    }

    /// This state with the program counter at `pc`.
    pub open spec fn at(self, pc: u16) -> CpuState {
        CpuState { program_counter: pc, ..self }
    }

    /// Whether `region` is a set of addresses in which a run is caught: at
    /// each of them stands an instruction that does not stop the run and
    /// that leaves the program counter inside `region`.
    pub open spec fn caught_in(self, region: Set<int>) -> bool {
        forall|pc: u16|
            #![trigger self.at(pc).goes_on()]
            region.contains(pc as int) ==> self.at(pc).goes_on() && region.contains(
                self.at(pc).step().program_counter as int,
            )
    }
}

/// An address in one of the zero-page modes lies in page zero: the sum of
/// the operand byte and the index register wraps at 256 before it is widened
/// to an address, whatever the two values are.
pub proof fn lemma_zero_page_address(s: CpuState, mode: AddressingMode)
    requires
        mode.in_zero_page(),
    ensures
        s.operand_address(mode) matches Some(addr) && addr <= 0xFF,
        mode is ZeroPage_X ==> s.operand_address(mode) == Some(
            ((s.fetch() + s.register_x) % 256) as u16,
        ),
        mode is ZeroPage_Y ==> s.operand_address(mode) == Some(
            ((s.fetch() + s.register_y) % 256) as u16,
        ),
{
}

/// After a load of the accumulator from `addr` the accumulator holds the
/// byte at `addr`, the Zero flag is set exactly if that byte is zero and
/// the Negative flag exactly if its bit 7 is set. The two flags are never
/// set together, and Carry is as it was.
pub proof fn lemma_load_accumulator_flags(s: CpuState, addr: u16)
    ensures
        s.load_accumulator(addr).register_a == s.byte_at(addr),
        flag_set(s.load_accumulator(addr).status, ZERO) <==> s.byte_at(addr) == 0,
        flag_set(s.load_accumulator(addr).status, NEGATIVE) <==> s.byte_at(addr) & 0x80 != 0,
        !(flag_set(s.load_accumulator(addr).status, ZERO) && flag_set(
            s.load_accumulator(addr).status,
            NEGATIVE,
        )),
        flag_set(s.load_accumulator(addr).status, CARRY) == flag_set(s.status, CARRY),
{
    lemma_zero_and_negative(s.status, s.byte_at(addr));
}

/// An increment of index X from `0xFF` gives `0x00` with the Zero flag set
/// and the Negative flag clear; from any other value it gives the next
/// value. Carry is as it was either way.
pub proof fn lemma_increment_x_wraps(s: CpuState)
    ensures
        s.register_x == 0xFF ==> s.increment_x().register_x == 0 && flag_set(
            s.increment_x().status,
            ZERO,
        ) && !flag_set(s.increment_x().status, NEGATIVE),
        s.register_x < 0xFF ==> s.increment_x().register_x == s.register_x + 1 && !flag_set(
            s.increment_x().status,
            ZERO,
        ),
        flag_set(s.increment_x().status, CARRY) == flag_set(s.status, CARRY),
{
    lemma_zero_and_negative(s.status, wrap8(s.register_x, 1));
}

/// A word stored in the machine's memory is the word read back from the
/// same address, for every word and every address.
pub proof fn lemma_store_then_read_u16(s: CpuState, addr: u16, data: u16)
    requires
        s.wf(),
    ensures
        s.store_u16(addr, data).word_at(addr) == data,
        s.store_u16(addr, data).wf(),
{
    lemma_write_then_read_u16(s.memory, addr, data);
}

/// A reset after a load starts execution at the first byte of the program:
/// the program counter is `PROGRAM_BASE`, and each byte of the program is
/// at its place above it, but for the two that the reset vector replaced
/// in a program long enough to reach it.
pub proof fn lemma_load_then_reset(s: CpuState, program: Seq<u8>)
    requires
        s.wf(),
        program.len() <= MEMORY_SIZE - PROGRAM_BASE,
    ensures
        s.load(program).wf(),
        s.load(program).reset().program_counter == PROGRAM_BASE,
        forall|i: int|
            0 <= i < program.len() && PROGRAM_BASE + i != RESET_VECTOR && PROGRAM_BASE + i
                != RESET_VECTOR + 1 ==> #[trigger] s.load(program).reset().memory[PROGRAM_BASE + i]
                == program[i],
        forall|addr: int|
            0 <= addr < PROGRAM_BASE ==> #[trigger] s.load(program).reset().memory[addr]
                == s.memory[addr],
{
    lemma_write_then_read_u16(
        s.copy_in(program, program.len() as int).memory,
        RESET_VECTOR,
        PROGRAM_BASE,
    );
}

/// A run stops exactly if its first instruction stops it or the run from
/// the state after that instruction stops.
pub proof fn lemma_halts_unfold(s: CpuState)
    ensures
        s.halts() <==> (!s.goes_on() || s.step().halts()),
{
    if s.goes_on() {
        if s.halts() {
            let limit = choose|limit: nat| s.run_within(limit) is Some;
            assert(s.step().run_within((limit - 1) as nat) is Some);
        }
        if s.step().halts() {
            let limit = choose|limit: nat| s.step().run_within(limit) is Some;
            assert(s.run_within(limit + 1) is Some);
        }
    } else {
        assert(s.run_within(0) is Some);
    }
}

/// Control flow depends on the program counter and the memory alone, and
/// no instruction writes to memory: two states that agree on both end their
/// next instruction alike and with the same program counter.
pub proof fn lemma_control_flow(s: CpuState, t: CpuState)
    requires
        s.memory == t.memory,
        s.program_counter == t.program_counter,
    ensures
        s.step_result() == t.step_result(),
        s.step().program_counter == t.step().program_counter,
        s.step().memory == s.memory,
{
}

/// A run whose program counter is in a region in which it is caught never
/// stops.
pub proof fn lemma_caught_never_stops(s: CpuState, region: Set<int>, limit: nat)
    requires
        s.caught_in(region),
        region.contains(s.program_counter as int),
    ensures
        s.run_within(limit) is None,
    decreases limit,
{
    assert(s.at(s.program_counter) == s);
    assert(s.at(s.program_counter).goes_on());
    if limit > 0 {
        let t = s.step();
        assert(t.caught_in(region)) by {
            assert forall|pc: u16|
                #![trigger t.at(pc).goes_on()]
                region.contains(pc as int) implies t.at(pc).goes_on() && region.contains(
                t.at(pc).step().program_counter as int,
            ) by {
                assert(s.at(pc).goes_on());
                lemma_control_flow(t.at(pc), s.at(pc));
            }
        }
        lemma_caught_never_stops(t, region, (limit - 1) as nat);
    }
}

/// A larger limit does not change where and how a run stops.
pub proof fn lemma_run_within_stable(s: CpuState, limit: nat, more: nat)
    requires
        s.run_within(limit) is Some,
        limit <= more,
    ensures
        s.run_within(more) == s.run_within(limit),
    decreases limit,
{
    if s.goes_on() {
        lemma_run_within_stable(s.step(), (limit - 1) as nat, (more - 1) as nat);
    }
}

/// A run stops in one place only: any two limits under which it stops give
/// the same final state and the same result.
pub proof fn lemma_run_within_unique(s: CpuState, n: nat, m: nat)
    requires
        s.run_within(n) is Some,
        s.run_within(m) is Some,
    ensures
        s.run_within(n) == s.run_within(m),
{
    if n <= m {
        lemma_run_within_stable(s, n, m);
    } else {
        lemma_run_within_stable(s, m, n);
    }
}

} // verus!
