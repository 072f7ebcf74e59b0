//! The processor: its registers, its memory, and the operations on them.

pub use crate::addressing::AddressingMode;
use crate::error::CpuError;
use crate::machine::{
    lemma_caught_never_stops, lemma_control_flow, lemma_halts_unfold, lemma_run_within_unique,
    CpuState, ExecutionState,
};
use crate::memory::{
    lemma_bytes_are_shift_and_mask, lemma_word_is_shift_or, lemma_write_then_read_u16, MEMORY_SIZE,
    PROGRAM_BASE, RESET_VECTOR,
};
use crate::opcodes::{lookup, Operation};
use crate::status::{flag_set, lemma_zero_and_negative, NEGATIVE, ZERO};
use vstd::prelude::*;
use vstd::set_lib::{lemma_int_range, lemma_len_subset, set_int_range};

verus! {

/// The processor and its address space.
pub struct CPU {
    /// The accumulator.
    pub register_a: u8,
    /// Index register X.
    pub register_x: u8,
    /// Index register Y.
    pub register_y: u8,
    /// The status flags; see the constants of the module `status`.
    pub status: u8,
    /// The address of the next byte of the instruction stream.
    pub program_counter: u16,
    /// The stack pointer.
    pub stack_pointer: u8,
    /// The address space. Use `mem_read` and `mem_write` and their 16-bit
    /// forms to access it.
    pub memory: [u8; 0x10000],
}

impl View for CPU {
    type V = CpuState;

    open spec fn view(&self) -> CpuState {
        CpuState {
            register_a: self.register_a,
            register_x: self.register_x,
            register_y: self.register_y,
            status: self.status,
            program_counter: self.program_counter,
            stack_pointer: self.stack_pointer,
            memory: self.memory@,
        }
    }
}

impl CPU {
    /// A processor with every register and every byte of memory zero.
    pub fn new() -> (cpu: Self)
        ensures
            cpu@ == CpuState::zeroed(),
    {
        CPU {
            register_a: 0,
            register_x: 0,
            register_y: 0,
            status: 0,
            program_counter: 0,
            stack_pointer: 0,
            memory: [0; 0x10000],
        }
    }

    /// The byte at `addr`.
    pub fn mem_read(&self, addr: u16) -> (data: u8)
        ensures
            data == self@.byte_at(addr),
    {
        self.memory[addr as usize]
    }

    /// Stores `data` at `addr`.
    pub fn mem_write(&mut self, addr: u16, data: u8)
        ensures
            final(self)@ == old(self)@.store(addr, data),
    {
        self.memory[addr as usize] = data;
    }

    /// The little-endian word at `pos`: its low byte is at `pos`, its high
    /// byte at the address after it, which for `0xFFFF` is `0x0000`.
    pub fn mem_read_u16(&self, pos: u16) -> (data: u16)
        ensures
            data == self@.word_at(pos),
    {
        let lo: u8 = self.mem_read(pos);
        let hi: u8 = self.mem_read(pos.wrapping_add(1));
        proof {
            lemma_word_is_shift_or(lo, hi);
        }
        ((hi as u16) << 8) | (lo as u16)
    }

    /// Stores the word `data` at `pos`, low byte first; the high byte goes to
    /// the address after `pos`, which for `0xFFFF` is `0x0000`.
    pub fn mem_write_u16(&mut self, pos: u16, data: u16)
        ensures
            final(self)@ == old(self)@.store_u16(pos, data),
            final(self)@.word_at(pos) == data,
    {
        let hi: u8 = (data >> 8) as u8;
        let lo: u8 = (data & 0xff) as u8;
        proof {
            lemma_bytes_are_shift_and_mask(data);
            lemma_write_then_read_u16(self@.memory, pos, data);
        }
        self.mem_write(pos, lo);
        self.mem_write(pos.wrapping_add(1), hi);
    }

    /// Clears the accumulator, index X and the status flags, and takes the
    /// program counter from the reset vector. Index Y, the stack pointer and
    /// the memory stay as they are.
    pub fn reset(&mut self)
        ensures
            final(self)@ == old(self)@.reset(),
    {
        self.register_a = 0;
        self.register_x = 0;
        self.status = 0;

        self.program_counter = self.mem_read_u16(RESET_VECTOR);
    }

    /// Loads `program`, resets, and runs to the stop.
    ///
    /// The program must fit between `PROGRAM_BASE` and the top of memory, and
    /// the run must come to a stop. The final state and the result are those
    /// of `run` after `load` and `reset`.
    pub fn load_and_run(&mut self, program: Vec<u8>) -> (r: Result<(), CpuError>)
        requires
            program@.len() <= MEMORY_SIZE - PROGRAM_BASE,
            old(self)@.load(program@).reset().halts(),
        ensures
            forall|limit: nat|
                #![trigger old(self)@.load(program@).reset().run_within(limit)]
                old(self)@.load(program@).reset().run_within(limit) is Some ==> old(self)@.load(
                    program@,
                ).reset().run_within(limit) == Some((final(self)@, r)),
    {
        self.load(program);
        self.reset();
        self.run()
    }

    /// Copies `program` into memory from `PROGRAM_BASE` on, then points the
    /// reset vector at `PROGRAM_BASE`. The registers stay as they are.
    ///
    /// The program must fit between `PROGRAM_BASE` and the top of memory. One
    /// that reaches the reset vector has its bytes there replaced by the
    /// vector.
    pub fn load(&mut self, program: Vec<u8>)
        requires
            program@.len() <= MEMORY_SIZE - PROGRAM_BASE,
        ensures
            final(self)@ == old(self)@.load(program@),
            final(self)@.reset().program_counter == PROGRAM_BASE,
    {
        let ghost start = self@;
        let mut i: usize = 0;
        while i < program.len()
            invariant
                i <= program.len() <= MEMORY_SIZE - PROGRAM_BASE,
                self@ == start.copy_in(program@, i as int),
            decreases program.len() - i,
        {
            self.memory[PROGRAM_BASE as usize + i] = program[i];
            i += 1;
        }
        self.mem_write_u16(RESET_VECTOR, PROGRAM_BASE);
    }

    /// The address of the operand of an instruction in `mode` whose operand
    /// bytes start at the program counter.
    ///
    /// `NoneAddressing` has no operand, and asking for its address is the
    /// one error. An address in one of the zero-page modes is at most `0xFF`.
    pub fn get_operand_address(&self, mode: &AddressingMode) -> (r: Result<u16, CpuError>)
        ensures
            r == match self@.operand_address(*mode) {
                Some(addr) => Ok::<u16, CpuError>(addr),
                None => Err(CpuError::UnsupportedAddressingMode),
            },
            r is Err <==> *mode is NoneAddressing,
            mode.in_zero_page() ==> (r matches Ok(addr) && addr <= 0xFF),
    {
        match mode {
            AddressingMode::Immediate => Ok(self.program_counter),
            AddressingMode::ZeroPage => Ok(self.mem_read(self.program_counter) as u16),
            AddressingMode::Absolute => Ok(self.mem_read_u16(self.program_counter)),
            AddressingMode::ZeroPage_X => {
                let pos: u8 = self.mem_read(self.program_counter);
                let addr: u16 = pos.wrapping_add(self.register_x) as u16;
                Ok(addr)
            },
            AddressingMode::ZeroPage_Y => {
                let pos: u8 = self.mem_read(self.program_counter);
                let addr: u16 = pos.wrapping_add(self.register_y) as u16;
                Ok(addr)
            },
            AddressingMode::Absolute_X => {
                let base: u16 = self.mem_read_u16(self.program_counter);
                let addr: u16 = base.wrapping_add(self.register_x as u16);
                Ok(addr)
            },
            AddressingMode::Absolute_Y => {
                let base: u16 = self.mem_read_u16(self.program_counter);
                let addr: u16 = base.wrapping_add(self.register_y as u16);
                Ok(addr)
            },
            AddressingMode::Indirect_X => {
                let base: u8 = self.mem_read(self.program_counter);
                let ptr: u8 = base.wrapping_add(self.register_x);
                let lo: u8 = self.mem_read(ptr as u16);
                let hi: u8 = self.mem_read(ptr.wrapping_add(1) as u16);
                proof {
                    lemma_word_is_shift_or(lo, hi);
                }
                Ok((hi as u16) << 8 | (lo as u16))
            },
            AddressingMode::Indirect_Y => {
                let base: u8 = self.mem_read(self.program_counter);
                let lo: u8 = self.mem_read(base as u16);
                let hi: u8 = self.mem_read(base.wrapping_add(1) as u16);
                proof {
                    lemma_word_is_shift_or(lo, hi);
                }
                let deref_base: u16 = (hi as u16) << 8 | (lo as u16);
                let deref: u16 = deref_base.wrapping_add(self.register_y as u16);
                Ok(deref)
            },
            AddressingMode::NoneAddressing => Err(CpuError::UnsupportedAddressingMode),
        }
    }

    /// Executes one instruction.
    ///
    /// The opcode is fetched at the program counter, which moves over it.
    /// An opcode without an entry in the opcode table is the one error;
    /// nothing else has changed then. Otherwise the operation is carried
    /// out, the program counter moves over the operand bytes, and the result
    /// says whether the instruction was the halt.
    pub fn step(&mut self) -> (r: Result<ExecutionState, CpuError>)
        ensures
            final(self)@ == old(self)@.step(),
            r == old(self)@.step_result(),
    {
        let opcode: u8 = self.mem_read(self.program_counter);
        self.program_counter = self.program_counter.wrapping_add(1);

        match lookup(opcode) {
            None => Err(CpuError::UnimplementedOpcode(opcode)),
            Some(op) => {
                let state: ExecutionState = match op.operation {
                    Operation::Lda => {
                        match self.lda(&op.mode) {
                            Ok(()) => ExecutionState::Running,
                            Err(e) => {
                                return Err(e);
                            },
                        }
                    },
                    Operation::Tax => {
                        self.tax();
                        ExecutionState::Running
                    },
                    Operation::Inx => {
                        self.inx();
                        ExecutionState::Running
                    },
                    Operation::Brk => ExecutionState::Halted,
                };
                self.program_counter = self.program_counter.wrapping_add(op.mode.operand_length());
                Ok(state)
            },
        }
    }

    /// Whether a run from the present state comes to a stop.
    ///
    /// No instruction writes to memory or sets the program counter from a
    /// register, so the path of the program counter is fixed by where it
    /// starts. It is followed until an instruction stops the run or the
    /// program counter comes back to an address where it has been, after
    /// which the run can only repeat itself.
    pub fn halts(&self) -> (r: bool)
        ensures
            r == self@.halts(),
    {
        let mut visited: [bool; 0x10000] = [false; 0x10000];
        let mut count: usize = 0;
        let mut pc: u16 = self.program_counter;
        let ghost mut current: CpuState = self@;
        let ghost mut seen: Set<int> = Set::empty();
        loop
            invariant
                current.memory == self@.memory,
                current.program_counter == pc,
                current.halts() == self@.halts(),
                seen.finite(),
                seen.len() == count,
                seen.subset_of(set_int_range(0, 0x10000)),
                forall|a: int| 0 <= a < 0x10000 ==> (visited@[a] <==> seen.contains(a)),
                forall|a: u16|
                    #![trigger self@.at(a).goes_on()]
                    seen.contains(a as int) ==> self@.at(a).goes_on() && (seen.contains(
                        self@.at(a).step().program_counter as int,
                    ) || self@.at(a).step().program_counter == pc),
            decreases 0x10000 - count,
        {
            if visited[pc as usize] {
                proof {
                    assert(current.caught_in(seen)) by {
                        assert forall|a: u16|
                            #![trigger current.at(a).goes_on()]
                            seen.contains(a as int) implies current.at(a).goes_on()
                            && seen.contains(current.at(a).step().program_counter as int) by {
                            assert(self@.at(a).goes_on());
                            lemma_control_flow(current.at(a), self@.at(a));
                        }
                    }
                    assert forall|limit: nat| current.run_within(limit) is None by {
                        lemma_caught_never_stops(current, seen, limit);
                    }
                }
                return false;
            }
            let opcode: u8 = self.mem_read(pc);
            let operand_length: u16 = match lookup(opcode) {
                None => {
                    assert(current.run_within(0) is Some);
                    return true;
                },
                Some(op) => match op.operation {
                    Operation::Brk => {
                        assert(current.run_within(0) is Some);
                        return true;
                    },
                    _ => op.mode.operand_length(),
                },
            };
            proof {
                lemma_control_flow(current, self@.at(pc));
                lemma_halts_unfold(current);
                lemma_int_range(0, 0x10000);
                lemma_len_subset(seen.insert(pc as int), set_int_range(0, 0x10000));
                seen = seen.insert(pc as int);
                current = current.step();
            }
            visited[pc as usize] = true;
            count = count + 1;
            pc = pc.wrapping_add(1).wrapping_add(operand_length);
        }
    }

    /// Executes instructions until one of them stops the run: the halt
    /// instruction, after which the result is `Ok`, or an opcode that is not
    /// implemented, which is returned as the error.
    ///
    /// The run must come to a stop, which `halts` tests. The final state and
    /// the result are then those that `run_within` gives under any limit
    /// that suffices.
    pub fn run(&mut self) -> (r: Result<(), CpuError>)
        requires
            old(self)@.halts(),
        ensures
            forall|limit: nat|
                #![trigger old(self)@.run_within(limit)]
                old(self)@.run_within(limit) is Some ==> old(self)@.run_within(limit) == Some(
                    (final(self)@, r),
                ),
    {
        let ghost start = self@;
        let ghost enough: nat = choose|limit: nat| start.run_within(limit) is Some;
        let ghost mut left: nat = enough;
        assert forall|limit: nat| start.run_within(limit) is Some implies start.run_within(limit)
            == start.run_within(enough) by {
            lemma_run_within_unique(start, limit, enough);
        }
        loop
            invariant
                start == old(self)@,
                forall|limit: nat|
                    start.run_within(limit) is Some ==> start.run_within(limit)
                        == start.run_within(enough),
                self@.run_within(left) is Some,
                self@.run_within(left) == start.run_within(enough),
            decreases left,
        {
            match self.step() {
                Ok(ExecutionState::Running) => {
                    proof {
                        left = (left - 1) as nat;
                    }
                },
                Ok(ExecutionState::Halted) => {
                    return Ok(());
                },
                Err(e) => {
                    return Err(e);
                },
            }
        }
    }

    /// Loads the accumulator with the operand found in `mode` and sets the
    /// Zero and Negative flags from it: Zero exactly if the value is zero,
    /// Negative exactly if its bit 7 is set.
    ///
    /// In the mode `NoneAddressing` there is no operand: that is the one
    /// error, and nothing has changed then.
    pub fn lda(&mut self, mode: &AddressingMode) -> (r: Result<(), CpuError>)
        ensures
            match old(self)@.operand_address(*mode) {
                Some(addr) => r is Ok && final(self)@ == old(self)@.load_accumulator(addr),
                None => final(self)@ == old(self)@ && r == Err::<(), CpuError>(
                    CpuError::UnsupportedAddressingMode,
                ),
            },
            r is Err <==> *mode is NoneAddressing,
            r is Ok ==> (flag_set(final(self).status, ZERO) <==> final(self).register_a == 0),
            r is Ok ==> (flag_set(final(self).status, NEGATIVE) <==> final(self).register_a & 0x80
                != 0),
    {
        let addr: u16 = match self.get_operand_address(mode) {
            Ok(addr) => addr,
            Err(e) => {
                return Err(e);
            },
        };
        let value: u8 = self.mem_read(addr);

        self.register_a = value;
        self.update_zero_and_negative_flags(self.register_a);
        Ok(())
    }

    /// Copies the accumulator to index X and sets the Zero and Negative
    /// flags from the value.
    pub fn tax(&mut self)
        ensures
            final(self)@ == old(self)@.transfer_a_to_x(),
    {
        self.register_x = self.register_a;
        self.update_zero_and_negative_flags(self.register_x);
    }

    /// Adds one to index X, wrapping from `0xFF` to `0x00`, and sets the Zero
    /// and Negative flags from the new value. Carry is not touched.
    pub fn inx(&mut self)
        ensures
            final(self)@ == old(self)@.increment_x(),
            old(self).register_x == 0xFF ==> final(self).register_x == 0 && flag_set(
                final(self).status,
                ZERO,
            ),
    {
        self.register_x = self.register_x.wrapping_add(1);
        self.update_zero_and_negative_flags(self.register_x);
    }

    /// Sets the Zero flag exactly if `result` is zero and the Negative flag
    /// exactly if bit 7 of `result` is set. The other flags, the registers
    /// and the memory stay as they are.
    pub fn update_zero_and_negative_flags(&mut self, result: u8)
        ensures
            final(self)@ == old(self)@.flags_from(result),
            flag_set(final(self).status, ZERO) <==> result == 0,
            flag_set(final(self).status, NEGATIVE) <==> result & 0x80 != 0,
            final(self).status & !(ZERO | NEGATIVE) == old(self).status & !(ZERO | NEGATIVE),
    {
        proof {
            lemma_zero_and_negative(self.status, result);
            assert((result & NEGATIVE != 0) == (result >= 0x80)) by (bit_vector);
        }
        if result == 0 {
            self.status = self.status | ZERO;
        } else {
            self.status = self.status & !ZERO;
        }

        if result & NEGATIVE != 0 {
            self.status = self.status | NEGATIVE;
        } else {
            self.status = self.status & !NEGATIVE;
        }
    }
}

} // verus!
