//! The processor: registers, operand addressing and instruction execution.
//!
//! The processor does not own memory. Every operation that touches the bus
//! borrows it for the length of the call, so that whoever owns it can lend
//! it to other components between steps.

use vstd::prelude::*;
use crate::alu::{
    add_with_carry, compare_bytes, decrement, high_byte, increment, low_byte, make_word,
    offset_address, page, page_crossed, rotate_left, rotate_right, shift_left, shift_right,
    subtract_with_carry, test_bits, wrap16, wrap8, Shifted,
};
use crate::instruction::{
    lemma_decoded_well_formed, Access, AddrMode, Family, Instruction, OpCode,
};
use crate::machine::{
    word_at, word_in_page, word_in_zero_page, Machine, IRQ_VECTOR, RESET_SP, RESET_VECTOR,
};
use crate::mem::{Memory, STACK_TOP, ZERO_PAGE_START};
use crate::status::StatusRegister;

verus! {

/// The registers of the processor.
#[derive(Clone, Copy, Debug, PartialEq, Eq, Structural)]
pub struct CPU {
    /// Program counter.
    pub pc: u16,
    /// Stack pointer: the low byte of the next free address in page 1.
    pub sp: u8,
    /// Accumulator.
    pub accum: u8,
    pub x: u8,
    pub y: u8,
    pub status: StatusRegister,
    /// Clock cycles spent since the last reset.
    pub cycle: u64,
}

/// What one step reports to the caller.
#[derive(Clone, Copy, Debug, PartialEq, Eq, Structural)]
pub struct Step {
    /// The opcode byte that was executed.
    pub opcode: u8,
    /// Clock cycles the instruction took, penalties included.
    pub cycles: u8,
    /// The byte has no instruction assigned. It was executed as a
    /// no-operation.
    pub illegal: bool,
}

/// Registers and the contents of memory seen as one machine.
pub open spec fn machine(cpu: CPU, mem: Seq<u8>) -> Machine {
    Machine { cpu, mem }
}

/// The address stored at `addr` and the byte after it, low byte first.
fn read_word(mem: &Memory, addr: u16) -> (w: u16)
    ensures
        w == word_at(mem@, addr),
{
    make_word(mem.ram_read(addr), mem.ram_read(addr.wrapping_add(1)))
}

/// The address stored at `pointer`, with the high byte fetched from the
/// pointer's own page even where the pointer is the last byte of it.
fn read_word_in_page(mem: &Memory, pointer: u16) -> (w: u16)
    ensures
        w == word_in_page(mem@, pointer),
{
    let after = make_word(low_byte(pointer).wrapping_add(1), high_byte(pointer));
    make_word(mem.ram_read(pointer), mem.ram_read(after))
}

/// The address stored in page zero at `pointer` and the byte after it,
/// which for `0xFF` is `0x00`.
fn read_word_in_zero_page(mem: &Memory, pointer: u8) -> (w: u16)
    ensures
        w == word_in_zero_page(mem@, pointer),
{
    let lo = mem.ram_read(ZERO_PAGE_START + pointer as u16);
    let hi = mem.ram_read(ZERO_PAGE_START + pointer.wrapping_add(1) as u16);
    make_word(lo, hi)
}

/// A zero page address plus an index register, kept in page zero.
fn zero_page_indexed(byte: u8, index: u8) -> (addr: u16)
    ensures
        addr == wrap8(byte + index) as u16,
{
    ZERO_PAGE_START + byte.wrapping_add(index) as u16
}

/// A base address plus an index register, and whether the sum lies in
/// another page than the base.
fn indexed(base: u16, index: u8) -> (res: (u16, bool))
    ensures
        res.0 == wrap16(base + index),
        res.1 == (page(base) != page(res.0)),
{
    let addr = base.wrapping_add(index as u16);
    (addr, page_crossed(base, addr))
}

impl CPU {
    /// The processor at power-on.
    pub fn new() -> (cpu: CPU)
        ensures
            cpu == CPU::power_on(),
    {
        CPU {
            pc: 0,
            sp: RESET_SP,
            accum: 0,
            x: 0,
            y: 0,
            status: StatusRegister::new(),
            cycle: 0,
        }
    }

    /// Starts over: execution resumes at the address in the reset vector.
    pub fn reset(&mut self, mem: &Memory)
        ensures
            *final(self) == machine(*old(self), mem@).reset().cpu,
    {
        self.pc = read_word(mem, RESET_VECTOR);
        self.sp = RESET_SP;
        self.status.set_i();
        self.cycle = 0;
    }

    /// Lets one clock cycle pass. The counter must not be full.
    pub fn tick_clock(&mut self)
        requires
            old(self).cycle < u64::MAX,
        ensures
            *final(self) == (CPU { cycle: (old(self).cycle + 1) as u64, ..*old(self) }),
    {
        self.cycle += 1;
    }

    /// Lets `cycles` clock cycles pass, one at a time.
    fn spend(&mut self, cycles: u8)
        requires
            old(self).cycle + cycles <= u64::MAX,
        ensures
            *final(self) == (CPU { cycle: (old(self).cycle + cycles) as u64, ..*old(self) }),
    {
        let ghost start = *self;
        let mut spent: u8 = 0;
        while spent < cycles
            invariant
                spent <= cycles,
                start.cycle + cycles <= u64::MAX,
                *self == (CPU { cycle: (start.cycle + spent) as u64, ..start }),
            decreases cycles - spent,
        {
            self.tick_clock();
            spent += 1;
        }
    }

    /// Reads the opcode at the program counter, steps over it and decodes
    /// it.
    pub fn fetch_instruction(&mut self, mem: &Memory) -> (inst: Instruction)
        ensures
            inst == machine(*old(self), mem@).fetched(),
            *final(self) == machine(*old(self), mem@).after_fetch().cpu,
    {
        let opcode = mem.ram_read(self.pc);
        self.pc = self.pc.wrapping_add(1);
        Instruction::new(opcode)
    }

    /// Pushes one byte onto the stack.
    pub fn push_byte(&mut self, mem: &mut Memory, data: u8)
        ensures
            *final(self) == machine(*old(self), old(mem)@).push(data).cpu,
            final(mem)@ == machine(*old(self), old(mem)@).push(data).mem,
    {
        mem.ram_write(STACK_TOP + self.sp as u16, data);
        self.sp = self.sp.wrapping_sub(1);
    }

    /// Pulls one byte off the stack.
    pub fn pop_byte(&mut self, mem: &Memory) -> (data: u8)
        ensures
            *final(self) == machine(*old(self), mem@).pull().cpu,
            data == machine(*old(self), mem@).pull().top(),
    {
        self.sp = self.sp.wrapping_add(1);
        mem.ram_read(STACK_TOP + self.sp as u16)
    }

    /// Whether the flags let the branch `op` go.
    fn takes_branch(&self, op: OpCode) -> (taken: bool)
        ensures
            taken == self.branch_taken(op),
    {
        match op {
            OpCode::BCC => !self.status.c,
            OpCode::BCS => self.status.c,
            OpCode::BNE => !self.status.z,
            OpCode::BEQ => self.status.z,
            OpCode::BPL => !self.status.n,
            OpCode::BMI => self.status.n,
            OpCode::BVC => !self.status.v,
            OpCode::BVS => self.status.v,
            _ => false,
        }
    }

    /// Finds the operand of an instruction whose operand bytes start at the
    /// program counter: its value, its address if it has one, and whether
    /// indexing left the page of the base address.
    fn resolve(&self, mem: &Memory, addr_mode: AddrMode) -> (res: (u8, Option<u16>, bool))
        ensures
            res.0 == machine(*self, mem@).operand(addr_mode),
            res.1 == machine(*self, mem@).operand_address(addr_mode),
            res.2 == machine(*self, mem@).index_crosses_page(addr_mode),
    {
        let (addr, crossed) = match addr_mode {
            AddrMode::Implicit => return (0, None, false),
            AddrMode::Accumulator => return (self.accum, None, false),
            AddrMode::Immediate | AddrMode::Relative => return (
                mem.ram_read(self.pc),
                None,
                false,
            ),
            AddrMode::ZeroPage => (ZERO_PAGE_START + mem.ram_read(self.pc) as u16, false),
            AddrMode::ZeroPageX => (zero_page_indexed(mem.ram_read(self.pc), self.x), false),
            AddrMode::ZeroPageY => (zero_page_indexed(mem.ram_read(self.pc), self.y), false),
            AddrMode::Absolute => (read_word(mem, self.pc), false),
            AddrMode::AbsoluteX => indexed(read_word(mem, self.pc), self.x),
            AddrMode::AbsoluteY => indexed(read_word(mem, self.pc), self.y),
            AddrMode::Indirect => (read_word_in_page(mem, read_word(mem, self.pc)), false),
            AddrMode::IndexedIndirect => (
                read_word_in_zero_page(mem, mem.ram_read(self.pc).wrapping_add(self.x)),
                false,
            ),
            AddrMode::IndirectIndexed => indexed(
                read_word(mem, ZERO_PAGE_START + mem.ram_read(self.pc) as u16),
                self.y,
            ),
        };
        (mem.ram_read(addr), Some(addr), crossed)
    }

    /// The operand of an instruction in `addr_mode` whose operand bytes
    /// start at the program counter: its value and, where the mode names a
    /// place in memory, its address. The program counter stays where it is.
    pub fn get_operand(&self, mem: &Memory, addr_mode: AddrMode) -> (res: (u8, Option<u16>))
        ensures
            res.0 == machine(*self, mem@).operand(addr_mode),
            res.1 == machine(*self, mem@).operand_address(addr_mode),
    {
        let (value, addr, _) = self.resolve(mem, addr_mode);
        (value, addr)
    }

    /// Puts the result of a shift or rotate back where the operand came
    /// from and sets C, Z and N.
    fn write_back(&mut self, mem: &mut Memory, addr: Option<u16>, shifted: Shifted)
        ensures
            *final(self) == machine(*old(self), old(mem)@).shift(addr, shifted).cpu,
            final(mem)@ == machine(*old(self), old(mem)@).shift(addr, shifted).mem,
    {
        match addr {
            Some(a) => mem.ram_write(a, shifted.value),
            None => self.accum = shifted.value,
        }
        self.status.c = shifted.carry;
        self.status.set_zn(shifted.value);
    }

    /// Enters an interrupt: saves the program counter and the flags on the
    /// stack, disables interrupts and goes on at the address stored at
    /// `vector`. `BRK` comes through here; so may an embedder between two
    /// steps, to deliver an interrupt of its own.
    pub fn interrupt(&mut self, mem: &mut Memory, vector: u16)
        ensures
            *final(self) == machine(*old(self), old(mem)@).interrupt(vector).cpu,
            final(mem)@ == machine(*old(self), old(mem)@).interrupt(vector).mem,
    {
        self.push_byte(mem, high_byte(self.pc));
        self.push_byte(mem, low_byte(self.pc));
        self.push_byte(mem, self.status.get_flags());
        self.status.set_i();
        self.pc = read_word(mem, vector);
    }

    /// Puts `value` in the accumulator and sets Z and N from it.
    fn set_a(&mut self, value: u8)
        ensures
            *final(self) == old(self).load_a(value),
    {
        self.accum = value;
        self.status.set_zn(value);
    }

    /// Puts `value` in X and sets Z and N from it.
    fn set_x(&mut self, value: u8)
        ensures
            *final(self) == old(self).load_x(value),
    {
        self.x = value;
        self.status.set_zn(value);
    }

    /// Puts `value` in Y and sets Z and N from it.
    fn set_y(&mut self, value: u8)
        ensures
            *final(self) == old(self).load_y(value),
    {
        self.y = value;
        self.status.set_zn(value);
    }

    /// Arithmetic, logic and tests: the instructions that combine the
    /// accumulator or an index register with the operand.
    fn apply_alu(&mut self, mem: &mut Memory, op: OpCode, operand: u8, addr: Option<u16>)
        requires
            op.family() == Family::Alu,
        ensures
            *final(self) == machine(*old(self), old(mem)@).effect(op, operand, addr).cpu,
            final(mem)@ == machine(*old(self), old(mem)@).effect(op, operand, addr).mem,
    {
        match op {
            OpCode::ADC => {
                let sum = add_with_carry(self.accum, operand, self.status.c);
                self.accum = sum.value;
                self.status.c = sum.carry;
                self.status.v = sum.overflow;
                self.status.set_zn(sum.value);
            },
            OpCode::SBC => {
                let sum = subtract_with_carry(self.accum, operand, self.status.c);
                self.accum = sum.value;
                self.status.c = sum.carry;
                self.status.v = sum.overflow;
                self.status.set_zn(sum.value);
            },
            OpCode::AND => self.set_a(self.accum & operand),
            OpCode::ORA => self.set_a(self.accum | operand),
            OpCode::EOR => self.set_a(self.accum ^ operand),
            OpCode::BIT => {
                let t = test_bits(self.accum, operand);
                self.status.z = t.zero;
                self.status.v = t.overflow;
                self.status.n = t.negative;
            },
            OpCode::CMP => {
                let t = compare_bytes(self.accum, operand);
                self.status.c = t.carry;
                self.status.z = t.zero;
                self.status.n = t.negative;
            },
            OpCode::CPX => {
                let t = compare_bytes(self.x, operand);
                self.status.c = t.carry;
                self.status.z = t.zero;
                self.status.n = t.negative;
            },
            OpCode::CPY => {
                let t = compare_bytes(self.y, operand);
                self.status.c = t.carry;
                self.status.z = t.zero;
                self.status.n = t.negative;
            },
            _ => {},
        }
    }

    /// Shifts, counting in memory, and stores: the instructions that may
    /// write to the operand's address.
    fn apply_memory(&mut self, mem: &mut Memory, op: OpCode, operand: u8, addr: Option<u16>)
        requires
            op.family() == Family::Memory,
            op.needs_address() ==> addr is Some,
        ensures
            *final(self) == machine(*old(self), old(mem)@).effect(op, operand, addr).cpu,
            final(mem)@ == machine(*old(self), old(mem)@).effect(op, operand, addr).mem,
    {
        match op {
            OpCode::ASL => self.write_back(mem, addr, shift_left(operand)),
            OpCode::LSR => self.write_back(mem, addr, shift_right(operand)),
            OpCode::ROL => self.write_back(mem, addr, rotate_left(operand, self.status.c)),
            OpCode::ROR => self.write_back(mem, addr, rotate_right(operand, self.status.c)),
            OpCode::INC => {
                let value = increment(operand);
                mem.ram_write(addr.unwrap(), value);
                self.status.set_zn(value);
            },
            OpCode::DEC => {
                let value = decrement(operand);
                mem.ram_write(addr.unwrap(), value);
                self.status.set_zn(value);
            },
            OpCode::STA => mem.ram_write(addr.unwrap(), self.accum),
            OpCode::STX => mem.ram_write(addr.unwrap(), self.x),
            OpCode::STY => mem.ram_write(addr.unwrap(), self.y),
            _ => {},
        }
    }

    /// Counting in registers, loads and transfers: the instructions that
    /// change a register and, but for one, tell the flags about it.
    fn apply_register(&mut self, mem: &mut Memory, op: OpCode, operand: u8, addr: Option<u16>)
        requires
            op.family() == Family::Register,
        ensures
            *final(self) == machine(*old(self), old(mem)@).effect(op, operand, addr).cpu,
            final(mem)@ == machine(*old(self), old(mem)@).effect(op, operand, addr).mem,
    {
        match op {
            OpCode::INX => self.set_x(increment(self.x)),
            OpCode::DEX => self.set_x(decrement(self.x)),
            OpCode::INY => self.set_y(increment(self.y)),
            OpCode::DEY => self.set_y(decrement(self.y)),
            OpCode::LDA => self.set_a(operand),
            OpCode::LDX => self.set_x(operand),
            OpCode::LDY => self.set_y(operand),
            OpCode::TAX => self.set_x(self.accum),
            OpCode::TAY => self.set_y(self.accum),
            OpCode::TXA => self.set_a(self.x),
            OpCode::TYA => self.set_a(self.y),
            OpCode::TSX => self.set_x(self.sp),
            OpCode::TXS => {
                self.sp = self.x;
            },
            _ => {},
        }
    }

    /// The instructions that set or clear one flag.
    fn apply_flag(&mut self, mem: &mut Memory, op: OpCode, operand: u8, addr: Option<u16>)
        requires
            op.family() == Family::Flag,
        ensures
            *final(self) == machine(*old(self), old(mem)@).effect(op, operand, addr).cpu,
            final(mem)@ == machine(*old(self), old(mem)@).effect(op, operand, addr).mem,
    {
        match op {
            OpCode::CLC => self.status.clear_c(),
            OpCode::SEC => self.status.set_c(),
            OpCode::CLD => self.status.clear_d(),
            OpCode::SED => self.status.set_d(),
            OpCode::CLI => self.status.clear_i(),
            OpCode::SEI => self.status.set_i(),
            OpCode::CLV => self.status.clear_v(),
            _ => {},
        }
    }

    /// Branches, the stack, jumps, calls and interrupts.
    fn apply_flow(&mut self, mem: &mut Memory, op: OpCode, operand: u8, addr: Option<u16>)
        requires
            op.family() == Family::Flow,
            op.needs_address() ==> addr is Some,
        ensures
            *final(self) == machine(*old(self), old(mem)@).effect(op, operand, addr).cpu,
            final(mem)@ == machine(*old(self), old(mem)@).effect(op, operand, addr).mem,
    {
        match op {
            OpCode::BCC
            | OpCode::BCS
            | OpCode::BEQ
            | OpCode::BNE
            | OpCode::BMI
            | OpCode::BPL
            | OpCode::BVC
            | OpCode::BVS => {
                if self.takes_branch(op) {
                    self.pc = offset_address(self.pc, operand);
                }
            },
            OpCode::PHA => self.push_byte(mem, self.accum),
            OpCode::PHP => {
                let mut image = self.status;
                image.set_b();
                self.push_byte(mem, image.get_flags());
            },
            OpCode::PLA => {
                let value = self.pop_byte(mem);
                self.set_a(value);
            },
            OpCode::PLP => {
                let flags = self.pop_byte(mem);
                self.status.set_flags(flags);
            },
            OpCode::JMP => {
                self.pc = addr.unwrap();
            },
            OpCode::JSR => {
                let last = self.pc.wrapping_sub(1);
                self.push_byte(mem, high_byte(last));
                self.push_byte(mem, low_byte(last));
                self.pc = addr.unwrap();
            },
            OpCode::RTS => {
                let lo = self.pop_byte(mem);
                let hi = self.pop_byte(mem);
                self.pc = make_word(lo, hi).wrapping_add(1);
            },
            OpCode::BRK => {
                self.status.set_b();
                self.interrupt(mem, IRQ_VECTOR);
            },
            OpCode::RTI => {
                let flags = self.pop_byte(mem);
                let lo = self.pop_byte(mem);
                let hi = self.pop_byte(mem);
                self.status.set_flags(flags);
                self.pc = make_word(lo, hi);
            },
            _ => {},
        }
    }

    /// Does what the mnemonic `op` says, to a processor whose program
    /// counter already stands at the following instruction.
    fn apply(&mut self, mem: &mut Memory, op: OpCode, operand: u8, addr: Option<u16>)
        requires
            op.needs_address() ==> addr is Some,
        ensures
            *final(self) == machine(*old(self), old(mem)@).effect(op, operand, addr).cpu,
            final(mem)@ == machine(*old(self), old(mem)@).effect(op, operand, addr).mem,
    {
        match op.group() {
            Family::Alu => self.apply_alu(mem, op, operand, addr),
            Family::Memory => self.apply_memory(mem, op, operand, addr),
            Family::Register => self.apply_register(mem, op, operand, addr),
            Family::Flag => self.apply_flag(mem, op, operand, addr),
            Family::Flow => self.apply_flow(mem, op, operand, addr),
            Family::Idle => {},
        }
    }

    /// Executes `inst`, whose opcode byte has been fetched, and returns the
    /// cycles it took.
    ///
    /// The instruction must be one that the decoder gives, and the cycle
    /// counter must have room for what the instruction costs.
    pub fn execute_instruction(&mut self, mem: &mut Memory, inst: &Instruction) -> (cycles: u8)
        requires
            inst.is_decoded(),
            old(self).cycle + machine(*old(self), old(mem)@).cost(*inst) <= u64::MAX,
        ensures
            *final(self) == machine(*old(self), old(mem)@).execute(*inst).cpu,
            final(mem)@ == machine(*old(self), old(mem)@).execute(*inst).mem,
            cycles == machine(*old(self), old(mem)@).cost(*inst),
    {
        proof {
            lemma_decoded_well_formed(*inst);
        }
        let (operand, addr, crossed) = self.resolve(mem, inst.addr_mode);
        let next = self.pc.wrapping_add((inst.size - 1) as u16);
        let penalty: u8 = match inst.op.kind() {
            Access::Read => if crossed {
                1
            } else {
                0
            },
            Access::Branch => if !self.takes_branch(inst.op) {
                0
            } else if page_crossed(next, offset_address(next, operand)) {
                2
            } else {
                1
            },
            _ => 0,
        };
        let cycles = inst.cycles + penalty;
        self.pc = next;
        self.spend(cycles);
        self.apply(mem, inst.op, operand, addr);
        cycles
    }

    /// Runs one instruction: fetches the opcode at the program counter,
    /// decodes it, executes it, and reports what it was and how long it
    /// took.
    ///
    /// The cycle counter must have room for what the instruction costs,
    /// which is never more than seven cycles.
    pub fn advance_cpu(&mut self, mem: &mut Memory) -> (step: Step)
        requires
            old(self).cycle + machine(*old(self), old(mem)@).step_cost() <= u64::MAX,
        ensures
            *final(self) == machine(*old(self), old(mem)@).step().cpu,
            final(mem)@ == machine(*old(self), old(mem)@).step().mem,
            step == machine(*old(self), old(mem)@).report(),
    {
        let opcode = mem.ram_read(self.pc);
        let inst = self.fetch_instruction(mem);
        let cycles = self.execute_instruction(mem, &inst);
        Step { opcode, cycles, illegal: inst.op == OpCode::ILL }
    }
}

} // verus!
