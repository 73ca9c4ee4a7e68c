//! What the processor does, as mathematics.
//!
//! A [`Machine`] is the processor's registers together with the contents of
//! memory. Each function here takes a machine and gives the machine, or the
//! number, that results; nothing is computed when the program runs. The
//! executable processor in [`crate::cpu`] is proved to follow these
//! functions step for step.
//!
//! Where an instruction is executed, the program counter of the machine
//! stands at the byte after the opcode: the opcode has been fetched, the
//! operand bytes have not.

use vstd::prelude::*;
use crate::alu::{
    adc, asl, bit_test, branch_target, compare, lsr, page, rol, ror, sbc, word, wrap16, wrap8,
    Shifted, Sum, Tested,
};
use crate::cpu::{Step, CPU};
use crate::instruction::{decode, Access, AddrMode, Instruction, OpCode};
use crate::mem::BUS_SIZE;
use crate::status::StatusRegister;

verus! {

/// Address of the low byte of the reset vector.
pub const RESET_VECTOR: u16 = 0xFFFC;

/// Address of the low byte of the vector that `BRK` goes through.
pub const IRQ_VECTOR: u16 = 0xFFFE;

/// The stack pointer after a reset.
pub const RESET_SP: u8 = 0xFD;

/// Registers and memory.
pub struct Machine {
    pub cpu: CPU,
    pub mem: Seq<u8>,
}

/// The address that shares its page with `addr` and follows it there, the
/// last byte of a page being followed by the first.
pub open spec fn next_in_page(addr: u16) -> u16 {
    (256 * page(addr) + (addr % 256 + 1) % 256) as u16
}

/// The address stored in `mem` at `addr` and the byte after it, low byte
/// first.
pub open spec fn word_at(mem: Seq<u8>, addr: u16) -> u16 {
    word(mem[addr as int], mem[wrap16(addr + 1) as int])
}

/// The address stored in `mem` at `pointer`, low byte first, with the high
/// byte taken from the page of `pointer`: after the last byte of a page
/// comes the first byte of the same page.
pub open spec fn word_in_page(mem: Seq<u8>, pointer: u16) -> u16 {
    word(mem[pointer as int], mem[next_in_page(pointer) as int])
}

/// The address stored in page zero at `pointer`, low byte first. After
/// `0xFF` comes `0x00`.
pub open spec fn word_in_zero_page(mem: Seq<u8>, pointer: u8) -> u16 {
    word(mem[pointer as int], mem[wrap8(pointer + 1) as int])
}

impl CPU {
    /// The registers at power-on.
    pub open spec fn power_on() -> CPU {
        CPU {
            pc: 0,
            sp: RESET_SP,
            accum: 0,
            x: 0,
            y: 0,
            status: StatusRegister::power_on(),
            cycle: 0,
        }
    }

    /// `value` in the accumulator, Z and N set from it.
    pub open spec fn load_a(self, value: u8) -> CPU {
        CPU { accum: value, status: self.status.with_zn(value), ..self }
    }

    /// `value` in X, Z and N set from it.
    pub open spec fn load_x(self, value: u8) -> CPU {
        CPU { x: value, status: self.status.with_zn(value), ..self }
    }

    /// `value` in Y, Z and N set from it.
    pub open spec fn load_y(self, value: u8) -> CPU {
        CPU { y: value, status: self.status.with_zn(value), ..self }
    }

    /// Whether the branch `op` is taken with these flags.
    pub open spec fn branch_taken(self, op: OpCode) -> bool {
        match op {
            OpCode::BCC => !self.status.c,
            OpCode::BCS => self.status.c,
            OpCode::BNE => !self.status.z,
            OpCode::BEQ => self.status.z,
            OpCode::BPL => !self.status.n,
            OpCode::BMI => self.status.n,
            OpCode::BVC => !self.status.v,
            OpCode::BVS => self.status.v,
            _ => false,
        }
    }
}

impl Machine {
    /// Every address has a byte behind it.
    pub open spec fn wf(self) -> bool {
        self.mem.len() == BUS_SIZE
    }

    pub open spec fn read(self, addr: u16) -> u8 {
        self.mem[addr as int]
    }

    /// The address stored at `addr` and the byte after it, low byte first.
    pub open spec fn read_word(self, addr: u16) -> u16 {
        word_at(self.mem, addr)
    }

    pub open spec fn write(self, addr: u16, data: u8) -> Machine {
        Machine { mem: self.mem.update(addr as int, data), ..self }
    }

    /// The same memory around other registers.
    pub open spec fn regs(self, cpu: CPU) -> Machine {
        Machine { cpu, ..self }
    }

    pub open spec fn flags(self, status: StatusRegister) -> Machine {
        self.regs(CPU { status, ..self.cpu })
    }

    pub open spec fn jump(self, pc: u16) -> Machine {
        self.regs(CPU { pc, ..self.cpu })
    }

    /// The address that the stack pointer stands for. It never leaves page 1.
    pub open spec fn stack_address(self) -> u16 {
        (0x100 + self.cpu.sp) as u16
    }

    /// `data` stored where the stack pointer points, and the pointer moved
    /// down by one, from `0x00` round to `0xFF`.
    pub open spec fn push(self, data: u8) -> Machine {
        Machine {
            cpu: CPU { sp: wrap8(self.cpu.sp - 1), ..self.cpu },
            mem: self.mem.update(self.stack_address() as int, data),
        }
    }

    /// The stack pointer moved up by one, from `0xFF` round to `0x00`. The
    /// byte pulled is then [`Machine::top`].
    pub open spec fn pull(self) -> Machine {
        self.regs(CPU { sp: wrap8(self.cpu.sp + 1), ..self.cpu })
    }

    /// The byte where the stack pointer points.
    pub open spec fn top(self) -> u8 {
        self.read(self.stack_address())
    }

    /// The place in memory that an operand in `mode` names, for the modes
    /// that name one.
    ///
    /// Indexing in page zero stays in page zero; indexing a two-byte address
    /// wraps round at the top of memory. The pointer of the indirect jump
    /// has its high byte fetched from its own page even where the low byte
    /// is the last of that page. The pointer of an indexed indirect operand
    /// lies in page zero with both of its bytes. The base address of an
    /// indirect indexed operand is read from the address byte's place in
    /// page zero and from the address after it.
    pub open spec fn operand_address(self, mode: AddrMode) -> Option<u16> {
        let pc = self.cpu.pc;
        let byte = self.read(pc);
        match mode {
            AddrMode::Implicit | AddrMode::Accumulator | AddrMode::Immediate | AddrMode::Relative => None,
            AddrMode::ZeroPage => Some(byte as u16),
            AddrMode::ZeroPageX => Some(wrap8(byte + self.cpu.x) as u16),
            AddrMode::ZeroPageY => Some(wrap8(byte + self.cpu.y) as u16),
            AddrMode::Absolute => Some(word_at(self.mem, pc)),
            AddrMode::AbsoluteX => Some(wrap16(word_at(self.mem, pc) + self.cpu.x)),
            AddrMode::AbsoluteY => Some(wrap16(word_at(self.mem, pc) + self.cpu.y)),
            AddrMode::Indirect => Some(word_in_page(self.mem, word_at(self.mem, pc))),
            AddrMode::IndexedIndirect => Some(word_in_zero_page(self.mem, wrap8(byte + self.cpu.x))),
            AddrMode::IndirectIndexed => Some(wrap16(word_at(self.mem, byte as u16) + self.cpu.y)),
        }
    }

    /// The operand in `mode`: the byte at its address where it has one, else
    /// the byte after the opcode or the accumulator. An instruction without
    /// an operand gets 0.
    pub open spec fn operand(self, mode: AddrMode) -> u8 {
        match self.operand_address(mode) {
            Some(addr) => self.read(addr),
            None => match mode {
                AddrMode::Immediate | AddrMode::Relative => self.read(self.cpu.pc),
                AddrMode::Accumulator => self.cpu.accum,
                _ => 0,
            },
        }
    }

    /// Whether adding the index register took the address out of the page
    /// of its base. Only the three modes that index a two-byte base can.
    pub open spec fn index_crosses_page(self, mode: AddrMode) -> bool {
        let pc = self.cpu.pc;
        match mode {
            AddrMode::AbsoluteX => page(word_at(self.mem, pc)) != page(
                wrap16(word_at(self.mem, pc) + self.cpu.x),
            ),
            AddrMode::AbsoluteY => page(word_at(self.mem, pc)) != page(
                wrap16(word_at(self.mem, pc) + self.cpu.y),
            ),
            AddrMode::IndirectIndexed => page(word_at(self.mem, self.read(pc) as u16)) != page(
                wrap16(word_at(self.mem, self.read(pc) as u16) + self.cpu.y),
            ),
            _ => false,
        }
    }

    /// The address of the instruction that follows `inst` in memory.
    pub open spec fn next_pc(self, inst: Instruction) -> u16 {
        wrap16(self.cpu.pc + inst.size - 1)
    }

    /// Cycles that `inst` takes beyond its base time.
    ///
    /// An instruction that only reads its operand pays one cycle when
    /// indexing crosses a page; writes and read-modify-writes have that
    /// cycle in their base time already. A branch pays one cycle when taken
    /// and one more when it lands in another page than the instruction
    /// after it.
    pub open spec fn penalty(self, inst: Instruction) -> int {
        match inst.op.access() {
            Access::Read => if self.index_crosses_page(inst.addr_mode) {
                1
            } else {
                0
            },
            Access::Branch => if !self.cpu.branch_taken(inst.op) {
                0
            } else if page(self.next_pc(inst)) == page(
                branch_target(self.next_pc(inst), self.operand(inst.addr_mode)),
            ) {
                1
            } else {
                2
            },
            _ => 0,
        }
    }

    /// Cycles that `inst` takes in all.
    pub open spec fn cost(self, inst: Instruction) -> int {
        inst.cycles + self.penalty(inst)
    }

    /// The result of an addition or subtraction in the accumulator, with
    /// all four flags that it sets.
    pub open spec fn arith(self, sum: Sum) -> Machine {
        self.regs(
            CPU {
                accum: sum.value,
                status: StatusRegister {
                    c: sum.carry,
                    v: sum.overflow,
                    ..self.cpu.status.with_zn(sum.value)
                },
                ..self.cpu
            },
        )
    }

    /// The result of a shift or rotate written back where the operand came
    /// from, memory or accumulator, with C, Z and N.
    pub open spec fn shift(self, addr: Option<u16>, shifted: Shifted) -> Machine {
        let status = StatusRegister { c: shifted.carry, ..self.cpu.status.with_zn(shifted.value) };
        match addr {
            Some(a) => self.write(a, shifted.value).flags(status),
            None => self.regs(CPU { accum: shifted.value, status, ..self.cpu }),
        }
    }

    /// The flags of a comparison: C, Z and N.
    pub open spec fn compared(self, t: Tested) -> Machine {
        self.flags(StatusRegister { c: t.carry, z: t.zero, n: t.negative, ..self.cpu.status })
    }

    /// The flags of a bit test: Z, V and N.
    pub open spec fn tested(self, t: Tested) -> Machine {
        self.flags(StatusRegister { z: t.zero, v: t.overflow, n: t.negative, ..self.cpu.status })
    }

    /// `value` stored at `addr`, with Z and N set from it.
    pub open spec fn modify(self, addr: u16, value: u8) -> Machine {
        self.write(addr, value).flags(self.cpu.status.with_zn(value))
    }

    /// The interrupt sequence: the program counter, high byte first, and the
    /// flags go onto the stack; interrupts are disabled; execution goes on
    /// at the address stored at `vector`.
    pub open spec fn interrupt(self, vector: u16) -> Machine {
        let pushed = self.push((self.cpu.pc / 256) as u8).push((self.cpu.pc % 256) as u8).push(
            self.cpu.status.image(),
        );
        pushed.flags(StatusRegister { i: true, ..pushed.cpu.status }).jump(
            pushed.read_word(vector),
        )
    }

    /// The machine once `inst` has been read whole and its time has been
    /// spent: the program counter stands at the instruction that follows in
    /// memory, and the cycle counter has grown by [`Machine::cost`].
    pub open spec fn begin(self, inst: Instruction) -> Machine {
        self.regs(
            CPU {
                pc: self.next_pc(inst),
                cycle: (self.cpu.cycle + self.cost(inst)) as u64,
                ..self.cpu
            },
        )
    }

    /// What the mnemonic `op` does to a machine whose program counter
    /// already stands at the following instruction, given the operand `m`
    /// and the operand's address.
    ///
    /// Unless the mnemonic says otherwise, registers, flags, memory and the
    /// program counter stay as they are.
    pub open spec fn effect(self, op: OpCode, m: u8, addr: Option<u16>) -> Machine {
        let cpu = self.cpu;
        let st = cpu.status;
        match op {
            // Arithmetic in the accumulator.
            OpCode::ADC => self.arith(adc(cpu.accum, m, st.c)),
            OpCode::SBC => self.arith(sbc(cpu.accum, m, st.c)),
            // Logic in the accumulator.
            OpCode::AND => self.regs(cpu.load_a(cpu.accum & m)),
            OpCode::ORA => self.regs(cpu.load_a(cpu.accum | m)),
            OpCode::EOR => self.regs(cpu.load_a(cpu.accum ^ m)),
            // Shifts and rotates, in memory or in the accumulator.
            OpCode::ASL => self.shift(addr, asl(m)),
            OpCode::LSR => self.shift(addr, lsr(m)),
            OpCode::ROL => self.shift(addr, rol(m, st.c)),
            OpCode::ROR => self.shift(addr, ror(m, st.c)),
            // Tests that change only flags.
            OpCode::BIT => self.tested(bit_test(cpu.accum, m)),
            OpCode::CMP => self.compared(compare(cpu.accum, m)),
            OpCode::CPX => self.compared(compare(cpu.x, m)),
            OpCode::CPY => self.compared(compare(cpu.y, m)),
            // Counting up and down, with wrap-around.
            OpCode::INC => self.modify(addr->0, wrap8(m + 1)),
            OpCode::DEC => self.modify(addr->0, wrap8(m - 1)),
            OpCode::INX => self.regs(cpu.load_x(wrap8(cpu.x + 1))),
            OpCode::DEX => self.regs(cpu.load_x(wrap8(cpu.x - 1))),
            OpCode::INY => self.regs(cpu.load_y(wrap8(cpu.y + 1))),
            OpCode::DEY => self.regs(cpu.load_y(wrap8(cpu.y - 1))),
            // Loads and stores.
            OpCode::LDA => self.regs(cpu.load_a(m)),
            OpCode::LDX => self.regs(cpu.load_x(m)),
            OpCode::LDY => self.regs(cpu.load_y(m)),
            OpCode::STA => self.write(addr->0, cpu.accum),
            OpCode::STX => self.write(addr->0, cpu.x),
            OpCode::STY => self.write(addr->0, cpu.y),
            // Transfers between registers. Only the stack pointer is loaded
            // without a word to the flags.
            OpCode::TAX => self.regs(cpu.load_x(cpu.accum)),
            OpCode::TAY => self.regs(cpu.load_y(cpu.accum)),
            OpCode::TXA => self.regs(cpu.load_a(cpu.x)),
            OpCode::TYA => self.regs(cpu.load_a(cpu.y)),
            OpCode::TSX => self.regs(cpu.load_x(cpu.sp)),
            OpCode::TXS => self.regs(CPU { sp: cpu.x, ..cpu }),
            // Single flags.
            OpCode::CLC => self.flags(StatusRegister { c: false, ..st }),
            OpCode::SEC => self.flags(StatusRegister { c: true, ..st }),
            OpCode::CLD => self.flags(StatusRegister { d: false, ..st }),
            OpCode::SED => self.flags(StatusRegister { d: true, ..st }),
            OpCode::CLI => self.flags(StatusRegister { i: false, ..st }),
            OpCode::SEI => self.flags(StatusRegister { i: true, ..st }),
            OpCode::CLV => self.flags(StatusRegister { v: false, ..st }),
            // Branches. The offset counts from the following instruction.
            OpCode::BCC | OpCode::BCS | OpCode::BEQ | OpCode::BNE | OpCode::BMI | OpCode::BPL
            | OpCode::BVC | OpCode::BVS => if cpu.branch_taken(op) {
                self.jump(branch_target(cpu.pc, m))
            } else {
                self
            },
            // The stack. A pushed image of the flags always shows B.
            OpCode::PHA => self.push(cpu.accum),
            OpCode::PHP => self.push(StatusRegister { b: true, ..st }.image()),
            OpCode::PLA => {
                let pulled = self.pull();
                pulled.regs(pulled.cpu.load_a(pulled.top()))
            },
            OpCode::PLP => {
                let pulled = self.pull();
                pulled.flags(StatusRegister::from_image(pulled.top()))
            },
            // Jumps and subroutines. What a call saves is the address of
            // its own last byte, and the return goes one past what it finds.
            OpCode::JMP => self.jump(addr->0),
            OpCode::JSR => {
                let last = wrap16(cpu.pc - 1);
                self.push((last / 256) as u8).push((last % 256) as u8).jump(addr->0)
            },
            OpCode::RTS => {
                let lo = self.pull();
                let hi = lo.pull();
                hi.jump(wrap16(word(lo.top(), hi.top()) + 1))
            },
            // The software interrupt and the way back from any interrupt.
            OpCode::BRK => self.flags(StatusRegister { b: true, ..st }).interrupt(IRQ_VECTOR),
            OpCode::RTI => {
                let flags = self.pull();
                let lo = flags.pull();
                let hi = lo.pull();
                hi.flags(StatusRegister::from_image(flags.top())).jump(word(lo.top(), hi.top()))
            },
            // Nothing at all.
            OpCode::NOP | OpCode::ILL => self,
        }
    }

    /// The machine after `inst`, with the program counter at the byte after
    /// the opcode before, and at the next instruction to run after.
    pub open spec fn execute(self, inst: Instruction) -> Machine {
        self.begin(inst).effect(
            inst.op,
            self.operand(inst.addr_mode),
            self.operand_address(inst.addr_mode),
        )
    }

    /// The instruction that the program counter points at.
    pub open spec fn fetched(self) -> Instruction {
        decode(self.read(self.cpu.pc))
    }

    /// The machine with the opcode byte behind it.
    pub open spec fn after_fetch(self) -> Machine {
        self.jump(wrap16(self.cpu.pc + 1))
    }

    /// The machine one instruction later.
    pub open spec fn step(self) -> Machine {
        self.after_fetch().execute(self.fetched())
    }

    /// Cycles that the next instruction will take.
    pub open spec fn step_cost(self) -> int {
        self.after_fetch().cost(self.fetched())
    }

    /// What a step tells its caller: the opcode byte that was run, the
    /// cycles it took, and whether the byte has no instruction assigned.
    pub open spec fn report(self) -> Step {
        Step {
            opcode: self.read(self.cpu.pc),
            cycles: self.step_cost() as u8,
            illegal: self.fetched().is_illegal(),
        }
    }

    /// The machine after a reset: execution starts at the address in the
    /// reset vector, with the stack pointer at `0xFD`, interrupts disabled
    /// and the cycle counter at zero. Nothing else changes.
    pub open spec fn reset(self) -> Machine {
        self.regs(
            CPU {
                pc: self.read_word(RESET_VECTOR),
                sp: RESET_SP,
                status: StatusRegister { i: true, ..self.cpu.status },
                cycle: 0,
                ..self.cpu
            },
        )
    }
}

} // verus!
