//! Instruction decoding.
//!
//! One byte names an instruction and the way it finds its operand. The byte
//! is read as three fields, `rrrcccgg`: a group `gg`, a column `ccc` and a
//! row `rrr`. Inside a group the column mostly picks the addressing mode and
//! the row the mnemonic, which is how [`decode`] states the instruction set.
//! [`Instruction::new`] is the same mapping written out as a table, and is
//! proved to agree with `decode` on all 256 bytes.

use vstd::prelude::*;

verus! {

/// What the processor knows of an instruction once its first byte is read.
#[derive(Clone, Copy, Debug, PartialEq, Eq, Structural)]
pub struct Instruction {
    pub op: OpCode,
    pub addr_mode: AddrMode,
    /// Clock cycles the instruction takes before any penalty.
    pub cycles: u8,
    /// Length in bytes, the opcode byte included.
    pub size: u8,
}

/// How an instruction finds its operand.
#[derive(Clone, Copy, Debug, PartialEq, Eq, Structural)]
pub enum AddrMode {
    /// No operand.
    Implicit,
    /// The operand is the accumulator.
    Accumulator,
    /// The operand is the byte after the opcode.
    Immediate,
    /// One address byte, pointing into page zero.
    ZeroPage,
    /// Zero page address plus X, staying in page zero.
    ZeroPageX,
    /// Zero page address plus Y, staying in page zero.
    ZeroPageY,
    /// A signed offset from the next instruction; branches only.
    Relative,
    /// A full two-byte address.
    Absolute,
    /// Two-byte address plus X.
    AbsoluteX,
    /// Two-byte address plus Y.
    AbsoluteY,
    /// The two address bytes point at the address to use; `JMP` only.
    Indirect,
    /// The address byte plus X points at the address to use, in page zero.
    IndexedIndirect,
    /// The address byte points at a base address in page zero; Y is added.
    IndirectIndexed,
}

/// The mnemonics, and `ILL` for a byte that names none of them.
#[derive(Clone, Copy, Debug, PartialEq, Eq, Structural)]
pub enum OpCode {
    ADC,  // Add With Carry
    AND,  // Logical AND
    ASL,  // Arithmetic Shift Left
    BCC,  // Branch if Carry Clear
    BCS,  // Branch if Carry Set
    BEQ,  // Branch If Equal
    BIT,  // Bit Test
    BMI,  // Branch if Minus
    BNE,  // Branch Not Equal
    BPL,  // Branch if Positive
    BRK,  // Force Interrupt
    BVC,  // Branch if Overflow Clear
    BVS,  // Branch if Overflow Set
    CLC,  // Clear Carry Flag
    CLD,  // Clear Decimal Mode
    CLI,  // Clear Interrupt Disable
    CLV,  // Clear Overflow Flag
    CMP,  // Compare
    CPX,  // Compare X
    CPY,  // Compare Y
    DEC,  // Decrement Memory
    DEX,  // Decrement X
    DEY,  // Decrement Y
    EOR,  // Exclusive OR
    INC,  // Increment Memory
    INX,  // Increment X
    INY,  // Increment Y
    JMP,  // Jump
    JSR,  // Jump to Subroutine
    LDA,  // Load Accumulator
    LDX,  // Load X
    LDY,  // Load Y
    LSR,  // Logical Shift Right
    NOP,  // No Operation
    ORA,  // Logical Inclusive OR
    PHA,  // Push Accumulator
    PHP,  // Push Processor Status
    PLA,  // Pull Accumulator
    PLP,  // Pull Processor Status
    ROL,  // Rotate Left
    ROR,  // Rotate Right
    RTI,  // Return from Interrupt
    RTS,  // Return from Subroutine
    SBC,  // Subtract with Carry
    SEC,  // Set Carry Flag
    SED,  // Set Decimal Mode
    SEI,  // Set Interrupt Disable
    STA,  // Store Accumulator
    STX,  // Store X
    STY,  // Store Y
    TAX,  // Transfer Accumulator to X
    TAY,  // Transfer Accumulator to Y
    TSX,  // Transfer Stack Pointer to X
    TXA,  // Transfer X to Accumulator
    TXS,  // Transfer X to Stack Pointer
    TYA,  // Transfer Y to Accumulator
    /// Not a mnemonic: the byte has no instruction assigned to it. It takes
    /// the time and space of a `NOP` and changes nothing, but keeps its own
    /// name so that a caller can tell it from a real `NOP`.
    ILL,
}

/// What an instruction does with its operand. Timing follows from it.
#[derive(Clone, Copy, Debug, PartialEq, Eq, Structural)]
pub enum Access {
    /// Reads the operand and nothing else.
    Read,
    /// Writes a register to the operand's address.
    Write,
    /// Reads the operand, changes it and writes it back.
    Modify,
    /// Uses the operand as a branch offset.
    Branch,
    /// Anything else: no operand, or a jump target.
    Other,
}

/// What an instruction works on. Execution is sorted by it.
#[derive(Clone, Copy, Debug, PartialEq, Eq, Structural)]
pub enum Family {
    /// Combines a register with the operand: arithmetic, logic, tests.
    Alu,
    /// May write to the operand's address: shifts, counting, stores.
    Memory,
    /// Changes a register: counting, loads, transfers.
    Register,
    /// Sets or clears one flag.
    Flag,
    /// Moves the program counter or the stack.
    Flow,
    /// Does nothing.
    Idle,
}

impl AddrMode {
    /// How many bytes follow the opcode byte.
    pub open spec fn operand_bytes(self) -> int {
        match self {
            AddrMode::Implicit | AddrMode::Accumulator => 0,
            AddrMode::Absolute | AddrMode::AbsoluteX | AddrMode::AbsoluteY | AddrMode::Indirect => 2,
            _ => 1,
        }
    }

    /// Whether the mode names a place in memory.
    pub open spec fn has_address(self) -> bool {
        match self {
            AddrMode::Implicit | AddrMode::Accumulator | AddrMode::Immediate | AddrMode::Relative => false,
            _ => true,
        }
    }
}

impl OpCode {
    pub open spec fn access(self) -> Access {
        match self {
            OpCode::ADC | OpCode::AND | OpCode::BIT | OpCode::CMP | OpCode::CPX | OpCode::CPY
            | OpCode::EOR | OpCode::LDA | OpCode::LDX | OpCode::LDY | OpCode::ORA | OpCode::SBC => Access::Read,
            OpCode::STA | OpCode::STX | OpCode::STY => Access::Write,
            OpCode::ASL | OpCode::LSR | OpCode::ROL | OpCode::ROR | OpCode::INC | OpCode::DEC => Access::Modify,
            OpCode::BCC | OpCode::BCS | OpCode::BEQ | OpCode::BMI | OpCode::BNE | OpCode::BPL
            | OpCode::BVC | OpCode::BVS => Access::Branch,
            _ => Access::Other,
        }
    }

    pub open spec fn family(self) -> Family {
        match self {
            OpCode::ADC | OpCode::SBC | OpCode::AND | OpCode::ORA | OpCode::EOR | OpCode::BIT
            | OpCode::CMP | OpCode::CPX | OpCode::CPY => Family::Alu,
            OpCode::ASL | OpCode::LSR | OpCode::ROL | OpCode::ROR | OpCode::INC | OpCode::DEC
            | OpCode::STA | OpCode::STX | OpCode::STY => Family::Memory,
            OpCode::BCC | OpCode::BCS | OpCode::BEQ | OpCode::BNE | OpCode::BMI | OpCode::BPL
            | OpCode::BVC | OpCode::BVS | OpCode::PHA | OpCode::PHP | OpCode::PLA | OpCode::PLP
            | OpCode::JMP | OpCode::JSR | OpCode::RTS | OpCode::BRK | OpCode::RTI => Family::Flow,
            OpCode::CLC | OpCode::SEC | OpCode::CLD | OpCode::SED | OpCode::CLI | OpCode::SEI
            | OpCode::CLV => Family::Flag,
            OpCode::NOP | OpCode::ILL => Family::Idle,
            _ => Family::Register,
        }
    }

    /// Whether the instruction cannot run without a place in memory: it
    /// stores there, changes what is there, or jumps there.
    pub open spec fn needs_address(self) -> bool {
        match self {
            OpCode::STA | OpCode::STX | OpCode::STY | OpCode::INC | OpCode::DEC | OpCode::JMP
            | OpCode::JSR => true,
            _ => false,
        }
    }

    /// What the instruction does with its operand.
    pub fn kind(&self) -> (a: Access)
        ensures
            a == self.access(),
    {
        match self {
            OpCode::ADC
            | OpCode::AND
            | OpCode::BIT
            | OpCode::CMP
            | OpCode::CPX
            | OpCode::CPY
            | OpCode::EOR
            | OpCode::LDA
            | OpCode::LDX
            | OpCode::LDY
            | OpCode::ORA
            | OpCode::SBC => Access::Read,
            OpCode::STA | OpCode::STX | OpCode::STY => Access::Write,
            OpCode::ASL
            | OpCode::LSR
            | OpCode::ROL
            | OpCode::ROR
            | OpCode::INC
            | OpCode::DEC => Access::Modify,
            OpCode::BCC
            | OpCode::BCS
            | OpCode::BEQ
            | OpCode::BMI
            | OpCode::BNE
            | OpCode::BPL
            | OpCode::BVC
            | OpCode::BVS => Access::Branch,
            _ => Access::Other,
        }
    }

    /// What the instruction works on.
    pub fn group(&self) -> (f: Family)
        ensures
            f == self.family(),
    {
        match self {
            OpCode::ADC
            | OpCode::SBC
            | OpCode::AND
            | OpCode::ORA
            | OpCode::EOR
            | OpCode::BIT
            | OpCode::CMP
            | OpCode::CPX
            | OpCode::CPY => Family::Alu,
            OpCode::ASL
            | OpCode::LSR
            | OpCode::ROL
            | OpCode::ROR
            | OpCode::INC
            | OpCode::DEC
            | OpCode::STA
            | OpCode::STX
            | OpCode::STY => Family::Memory,
            OpCode::BCC
            | OpCode::BCS
            | OpCode::BEQ
            | OpCode::BNE
            | OpCode::BMI
            | OpCode::BPL
            | OpCode::BVC
            | OpCode::BVS
            | OpCode::PHA
            | OpCode::PHP
            | OpCode::PLA
            | OpCode::PLP
            | OpCode::JMP
            | OpCode::JSR
            | OpCode::RTS
            | OpCode::BRK
            | OpCode::RTI => Family::Flow,
            OpCode::CLC
            | OpCode::SEC
            | OpCode::CLD
            | OpCode::SED
            | OpCode::CLI
            | OpCode::SEI
            | OpCode::CLV => Family::Flag,
            OpCode::NOP | OpCode::ILL => Family::Idle,
            _ => Family::Register,
        }
    }
}

/// Clock cycles of `op` in `mode` when no penalty applies.
///
/// Every instruction takes one cycle per byte it fetches and one per memory
/// access after that, with a minimum of two. Indexing costs a read nothing
/// extra unless the sum leaves the page (charged at run time), but a write
/// or a read-modify-write always pays for it. A read-modify-write spends two
/// more cycles on the change and the write back.
pub open spec fn base_cycles(op: OpCode, mode: AddrMode) -> u8 {
    match op.access() {
        Access::Read => match mode {
            AddrMode::ZeroPage => 3,
            AddrMode::ZeroPageX | AddrMode::ZeroPageY => 4,
            AddrMode::Absolute | AddrMode::AbsoluteX | AddrMode::AbsoluteY => 4,
            AddrMode::IndexedIndirect => 6,
            AddrMode::IndirectIndexed => 5,
            _ => 2,
        },
        Access::Write => match mode {
            AddrMode::ZeroPage => 3,
            AddrMode::ZeroPageX | AddrMode::ZeroPageY => 4,
            AddrMode::Absolute => 4,
            AddrMode::AbsoluteX | AddrMode::AbsoluteY => 5,
            AddrMode::IndexedIndirect | AddrMode::IndirectIndexed => 6,
            _ => 2,
        },
        Access::Modify => match mode {
            AddrMode::ZeroPage => 5,
            AddrMode::ZeroPageX => 6,
            AddrMode::Absolute => 6,
            AddrMode::AbsoluteX => 7,
            _ => 2,
        },
        Access::Branch => 2,
        Access::Other => match op {
            OpCode::BRK => 7,
            OpCode::JSR | OpCode::RTI | OpCode::RTS => 6,
            OpCode::JMP => if mode == AddrMode::Indirect {
                5
            } else {
                3
            },
            OpCode::PHA | OpCode::PHP => 3,
            OpCode::PLA | OpCode::PLP => 4,
            _ => 2,
        },
    }
}

/// Group 1, the accumulator instructions: the row is the mnemonic, the
/// column the mode. Storing to an immediate is the one hole.
pub open spec fn group_one(row: int, col: int) -> Option<(OpCode, AddrMode)> {
    let op = if row == 0 {
        OpCode::ORA
    } else if row == 1 {
        OpCode::AND
    } else if row == 2 {
        OpCode::EOR
    } else if row == 3 {
        OpCode::ADC
    } else if row == 4 {
        OpCode::STA
    } else if row == 5 {
        OpCode::LDA
    } else if row == 6 {
        OpCode::CMP
    } else {
        OpCode::SBC
    };
    let mode = if col == 0 {
        AddrMode::IndexedIndirect
    } else if col == 1 {
        AddrMode::ZeroPage
    } else if col == 2 {
        AddrMode::Immediate
    } else if col == 3 {
        AddrMode::Absolute
    } else if col == 4 {
        AddrMode::IndirectIndexed
    } else if col == 5 {
        AddrMode::ZeroPageX
    } else if col == 6 {
        AddrMode::AbsoluteY
    } else {
        AddrMode::AbsoluteX
    };
    if row == 4 && col == 2 {
        None
    } else {
        Some((op, mode))
    }
}

/// Group 2, the shifts and the X register: rows 0 to 3 shift and rotate,
/// rows 4 and 5 store and load X (indexing by Y, since X is the subject),
/// rows 6 and 7 decrement and increment memory. Columns 2 and 6 hold
/// one-byte instructions where the mnemonic of the row has no use for them.
pub open spec fn group_two(row: int, col: int) -> Option<(OpCode, AddrMode)> {
    let op = if row == 0 {
        OpCode::ASL
    } else if row == 1 {
        OpCode::ROL
    } else if row == 2 {
        OpCode::LSR
    } else if row == 3 {
        OpCode::ROR
    } else if row == 4 {
        OpCode::STX
    } else if row == 5 {
        OpCode::LDX
    } else if row == 6 {
        OpCode::DEC
    } else {
        OpCode::INC
    };
    let on_x = row == 4 || row == 5;
    if col == 0 {
        if row == 5 {
            Some((OpCode::LDX, AddrMode::Immediate))
        } else {
            None
        }
    } else if col == 1 {
        Some((op, AddrMode::ZeroPage))
    } else if col == 2 {
        if row < 4 {
            Some((op, AddrMode::Accumulator))
        } else if row == 4 {
            Some((OpCode::TXA, AddrMode::Implicit))
        } else if row == 5 {
            Some((OpCode::TAX, AddrMode::Implicit))
        } else if row == 6 {
            Some((OpCode::DEX, AddrMode::Implicit))
        } else {
            Some((OpCode::NOP, AddrMode::Implicit))
        }
    } else if col == 3 {
        Some((op, AddrMode::Absolute))
    } else if col == 4 {
        None
    } else if col == 5 {
        Some((op, if on_x {
            AddrMode::ZeroPageY
        } else {
            AddrMode::ZeroPageX
        }))
    } else if col == 6 {
        if row == 4 {
            Some((OpCode::TXS, AddrMode::Implicit))
        } else if row == 5 {
            Some((OpCode::TSX, AddrMode::Implicit))
        } else {
            None
        }
    } else {
        if row == 4 {
            None
        } else if row == 5 {
            Some((OpCode::LDX, AddrMode::AbsoluteY))
        } else {
            Some((op, AddrMode::AbsoluteX))
        }
    }
}

/// Group 0, everything else: control flow in column 0, the Y register and
/// the compares in the memory columns, the branches in column 4, and
/// one-byte instructions in columns 2 and 6.
pub open spec fn group_zero(row: int, col: int) -> Option<(OpCode, AddrMode)> {
    // The mnemonic that the memory columns of a row share, where there is one.
    let op = if row == 1 {
        Some(OpCode::BIT)
    } else if row == 4 {
        Some(OpCode::STY)
    } else if row == 5 {
        Some(OpCode::LDY)
    } else if row == 6 {
        Some(OpCode::CPY)
    } else if row == 7 {
        Some(OpCode::CPX)
    } else {
        None
    };
    if col == 0 {
        if row == 0 {
            Some((OpCode::BRK, AddrMode::Implicit))
        } else if row == 1 {
            Some((OpCode::JSR, AddrMode::Absolute))
        } else if row == 2 {
            Some((OpCode::RTI, AddrMode::Implicit))
        } else if row == 3 {
            Some((OpCode::RTS, AddrMode::Implicit))
        } else if row == 4 {
            None
        } else {
            Some((op->0, AddrMode::Immediate))
        }
    } else if col == 1 {
        if op is Some {
            Some((op->0, AddrMode::ZeroPage))
        } else {
            None
        }
    } else if col == 2 {
        Some(
            (
                if row == 0 {
                    OpCode::PHP
                } else if row == 1 {
                    OpCode::PLP
                } else if row == 2 {
                    OpCode::PHA
                } else if row == 3 {
                    OpCode::PLA
                } else if row == 4 {
                    OpCode::DEY
                } else if row == 5 {
                    OpCode::TAY
                } else if row == 6 {
                    OpCode::INY
                } else {
                    OpCode::INX
                },
                AddrMode::Implicit,
            ),
        )
    } else if col == 3 {
        if row == 2 {
            Some((OpCode::JMP, AddrMode::Absolute))
        } else if row == 3 {
            Some((OpCode::JMP, AddrMode::Indirect))
        } else if op is Some {
            Some((op->0, AddrMode::Absolute))
        } else {
            None
        }
    } else if col == 4 {
        Some(
            (
                if row == 0 {
                    OpCode::BPL
                } else if row == 1 {
                    OpCode::BMI
                } else if row == 2 {
                    OpCode::BVC
                } else if row == 3 {
                    OpCode::BVS
                } else if row == 4 {
                    OpCode::BCC
                } else if row == 5 {
                    OpCode::BCS
                } else if row == 6 {
                    OpCode::BNE
                } else {
                    OpCode::BEQ
                },
                AddrMode::Relative,
            ),
        )
    } else if col == 5 {
        if row == 4 || row == 5 {
            Some((op->0, AddrMode::ZeroPageX))
        } else {
            None
        }
    } else if col == 6 {
        Some(
            (
                if row == 0 {
                    OpCode::CLC
                } else if row == 1 {
                    OpCode::SEC
                } else if row == 2 {
                    OpCode::CLI
                } else if row == 3 {
                    OpCode::SEI
                } else if row == 4 {
                    OpCode::TYA
                } else if row == 5 {
                    OpCode::CLV
                } else if row == 6 {
                    OpCode::CLD
                } else {
                    OpCode::SED
                },
                AddrMode::Implicit,
            ),
        )
    } else {
        if row == 5 {
            Some((OpCode::LDY, AddrMode::AbsoluteX))
        } else {
            None
        }
    }
}

/// The mnemonic and mode assigned to a byte, if any. Group 3 is empty.
pub open spec fn assigned(opcode: u8) -> Option<(OpCode, AddrMode)> {
    let row = opcode as int / 32;
    let col = (opcode as int / 4) % 8;
    let group = opcode as int % 4;
    if group == 0 {
        group_zero(row, col)
    } else if group == 1 {
        group_one(row, col)
    } else if group == 2 {
        group_two(row, col)
    } else {
        None
    }
}

/// The instruction that a byte decodes to.
///
/// An assigned byte gives its mnemonic and mode, the length that the mode
/// implies and the time that mnemonic and mode imply together. Any other
/// byte gives `ILL`: one byte, two cycles, no operand.
pub open spec fn decode(opcode: u8) -> Instruction {
    match assigned(opcode) {
        Some((op, mode)) => Instruction {
            op,
            addr_mode: mode,
            cycles: base_cycles(op, mode),
            size: (1 + mode.operand_bytes()) as u8,
        },
        None => Instruction { op: OpCode::ILL, addr_mode: AddrMode::Implicit, cycles: 2, size: 1 },
    }
}

impl Instruction {
    /// Whether some byte decodes to this instruction.
    pub open spec fn is_decoded(self) -> bool {
        exists|opcode: u8| self == #[trigger] decode(opcode)
    }

    /// Whether the instruction stands for a byte with nothing assigned.
    pub open spec fn is_illegal(self) -> bool {
        self.op == OpCode::ILL
    }

    /// Decodes one opcode byte.
    pub fn new(opcode: u8) -> (inst: Instruction)
        ensures
            inst == decode(opcode),
    {
        match opcode {
            0x00 => Instruction { op: OpCode::BRK, addr_mode: AddrMode::Implicit, cycles: 7, size: 1 },
            0x01 => Instruction { op: OpCode::ORA, addr_mode: AddrMode::IndexedIndirect, cycles: 6, size: 2 },
            0x05 => Instruction { op: OpCode::ORA, addr_mode: AddrMode::ZeroPage, cycles: 3, size: 2 },
            0x06 => Instruction { op: OpCode::ASL, addr_mode: AddrMode::ZeroPage, cycles: 5, size: 2 },
            0x08 => Instruction { op: OpCode::PHP, addr_mode: AddrMode::Implicit, cycles: 3, size: 1 },
            0x09 => Instruction { op: OpCode::ORA, addr_mode: AddrMode::Immediate, cycles: 2, size: 2 },
            0x0a => Instruction { op: OpCode::ASL, addr_mode: AddrMode::Accumulator, cycles: 2, size: 1 },
            0x0d => Instruction { op: OpCode::ORA, addr_mode: AddrMode::Absolute, cycles: 4, size: 3 },
            0x0e => Instruction { op: OpCode::ASL, addr_mode: AddrMode::Absolute, cycles: 6, size: 3 },
            0x10 => Instruction { op: OpCode::BPL, addr_mode: AddrMode::Relative, cycles: 2, size: 2 },
            0x11 => Instruction { op: OpCode::ORA, addr_mode: AddrMode::IndirectIndexed, cycles: 5, size: 2 },
            0x15 => Instruction { op: OpCode::ORA, addr_mode: AddrMode::ZeroPageX, cycles: 4, size: 2 },
            0x16 => Instruction { op: OpCode::ASL, addr_mode: AddrMode::ZeroPageX, cycles: 6, size: 2 },
            0x18 => Instruction { op: OpCode::CLC, addr_mode: AddrMode::Implicit, cycles: 2, size: 1 },
            0x19 => Instruction { op: OpCode::ORA, addr_mode: AddrMode::AbsoluteY, cycles: 4, size: 3 },
            0x1d => Instruction { op: OpCode::ORA, addr_mode: AddrMode::AbsoluteX, cycles: 4, size: 3 },
            0x1e => Instruction { op: OpCode::ASL, addr_mode: AddrMode::AbsoluteX, cycles: 7, size: 3 },
            0x20 => Instruction { op: OpCode::JSR, addr_mode: AddrMode::Absolute, cycles: 6, size: 3 },
            0x21 => Instruction { op: OpCode::AND, addr_mode: AddrMode::IndexedIndirect, cycles: 6, size: 2 },
            0x24 => Instruction { op: OpCode::BIT, addr_mode: AddrMode::ZeroPage, cycles: 3, size: 2 },
            0x25 => Instruction { op: OpCode::AND, addr_mode: AddrMode::ZeroPage, cycles: 3, size: 2 },
            0x26 => Instruction { op: OpCode::ROL, addr_mode: AddrMode::ZeroPage, cycles: 5, size: 2 },
            0x28 => Instruction { op: OpCode::PLP, addr_mode: AddrMode::Implicit, cycles: 4, size: 1 },
            0x29 => Instruction { op: OpCode::AND, addr_mode: AddrMode::Immediate, cycles: 2, size: 2 },
            0x2a => Instruction { op: OpCode::ROL, addr_mode: AddrMode::Accumulator, cycles: 2, size: 1 },
            0x2c => Instruction { op: OpCode::BIT, addr_mode: AddrMode::Absolute, cycles: 4, size: 3 },
            0x2d => Instruction { op: OpCode::AND, addr_mode: AddrMode::Absolute, cycles: 4, size: 3 },
            0x2e => Instruction { op: OpCode::ROL, addr_mode: AddrMode::Absolute, cycles: 6, size: 3 },
            0x30 => Instruction { op: OpCode::BMI, addr_mode: AddrMode::Relative, cycles: 2, size: 2 },
            0x31 => Instruction { op: OpCode::AND, addr_mode: AddrMode::IndirectIndexed, cycles: 5, size: 2 },
            0x35 => Instruction { op: OpCode::AND, addr_mode: AddrMode::ZeroPageX, cycles: 4, size: 2 },
            0x36 => Instruction { op: OpCode::ROL, addr_mode: AddrMode::ZeroPageX, cycles: 6, size: 2 },
            0x38 => Instruction { op: OpCode::SEC, addr_mode: AddrMode::Implicit, cycles: 2, size: 1 },
            0x39 => Instruction { op: OpCode::AND, addr_mode: AddrMode::AbsoluteY, cycles: 4, size: 3 },
            0x3d => Instruction { op: OpCode::AND, addr_mode: AddrMode::AbsoluteX, cycles: 4, size: 3 },
            0x3e => Instruction { op: OpCode::ROL, addr_mode: AddrMode::AbsoluteX, cycles: 7, size: 3 },
            0x40 => Instruction { op: OpCode::RTI, addr_mode: AddrMode::Implicit, cycles: 6, size: 1 },
            0x41 => Instruction { op: OpCode::EOR, addr_mode: AddrMode::IndexedIndirect, cycles: 6, size: 2 },
            0x45 => Instruction { op: OpCode::EOR, addr_mode: AddrMode::ZeroPage, cycles: 3, size: 2 },
            0x46 => Instruction { op: OpCode::LSR, addr_mode: AddrMode::ZeroPage, cycles: 5, size: 2 },
            0x48 => Instruction { op: OpCode::PHA, addr_mode: AddrMode::Implicit, cycles: 3, size: 1 },
            0x49 => Instruction { op: OpCode::EOR, addr_mode: AddrMode::Immediate, cycles: 2, size: 2 },
            0x4a => Instruction { op: OpCode::LSR, addr_mode: AddrMode::Accumulator, cycles: 2, size: 1 },
            0x4c => Instruction { op: OpCode::JMP, addr_mode: AddrMode::Absolute, cycles: 3, size: 3 },
            0x4d => Instruction { op: OpCode::EOR, addr_mode: AddrMode::Absolute, cycles: 4, size: 3 },
            0x4e => Instruction { op: OpCode::LSR, addr_mode: AddrMode::Absolute, cycles: 6, size: 3 },
            0x50 => Instruction { op: OpCode::BVC, addr_mode: AddrMode::Relative, cycles: 2, size: 2 },
            0x51 => Instruction { op: OpCode::EOR, addr_mode: AddrMode::IndirectIndexed, cycles: 5, size: 2 },
            0x55 => Instruction { op: OpCode::EOR, addr_mode: AddrMode::ZeroPageX, cycles: 4, size: 2 },
            0x56 => Instruction { op: OpCode::LSR, addr_mode: AddrMode::ZeroPageX, cycles: 6, size: 2 },
            0x58 => Instruction { op: OpCode::CLI, addr_mode: AddrMode::Implicit, cycles: 2, size: 1 },
            0x59 => Instruction { op: OpCode::EOR, addr_mode: AddrMode::AbsoluteY, cycles: 4, size: 3 },
            0x5d => Instruction { op: OpCode::EOR, addr_mode: AddrMode::AbsoluteX, cycles: 4, size: 3 },
            0x5e => Instruction { op: OpCode::LSR, addr_mode: AddrMode::AbsoluteX, cycles: 7, size: 3 },
            0x60 => Instruction { op: OpCode::RTS, addr_mode: AddrMode::Implicit, cycles: 6, size: 1 },
            0x61 => Instruction { op: OpCode::ADC, addr_mode: AddrMode::IndexedIndirect, cycles: 6, size: 2 },
            0x65 => Instruction { op: OpCode::ADC, addr_mode: AddrMode::ZeroPage, cycles: 3, size: 2 },
            0x66 => Instruction { op: OpCode::ROR, addr_mode: AddrMode::ZeroPage, cycles: 5, size: 2 },
            0x68 => Instruction { op: OpCode::PLA, addr_mode: AddrMode::Implicit, cycles: 4, size: 1 },
            0x69 => Instruction { op: OpCode::ADC, addr_mode: AddrMode::Immediate, cycles: 2, size: 2 },
            0x6a => Instruction { op: OpCode::ROR, addr_mode: AddrMode::Accumulator, cycles: 2, size: 1 },
            0x6c => Instruction { op: OpCode::JMP, addr_mode: AddrMode::Indirect, cycles: 5, size: 3 },
            0x6d => Instruction { op: OpCode::ADC, addr_mode: AddrMode::Absolute, cycles: 4, size: 3 },
            0x6e => Instruction { op: OpCode::ROR, addr_mode: AddrMode::Absolute, cycles: 6, size: 3 },
            0x70 => Instruction { op: OpCode::BVS, addr_mode: AddrMode::Relative, cycles: 2, size: 2 },
            0x71 => Instruction { op: OpCode::ADC, addr_mode: AddrMode::IndirectIndexed, cycles: 5, size: 2 },
            0x75 => Instruction { op: OpCode::ADC, addr_mode: AddrMode::ZeroPageX, cycles: 4, size: 2 },
            0x76 => Instruction { op: OpCode::ROR, addr_mode: AddrMode::ZeroPageX, cycles: 6, size: 2 },
            0x78 => Instruction { op: OpCode::SEI, addr_mode: AddrMode::Implicit, cycles: 2, size: 1 },
            0x79 => Instruction { op: OpCode::ADC, addr_mode: AddrMode::AbsoluteY, cycles: 4, size: 3 },
            0x7d => Instruction { op: OpCode::ADC, addr_mode: AddrMode::AbsoluteX, cycles: 4, size: 3 },
            0x7e => Instruction { op: OpCode::ROR, addr_mode: AddrMode::AbsoluteX, cycles: 7, size: 3 },
            0x81 => Instruction { op: OpCode::STA, addr_mode: AddrMode::IndexedIndirect, cycles: 6, size: 2 },
            0x84 => Instruction { op: OpCode::STY, addr_mode: AddrMode::ZeroPage, cycles: 3, size: 2 },
            0x85 => Instruction { op: OpCode::STA, addr_mode: AddrMode::ZeroPage, cycles: 3, size: 2 },
            0x86 => Instruction { op: OpCode::STX, addr_mode: AddrMode::ZeroPage, cycles: 3, size: 2 },
            0x88 => Instruction { op: OpCode::DEY, addr_mode: AddrMode::Implicit, cycles: 2, size: 1 },
            0x8a => Instruction { op: OpCode::TXA, addr_mode: AddrMode::Implicit, cycles: 2, size: 1 },
            0x8c => Instruction { op: OpCode::STY, addr_mode: AddrMode::Absolute, cycles: 4, size: 3 },
            0x8d => Instruction { op: OpCode::STA, addr_mode: AddrMode::Absolute, cycles: 4, size: 3 },
            0x8e => Instruction { op: OpCode::STX, addr_mode: AddrMode::Absolute, cycles: 4, size: 3 },
            0x90 => Instruction { op: OpCode::BCC, addr_mode: AddrMode::Relative, cycles: 2, size: 2 },
            0x91 => Instruction { op: OpCode::STA, addr_mode: AddrMode::IndirectIndexed, cycles: 6, size: 2 },
            0x94 => Instruction { op: OpCode::STY, addr_mode: AddrMode::ZeroPageX, cycles: 4, size: 2 },
            0x95 => Instruction { op: OpCode::STA, addr_mode: AddrMode::ZeroPageX, cycles: 4, size: 2 },
            0x96 => Instruction { op: OpCode::STX, addr_mode: AddrMode::ZeroPageY, cycles: 4, size: 2 },
            0x98 => Instruction { op: OpCode::TYA, addr_mode: AddrMode::Implicit, cycles: 2, size: 1 },
            0x99 => Instruction { op: OpCode::STA, addr_mode: AddrMode::AbsoluteY, cycles: 5, size: 3 },
            0x9a => Instruction { op: OpCode::TXS, addr_mode: AddrMode::Implicit, cycles: 2, size: 1 },
            0x9d => Instruction { op: OpCode::STA, addr_mode: AddrMode::AbsoluteX, cycles: 5, size: 3 },
            0xa0 => Instruction { op: OpCode::LDY, addr_mode: AddrMode::Immediate, cycles: 2, size: 2 },
            0xa1 => Instruction { op: OpCode::LDA, addr_mode: AddrMode::IndexedIndirect, cycles: 6, size: 2 },
            0xa2 => Instruction { op: OpCode::LDX, addr_mode: AddrMode::Immediate, cycles: 2, size: 2 },
            0xa4 => Instruction { op: OpCode::LDY, addr_mode: AddrMode::ZeroPage, cycles: 3, size: 2 },
            0xa5 => Instruction { op: OpCode::LDA, addr_mode: AddrMode::ZeroPage, cycles: 3, size: 2 },
            0xa6 => Instruction { op: OpCode::LDX, addr_mode: AddrMode::ZeroPage, cycles: 3, size: 2 },
            0xa8 => Instruction { op: OpCode::TAY, addr_mode: AddrMode::Implicit, cycles: 2, size: 1 },
            0xa9 => Instruction { op: OpCode::LDA, addr_mode: AddrMode::Immediate, cycles: 2, size: 2 },
            0xaa => Instruction { op: OpCode::TAX, addr_mode: AddrMode::Implicit, cycles: 2, size: 1 },
            0xac => Instruction { op: OpCode::LDY, addr_mode: AddrMode::Absolute, cycles: 4, size: 3 },
            0xad => Instruction { op: OpCode::LDA, addr_mode: AddrMode::Absolute, cycles: 4, size: 3 },
            0xae => Instruction { op: OpCode::LDX, addr_mode: AddrMode::Absolute, cycles: 4, size: 3 },
            0xb0 => Instruction { op: OpCode::BCS, addr_mode: AddrMode::Relative, cycles: 2, size: 2 },
            0xb1 => Instruction { op: OpCode::LDA, addr_mode: AddrMode::IndirectIndexed, cycles: 5, size: 2 },
            0xb4 => Instruction { op: OpCode::LDY, addr_mode: AddrMode::ZeroPageX, cycles: 4, size: 2 },
            0xb5 => Instruction { op: OpCode::LDA, addr_mode: AddrMode::ZeroPageX, cycles: 4, size: 2 },
            0xb6 => Instruction { op: OpCode::LDX, addr_mode: AddrMode::ZeroPageY, cycles: 4, size: 2 },
            0xb8 => Instruction { op: OpCode::CLV, addr_mode: AddrMode::Implicit, cycles: 2, size: 1 },
            0xb9 => Instruction { op: OpCode::LDA, addr_mode: AddrMode::AbsoluteY, cycles: 4, size: 3 },
            0xba => Instruction { op: OpCode::TSX, addr_mode: AddrMode::Implicit, cycles: 2, size: 1 },
            0xbc => Instruction { op: OpCode::LDY, addr_mode: AddrMode::AbsoluteX, cycles: 4, size: 3 },
            0xbd => Instruction { op: OpCode::LDA, addr_mode: AddrMode::AbsoluteX, cycles: 4, size: 3 },
            0xbe => Instruction { op: OpCode::LDX, addr_mode: AddrMode::AbsoluteY, cycles: 4, size: 3 },
            0xc0 => Instruction { op: OpCode::CPY, addr_mode: AddrMode::Immediate, cycles: 2, size: 2 },
            0xc1 => Instruction { op: OpCode::CMP, addr_mode: AddrMode::IndexedIndirect, cycles: 6, size: 2 },
            0xc4 => Instruction { op: OpCode::CPY, addr_mode: AddrMode::ZeroPage, cycles: 3, size: 2 },
            0xc5 => Instruction { op: OpCode::CMP, addr_mode: AddrMode::ZeroPage, cycles: 3, size: 2 },
            0xc6 => Instruction { op: OpCode::DEC, addr_mode: AddrMode::ZeroPage, cycles: 5, size: 2 },
            0xc8 => Instruction { op: OpCode::INY, addr_mode: AddrMode::Implicit, cycles: 2, size: 1 },
            0xc9 => Instruction { op: OpCode::CMP, addr_mode: AddrMode::Immediate, cycles: 2, size: 2 },
            0xca => Instruction { op: OpCode::DEX, addr_mode: AddrMode::Implicit, cycles: 2, size: 1 },
            0xcc => Instruction { op: OpCode::CPY, addr_mode: AddrMode::Absolute, cycles: 4, size: 3 },
            0xcd => Instruction { op: OpCode::CMP, addr_mode: AddrMode::Absolute, cycles: 4, size: 3 },
            0xce => Instruction { op: OpCode::DEC, addr_mode: AddrMode::Absolute, cycles: 6, size: 3 },
            0xd0 => Instruction { op: OpCode::BNE, addr_mode: AddrMode::Relative, cycles: 2, size: 2 },
            0xd1 => Instruction { op: OpCode::CMP, addr_mode: AddrMode::IndirectIndexed, cycles: 5, size: 2 },
            0xd5 => Instruction { op: OpCode::CMP, addr_mode: AddrMode::ZeroPageX, cycles: 4, size: 2 },
            0xd6 => Instruction { op: OpCode::DEC, addr_mode: AddrMode::ZeroPageX, cycles: 6, size: 2 },
            0xd8 => Instruction { op: OpCode::CLD, addr_mode: AddrMode::Implicit, cycles: 2, size: 1 },
            0xd9 => Instruction { op: OpCode::CMP, addr_mode: AddrMode::AbsoluteY, cycles: 4, size: 3 },
            0xdd => Instruction { op: OpCode::CMP, addr_mode: AddrMode::AbsoluteX, cycles: 4, size: 3 },
            0xde => Instruction { op: OpCode::DEC, addr_mode: AddrMode::AbsoluteX, cycles: 7, size: 3 },
            0xe0 => Instruction { op: OpCode::CPX, addr_mode: AddrMode::Immediate, cycles: 2, size: 2 },
            0xe1 => Instruction { op: OpCode::SBC, addr_mode: AddrMode::IndexedIndirect, cycles: 6, size: 2 },
            0xe4 => Instruction { op: OpCode::CPX, addr_mode: AddrMode::ZeroPage, cycles: 3, size: 2 },
            0xe5 => Instruction { op: OpCode::SBC, addr_mode: AddrMode::ZeroPage, cycles: 3, size: 2 },
            0xe6 => Instruction { op: OpCode::INC, addr_mode: AddrMode::ZeroPage, cycles: 5, size: 2 },
            0xe8 => Instruction { op: OpCode::INX, addr_mode: AddrMode::Implicit, cycles: 2, size: 1 },
            0xe9 => Instruction { op: OpCode::SBC, addr_mode: AddrMode::Immediate, cycles: 2, size: 2 },
            0xea => Instruction { op: OpCode::NOP, addr_mode: AddrMode::Implicit, cycles: 2, size: 1 },
            0xec => Instruction { op: OpCode::CPX, addr_mode: AddrMode::Absolute, cycles: 4, size: 3 },
            0xed => Instruction { op: OpCode::SBC, addr_mode: AddrMode::Absolute, cycles: 4, size: 3 },
            0xee => Instruction { op: OpCode::INC, addr_mode: AddrMode::Absolute, cycles: 6, size: 3 },
            0xf0 => Instruction { op: OpCode::BEQ, addr_mode: AddrMode::Relative, cycles: 2, size: 2 },
            0xf1 => Instruction { op: OpCode::SBC, addr_mode: AddrMode::IndirectIndexed, cycles: 5, size: 2 },
            0xf5 => Instruction { op: OpCode::SBC, addr_mode: AddrMode::ZeroPageX, cycles: 4, size: 2 },
            0xf6 => Instruction { op: OpCode::INC, addr_mode: AddrMode::ZeroPageX, cycles: 6, size: 2 },
            0xf8 => Instruction { op: OpCode::SED, addr_mode: AddrMode::Implicit, cycles: 2, size: 1 },
            0xf9 => Instruction { op: OpCode::SBC, addr_mode: AddrMode::AbsoluteY, cycles: 4, size: 3 },
            0xfd => Instruction { op: OpCode::SBC, addr_mode: AddrMode::AbsoluteX, cycles: 4, size: 3 },
            0xfe => Instruction { op: OpCode::INC, addr_mode: AddrMode::AbsoluteX, cycles: 7, size: 3 },
            _ => Instruction { op: OpCode::ILL, addr_mode: AddrMode::Implicit, cycles: 2, size: 1 },
        }
    }
}

/// What holds of the instruction behind every byte.
///
/// Its length is the opcode byte plus the operand bytes of its mode, so one
/// to three bytes. Its base time is two to seven cycles. It has a place in
/// memory to work on whenever its mnemonic needs one; it is relative exactly
/// when it is a branch; and only a read-modify-write works on the
/// accumulator. It is `ILL` exactly when nothing is assigned to the byte,
/// and then it is shaped like a `NOP` without being one.
pub proof fn lemma_decode_well_formed(opcode: u8)
    ensures
        decode(opcode).is_decoded(),
        decode(opcode).size == 1 + decode(opcode).addr_mode.operand_bytes(),
        1 <= decode(opcode).size <= 3,
        2 <= decode(opcode).cycles <= 7,
        decode(opcode).cycles == base_cycles(decode(opcode).op, decode(opcode).addr_mode),
        decode(opcode).op.needs_address() ==> decode(opcode).addr_mode.has_address(),
        decode(opcode).op.access() == Access::Branch <==> decode(opcode).addr_mode
            == AddrMode::Relative,
        decode(opcode).addr_mode == AddrMode::Accumulator ==> decode(opcode).op.access()
            == Access::Modify,
        decode(opcode).addr_mode == AddrMode::Indirect ==> decode(opcode).op == OpCode::JMP,
        decode(opcode).is_illegal() <==> assigned(opcode) is None,
        decode(opcode).is_illegal() ==> decode(opcode) == (Instruction {
            op: OpCode::ILL,
            addr_mode: AddrMode::Implicit,
            cycles: 2,
            size: 1,
        }),
{
}

/// The same, for an instruction known only to be decoded from some byte.
pub proof fn lemma_decoded_well_formed(inst: Instruction)
    requires
        inst.is_decoded(),
    ensures
        inst.size == 1 + inst.addr_mode.operand_bytes(),
        1 <= inst.size <= 3,
        2 <= inst.cycles <= 7,
        inst.cycles == base_cycles(inst.op, inst.addr_mode),
        inst.op.needs_address() ==> inst.addr_mode.has_address(),
        inst.op.access() == Access::Branch <==> inst.addr_mode == AddrMode::Relative,
        inst.addr_mode == AddrMode::Accumulator ==> inst.op.access() == Access::Modify,
        inst.addr_mode == AddrMode::Indirect ==> inst.op == OpCode::JMP,
{
    let opcode = choose|opcode: u8| inst == #[trigger] decode(opcode);
    lemma_decode_well_formed(opcode);
}

} // verus!
