//! What holds of the processor whatever the program.
//!
//! Each proof function here states one law over the mathematical machine of
//! [`crate::machine`]. Since the executable processor is proved to follow
//! that machine, the laws hold of it too.

use vstd::prelude::*;
use crate::alu::{branch_target, page, word, wrap16, wrap8};
use crate::cpu::CPU;
use crate::instruction::{
    decode, lemma_decode_well_formed, lemma_decoded_well_formed, Access, AddrMode, Instruction,
    OpCode,
};
use crate::machine::Machine;
use crate::status::StatusRegister;

verus! {

/// No instruction takes more cycles than this.
pub const MAX_STEP_CYCLES: u64 = 7;

/// A decoded instruction takes between two and seven cycles, penalties
/// included.
pub proof fn lemma_cost_bounds(m: Machine, inst: Instruction)
    requires
        inst.is_decoded(),
    ensures
        2 <= m.cost(inst) <= MAX_STEP_CYCLES,
        inst.cycles <= m.cost(inst) <= inst.cycles + 2,
{
    lemma_decoded_well_formed(inst);
}

/// Whatever byte the program counter points at, the step that runs it
/// takes between two and seven cycles.
pub proof fn lemma_step_cost_bounds(m: Machine)
    ensures
        2 <= m.step_cost() <= MAX_STEP_CYCLES,
{
    lemma_decode_well_formed(m.read(m.cpu.pc));
    lemma_cost_bounds(m.after_fetch(), m.fetched());
}

/// The cycle counter only grows: a step adds its cost to it and nothing
/// else touches it.
pub proof fn lemma_cycle_counts_up(m: Machine)
    requires
        m.cpu.cycle + m.step_cost() <= u64::MAX,
    ensures
        m.step().cpu.cycle == m.cpu.cycle + m.step_cost(),
        m.step().cpu.cycle > m.cpu.cycle,
{
    lemma_step_cost_bounds(m);
    let inst = m.fetched();
    let s = m.after_fetch().begin(inst);
    lemma_effect_keeps_cycle(s, inst.op, m.after_fetch().operand(inst.addr_mode),
        m.after_fetch().operand_address(inst.addr_mode));
}

/// What a mnemonic does, it does without touching the cycle counter.
pub proof fn lemma_effect_keeps_cycle(m: Machine, op: OpCode, operand: u8, addr: Option<u16>)
    ensures
        m.effect(op, operand, addr).cpu.cycle == m.cpu.cycle,
{
}

/// A branch costs two cycles when it is not taken, three when it is taken
/// and lands in the page of the instruction after it, four when it lands in
/// another page. Taken, it goes on at the instruction after it plus the
/// signed offset; not taken, at the instruction after it.
pub proof fn lemma_branch_cost(m: Machine, inst: Instruction)
    requires
        inst.is_decoded(),
        inst.op.access() == Access::Branch,
    ensures
        inst.cycles == 2,
        inst.size == 2,
        inst.addr_mode == AddrMode::Relative,
        m.next_pc(inst) == wrap16(m.cpu.pc + 1),
        !m.cpu.branch_taken(inst.op) ==> m.cost(inst) == 2 && m.execute(inst).cpu.pc
            == m.next_pc(inst),
        m.cpu.branch_taken(inst.op) ==> m.execute(inst).cpu.pc == branch_target(
            m.next_pc(inst),
            m.read(m.cpu.pc),
        ),
        m.cpu.branch_taken(inst.op) && page(m.execute(inst).cpu.pc) == page(m.next_pc(inst))
            ==> m.cost(inst) == 3,
        m.cpu.branch_taken(inst.op) && page(m.execute(inst).cpu.pc) != page(m.next_pc(inst))
            ==> m.cost(inst) == 4,
        inst.op == OpCode::BNE ==> (m.cpu.branch_taken(inst.op) <==> !m.cpu.status.z),
{
    lemma_decoded_well_formed(inst);
}

/// Pushing a byte writes inside page 1 and nowhere else, and pulling right
/// after gives the byte and the stack pointer back.
pub proof fn lemma_push_pull(m: Machine, data: u8)
    requires
        m.wf(),
    ensures
        0x100 <= m.stack_address() <= 0x1FF,
        m.push(data).wf(),
        forall|addr: int|
            0 <= addr < m.mem.len() && addr != m.stack_address() ==> m.push(data).mem[addr]
                == m.mem[addr],
        m.push(data).pull().top() == data,
        m.push(data).pull().cpu == m.cpu,
{
}

/// `PHA` then `PLA` restores the accumulator and the stack pointer, whatever
/// became of accumulator and flags in between, and leaves Z and N
/// describing the byte that came back. The other flags stay as they were
/// before the `PLA`.
pub proof fn lemma_pha_pla_round_trip(m: Machine, accum: u8, flags: StatusRegister)
    requires
        m.wf(),
    ensures
        ({
            let pushed = m.execute(decode(0x48));
            let between = pushed.regs(CPU { accum, status: flags, ..pushed.cpu });
            let pulled = between.execute(decode(0x68));
            &&& decode(0x48).op == OpCode::PHA
            &&& decode(0x68).op == OpCode::PLA
            &&& pushed.cpu.accum == m.cpu.accum
            &&& pushed.cpu.status == m.cpu.status
            &&& pulled.cpu.accum == m.cpu.accum
            &&& pulled.cpu.sp == m.cpu.sp
            &&& pulled.cpu.status == flags.with_zn(m.cpu.accum)
            &&& pulled.mem == pushed.mem
        }),
{
    lemma_decode_well_formed(0x48);
    lemma_decode_well_formed(0x68);
    lemma_push_pull(m.begin(decode(0x48)), m.cpu.accum);
}

/// A call and the return from it: where `JSR` is followed at its target by
/// `RTS`, execution goes on at the instruction after the `JSR`, three bytes
/// on, with the stack pointer where it was.
pub proof fn lemma_jsr_rts_round_trip(m: Machine)
    requires
        m.wf(),
        m.fetched().op == OpCode::JSR,
        m.step().fetched().op == OpCode::RTS,
    ensures
        m.step().cpu.pc == m.after_fetch().read_word(m.after_fetch().cpu.pc),
        m.step().cpu.sp == wrap8(m.cpu.sp - 2),
        m.step().step().cpu.pc == wrap16(m.cpu.pc + 3),
        m.step().step().cpu.sp == m.cpu.sp,
        m.step().step().mem == m.step().mem,
{
    lemma_decode_well_formed(m.read(m.cpu.pc));
    let jsr = m.fetched();
    assert(jsr.addr_mode == AddrMode::Absolute && jsr.size == 3) by {
        lemma_jsr_is_absolute(m.read(m.cpu.pc));
    }
    let s = m.after_fetch().begin(jsr);
    let last = wrap16(s.cpu.pc - 1);
    assert(s.cpu.pc == wrap16(m.cpu.pc + 3));
    let hi = (last / 256) as u8;
    let lo = (last % 256) as u8;
    let called = s.push(hi).push(lo);
    lemma_push_pull(s, hi);
    lemma_push_pull(s.push(hi), lo);
    assert(m.step().mem == called.mem);
    assert(m.step().cpu.sp == called.cpu.sp);
    let m1 = m.step();
    let rts = m1.fetched();
    let r = m1.after_fetch().begin(rts);
    assert(r.mem == called.mem);
    assert(r.cpu.sp == called.cpu.sp);
    assert(r.pull().top() == lo);
    assert(r.pull().pull().top() == hi);
    assert(word(lo, hi) == last);
}

/// `JSR` has one encoding: absolute, three bytes.
proof fn lemma_jsr_is_absolute(opcode: u8)
    requires
        decode(opcode).op == OpCode::JSR,
    ensures
        opcode == 0x20,
        decode(opcode).addr_mode == AddrMode::Absolute,
        decode(opcode).size == 3,
{
}

/// The indirect jump reads the low byte of its target where the pointer
/// says. It reads the high byte from the next address, unless the pointer
/// is the last byte of a page: then it reads it from the first byte of that
/// same page, not from the page after.
pub proof fn lemma_indirect_jump_stays_in_page(m: Machine)
    ensures
        ({
            let pointer = m.read_word(m.cpu.pc);
            let target = m.operand_address(AddrMode::Indirect);
            &&& pointer % 256 != 255 ==> target == Some(
                word(m.read(pointer), m.read((pointer + 1) as u16)),
            )
            &&& pointer % 256 == 255 ==> target == Some(
                word(m.read(pointer), m.read((pointer - 255) as u16)),
            )
            &&& m.effect(OpCode::JMP, m.operand(AddrMode::Indirect), target).cpu.pc == target->0
        }),
{
}

/// A byte with no instruction assigned runs as a no-operation: one byte
/// long, two cycles, nothing else changed. The report of the step says that
/// it was no real instruction.
pub proof fn lemma_illegal_opcode_is_idle(m: Machine)
    requires
        m.fetched().is_illegal(),
        m.cpu.cycle + 2 <= u64::MAX,
    ensures
        m.step().mem == m.mem,
        m.step().cpu == (CPU {
            pc: wrap16(m.cpu.pc + 1),
            cycle: (m.cpu.cycle + 2) as u64,
            ..m.cpu
        }),
        m.report().illegal,
        m.report().cycles == 2,
        m.fetched().op != OpCode::NOP,
{
    lemma_decode_well_formed(m.read(m.cpu.pc));
}

/// A load puts the operand in its register and sets Z and N from it: Z when
/// the operand is zero, N when its bit 7 is set.
pub proof fn lemma_load_sets_zn(m: Machine, operand: u8, addr: Option<u16>)
    ensures
        m.effect(OpCode::LDA, operand, addr).cpu.accum == operand,
        m.effect(OpCode::LDA, operand, addr).cpu.status.z == (operand == 0),
        m.effect(OpCode::LDA, operand, addr).cpu.status.n == (operand >= 0x80),
        m.effect(OpCode::LDA, operand, addr).mem == m.mem,
        m.effect(OpCode::LDX, operand, addr).cpu.x == operand,
        m.effect(OpCode::LDY, operand, addr).cpu.y == operand,
{
}

} // verus!
