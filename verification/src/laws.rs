//! What holds of every step of the processor, on every bus.
//!
//! These are consequences of [`step_spec`], proved once so that callers can
//! use them without unfolding the instruction table.
use vstd::prelude::*;
use crate::bus::Bus;
use crate::isa::{
    spec_high_byte, spec_low_byte, spec_opcode, spec_operand, FLAG_GREATER, FLAG_OVERFLOW,
    FLAG_UNDERFLOW, OP_ADD, OP_AND, OP_BRANCH, OP_EQUAL, OP_GET, OP_LOAD, OP_NOT, OP_OR, OP_ORDER,
    OP_PUT, OP_SHL, OP_SHR, OP_STORE, OP_SUB,
};
use crate::processor::{spec_succ, step_spec, CpuState};

verus! {

/// A step takes well-formed states to well-formed states.
pub proof fn lemma_step_keeps_wf<B: Bus>(cpu: CpuState, bus: B::V)
    requires
        cpu.wf(),
    ensures
        step_spec::<B>(cpu, bus).0.wf(),
{
}

/// A step fetches exactly one byte, at the program counter, before it does
/// anything else to the bus; an armed latch takes that byte as data for its
/// register and the step reads and writes nothing more.
pub proof fn lemma_latch_takes_any_byte<B: Bus>(cpu: CpuState, bus: B::V, target: u8)
    requires
        cpu.wf(),
        cpu.latch == Some(target),
    ensures
        ({
            let (next, after) = step_spec::<B>(cpu, bus);
            &&& next.registers == cpu.registers.update(target as int, B::read_byte(bus, cpu.pc))
            &&& next.pc == spec_succ(cpu.pc)
            &&& next.sp == cpu.sp
            &&& next.latch is None
            &&& after == B::read_next(bus, cpu.pc)
        }),
{
}

/// Every instruction with opcode 3 or above moves the program counter on by
/// one, leaves the stack pointer and the latch alone, and changes the
/// registers and the bus as its line of the instruction table says.
pub proof fn lemma_register_instruction<B: Bus>(cpu: CpuState, bus: B::V)
    requires
        cpu.wf(),
        cpu.latch is None,
        spec_opcode(B::read_byte(bus, cpu.pc)) >= OP_GET,
    ensures
        ({
            let byte = B::read_byte(bus, cpu.pc);
            let fetched = B::read_next(bus, cpu.pc);
            let op = spec_opcode(byte);
            let n = spec_operand(byte) as int;
            let r = cpu.registers;
            let (next, after) = step_spec::<B>(cpu, bus);
            &&& next.pc == (cpu.pc + 1) % 65536
            &&& next.sp == cpu.sp
            &&& next.latch is None
            &&& op != OP_LOAD && op != OP_STORE ==> after == fetched
            &&& op == OP_GET ==> next.registers == r.update(0, r[n])
            &&& op == OP_PUT ==> next.registers == r.update(n, r[0])
            &&& op == OP_LOAD ==> {
                &&& next.registers == r.update(n, B::read_byte(fetched, cpu.indirect()))
                &&& after == B::read_next(fetched, cpu.indirect())
            }
            &&& op == OP_STORE ==> {
                &&& next.registers == r
                &&& after == B::write_next(fetched, cpu.indirect(), r[n])
            }
            &&& op == OP_EQUAL ==> next.registers == r.update(0, if r[0] == r[n] { 1u8 } else { 0u8 })
            &&& op == OP_ORDER && r[3] & FLAG_GREATER == FLAG_GREATER ==> next.registers == r.update(
                0,
                if r[0] > r[n] { 0xffu8 } else { 0u8 },
            )
            &&& op == OP_ORDER && r[3] & FLAG_GREATER != FLAG_GREATER ==> next.registers == r.update(
                0,
                if r[0] < r[n] { 0xffu8 } else { 0u8 },
            )
            &&& op == OP_ADD ==> next.registers == r.update(0, ((r[0] + r[n]) % 256) as u8).update(
                3,
                if r[0] + r[n] > 255 { r[3] | FLAG_OVERFLOW } else { r[3] & !FLAG_OVERFLOW },
            )
            &&& op == OP_SUB ==> next.registers == r.update(0, ((r[0] - r[n]) % 256) as u8).update(
                3,
                if r[0] < r[n] { r[3] | FLAG_UNDERFLOW } else { r[3] & !FLAG_UNDERFLOW },
            )
            &&& op == OP_SHL ==> next.registers == r.update(0, r[0] << ((r[n] % 8) as u8))
            &&& op == OP_SHR ==> next.registers == r.update(0, r[0] >> ((r[n] % 8) as u8))
            &&& op == OP_OR ==> next.registers == r.update(0, r[0] | r[n])
            &&& op == OP_AND ==> next.registers == r.update(0, r[0] & r[n])
            &&& op == OP_NOT ==> next.registers == r.update(0, !r[n])
        }),
{
}

/// Loading a literal takes two steps: the instruction names the register,
/// and the byte behind it is stored there as it is, whatever instruction it
/// would otherwise be. The program counter ends two bytes further on.
pub proof fn lemma_literal_round_trip<B: Bus>(cpu: CpuState, bus: B::V, n: u8, value: u8)
    requires
        cpu.wf(),
        cpu.latch is None,
        n < 16,
        B::read_byte(bus, cpu.pc) == n,
        B::read_byte(B::read_next(bus, cpu.pc), spec_succ(cpu.pc)) == value,
    ensures
        ({
            let (armed, bus1) = step_spec::<B>(cpu, bus);
            let (loaded, bus2) = step_spec::<B>(armed, bus1);
            &&& armed == cpu.arm(n).advance()
            &&& loaded.registers == cpu.registers.update(n as int, value)
            &&& loaded.pc == (cpu.pc + 2) % 65536
            &&& loaded.sp == cpu.sp
            &&& loaded.latch is None
            &&& bus1 == B::read_next(bus, cpu.pc)
            &&& bus2 == B::read_next(bus1, spec_succ(cpu.pc))
        }),
{
}

/// A jump lands on the indirect address; a conditional jump does so when
/// its register is not zero and moves on by one when it is. Neither touches
/// a register, the stack or the bus beyond the fetch.
pub proof fn lemma_jump<B: Bus>(cpu: CpuState, bus: B::V)
    requires
        cpu.wf(),
        cpu.latch is None,
        B::read_byte(bus, cpu.pc) == 0x10 || spec_opcode(B::read_byte(bus, cpu.pc)) == OP_BRANCH,
    ensures
        ({
            let byte = B::read_byte(bus, cpu.pc);
            let n = spec_operand(byte) as int;
            let taken = byte == 0x10 || cpu.registers[n] != 0;
            let (next, after) = step_spec::<B>(cpu, bus);
            &&& next == cpu.jump(if taken { cpu.indirect() } else { spec_succ(cpu.pc) })
            &&& after == B::read_next(bus, cpu.pc)
        }),
{
}

/// A literal in memory: with the instruction `0n` at the program counter
/// and any byte at all in the plain address behind it, two steps leave that
/// byte in register `n` and the program counter two bytes further on.
pub proof fn lemma_literal_in_memory<B: Bus>(cpu: CpuState, bus: B::V, n: u8, value: u8)
    requires
        cpu.wf(),
        cpu.latch is None,
        B::valid(bus),
        n < 16,
        !B::special(spec_succ(cpu.pc)),
        B::read_byte(bus, cpu.pc) == n,
        B::read_byte(bus, spec_succ(cpu.pc)) == value,
    ensures
        ({
            let (armed, bus1) = step_spec::<B>(cpu, bus);
            let (loaded, bus2) = step_spec::<B>(armed, bus1);
            &&& loaded == cpu.set(n as int, value).jump(((cpu.pc + 2) % 65536) as u16)
            &&& B::valid(bus2)
        }),
{
    B::lemma_store(bus, cpu.pc, 0, spec_succ(cpu.pc));
    B::lemma_next_valid(bus, cpu.pc, 0);
    B::lemma_next_valid(B::read_next(bus, cpu.pc), spec_succ(cpu.pc), 0);
    lemma_literal_round_trip::<B>(cpu, bus, n, value);
}

/// A call and the return behind it cancel out, wherever the stack and the
/// routine lie in plain memory. The call pushes the address of the call
/// instruction, low byte first, and jumps to the indirect address; a return
/// found there pops that address and goes on with the instruction after the
/// call, with the stack pointer back where it was and every register as it
/// was.
pub proof fn lemma_call_then_return<B: Bus>(cpu: CpuState, bus: B::V)
    requires
        cpu.wf(),
        cpu.latch is None,
        B::valid(bus),
        !B::special(spec_stack_top(cpu)),
        !B::special(spec_succ(spec_stack_top(cpu))),
        !B::special(cpu.indirect()),
        cpu.indirect() != spec_stack_top(cpu),
        cpu.indirect() != spec_succ(spec_stack_top(cpu)),
        B::read_byte(bus, cpu.pc) == 0x11,
        B::read_byte(bus, cpu.indirect()) == 0x12,
    ensures
        ({
            let (called, pushed) = step_spec::<B>(cpu, bus);
            let (returned, popped) = step_spec::<B>(called, pushed);
            let top = spec_stack_top(cpu);
            &&& called == (CpuState { sp: top, ..cpu }).jump(cpu.indirect())
            &&& B::read_byte(pushed, top) == spec_low_byte(cpu.pc)
            &&& B::read_byte(pushed, spec_succ(top)) == spec_high_byte(cpu.pc)
            &&& returned == cpu.advance()
            &&& B::valid(popped)
        }),
{
    let top = spec_stack_top(cpu);
    let above = spec_succ(top);
    let target = cpu.indirect();
    let low = spec_low_byte(cpu.pc);
    let high = spec_high_byte(cpu.pc);
    let fetched = B::read_next(bus, cpu.pc);
    let half = B::write_next(fetched, top, low);
    let pushed = B::write_next(half, above, high);
    B::lemma_next_valid(bus, cpu.pc, 0);
    B::lemma_next_valid(fetched, top, low);
    B::lemma_next_valid(half, above, high);
    // The pushes leave the routine alone and can be read back.
    B::lemma_store(bus, cpu.pc, 0, target);
    B::lemma_store(fetched, top, low, target);
    B::lemma_store(half, above, high, target);
    B::lemma_store(fetched, top, low, top);
    B::lemma_store(half, above, high, top);
    B::lemma_store(half, above, high, above);
    // Neither the fetch of the return nor the first pop disturbs the stack.
    let entered = B::read_next(pushed, target);
    B::lemma_next_valid(pushed, target, 0);
    B::lemma_store(pushed, target, 0, top);
    B::lemma_store(pushed, target, 0, above);
    let popped_low = B::read_next(entered, top);
    B::lemma_next_valid(entered, top, 0);
    B::lemma_store(entered, top, 0, above);
    B::lemma_next_valid(popped_low, above, 0);
}

/// Where the stack pointer of `cpu` points after a call: two bytes lower,
/// wrapping below zero.
pub open spec fn spec_stack_top(cpu: CpuState) -> u16 {
    ((cpu.sp - 2) % 65536) as u16
}

} // verus!
