//! The instruction encoding and the arithmetic behind each operation.
//!
//! An instruction is one byte: the high nibble selects the operation, the
//! low nibble names a register. Nothing in this module touches the processor
//! or the bus; it is all functions on bytes.
use vstd::prelude::*;

verus! {

/// Register that every arithmetic operation reads and writes.
pub const ACCUMULATOR: usize = 0;

/// Register holding the high byte of the indirect address.
pub const ADDRESS_HIGH: usize = 1;

/// Register holding the low byte of the indirect address.
pub const ADDRESS_LOW: usize = 2;

/// Register holding the status flags.
pub const STATUS: usize = 3;

/// Status bit 0: when set, the ordered comparison tests "greater than",
/// otherwise "less than". It is clear after a reset and no instruction sets
/// it by itself; a program that wants it set loads the status register.
pub const FLAG_GREATER: u8 = 0x01;

/// Status bit 1: the last addition did not fit in eight bits.
pub const FLAG_OVERFLOW: u8 = 0x02;

/// Status bit 2: the last subtraction went below zero.
pub const FLAG_UNDERFLOW: u8 = 0x04;

/// Arms the literal latch for the operand register.
pub const OP_LITERAL: u8 = 0x0;

/// Jump, call, return or hold, as the low nibble says.
pub const OP_CONTROL: u8 = 0x1;

/// Jumps if the operand register is not zero.
pub const OP_BRANCH: u8 = 0x2;

/// Copies the operand register into the accumulator.
pub const OP_GET: u8 = 0x3;

/// Copies the accumulator into the operand register.
pub const OP_PUT: u8 = 0x4;

/// Reads the byte at the indirect address into the operand register.
pub const OP_LOAD: u8 = 0x5;

/// Writes the operand register to the indirect address.
pub const OP_STORE: u8 = 0x6;

/// Tests whether the accumulator equals the operand register.
pub const OP_EQUAL: u8 = 0x7;

/// Tests whether the accumulator is greater, or less, than the operand register.
pub const OP_ORDER: u8 = 0x8;

/// Adds the operand register to the accumulator.
pub const OP_ADD: u8 = 0x9;

/// Subtracts the operand register from the accumulator.
pub const OP_SUB: u8 = 0xa;

/// Shifts the accumulator left.
pub const OP_SHL: u8 = 0xb;

/// Shifts the accumulator right.
pub const OP_SHR: u8 = 0xc;

/// Bitwise or of the accumulator and the operand register.
pub const OP_OR: u8 = 0xd;

/// Bitwise and of the accumulator and the operand register.
pub const OP_AND: u8 = 0xe;

/// Bitwise complement of the operand register.
pub const OP_NOT: u8 = 0xf;

/// Low nibble of a control instruction: jump to the indirect address.
pub const CONTROL_JUMP: u8 = 0x0;

/// Low nibble of a control instruction: push the program counter and jump.
pub const CONTROL_CALL: u8 = 0x1;

/// Low nibble of a control instruction: pop the program counter.
pub const CONTROL_RETURN: u8 = 0x2;

/// Low nibble of a control instruction: stay on this instruction.
pub const CONTROL_HOLD: u8 = 0x3;

/// The operation class of an instruction: its top four bits.
pub open spec fn spec_opcode(byte: u8) -> u8 {
    (byte / 16) as u8
}

/// The operand of an instruction: its bottom four bits, a register index.
pub open spec fn spec_operand(byte: u8) -> u8 {
    (byte % 16) as u8
}

/// The 16-bit address with the given high and low bytes.
pub open spec fn spec_address(high: u8, low: u8) -> u16 {
    (high * 256 + low) as u16
}

/// The low byte of a 16-bit word.
pub open spec fn spec_low_byte(word: u16) -> u8 {
    (word % 256) as u8
}

/// The high byte of a 16-bit word.
pub open spec fn spec_high_byte(word: u16) -> u8 {
    (word / 256) as u8
}

/// `status` with the bits of `mask` set if `on`, cleared if not.
pub open spec fn spec_with_flag(status: u8, mask: u8, on: bool) -> u8 {
    if on {
        status | mask
    } else {
        status & !mask
    }
}

#[verifier::when_used_as_spec(spec_opcode)]
pub fn opcode(byte: u8) -> (op: u8)
    ensures
        op == spec_opcode(byte),
        op < 16,
{
    assert(byte >> 4 == byte / 16) by (bit_vector);
    byte >> 4
}

#[verifier::when_used_as_spec(spec_operand)]
pub fn operand(byte: u8) -> (n: u8)
    ensures
        n == spec_operand(byte),
        n < 16,
{
    assert(byte & 0x0f == byte % 16) by (bit_vector);
    byte & 0x0f
}

#[verifier::when_used_as_spec(spec_address)]
pub fn address(high: u8, low: u8) -> (word: u16)
    ensures
        word == spec_address(high, low),
{
    let h: u16 = high as u16;
    let l: u16 = low as u16;
    assert((h << 8) | l == h * 256 + l) by (bit_vector)
        requires
            h < 256,
            l < 256,
    ;
    (h << 8) | l
}

#[verifier::when_used_as_spec(spec_low_byte)]
pub fn low_byte(word: u16) -> (byte: u8)
    ensures
        byte == spec_low_byte(word),
{
    assert(word & 0x00ff == word % 256) by (bit_vector);
    (word & 0x00ff) as u8
}

#[verifier::when_used_as_spec(spec_high_byte)]
pub fn high_byte(word: u16) -> (byte: u8)
    ensures
        byte == spec_high_byte(word),
{
    assert(word >> 8 == word / 256) by (bit_vector);
    (word >> 8) as u8
}

#[verifier::when_used_as_spec(spec_with_flag)]
pub fn with_flag(status: u8, mask: u8, on: bool) -> (out: u8)
    ensures
        out == spec_with_flag(status, mask, on),
{
    if on {
        status | mask
    } else {
        status & !mask
    }
}

/// What an accumulator operation computes: the new accumulator and the new
/// status byte, from the accumulator, the operand register and the status
/// byte as they were before the instruction.
///
/// Addition and subtraction wrap modulo 256 and report in the status byte
/// whether the exact result fell outside a byte. A shift uses the low three
/// bits of its operand as the distance. Opcodes that are not accumulator
/// operations leave both values as they are.
pub open spec fn spec_alu(op: u8, acc: u8, operand: u8, status: u8) -> (u8, u8) {
    if op == OP_GET {
        (operand, status)
    } else if op == OP_EQUAL {
        (if acc == operand { 1u8 } else { 0u8 }, status)
    } else if op == OP_ORDER {
        let holds = if status & FLAG_GREATER == FLAG_GREATER {
            acc > operand
        } else {
            acc < operand
        };
        (if holds { 0xffu8 } else { 0u8 }, status)
    } else if op == OP_ADD {
        (((acc + operand) % 256) as u8, spec_with_flag(status, FLAG_OVERFLOW, acc + operand > 255))
    } else if op == OP_SUB {
        (((acc - operand) % 256) as u8, spec_with_flag(status, FLAG_UNDERFLOW, acc - operand < 0))
    } else if op == OP_SHL {
        (acc << ((operand % 8) as u8), status)
    } else if op == OP_SHR {
        (acc >> ((operand % 8) as u8), status)
    } else if op == OP_OR {
        (acc | operand, status)
    } else if op == OP_AND {
        (acc & operand, status)
    } else if op == OP_NOT {
        (!operand, status)
    } else {
        (acc, status)
    }
}

#[verifier::when_used_as_spec(spec_alu)]
pub fn alu(op: u8, acc: u8, operand: u8, status: u8) -> (out: (u8, u8))
    ensures
        out == spec_alu(op, acc, operand, status),
{
    if op == OP_GET {
        (operand, status)
    } else if op == OP_EQUAL {
        (if acc == operand { 1 } else { 0 }, status)
    } else if op == OP_ORDER {
        let holds = if status & FLAG_GREATER == FLAG_GREATER {
            acc > operand
        } else {
            acc < operand
        };
        (if holds { 0xff } else { 0 }, status)
    } else if op == OP_ADD {
        let overflow = acc.checked_add(operand).is_none();
        (acc.wrapping_add(operand), with_flag(status, FLAG_OVERFLOW, overflow))
    } else if op == OP_SUB {
        let underflow = acc.checked_sub(operand).is_none();
        (acc.wrapping_sub(operand), with_flag(status, FLAG_UNDERFLOW, underflow))
    } else if op == OP_SHL {
        (acc << (operand % 8), status)
    } else if op == OP_SHR {
        (acc >> (operand % 8), status)
    } else if op == OP_OR {
        (acc | operand, status)
    } else if op == OP_AND {
        (acc & operand, status)
    } else if op == OP_NOT {
        (!operand, status)
    } else {
        (acc, status)
    }
}

} // verus!
