//! The processor: sixteen 8-bit registers, a program counter, a stack
//! pointer and a one-byte literal latch, advanced one instruction at a time.
//!
//! | high nibble | low nibble | operation |
//! |---|---|---|
//! | 0 | n | arm the latch: the next fetched byte is stored in `r[n]` as it is |
//! | 1 | 0 | jump to the indirect address |
//! | 1 | 1 | push the program counter (low byte, then high byte), then jump |
//! | 1 | 2 | pop the program counter and continue behind it |
//! | 1 | 3 | stay on this instruction |
//! | 1 | 4..f | nothing |
//! | 2 | n | jump to the indirect address if `r[n]` is not zero |
//! | 3 | n | `r0 := r[n]` |
//! | 4 | n | `r[n] := r0` |
//! | 5 | n | `r[n] :=` the byte at the indirect address |
//! | 6 | n | the byte at the indirect address `:= r[n]` |
//! | 7 | n | `r0 := 1` if `r0 == r[n]`, else `0` |
//! | 8 | n | `r0 := 0xff` if `r0` is greater (status bit 0 set) or less (clear) than `r[n]`, else `0` |
//! | 9 | n | `r0 := r0 + r[n]` modulo 256; status bit 1 tells whether the sum overflowed |
//! | a | n | `r0 := r0 - r[n]` modulo 256; status bit 2 tells whether the difference underflowed |
//! | b | n | `r0 := r0 << r[n]`, by the low three bits of `r[n]` |
//! | c | n | `r0 := r0 >> r[n]`, by the low three bits of `r[n]` |
//! | d | n | `r0 := r0 | r[n]` |
//! | e | n | `r0 := r0 & r[n]` |
//! | f | n | `r0 := !r[n]` |
//!
//! The indirect address is `r1` (high byte) and `r2` (low byte). Unless an
//! instruction says where to go, the program counter moves on by one. Both
//! the program counter and the stack pointer wrap around at 64K.
use vstd::prelude::*;
use crate::bus::Bus;
use crate::isa::{
    address, alu, high_byte, low_byte, opcode, operand, spec_address, spec_alu, spec_high_byte,
    spec_low_byte, spec_opcode, spec_operand, ACCUMULATOR, ADDRESS_HIGH, ADDRESS_LOW,
    CONTROL_CALL, CONTROL_HOLD, CONTROL_JUMP, CONTROL_RETURN, OP_BRANCH, OP_CONTROL, OP_LITERAL,
    OP_LOAD, OP_PUT, OP_STORE, STATUS,
};

verus! {

/// Where the program counter points after a reset.
pub const RESET_PC: u16 = 0x0100;

/// Where the stack pointer points after a reset. The stack grows downwards.
pub const RESET_SP: u16 = 1024;

/// The address after `address`, wrapping at the top of the address space.
pub open spec fn spec_succ(address: u16) -> u16 {
    ((address + 1) % 65536) as u16
}

/// The state of a processor between two instructions.
pub struct CpuState {
    /// The sixteen registers.
    pub registers: Seq<u8>,
    /// Address of the next byte to fetch.
    pub pc: u16,
    /// Address of the top of the stack.
    pub sp: u16,
    /// `Some(n)` while the latch is armed: the next fetched byte is data for
    /// register `n`, whatever it looks like.
    pub latch: Option<u8>,
}

impl CpuState {
    /// There are sixteen registers and an armed latch names one of them.
    pub open spec fn wf(self) -> bool {
        &&& self.registers.len() == 16
        &&& self.latch matches Some(target) ==> target < 16
    }

    /// The state after a reset.
    pub open spec fn reset() -> Self {
        CpuState {
            registers: Seq::new(16, |i: int| 0u8),
            pc: RESET_PC,
            sp: RESET_SP,
            latch: None,
        }
    }

    /// The address that memory and jump instructions use: `r1` over `r2`.
    pub open spec fn indirect(self) -> u16 {
        spec_address(self.registers[ADDRESS_HIGH as int], self.registers[ADDRESS_LOW as int])
    }

    /// This state with register `index` holding `value`.
    pub open spec fn set(self, index: int, value: u8) -> Self {
        CpuState { registers: self.registers.update(index, value), ..self }
    }

    /// This state with the program counter at `target`.
    pub open spec fn jump(self, target: u16) -> Self {
        CpuState { pc: target, ..self }
    }

    /// This state with the program counter on the next byte.
    pub open spec fn advance(self) -> Self {
        self.jump(spec_succ(self.pc))
    }

    /// This state with the latch armed for register `target`.
    pub open spec fn arm(self, target: u8) -> Self {
        CpuState { latch: Some(target), ..self }
    }

    /// This state with the latch disarmed.
    pub open spec fn disarm(self) -> Self {
        CpuState { latch: None, ..self }
    }
}

/// What a control instruction with low nibble `n` does: the instructions
/// that move the program counter without looking at a register.
pub open spec fn control<B: Bus>(cpu: CpuState, bus: B::V, n: u8) -> (CpuState, B::V) {
    if n == CONTROL_JUMP {
        (cpu.jump(cpu.indirect()), bus)
    } else if n == CONTROL_CALL {
        let sp = ((cpu.sp - 2) % 65536) as u16;
        let low = B::write_next(bus, sp, spec_low_byte(cpu.pc));
        let high = B::write_next(low, spec_succ(sp), spec_high_byte(cpu.pc));
        (CpuState { sp, ..cpu }.jump(cpu.indirect()), high)
    } else if n == CONTROL_RETURN {
        let low = B::read_byte(bus, cpu.sp);
        let bus = B::read_next(bus, cpu.sp);
        let high = B::read_byte(bus, spec_succ(cpu.sp));
        let bus = B::read_next(bus, spec_succ(cpu.sp));
        let sp = ((cpu.sp + 2) % 65536) as u16;
        (CpuState { sp, ..cpu }.jump(spec_succ(spec_address(high, low))), bus)
    } else if n == CONTROL_HOLD {
        (cpu, bus)
    } else {
        (cpu.advance(), bus)
    }
}

/// What the instruction `byte` does to a processor whose latch is not armed
/// and to the bus, once the byte has been fetched.
pub open spec fn execute<B: Bus>(cpu: CpuState, bus: B::V, byte: u8) -> (CpuState, B::V) {
    let op = spec_opcode(byte);
    let n = spec_operand(byte);
    let r = cpu.registers;
    if op == OP_LITERAL {
        (cpu.arm(n).advance(), bus)
    } else if op == OP_CONTROL {
        control::<B>(cpu, bus, n)
    } else if op == OP_BRANCH {
        (if r[n as int] != 0 { cpu.jump(cpu.indirect()) } else { cpu.advance() }, bus)
    } else if op == OP_PUT {
        (cpu.set(n as int, r[ACCUMULATOR as int]).advance(), bus)
    } else if op == OP_LOAD {
        let data = B::read_byte(bus, cpu.indirect());
        (cpu.set(n as int, data).advance(), B::read_next(bus, cpu.indirect()))
    } else if op == OP_STORE {
        (cpu.advance(), B::write_next(bus, cpu.indirect(), r[n as int]))
    } else {
        let (acc, status) = spec_alu(op, r[ACCUMULATOR as int], r[n as int], r[STATUS as int]);
        (cpu.set(ACCUMULATOR as int, acc).set(STATUS as int, status).advance(), bus)
    }
}

/// One step of the machine: fetch the byte at the program counter, then
/// either hand it to the armed latch or execute it.
pub open spec fn step_spec<B: Bus>(cpu: CpuState, bus: B::V) -> (CpuState, B::V) {
    let byte = B::read_byte(bus, cpu.pc);
    let bus = B::read_next(bus, cpu.pc);
    match cpu.latch {
        Some(target) => (cpu.set(target as int, byte).disarm().advance(), bus),
        None => execute::<B>(cpu, bus, byte),
    }
}

/// The processor.
pub struct MyProcessor {
    r: [u8; 16],
    pc: u16,
    lit_mode: bool,
    lit_register: u8,
    sp: u16,
}

impl View for MyProcessor {
    type V = CpuState;

    closed spec fn view(&self) -> CpuState {
        CpuState {
            registers: self.r@,
            pc: self.pc,
            sp: self.sp,
            latch: if self.lit_mode { Some(self.lit_register) } else { None },
        }
    }
}

impl MyProcessor {
    #[verifier::type_invariant]
    spec fn latch_in_range(self) -> bool {
        self.lit_register < 16
    }

    /// A processor in its reset state.
    pub fn new() -> (cpu: Self)
        ensures
            cpu@ == CpuState::reset(),
    {
        let cpu = MyProcessor {
            r: [0u8; 16],
            pc: RESET_PC,
            sp: RESET_SP,
            lit_mode: false,
            lit_register: 0,
        };
        assert(cpu@.registers =~= CpuState::reset().registers);
        cpu
    }

    /// Executes one instruction against `bus`.
    ///
    /// Never fails: every byte is an instruction, every register index comes
    /// from a nibble, and all arithmetic wraps.
    pub fn step<B: Bus>(&mut self, bus: &mut B)
        ensures
            (final(self)@, final(bus)@) == step_spec::<B>(old(self)@, old(bus)@),
            final(self)@.wf(),
    {
        proof {
            use_type_invariant(&*self);
        }
        let byte = bus.read(self.pc);
        if self.lit_mode {
            self.r[self.lit_register as usize] = byte;
            self.lit_mode = false;
            self.pc = self.pc.wrapping_add(1);
            return;
        }
        let op = opcode(byte);
        let n = operand(byte);
        let target = address(self.r[ADDRESS_HIGH], self.r[ADDRESS_LOW]);
        let mut next = self.pc.wrapping_add(1);
        if op == OP_LITERAL {
            self.lit_register = n;
            self.lit_mode = true;
        } else if op == OP_CONTROL {
            if n == CONTROL_JUMP {
                next = target;
            } else if n == CONTROL_CALL {
                self.sp = self.sp.wrapping_sub(2);
                bus.write(self.sp, low_byte(self.pc));
                bus.write(self.sp.wrapping_add(1), high_byte(self.pc));
                next = target;
            } else if n == CONTROL_RETURN {
                let low = bus.read(self.sp);
                let high = bus.read(self.sp.wrapping_add(1));
                self.sp = self.sp.wrapping_add(2);
                next = address(high, low).wrapping_add(1);
            } else if n == CONTROL_HOLD {
                next = self.pc;
            }
        } else if op == OP_BRANCH {
            if self.r[n as usize] != 0 {
                next = target;
            }
        } else if op == OP_PUT {
            self.r[n as usize] = self.r[ACCUMULATOR];
        } else if op == OP_LOAD {
            self.r[n as usize] = bus.read(target);
        } else if op == OP_STORE {
            bus.write(target, self.r[n as usize]);
        } else {
            let (acc, status) = alu(op, self.r[ACCUMULATOR], self.r[n as usize], self.r[STATUS]);
            self.r[ACCUMULATOR] = acc;
            self.r[STATUS] = status;
        }
        self.pc = next;
    }

    /// Forces the program counter to `addr`. Nothing is saved: the program
    /// that was running cannot be resumed.
    pub fn interrupt(&mut self, addr: u16)
        ensures
            final(self)@ == old(self)@.jump(addr),
            final(self)@.wf(),
    {
        proof {
            use_type_invariant(&*self);
        }
        self.pc = addr;
    }

    /// The sixteen registers.
    pub fn registers(&self) -> (r: [u8; 16])
        ensures
            r@ == self@.registers,
            self@.wf(),
    {
        proof {
            use_type_invariant(self);
        }
        self.r
    }

    /// Register `index`.
    pub fn register(&self, index: u8) -> (value: u8)
        requires
            index < 16,
        ensures
            value == self@.registers[index as int],
            self@.wf(),
    {
        proof {
            use_type_invariant(self);
        }
        self.r[index as usize]
    }

    /// Stores `value` in register `index`.
    pub fn set_register(&mut self, index: u8, value: u8)
        requires
            index < 16,
        ensures
            final(self)@ == old(self)@.set(index as int, value),
            final(self)@.wf(),
    {
        proof {
            use_type_invariant(&*self);
        }
        self.r[index as usize] = value;
    }

    /// The program counter.
    pub fn pc(&self) -> (pc: u16)
        ensures
            pc == self@.pc,
    {
        self.pc
    }

    /// The stack pointer.
    pub fn sp(&self) -> (sp: u16)
        ensures
            sp == self@.sp,
    {
        self.sp
    }

    /// The register that the next fetched byte is data for, if the latch is
    /// armed.
    pub fn latch(&self) -> (latch: Option<u8>)
        ensures
            latch == self@.latch,
            latch matches Some(target) ==> target < 16,
    {
        proof {
            use_type_invariant(self);
        }
        if self.lit_mode {
            Some(self.lit_register)
        } else {
            None
        }
    }
}

} // verus!
