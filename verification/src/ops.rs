//! The monitor's own representation of decoded instructions and of the
//! places their operands live. It mirrors the engine's symbolic instruction
//! set as plain data, so that the decode table and the display logic can be
//! reasoned about without looking inside the engine.

use vstd::prelude::*;

verus! {

/// 8-bit registers, including the shadow set (`AP` is A', and so on).
#[derive(Clone, Copy, PartialEq, Eq, Structural, Debug)]
pub enum Reg8 {
    A,
    F,
    B,
    C,
    D,
    E,
    H,
    L,
    AP,
    FP,
    BP,
    CP,
    DP,
    EP,
    HP,
    LP,
}

/// 16-bit register pairs, the index registers and the stack pointer.
#[derive(Clone, Copy, PartialEq, Eq, Structural, Debug)]
pub enum Reg16 {
    AF,
    BC,
    DE,
    HL,
    AFP,
    BCP,
    DEP,
    HLP,
    IX,
    IY,
    SP,
}

/// Anywhere an 8-bit operand could come from or be stored to.
#[derive(Clone, Copy, PartialEq, Eq, Structural, Debug)]
pub enum Location8 {
    /// A register.
    Reg(Reg8),
    /// A byte in memory, addressed by a 16-bit register.
    RegIndirect(Reg16),
    /// A byte in memory, addressed by a literal number.
    ImmediateIndirect(u16),
    /// A literal number carried in the instruction.
    Immediate(u8),
}

/// Anywhere a 16-bit operand could come from or be stored to.
#[derive(Clone, Copy, PartialEq, Eq, Structural, Debug)]
pub enum Location16 {
    /// A 16-bit combined register.
    Reg(Reg16),
    /// A word in memory, addressed by a 16-bit register.
    RegIndirect(Reg16),
    /// A word in memory, addressed by a literal number.
    ImmediateIndirect(u16),
    /// A literal number carried in the instruction.
    Immediate(u16),
}

/// The flag condition attached to jumps, calls and returns.
#[derive(Clone, Copy, PartialEq, Eq, Structural, Debug)]
pub enum JumpConditional {
    Unconditional,
    NonZero,
    Zero,
    NoCarry,
    Carry,
    ParityOdd,
    ParityEven,
    SignPositive,
    SignNegative,
}

/// A single decoded instruction, independent of its operands' current
/// values. Immediate operands embedded in the instruction are carried as
/// `Immediate` locations, never resolved here.
#[derive(Clone, Copy, PartialEq, Eq, Structural, Debug)]
pub enum Op {
    /// ADd including Carry.
    ADC(Location8, Location8),
    /// ADD (8-bit).
    ADD8(Location8, Location8),
    /// INCrement.
    INC(Location8),
    /// SuBtract including borrow.
    SBC(Location8, Location8),
    /// SUBtract (8-bit).
    SUB8(Location8, Location8),
    /// DECrement.
    DEC(Location8),
    /// Bitwise AND against the accumulator.
    AND(Location8),
    /// Bitwise OR against the accumulator.
    OR(Location8),
    /// Bitwise XOR against the accumulator.
    XOR(Location8),
    /// ComPare against the accumulator; only flags change.
    CP(Location8),
    /// One's ComPLement of the accumulator.
    CPL,
    /// NEGation (two's complement) of the accumulator.
    NEG,
    /// Toggle the Carry Flag.
    CCF,
    /// Set the Carry Flag.
    SCF,
    /// No OPeration.
    NOP,
    /// HALT execution.
    HALT,
    /// Decimal adjust of the accumulator.
    DAA,
    /// Rotate Accumulator Left, set carry.
    RLCA,
    /// Rotate Accumulator Left, through carry.
    RLA,
    /// Rotate Accumulator Right, set carry.
    RRCA,
    /// Rotate Accumulator Right, through carry.
    RRA,
    /// Rotate Left, set carry.
    RLC(Location8),
    /// Rotate Left, through carry.
    RL(Location8),
    /// Rotate Right, set carry.
    RRC(Location8),
    /// Rotate Right, through carry.
    RR(Location8),
    /// Shift Left.
    SLA(Location8),
    /// Shift Right.
    SRL(Location8),
    /// Shift Right, preserving the top bit.
    SRA(Location8),
    /// Rotate nibbles Left through the accumulator.
    RLD,
    /// Rotate nibbles Right through the accumulator.
    RRD,
    /// Set the zero flag from one BIT of the operand.
    BIT(u8, Location8),
    /// SET one bit of the operand.
    SET(u8, Location8),
    /// RESet one bit of the operand.
    RES(u8, Location8),
    /// INput a byte from a peripheral port into the first operand; the
    /// second operand names the port.
    IN(Location8, Location8),
    /// OUTput the first operand's byte to a peripheral port; the second
    /// operand names the port.
    OUT(Location8, Location8),
    /// JumP to the given position.
    JP(JumpConditional, Location16),
    /// Jump to the given Relative position.
    JR(JumpConditional, i8),
    /// Decrement register B, then Jump if it is Non-Zero.
    DJNZ(i8),
    /// CALL a subroutine.
    CALL(JumpConditional, u16),
    /// RETurn from a subroutine.
    RET(JumpConditional),
    /// POP a word off the stack.
    POP(Location16),
    /// PUSH a word onto the stack.
    PUSH(Location16),
    /// LoaD (8-bit).
    LD8(Location8, Location8),
    /// LoaD (16-bit).
    LD16(Location16, Location16),
}

} // verus!
