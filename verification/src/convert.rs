//! Conversion of the engine's decoded instructions into the monitor's
//! own representation. Each converter moves one family of variants
//! across, field for field; the engine's types are opaque here, so the
//! converters are trusted, and everything downstream of them is not.

use vstd::prelude::*;

use zeerust::ops::JumpConditional as ZJumpConditional;
use zeerust::ops::Location16 as ZLocation16;
use zeerust::ops::Location8 as ZLocation8;
use zeerust::ops::Op as ZOp;
use zeerust::ops::Reg16 as ZReg16;
use zeerust::ops::Reg8 as ZReg8;

use crate::ops::{JumpConditional, Location16, Location8, Op, Reg16, Reg8};

verus! {

/// The engine's 8-bit register names, one for one.
#[verifier::external_body]
fn reg8_from(r: &ZReg8) -> Reg8 {
    match r {
        ZReg8::A => Reg8::A, ZReg8::F => Reg8::F,
        ZReg8::B => Reg8::B, ZReg8::C => Reg8::C,
        ZReg8::D => Reg8::D, ZReg8::E => Reg8::E,
        ZReg8::H => Reg8::H, ZReg8::L => Reg8::L,
        ZReg8::AP => Reg8::AP, ZReg8::FP => Reg8::FP,
        ZReg8::BP => Reg8::BP, ZReg8::CP => Reg8::CP,
        ZReg8::DP => Reg8::DP, ZReg8::EP => Reg8::EP,
        ZReg8::HP => Reg8::HP, ZReg8::LP => Reg8::LP,
    }
}

/// The engine's 16-bit register names, one for one.
#[verifier::external_body]
fn reg16_from(r: &ZReg16) -> Reg16 {
    match r {
        ZReg16::AF => Reg16::AF, ZReg16::BC => Reg16::BC,
        ZReg16::DE => Reg16::DE, ZReg16::HL => Reg16::HL,
        ZReg16::AFP => Reg16::AFP, ZReg16::BCP => Reg16::BCP,
        ZReg16::DEP => Reg16::DEP, ZReg16::HLP => Reg16::HLP,
        ZReg16::IX => Reg16::IX, ZReg16::IY => Reg16::IY,
        ZReg16::SP => Reg16::SP,
    }
}

/// The engine's jump conditions, one for one.
#[verifier::external_body]
fn cond_from(c: &ZJumpConditional) -> JumpConditional {
    match c {
        ZJumpConditional::Unconditional => JumpConditional::Unconditional,
        ZJumpConditional::NonZero => JumpConditional::NonZero,
        ZJumpConditional::Zero => JumpConditional::Zero,
        ZJumpConditional::NoCarry => JumpConditional::NoCarry,
        ZJumpConditional::Carry => JumpConditional::Carry,
        ZJumpConditional::ParityOdd => JumpConditional::ParityOdd,
        ZJumpConditional::ParityEven => JumpConditional::ParityEven,
        ZJumpConditional::SignPositive => JumpConditional::SignPositive,
        ZJumpConditional::SignNegative => JumpConditional::SignNegative,
    }
}

/// The engine's 8-bit operand locations, one for one.
#[verifier::external_body]
fn loc8_from(l: &ZLocation8) -> Location8 {
    match l {
        ZLocation8::Reg(r) => Location8::Reg(reg8_from(r)),
        ZLocation8::RegIndirect(rr) => Location8::RegIndirect(reg16_from(rr)),
        ZLocation8::ImmediateIndirect(a) => Location8::ImmediateIndirect(*a),
        ZLocation8::Immediate(v) => Location8::Immediate(*v),
    }
}

/// The engine's 16-bit operand locations, one for one.
#[verifier::external_body]
fn loc16_from(l: &ZLocation16) -> Location16 {
    match l {
        ZLocation16::Reg(r) => Location16::Reg(reg16_from(r)),
        ZLocation16::RegIndirect(rr) => Location16::RegIndirect(reg16_from(rr)),
        ZLocation16::ImmediateIndirect(a) => Location16::ImmediateIndirect(*a),
        ZLocation16::Immediate(v) => Location16::Immediate(*v),
    }
}

/// The engine's two-operand arithmetic variants.
#[verifier::external_body]
fn conv_arith2(op: &ZOp) -> Option<Op> {
    match op {
        ZOp::ADC(d, s) => Some(Op::ADC(loc8_from(d), loc8_from(s))),
        ZOp::ADD8(d, s) => Some(Op::ADD8(loc8_from(d), loc8_from(s))),
        ZOp::SBC(d, s) => Some(Op::SBC(loc8_from(d), loc8_from(s))),
        ZOp::SUB8(d, s) => Some(Op::SUB8(loc8_from(d), loc8_from(s))),
        _ => None,
    }
}

/// The engine's one-operand arithmetic and logic variants.
#[verifier::external_body]
fn conv_arith1(op: &ZOp) -> Option<Op> {
    match op {
        ZOp::INC(l) => Some(Op::INC(loc8_from(l))),
        ZOp::DEC(l) => Some(Op::DEC(loc8_from(l))),
        ZOp::AND(l) => Some(Op::AND(loc8_from(l))),
        ZOp::OR(l) => Some(Op::OR(loc8_from(l))),
        ZOp::XOR(l) => Some(Op::XOR(loc8_from(l))),
        ZOp::CP(l) => Some(Op::CP(loc8_from(l))),
        _ => None,
    }
}

/// The engine's operand-free variants.
#[verifier::external_body]
fn conv_noarg(op: &ZOp) -> Option<Op> {
    match op {
        ZOp::CPL => Some(Op::CPL), ZOp::NEG => Some(Op::NEG),
        ZOp::CCF => Some(Op::CCF), ZOp::SCF => Some(Op::SCF),
        ZOp::NOP => Some(Op::NOP), ZOp::HALT => Some(Op::HALT),
        ZOp::DAA => Some(Op::DAA), ZOp::RLCA => Some(Op::RLCA),
        ZOp::RLA => Some(Op::RLA), ZOp::RRCA => Some(Op::RRCA),
        ZOp::RRA => Some(Op::RRA), ZOp::RLD => Some(Op::RLD),
        ZOp::RRD => Some(Op::RRD),
        _ => None,
    }
}

/// The engine's rotate and shift variants with an operand.
#[verifier::external_body]
fn conv_rotate(op: &ZOp) -> Option<Op> {
    match op {
        ZOp::RLC(l) => Some(Op::RLC(loc8_from(l))),
        ZOp::RL(l) => Some(Op::RL(loc8_from(l))),
        ZOp::RRC(l) => Some(Op::RRC(loc8_from(l))),
        ZOp::RR(l) => Some(Op::RR(loc8_from(l))),
        ZOp::SLA(l) => Some(Op::SLA(loc8_from(l))),
        ZOp::SRL(l) => Some(Op::SRL(loc8_from(l))),
        ZOp::SRA(l) => Some(Op::SRA(loc8_from(l))),
        _ => None,
    }
}

/// The engine's bit-test and port variants.
#[verifier::external_body]
fn conv_bits_io(op: &ZOp) -> Option<Op> {
    match op {
        ZOp::BIT(b, l) => Some(Op::BIT(*b, loc8_from(l))),
        ZOp::SET(b, l) => Some(Op::SET(*b, loc8_from(l))),
        ZOp::RES(b, l) => Some(Op::RES(*b, loc8_from(l))),
        ZOp::IN(a, b) => Some(Op::IN(loc8_from(a), loc8_from(b))),
        ZOp::OUT(a, b) => Some(Op::OUT(loc8_from(a), loc8_from(b))),
        _ => None,
    }
}

/// The engine's control-transfer variants.
#[verifier::external_body]
fn conv_jump(op: &ZOp) -> Option<Op> {
    match op {
        ZOp::JP(c, l) => Some(Op::JP(cond_from(c), loc16_from(l))),
        ZOp::JR(c, e) => Some(Op::JR(cond_from(c), *e)),
        ZOp::DJNZ(e) => Some(Op::DJNZ(*e)),
        ZOp::CALL(c, a) => Some(Op::CALL(cond_from(c), *a)),
        ZOp::RET(c) => Some(Op::RET(cond_from(c))),
        _ => None,
    }
}

/// The engine's stack and load variants.
#[verifier::external_body]
fn conv_stack_load(op: &ZOp) -> Option<Op> {
    match op {
        ZOp::POP(l) => Some(Op::POP(loc16_from(l))),
        ZOp::PUSH(l) => Some(Op::PUSH(loc16_from(l))),
        ZOp::LD8(d, s) => Some(Op::LD8(loc8_from(d), loc8_from(s))),
        ZOp::LD16(d, s) => Some(Op::LD16(loc16_from(d), loc16_from(s))),
        _ => None,
    }
}

/// An engine instruction as the monitor's own data. The family
/// converters together cover every variant the engine produces.
pub(crate) fn instr_from(op: &ZOp) -> Option<Op> {
    if let Some(i) = conv_arith2(op) {
        return Some(i);
    }
    if let Some(i) = conv_arith1(op) {
        return Some(i);
    }
    if let Some(i) = conv_noarg(op) {
        return Some(i);
    }
    if let Some(i) = conv_rotate(op) {
        return Some(i);
    }
    if let Some(i) = conv_bits_io(op) {
        return Some(i);
    }
    if let Some(i) = conv_jump(op) {
        return Some(i);
    }
    conv_stack_load(op)
}

} // verus!
