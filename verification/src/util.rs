//! The operand decode table: a pure mapping from a decoded instruction to
//! the abstract locations it writes to and reads from. It drives operand
//! display and highlighting, and never consults engine state.

use vstd::prelude::*;

use crate::ops::{Location16, Location8, Op, Reg16, Reg8};

verus! {

/// An abstract operand location: where a value lives, independent of its
/// current contents.
#[derive(Clone, Copy, PartialEq, Eq, Structural, Debug)]
pub enum Location {
    /// An 8-bit location.
    Loc8(Location8),
    /// A 16-bit location.
    Loc16(Location16),
    /// The program counter register.
    ProgramCounter,
}

/// Some 8-bit location.
pub open spec fn sl8(loc: Location8) -> Option<Location> {
    Some(Location::Loc8(loc))
}

/// Some 16-bit location.
pub open spec fn sl16(loc: Location16) -> Option<Location> {
    Some(Location::Loc16(loc))
}

/// Some 16-bit immediate location.
pub open spec fn im16(loc: u16) -> Option<Location> {
    Some(Location::Loc16(Location16::Immediate(loc)))
}

/// The accumulator, as a location.
pub open spec fn acc() -> Option<Location> {
    sl8(Location8::Reg(Reg8::A))
}

/// Register B, as a location.
pub open spec fn reg_b() -> Option<Location> {
    sl8(Location8::Reg(Reg8::B))
}

/// The byte addressed by HL, as a location.
pub open spec fn reg_hl() -> Option<Location> {
    sl8(Location8::RegIndirect(Reg16::HL))
}

/// The word addressed by the stack pointer, as a location.
pub open spec fn reg_sp() -> Option<Location> {
    sl16(Location16::RegIndirect(Reg16::SP))
}

/// The locations written to and read from by the given operation: the
/// mathematical form of the decode table. Total over the instruction set;
/// flag-only and unmapped instructions give `(None, None)`.
pub open spec fn dst_src_of(op: Op) -> (Option<Location>, Option<Location>) {
    match op {
        Op::ADC(dst, src) => (sl8(dst), sl8(src)),
        Op::ADD8(dst, src) => (sl8(dst), sl8(src)),
        Op::INC(loc) => (sl8(loc), sl8(loc)),

        Op::SBC(dst, src) => (sl8(dst), sl8(src)),
        Op::SUB8(dst, src) => (sl8(dst), sl8(src)),
        Op::DEC(loc) => (sl8(loc), sl8(loc)),

        Op::AND(loc) => (acc(), sl8(loc)),
        Op::OR(loc) => (acc(), sl8(loc)),
        Op::XOR(loc) => (acc(), sl8(loc)),
        Op::CP(loc) => (None, sl8(loc)),

        Op::CPL => (acc(), acc()),
        Op::NEG => (acc(), acc()),
        Op::CCF => (None, None),
        Op::SCF => (None, None),

        Op::NOP => (None, None),
        Op::HALT => (None, None),

        Op::DAA => (None, None),

        Op::RLCA | Op::RLA | Op::RRCA | Op::RRA => (acc(), acc()),

        Op::RLC(loc) | Op::RL(loc) | Op::RRC(loc) | Op::RR(loc) => (sl8(loc), sl8(loc)),

        Op::SLA(loc) | Op::SRL(loc) | Op::SRA(loc) => (sl8(loc), sl8(loc)),

        Op::RLD | Op::RRD => (acc(), reg_hl()),

        Op::BIT(_, loc) => (None, sl8(loc)),
        Op::SET(_, loc) | Op::RES(_, loc) => (sl8(loc), None),

        Op::IN(loc, _port) => (sl8(loc), None),
        Op::OUT(loc, _port) => (None, sl8(loc)),

        Op::JP(_, loc) => (None, sl16(loc)),
        Op::JR(_, _) => (None, None),

        Op::DJNZ(_) => (reg_b(), reg_b()),
        Op::CALL(_, loc) => (Some(Location::ProgramCounter), im16(loc)),
        Op::RET(_) => (Some(Location::ProgramCounter), reg_sp()),

        Op::POP(loc) => (sl16(loc), reg_sp()),
        Op::PUSH(loc) => (reg_sp(), sl16(loc)),

        Op::LD8(dst, src) => (sl8(dst), sl8(src)),
        Op::LD16(dst, src) => (sl16(dst), sl16(src)),
    }
}

/// Return the locations written to and read from by the given operation.
pub fn op_dst_src(op: Op) -> (r: (Option<Location>, Option<Location>))
    ensures
        r == dst_src_of(op),
{
    match op {
        Op::ADC(dst, src) => (
            Some(Location::Loc8(dst)),
            Some(Location::Loc8(src)),
        ),
        Op::ADD8(dst, src) => (
            Some(Location::Loc8(dst)),
            Some(Location::Loc8(src)),
        ),
        Op::INC(loc) => (Some(Location::Loc8(loc)), Some(Location::Loc8(loc))),

        Op::SBC(dst, src) => (
            Some(Location::Loc8(dst)),
            Some(Location::Loc8(src)),
        ),
        Op::SUB8(dst, src) => (
            Some(Location::Loc8(dst)),
            Some(Location::Loc8(src)),
        ),
        Op::DEC(loc) => (Some(Location::Loc8(loc)), Some(Location::Loc8(loc))),

        Op::AND(loc) => (
            Some(Location::Loc8(Location8::Reg(Reg8::A))),
            Some(Location::Loc8(loc)),
        ),
        Op::OR(loc) => (
            Some(Location::Loc8(Location8::Reg(Reg8::A))),
            Some(Location::Loc8(loc)),
        ),
        Op::XOR(loc) => (
            Some(Location::Loc8(Location8::Reg(Reg8::A))),
            Some(Location::Loc8(loc)),
        ),
        Op::CP(loc) => (None, Some(Location::Loc8(loc))),

        Op::CPL | Op::NEG => (
            Some(Location::Loc8(Location8::Reg(Reg8::A))),
            Some(Location::Loc8(Location8::Reg(Reg8::A))),
        ),
        Op::CCF | Op::SCF => (None, None),

        Op::NOP | Op::HALT => (None, None),

        Op::DAA => (None, None),

        Op::RLCA | Op::RLA | Op::RRCA | Op::RRA => (
            Some(Location::Loc8(Location8::Reg(Reg8::A))),
            Some(Location::Loc8(Location8::Reg(Reg8::A))),
        ),

        Op::RLC(loc) | Op::RL(loc) | Op::RRC(loc) | Op::RR(loc) => (
            Some(Location::Loc8(loc)),
            Some(Location::Loc8(loc)),
        ),

        Op::SLA(loc) | Op::SRL(loc) | Op::SRA(loc) => (
            Some(Location::Loc8(loc)),
            Some(Location::Loc8(loc)),
        ),

        Op::RLD | Op::RRD => (
            Some(Location::Loc8(Location8::Reg(Reg8::A))),
            Some(Location::Loc8(Location8::RegIndirect(Reg16::HL))),
        ),

        Op::BIT(_, loc) => (None, Some(Location::Loc8(loc))),
        Op::SET(_, loc) | Op::RES(_, loc) => (Some(Location::Loc8(loc)), None),

        Op::IN(loc, _port) => (Some(Location::Loc8(loc)), None),
        Op::OUT(loc, _port) => (None, Some(Location::Loc8(loc))),

        Op::JP(_, loc) => (None, Some(Location::Loc16(loc))),
        Op::JR(_, _) => (None, None),

        Op::DJNZ(_) => (
            Some(Location::Loc8(Location8::Reg(Reg8::B))),
            Some(Location::Loc8(Location8::Reg(Reg8::B))),
        ),
        Op::CALL(_, loc) => (
            Some(Location::ProgramCounter),
            Some(Location::Loc16(Location16::Immediate(loc))),
        ),
        Op::RET(_) => (
            Some(Location::ProgramCounter),
            Some(Location::Loc16(Location16::RegIndirect(Reg16::SP))),
        ),

        Op::POP(loc) => (
            Some(Location::Loc16(loc)),
            Some(Location::Loc16(Location16::RegIndirect(Reg16::SP))),
        ),
        Op::PUSH(loc) => (
            Some(Location::Loc16(Location16::RegIndirect(Reg16::SP))),
            Some(Location::Loc16(loc)),
        ),

        Op::LD8(dst, src) => (
            Some(Location::Loc8(dst)),
            Some(Location::Loc8(src)),
        ),
        Op::LD16(dst, src) => (
            Some(Location::Loc16(dst)),
            Some(Location::Loc16(src)),
        ),
    }
}

/// Instructions with no operands decode to no locations at all.
pub proof fn lemma_no_operand_decode(op: Op)
    requires
        op == Op::NOP || op == Op::HALT || op == Op::DAA || op == Op::CCF || op == Op::SCF,
    ensures
        dst_src_of(op) == (None::<Location>, None::<Location>),
{
}

/// Read-modify-write unary operations name the same location as both
/// destination and source: the operand is read and written in place.
pub proof fn lemma_unary_rmw_same_location(op: Op, loc: Location8)
    requires
        op == Op::INC(loc) || op == Op::DEC(loc) || op == Op::RLC(loc) || op == Op::RL(loc)
            || op == Op::RRC(loc) || op == Op::RR(loc) || op == Op::SLA(loc)
            || op == Op::SRL(loc) || op == Op::SRA(loc),
    ensures
        dst_src_of(op).0 == dst_src_of(op).1,
        dst_src_of(op).0 == Some(Location::Loc8(loc)),
{
}

/// An 8-bit load decodes to exactly its two named locations, unchanged.
pub proof fn lemma_ld8_preserves_operands(dst: Location8, src: Location8)
    ensures
        dst_src_of(Op::LD8(dst, src)) == (
            Some(Location::Loc8(dst)),
            Some(Location::Loc8(src)),
        ),
{
}

/// PUSH and POP decode to mirrored pairs: PUSH writes the word addressed
/// by the stack pointer and reads the named pair, POP the other way round.
pub proof fn lemma_push_pop_symmetric(loc: Location16)
    ensures
        dst_src_of(Op::PUSH(loc)).0 == dst_src_of(Op::POP(loc)).1,
        dst_src_of(Op::PUSH(loc)).1 == dst_src_of(Op::POP(loc)).0,
        dst_src_of(Op::PUSH(loc)).0 == Some(Location::Loc16(Location16::RegIndirect(Reg16::SP))),
        dst_src_of(Op::POP(loc)).0 == Some(Location::Loc16(loc)),
{
}

} // verus!
