//! The display components: each renders one register, one literal value,
//! one decoded instruction or the register table, from nothing but the
//! values passed in. The component lifecycle mirrors a host runtime's
//! create / change / update shape, and `view` produces the displayed text.

use vstd::prelude::*;

use crate::hex::{
    hex_byte_str, hex_digit_seq, hex_digit_str, hex_word_str, min_hex_str, spec_hex2, spec_hex4,
    spec_min_hex,
};
use crate::ops::{JumpConditional, Location16, Location8, Op, Reg16, Reg8};
use crate::snapshot::RegisterFile;

verus! {

/// The display name of an 8-bit register.
pub open spec fn spec_reg8_name(r: Reg8) -> Seq<char> {
    match r {
        Reg8::A => "A"@,
        Reg8::F => "F"@,
        Reg8::B => "B"@,
        Reg8::C => "C"@,
        Reg8::D => "D"@,
        Reg8::E => "E"@,
        Reg8::H => "H"@,
        Reg8::L => "L"@,
        Reg8::AP => "AP"@,
        Reg8::FP => "FP"@,
        Reg8::BP => "BP"@,
        Reg8::CP => "CP"@,
        Reg8::DP => "DP"@,
        Reg8::EP => "EP"@,
        Reg8::HP => "HP"@,
        Reg8::LP => "LP"@,
    }
}

/// The display name of a 16-bit register.
pub open spec fn spec_reg16_name(r: Reg16) -> Seq<char> {
    match r {
        Reg16::AF => "AF"@,
        Reg16::BC => "BC"@,
        Reg16::DE => "DE"@,
        Reg16::HL => "HL"@,
        Reg16::AFP => "AFP"@,
        Reg16::BCP => "BCP"@,
        Reg16::DEP => "DEP"@,
        Reg16::HLP => "HLP"@,
        Reg16::IX => "IX"@,
        Reg16::IY => "IY"@,
        Reg16::SP => "SP"@,
    }
}

/// The display name of an 8-bit register.
pub fn reg8_name(r: Reg8) -> (s: &'static str)
    ensures
        s@ == spec_reg8_name(r),
{
    match r {
        Reg8::A => "A",
        Reg8::F => "F",
        Reg8::B => "B",
        Reg8::C => "C",
        Reg8::D => "D",
        Reg8::E => "E",
        Reg8::H => "H",
        Reg8::L => "L",
        Reg8::AP => "AP",
        Reg8::FP => "FP",
        Reg8::BP => "BP",
        Reg8::CP => "CP",
        Reg8::DP => "DP",
        Reg8::EP => "EP",
        Reg8::HP => "HP",
        Reg8::LP => "LP",
    }
}

/// The display name of a 16-bit register.
pub fn reg16_name(r: Reg16) -> (s: &'static str)
    ensures
        s@ == spec_reg16_name(r),
{
    match r {
        Reg16::AF => "AF",
        Reg16::BC => "BC",
        Reg16::DE => "DE",
        Reg16::HL => "HL",
        Reg16::AFP => "AFP",
        Reg16::BCP => "BCP",
        Reg16::DEP => "DEP",
        Reg16::HLP => "HLP",
        Reg16::IX => "IX",
        Reg16::IY => "IY",
        Reg16::SP => "SP",
    }
}

/// The mnemonic of a decoded instruction.
pub open spec fn spec_mnemonic(op: Op) -> Seq<char> {
    match op {
        Op::ADC(_, _) => "ADC"@,
        Op::ADD8(_, _) => "ADD"@,
        Op::INC(_) => "INC"@,
        Op::SBC(_, _) => "SBC"@,
        Op::SUB8(_, _) => "SUB"@,
        Op::DEC(_) => "DEC"@,
        Op::AND(_) => "AND"@,
        Op::OR(_) => "OR"@,
        Op::XOR(_) => "XOR"@,
        Op::CP(_) => "CP"@,
        Op::CPL => "CPL"@,
        Op::NEG => "NEG"@,
        Op::CCF => "CCF"@,
        Op::SCF => "SCF"@,
        Op::NOP => "NOP"@,
        Op::HALT => "HALT"@,
        Op::DAA => "DAA"@,
        Op::RLCA => "RLCA"@,
        Op::RLA => "RLA"@,
        Op::RRCA => "RRCA"@,
        Op::RRA => "RRA"@,
        Op::RLC(_) => "RLC"@,
        Op::RL(_) => "RL"@,
        Op::RRC(_) => "RRC"@,
        Op::RR(_) => "RR"@,
        Op::SLA(_) => "SLA"@,
        Op::SRL(_) => "SRL"@,
        Op::SRA(_) => "SRA"@,
        Op::RLD => "RLD"@,
        Op::RRD => "RRD"@,
        Op::BIT(_, _) => "BIT"@,
        Op::SET(_, _) => "SET"@,
        Op::RES(_, _) => "RES"@,
        Op::IN(_, _) => "IN"@,
        Op::OUT(_, _) => "OUT"@,
        Op::JP(_, _) => "JP"@,
        Op::JR(_, _) => "JR"@,
        Op::DJNZ(_) => "DJNZ"@,
        Op::CALL(_, _) => "CALL"@,
        Op::RET(_) => "RET"@,
        Op::POP(_) => "POP"@,
        Op::PUSH(_) => "PUSH"@,
        Op::LD8(_, _) => "LD"@,
        Op::LD16(_, _) => "LD"@,
    }
}

/// The mnemonic of a decoded instruction.
pub fn mnemonic(op: &Op) -> (s: &'static str)
    ensures
        s@ == spec_mnemonic(*op),
{
    match op {
        Op::ADC(_, _) => "ADC",
        Op::ADD8(_, _) => "ADD",
        Op::INC(_) => "INC",
        Op::SBC(_, _) => "SBC",
        Op::SUB8(_, _) => "SUB",
        Op::DEC(_) => "DEC",
        Op::AND(_) => "AND",
        Op::OR(_) => "OR",
        Op::XOR(_) => "XOR",
        Op::CP(_) => "CP",
        Op::CPL => "CPL",
        Op::NEG => "NEG",
        Op::CCF => "CCF",
        Op::SCF => "SCF",
        Op::NOP => "NOP",
        Op::HALT => "HALT",
        Op::DAA => "DAA",
        Op::RLCA => "RLCA",
        Op::RLA => "RLA",
        Op::RRCA => "RRCA",
        Op::RRA => "RRA",
        Op::RLC(_) => "RLC",
        Op::RL(_) => "RL",
        Op::RRC(_) => "RRC",
        Op::RR(_) => "RR",
        Op::SLA(_) => "SLA",
        Op::SRL(_) => "SRL",
        Op::SRA(_) => "SRA",
        Op::RLD => "RLD",
        Op::RRD => "RRD",
        Op::BIT(_, _) => "BIT",
        Op::SET(_, _) => "SET",
        Op::RES(_, _) => "RES",
        Op::IN(_, _) => "IN",
        Op::OUT(_, _) => "OUT",
        Op::JP(_, _) => "JP",
        Op::JR(_, _) => "JR",
        Op::DJNZ(_) => "DJNZ",
        Op::CALL(_, _) => "CALL",
        Op::RET(_) => "RET",
        Op::POP(_) => "POP",
        Op::PUSH(_) => "PUSH",
        Op::LD8(_, _) => "LD",
        Op::LD16(_, _) => "LD",
    }
}

/// The operand part of the instruction text, with its leading space;
/// empty for operand-free instructions.
pub open spec fn spec_operands_text(op: Op) -> Seq<char> {
    match op {
        Op::ADC(d, s) | Op::ADD8(d, s) | Op::SBC(d, s) | Op::SUB8(d, s) | Op::LD8(d, s) => " "@
            + spec_loc8_text(d) + ", "@ + spec_loc8_text(s),
        Op::INC(l) | Op::DEC(l) | Op::AND(l) | Op::OR(l) | Op::XOR(l) | Op::CP(l) | Op::RLC(l)
            | Op::RL(l) | Op::RRC(l) | Op::RR(l) | Op::SLA(l) | Op::SRL(l) | Op::SRA(l) => " "@
            + spec_loc8_text(l),
        Op::CPL | Op::NEG | Op::CCF | Op::SCF | Op::NOP | Op::HALT | Op::DAA | Op::RLCA
            | Op::RLA | Op::RRCA | Op::RRA | Op::RLD | Op::RRD => ""@,
        Op::BIT(b, l) | Op::SET(b, l) | Op::RES(b, l) => " "@ + spec_min_hex(b) + ", "@
            + spec_loc8_text(l),
        Op::IN(a, b) | Op::OUT(a, b) => " "@ + spec_loc8_text(a) + ", "@ + spec_loc8_text(b),
        Op::JP(c, l) => spec_with_cond(c, spec_loc16_text(l)),
        Op::JR(c, e) => spec_with_cond(c, spec_offset_text(e as int)),
        Op::DJNZ(e) => " "@ + spec_offset_text(e as int),
        Op::CALL(c, a) => spec_with_cond(c, spec_hex4(a)),
        Op::RET(c) => (if c is Unconditional {
            ""@
        } else {
            " "@ + spec_cond_text(c)
        }),
        Op::POP(l) | Op::PUSH(l) => " "@ + spec_loc16_text(l),
        Op::LD16(d, s) => " "@ + spec_loc16_text(d) + ", "@ + spec_loc16_text(s),
    }
}

/// A target operand behind its jump condition; the unconditional case
/// writes the target alone.
pub open spec fn spec_with_cond(c: JumpConditional, tail: Seq<char>) -> Seq<char> {
    if c is Unconditional {
        " "@ + tail
    } else {
        " "@ + spec_cond_text(c) + ", "@ + tail
    }
}

/// The instruction in assembler style: its mnemonic, then its operands.
pub open spec fn spec_op_text(op: Op) -> Seq<char> {
    spec_mnemonic(op) + spec_operands_text(op)
}

/// An 8-bit operand location in assembler style: a register by name, an
/// indirect read in parentheses, an immediate as two hex digits.
pub open spec fn spec_loc8_text(l: Location8) -> Seq<char> {
    match l {
        Location8::Reg(r) => spec_reg8_name(r),
        Location8::RegIndirect(rr) => "("@ + spec_reg16_name(rr) + ")"@,
        Location8::ImmediateIndirect(a) => "("@ + spec_hex4(a) + ")"@,
        Location8::Immediate(v) => spec_hex2(v),
    }
}

/// A 16-bit operand location in assembler style.
pub open spec fn spec_loc16_text(l: Location16) -> Seq<char> {
    match l {
        Location16::Reg(rr) => spec_reg16_name(rr),
        Location16::RegIndirect(rr) => "("@ + spec_reg16_name(rr) + ")"@,
        Location16::ImmediateIndirect(a) => "("@ + spec_hex4(a) + ")"@,
        Location16::Immediate(v) => spec_hex4(v),
    }
}

/// A jump condition as its assembler condition code; the unconditional
/// case writes nothing.
pub open spec fn spec_cond_text(c: JumpConditional) -> Seq<char> {
    match c {
        JumpConditional::Unconditional => ""@,
        JumpConditional::NonZero => "NZ"@,
        JumpConditional::Zero => "Z"@,
        JumpConditional::NoCarry => "NC"@,
        JumpConditional::Carry => "C"@,
        JumpConditional::ParityOdd => "PO"@,
        JumpConditional::ParityEven => "PE"@,
        JumpConditional::SignPositive => "P"@,
        JumpConditional::SignNegative => "M"@,
    }
}

/// A number below 130 in decimal.
pub open spec fn spec_dec_small(n: int) -> Seq<char> {
    if n < 10 {
        hex_digit_seq(n)
    } else if n < 100 {
        hex_digit_seq(n / 10) + hex_digit_seq(n % 10)
    } else {
        hex_digit_seq(n / 100) + hex_digit_seq((n / 10) % 10) + hex_digit_seq(n % 10)
    }
}

/// A relative-jump offset in signed decimal.
pub open spec fn spec_offset_text(e: int) -> Seq<char> {
    if e < 0 {
        "-"@ + spec_dec_small(-e)
    } else {
        spec_dec_small(e)
    }
}

/// An 8-bit operand location in assembler style.
pub fn loc8_text(l: Location8) -> (s: String)
    ensures
        s@ == spec_loc8_text(l),
{
    match l {
        Location8::Reg(r) => String::from_str(reg8_name(r)),
        Location8::RegIndirect(rr) => {
            let mut s = String::from_str("(");
            s.append(reg16_name(rr));
            s.append(")");
            proof {
                assert(s@ =~= spec_loc8_text(l));
            }
            s
        },
        Location8::ImmediateIndirect(a) => {
            let mut s = String::from_str("(");
            let digits = hex_word_str(a);
            s.append(digits.as_str());
            s.append(")");
            proof {
                assert(s@ =~= spec_loc8_text(l));
            }
            s
        },
        Location8::Immediate(v) => hex_byte_str(v),
    }
}

/// A 16-bit operand location in assembler style.
pub fn loc16_text(l: Location16) -> (s: String)
    ensures
        s@ == spec_loc16_text(l),
{
    match l {
        Location16::Reg(rr) => String::from_str(reg16_name(rr)),
        Location16::RegIndirect(rr) => {
            let mut s = String::from_str("(");
            s.append(reg16_name(rr));
            s.append(")");
            proof {
                assert(s@ =~= spec_loc16_text(l));
            }
            s
        },
        Location16::ImmediateIndirect(a) => {
            let mut s = String::from_str("(");
            let digits = hex_word_str(a);
            s.append(digits.as_str());
            s.append(")");
            proof {
                assert(s@ =~= spec_loc16_text(l));
            }
            s
        },
        Location16::Immediate(v) => hex_word_str(v),
    }
}

/// A jump condition's code; empty for the unconditional case.
pub fn cond_text(c: JumpConditional) -> (s: &'static str)
    ensures
        s@ == spec_cond_text(c),
{
    match c {
        JumpConditional::Unconditional => "",
        JumpConditional::NonZero => "NZ",
        JumpConditional::Zero => "Z",
        JumpConditional::NoCarry => "NC",
        JumpConditional::Carry => "C",
        JumpConditional::ParityOdd => "PO",
        JumpConditional::ParityEven => "PE",
        JumpConditional::SignPositive => "P",
        JumpConditional::SignNegative => "M",
    }
}

/// A relative-jump offset in signed decimal.
pub fn offset_text(e: i8) -> (s: String)
    ensures
        s@ == spec_offset_text(e as int),
{
    let m: u16 = if e < 0 {
        (-(e as i16)) as u16
    } else {
        e as u16
    };
    let digits = if m < 10 {
        String::from_str(hex_digit_str(m as u8))
    } else if m < 100 {
        let mut d = String::from_str(hex_digit_str((m / 10) as u8));
        d.append(hex_digit_str((m % 10) as u8));
        d
    } else {
        let mut d = String::from_str(hex_digit_str((m / 100) as u8));
        d.append(hex_digit_str(((m / 10) % 10) as u8));
        d.append(hex_digit_str((m % 10) as u8));
        d
    };
    proof {
        assert(digits@ =~= spec_dec_small(m as int));
    }
    if e < 0 {
        let mut s = String::from_str("-");
        s.append(digits.as_str());
        s
    } else {
        digits
    }
}

/// A destination-and-source operand pair, 8-bit.
fn pair8_text(d: Location8, src: Location8) -> (s: String)
    ensures
        s@ == " "@ + spec_loc8_text(d) + ", "@ + spec_loc8_text(src),
{
    let mut s = String::from_str(" ");
    let dt = loc8_text(d);
    s.append(dt.as_str());
    s.append(", ");
    let st = loc8_text(src);
    s.append(st.as_str());
    proof {
        assert(s@ =~= " "@ + spec_loc8_text(d) + ", "@ + spec_loc8_text(src));
    }
    s
}

/// A destination-and-source operand pair, 16-bit.
fn pair16_text(d: Location16, src: Location16) -> (s: String)
    ensures
        s@ == " "@ + spec_loc16_text(d) + ", "@ + spec_loc16_text(src),
{
    let mut s = String::from_str(" ");
    let dt = loc16_text(d);
    s.append(dt.as_str());
    s.append(", ");
    let st = loc16_text(src);
    s.append(st.as_str());
    proof {
        assert(s@ =~= " "@ + spec_loc16_text(d) + ", "@ + spec_loc16_text(src));
    }
    s
}

/// A single operand with its leading space, 8-bit.
fn single8_text(l: Location8) -> (s: String)
    ensures
        s@ == " "@ + spec_loc8_text(l),
{
    let mut s = String::from_str(" ");
    let lt = loc8_text(l);
    s.append(lt.as_str());
    s
}

/// A single operand with its leading space, 16-bit.
fn single16_text(l: Location16) -> (s: String)
    ensures
        s@ == " "@ + spec_loc16_text(l),
{
    let mut s = String::from_str(" ");
    let lt = loc16_text(l);
    s.append(lt.as_str());
    s
}

/// A bit number and its operand.
fn bit_operands_text(b: u8, l: Location8) -> (s: String)
    ensures
        s@ == " "@ + spec_min_hex(b) + ", "@ + spec_loc8_text(l),
{
    let mut s = String::from_str(" ");
    let bt = min_hex_str(b);
    s.append(bt.as_str());
    s.append(", ");
    let lt = loc8_text(l);
    s.append(lt.as_str());
    proof {
        assert(s@ =~= " "@ + spec_min_hex(b) + ", "@ + spec_loc8_text(l));
    }
    s
}

/// A target operand behind its jump condition.
fn with_cond_text(c: JumpConditional, tail: String) -> (s: String)
    ensures
        s@ == spec_with_cond(c, tail@),
{
    let mut s = String::from_str(" ");
    if !matches!(c, JumpConditional::Unconditional) {
        s.append(cond_text(c));
        s.append(", ");
    }
    s.append(tail.as_str());
    proof {
        assert(s@ =~= spec_with_cond(c, tail@));
    }
    s
}

/// The operand part of the instruction text.
pub fn operands_text(op: &Op) -> (s: String)
    ensures
        s@ == spec_operands_text(*op),
{
    match op {
        Op::ADC(d, src) | Op::ADD8(d, src) | Op::SBC(d, src) | Op::SUB8(d, src)
            | Op::LD8(d, src) => pair8_text(*d, *src),
        Op::INC(l) | Op::DEC(l) | Op::AND(l) | Op::OR(l) | Op::XOR(l) | Op::CP(l) | Op::RLC(l)
            | Op::RL(l) | Op::RRC(l) | Op::RR(l) | Op::SLA(l) | Op::SRL(l) | Op::SRA(l) => {
            single8_text(*l)
        },
        Op::CPL | Op::NEG | Op::CCF | Op::SCF | Op::NOP | Op::HALT | Op::DAA | Op::RLCA
            | Op::RLA | Op::RRCA | Op::RRA | Op::RLD | Op::RRD => {
            let s = String::new();
            proof {
                reveal_strlit("");
                assert(s@ =~= ""@);
            }
            s
        },
        Op::BIT(b, l) | Op::SET(b, l) | Op::RES(b, l) => bit_operands_text(*b, *l),
        Op::IN(a, b) | Op::OUT(a, b) => pair8_text(*a, *b),
        Op::JP(c, l) => with_cond_text(*c, loc16_text(*l)),
        Op::JR(c, e) => with_cond_text(*c, offset_text(*e)),
        Op::DJNZ(e) => {
            let mut s = String::from_str(" ");
            let et = offset_text(*e);
            s.append(et.as_str());
            s
        },
        Op::CALL(c, a) => with_cond_text(*c, hex_word_str(*a)),
        Op::RET(c) => {
            if matches!(c, JumpConditional::Unconditional) {
                let s = String::new();
                proof {
                    reveal_strlit("");
                    assert(s@ =~= ""@);
                }
                s
            } else {
                let mut s = String::from_str(" ");
                s.append(cond_text(*c));
                s
            }
        },
        Op::POP(l) | Op::PUSH(l) => single16_text(*l),
        Op::LD16(d, src) => pair16_text(*d, *src),
    }
}

/// The instruction in assembler style: its mnemonic, then its operands.
pub fn op_text(op: &Op) -> (s: String)
    ensures
        s@ == spec_op_text(*op),
{
    let mut s = String::from_str(mnemonic(op));
    let rest = operands_text(op);
    s.append(rest.as_str());
    s
}

/// What the instruction panel shows when no instruction decodes at the
/// program counter.
pub open spec fn spec_no_instruction() -> Seq<char> {
    "No instruction found"@
}

/// Shows the instruction decoded at the program counter.
pub struct Opcode {
    pub opcode: Option<Op>,
}

/// The properties handed to the instruction panel.
#[derive(Clone, Copy, PartialEq, Eq, Structural, Debug)]
pub struct OpcodeProperties {
    pub opcode: Option<Op>,
}

impl Opcode {
    /// Build the panel from its properties.
    pub fn create(props: OpcodeProperties) -> (c: Self)
        ensures
            c.opcode == props.opcode,
    {
        Self { opcode: props.opcode }
    }

    /// Take over new properties; the panel always re-renders.
    pub fn change(&mut self, props: OpcodeProperties) -> (rerender: bool)
        ensures
            final(self).opcode == props.opcode,
            rerender,
    {
        self.opcode = props.opcode;
        true
    }

    /// The panel has no messages of its own; nothing changes.
    pub fn update(&mut self) -> (rerender: bool)
        ensures
            *final(self) == *old(self),
            !rerender,
    {
        false
    }

    /// The displayed text: the instruction in assembler style, or a
    /// placeholder when nothing decoded.
    pub fn view(&self) -> (s: String)
        ensures
            self.opcode is Some ==> s@ == spec_op_text(self.opcode->0),
            self.opcode is None ==> s@ == spec_no_instruction(),
    {
        match &self.opcode {
            Some(op) => op_text(op),
            None => String::from_str("No instruction found"),
        }
    }
}

/// The properties handed to a single-register display.
#[derive(Clone, PartialEq, Eq, Debug)]
pub struct RegisterProps<T> {
    pub label: String,
    pub value: T,
}

/// Shows one 16-bit register: its label and four hex digits.
#[derive(Clone, PartialEq, Eq, Debug)]
pub struct Register16 {
    pub label: String,
    pub value: u16,
}

impl Register16 {
    /// Build the display from its properties.
    pub fn create(props: RegisterProps<u16>) -> (c: Self)
        ensures
            c.label@ == props.label@,
            c.value == props.value,
    {
        Self { label: props.label, value: props.value }
    }

    /// Take over new properties; the display always re-renders.
    pub fn change(&mut self, props: RegisterProps<u16>) -> (rerender: bool)
        ensures
            final(self).label@ == props.label@,
            final(self).value == props.value,
            rerender,
    {
        self.label = props.label;
        self.value = props.value;
        true
    }

    /// The display has no messages of its own; nothing changes.
    pub fn update(&mut self) -> (rerender: bool)
        ensures
            *final(self) == *old(self),
            !rerender,
    {
        false
    }

    /// The displayed text: `label:value`, the value as four hex digits.
    pub fn view(&self) -> (s: String)
        ensures
            s@ == self.label@ + ":"@ + spec_hex4(self.value),
    {
        let mut s = self.label.clone();
        s.append(":");
        let digits = hex_word_str(self.value);
        s.append(digits.as_str());
        s
    }
}

/// Shows one 8-bit register: its label and two hex digits.
#[derive(Clone, PartialEq, Eq, Debug)]
pub struct Register8 {
    pub label: String,
    pub value: u8,
}

impl Register8 {
    /// Build the display from its properties.
    pub fn create(props: RegisterProps<u8>) -> (c: Self)
        ensures
            c.label@ == props.label@,
            c.value == props.value,
    {
        Self { label: props.label, value: props.value }
    }

    /// Take over new properties; the display always re-renders.
    pub fn change(&mut self, props: RegisterProps<u8>) -> (rerender: bool)
        ensures
            final(self).label@ == props.label@,
            final(self).value == props.value,
            rerender,
    {
        self.label = props.label;
        self.value = props.value;
        true
    }

    /// The display has no messages of its own; nothing changes.
    pub fn update(&mut self) -> (rerender: bool)
        ensures
            *final(self) == *old(self),
            !rerender,
    {
        false
    }

    /// The displayed text: `label:value`, the value as two hex digits.
    pub fn view(&self) -> (s: String)
        ensures
            s@ == self.label@ + ":"@ + spec_hex2(self.value),
    {
        let mut s = self.label.clone();
        s.append(":");
        let digits = hex_byte_str(self.value);
        s.append(digits.as_str());
        s
    }
}

/// Shows one literal word as four hex digits.
#[derive(Clone, Copy, PartialEq, Eq, Structural, Debug)]
pub struct Literal16 {
    pub value: u16,
}

impl Literal16 {
    /// Build the display from its properties.
    pub fn create(props: Literal16) -> (c: Self)
        ensures
            c == props,
    {
        props
    }

    /// Take over a new value; the display always re-renders.
    pub fn change(&mut self, props: Literal16) -> (rerender: bool)
        ensures
            final(self).value == props.value,
            rerender,
    {
        self.value = props.value;
        true
    }

    /// The display has no messages of its own; nothing changes.
    pub fn update(&mut self) -> (rerender: bool)
        ensures
            *final(self) == *old(self),
            !rerender,
    {
        false
    }

    /// The displayed text: four hex digits.
    pub fn view(&self) -> (s: String)
        ensures
            s@ == spec_hex4(self.value),
    {
        hex_word_str(self.value)
    }
}

/// Shows one literal byte as two hex digits.
#[derive(Clone, Copy, PartialEq, Eq, Structural, Debug)]
pub struct Literal8 {
    pub value: u8,
}

impl Literal8 {
    /// Build the display from its properties.
    pub fn create(props: Literal8) -> (c: Self)
        ensures
            c == props,
    {
        props
    }

    /// Take over a new value; the display always re-renders.
    pub fn change(&mut self, props: Literal8) -> (rerender: bool)
        ensures
            final(self).value == props.value,
            rerender,
    {
        self.value = props.value;
        true
    }

    /// The display has no messages of its own; nothing changes.
    pub fn update(&mut self) -> (rerender: bool)
        ensures
            *final(self) == *old(self),
            !rerender,
    {
        false
    }

    /// The displayed text: two hex digits.
    pub fn view(&self) -> (s: String)
        ensures
            s@ == spec_hex2(self.value),
    {
        hex_byte_str(self.value)
    }
}

/// One row of the register table: a combined pair above its two halves.
#[derive(Clone, PartialEq, Eq, Debug)]
pub struct RegisterRow {
    pub pair: Register16,
    pub left: Register8,
    pub right: Register8,
}

/// A row shows a pair register and its two 8-bit halves, each labelled
/// with its name and carrying its value from the given register file.
pub open spec fn row_matches(row: RegisterRow, rf: RegisterFile, a: Reg8, b: Reg8, ab: Reg16) -> bool {
    &&& row.pair.label@ == spec_reg16_name(ab)
    &&& row.pair.value == rf.spec_reg16(ab)
    &&& row.left.label@ == spec_reg8_name(a)
    &&& row.left.value == rf.spec_reg8(a)
    &&& row.right.label@ == spec_reg8_name(b)
    &&& row.right.value == rf.spec_reg8(b)
}

/// The rendered register table: the four main pairs and the program
/// counter.
#[derive(Clone, PartialEq, Eq, Debug)]
pub struct RegistersView {
    pub rows: Vec<RegisterRow>,
    pub pc: Register16,
}

/// Shows the whole register file.
#[derive(Clone, Copy, PartialEq, Eq, Structural, Debug)]
pub struct Registers {
    pub registers: RegisterFile,
}

impl Registers {
    /// Build the table from its properties.
    pub fn create(props: Registers) -> (c: Self)
        ensures
            c == props,
    {
        props
    }

    /// Take over a new register file; the table always re-renders.
    pub fn change(&mut self, props: Registers) -> (rerender: bool)
        ensures
            final(self).registers == props.registers,
            rerender,
    {
        self.registers = props.registers;
        true
    }

    /// The table has no messages of its own; nothing changes.
    pub fn update(&mut self) -> (rerender: bool)
        ensures
            *final(self) == *old(self),
            !rerender,
    {
        false
    }

    /// One row: a 16-bit pair with its two 8-bit halves.
    pub fn make_pair(&self, a: Reg8, b: Reg8, ab: Reg16) -> (row: RegisterRow)
        ensures
            row_matches(row, self.registers, a, b, ab),
    {
        RegisterRow {
            pair: Register16 {
                label: String::from_str(reg16_name(ab)),
                value: self.registers.get_reg16(ab),
            },
            left: Register8 {
                label: String::from_str(reg8_name(a)),
                value: self.registers.get_reg8(a),
            },
            right: Register8 {
                label: String::from_str(reg8_name(b)),
                value: self.registers.get_reg8(b),
            },
        }
    }

    /// The rendered table: AF, BC, DE and HL rows, then the program
    /// counter.
    pub fn view(&self) -> (v: RegistersView)
        ensures
            v.rows@.len() == 4,
            row_matches(v.rows@[0], self.registers, Reg8::A, Reg8::F, Reg16::AF),
            row_matches(v.rows@[1], self.registers, Reg8::B, Reg8::C, Reg16::BC),
            row_matches(v.rows@[2], self.registers, Reg8::D, Reg8::E, Reg16::DE),
            row_matches(v.rows@[3], self.registers, Reg8::H, Reg8::L, Reg16::HL),
            v.pc.label@ == "PC"@,
            v.pc.value == self.registers.pc,
    {
        let mut rows: Vec<RegisterRow> = Vec::new();
        rows.push(self.make_pair(Reg8::A, Reg8::F, Reg16::AF));
        rows.push(self.make_pair(Reg8::B, Reg8::C, Reg16::BC));
        rows.push(self.make_pair(Reg8::D, Reg8::E, Reg16::DE));
        rows.push(self.make_pair(Reg8::H, Reg8::L, Reg16::HL));
        let pc = Register16 { label: String::from_str("PC"), value: self.registers.get_pc() };
        RegistersView { rows, pc }
    }
}

} // verus!
