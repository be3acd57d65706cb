use zeerust_web::ops::{JumpConditional, Location16, Location8, Op, Reg16, Reg8};
use zeerust_web::util::{op_dst_src, Location};

fn l8(loc: Location8) -> Option<Location> {
    Some(Location::Loc8(loc))
}

fn l16(loc: Location16) -> Option<Location> {
    Some(Location::Loc16(loc))
}

fn acc() -> Option<Location> {
    l8(Location8::Reg(Reg8::A))
}

#[test]
fn no_operand_ops_decode_to_nothing() {
    for op in [Op::NOP, Op::HALT, Op::DAA, Op::CCF, Op::SCF] {
        assert_eq!(op_dst_src(op), (None, None));
    }
}

#[test]
fn unary_rmw_ops_use_one_location_twice() {
    let loc = Location8::RegIndirect(Reg16::HL);
    for op in [
        Op::INC(loc),
        Op::DEC(loc),
        Op::RLC(loc),
        Op::RL(loc),
        Op::RRC(loc),
        Op::RR(loc),
        Op::SLA(loc),
        Op::SRL(loc),
        Op::SRA(loc),
    ] {
        let (dst, src) = op_dst_src(op);
        assert_eq!(dst, src);
        assert_eq!(dst, l8(loc));
    }
}

#[test]
fn ld8_preserves_both_operands() {
    let dst = Location8::Reg(Reg8::D);
    let src = Location8::Immediate(0x12);
    assert_eq!(op_dst_src(Op::LD8(dst, src)), (l8(dst), l8(src)));
}

#[test]
fn ld16_preserves_both_operands() {
    let dst = Location16::Reg(Reg16::HL);
    let src = Location16::Immediate(0x1234);
    assert_eq!(op_dst_src(Op::LD16(dst, src)), (l16(dst), l16(src)));
}

#[test]
fn push_and_pop_are_stack_symmetric() {
    let loc = Location16::Reg(Reg16::BC);
    let (push_dst, push_src) = op_dst_src(Op::PUSH(loc));
    let (pop_dst, pop_src) = op_dst_src(Op::POP(loc));
    assert_eq!(push_dst, pop_src);
    assert_eq!(push_src, pop_dst);
    assert_eq!(push_dst, l16(Location16::RegIndirect(Reg16::SP)));
    assert_eq!(pop_dst, l16(loc));
}

#[test]
fn two_operand_arithmetic_names_both_sides() {
    let dst = Location8::Reg(Reg8::B);
    let src = Location8::Immediate(7);
    for op in [Op::ADC(dst, src), Op::ADD8(dst, src), Op::SBC(dst, src), Op::SUB8(dst, src)] {
        assert_eq!(op_dst_src(op), (l8(dst), l8(src)));
    }
}

#[test]
fn accumulator_ops_pin_the_accumulator() {
    let src = Location8::Reg(Reg8::C);
    for op in [Op::AND(src), Op::OR(src), Op::XOR(src)] {
        assert_eq!(op_dst_src(op), (acc(), l8(src)));
    }
    for op in [Op::CPL, Op::NEG, Op::RLCA, Op::RLA, Op::RRCA, Op::RRA] {
        assert_eq!(op_dst_src(op), (acc(), acc()));
    }
    assert_eq!(
        op_dst_src(Op::RLD),
        (acc(), l8(Location8::RegIndirect(Reg16::HL)))
    );
}

#[test]
fn compare_and_bit_test_have_no_destination() {
    let loc = Location8::Reg(Reg8::E);
    assert_eq!(op_dst_src(Op::CP(loc)), (None, l8(loc)));
    assert_eq!(op_dst_src(Op::BIT(3, loc)), (None, l8(loc)));
}

#[test]
fn bit_set_and_reset_have_no_source() {
    let loc = Location8::RegIndirect(Reg16::HL);
    assert_eq!(op_dst_src(Op::SET(1, loc)), (l8(loc), None));
    assert_eq!(op_dst_src(Op::RES(6, loc)), (l8(loc), None));
}

#[test]
fn port_io_names_the_register_operand_only() {
    let port = Location8::Immediate(0);
    let reg = Location8::Reg(Reg8::A);
    assert_eq!(op_dst_src(Op::IN(reg, port)), (l8(reg), None));
    assert_eq!(op_dst_src(Op::OUT(reg, port)), (None, l8(reg)));
}

#[test]
fn control_transfer_decodes() {
    let target = Location16::Immediate(0x0040);
    assert_eq!(
        op_dst_src(Op::JP(JumpConditional::Unconditional, target)),
        (None, l16(target))
    );
    assert_eq!(op_dst_src(Op::JR(JumpConditional::Zero, -2)), (None, None));
    assert_eq!(
        op_dst_src(Op::DJNZ(-4)),
        (l8(Location8::Reg(Reg8::B)), l8(Location8::Reg(Reg8::B)))
    );
    assert_eq!(
        op_dst_src(Op::CALL(JumpConditional::Unconditional, 0x0040)),
        (
            Some(Location::ProgramCounter),
            l16(Location16::Immediate(0x0040))
        )
    );
    assert_eq!(
        op_dst_src(Op::RET(JumpConditional::Carry)),
        (
            Some(Location::ProgramCounter),
            l16(Location16::RegIndirect(Reg16::SP))
        )
    );
}
