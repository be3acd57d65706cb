use zeerust_web::components::{
    mnemonic, op_text, reg16_name, reg8_name, Opcode, OpcodeProperties, Literal16, Literal8,
    Register16, Register8, RegisterProps, Registers,
};
use zeerust_web::hex::{hex_byte_str, hex_dump, hex_word_str};
use zeerust_web::model::byte_view;
use zeerust_web::ops::{JumpConditional, Location16, Location8, Op, Reg16, Reg8};
use zeerust_web::output::output_text;
use zeerust_web::snapshot::RegisterFile;

fn sample_regs() -> RegisterFile {
    RegisterFile {
        a: 0x01,
        f: 0x06,
        b: 0x02,
        c: 0x03,
        d: 0x04,
        e: 0x05,
        h: 0x07,
        l: 0x08,
        ap: 0x21,
        fp: 0x26,
        bp: 0x22,
        cp: 0x23,
        dp: 0x24,
        ep: 0x25,
        hp: 0x27,
        lp: 0x28,
        pc: 0x0075,
        ix: 0xabba,
        iy: 0x0bb0,
        sp: 0x4000,
    }
}

#[test]
fn hex_bytes_are_zero_padded() {
    assert_eq!(hex_byte_str(0x00), "00");
    assert_eq!(hex_byte_str(0x0a), "0a");
    assert_eq!(hex_byte_str(0x3f), "3f");
    assert_eq!(hex_byte_str(0xff), "ff");
}

#[test]
fn hex_words_are_zero_padded() {
    assert_eq!(hex_word_str(0x0000), "0000");
    assert_eq!(hex_word_str(0x00a4), "00a4");
    assert_eq!(hex_word_str(0x4000), "4000");
    assert_eq!(hex_word_str(0xbeef), "beef");
}

#[test]
fn hex_dump_brackets_and_separates() {
    assert_eq!(hex_dump(&vec![]), "[]");
    assert_eq!(hex_dump(&vec![0x05]), "[5]");
    assert_eq!(hex_dump(&vec![0xff, 0xfe]), "[ff, fe]");
    assert_eq!(hex_dump(&vec![0x00, 0x10, 0x0a]), "[0, 10, a]");
}

#[test]
fn output_falls_back_to_hex_for_invalid_text() {
    assert_eq!(output_text(&vec![]), "");
    assert_eq!(output_text(&b"ZEERUST".to_vec()), "ZEERUST");
    assert_eq!(output_text(&vec![0xff, 0xfe]), "[ff, fe]");
}

#[test]
fn register_names_match_their_variants() {
    assert_eq!(reg8_name(Reg8::A), "A");
    assert_eq!(reg8_name(Reg8::LP), "LP");
    assert_eq!(reg16_name(Reg16::HL), "HL");
    assert_eq!(reg16_name(Reg16::SP), "SP");
}

#[test]
fn opcode_panel_shows_instruction_or_placeholder() {
    assert_eq!(mnemonic(&Op::NOP), "NOP");
    assert_eq!(mnemonic(&Op::LD8(Location8::Reg(Reg8::A), Location8::Immediate(1))), "LD");
    let panel = Opcode::create(OpcodeProperties { opcode: Some(Op::HALT) });
    assert_eq!(panel.view(), "HALT");
    let load = Opcode::create(OpcodeProperties {
        opcode: Some(Op::LD8(Location8::Reg(Reg8::A), Location8::Immediate(0x5a))),
    });
    assert_eq!(load.view(), "LD A, 5a");
    let empty = Opcode::create(OpcodeProperties { opcode: None });
    assert_eq!(empty.view(), "No instruction found");
}

#[test]
fn instruction_text_covers_every_operand_shape() {
    assert_eq!(
        op_text(&Op::ADC(Location8::Reg(Reg8::A), Location8::Immediate(0x01))),
        "ADC A, 01"
    );
    assert_eq!(op_text(&Op::INC(Location8::RegIndirect(Reg16::HL))), "INC (HL)");
    assert_eq!(op_text(&Op::BIT(3, Location8::RegIndirect(Reg16::HL))), "BIT 3, (HL)");
    assert_eq!(op_text(&Op::SET(7, Location8::Reg(Reg8::B))), "SET 7, B");
    assert_eq!(
        op_text(&Op::LD8(Location8::Reg(Reg8::A), Location8::ImmediateIndirect(0x1234))),
        "LD A, (1234)"
    );
    assert_eq!(
        op_text(&Op::LD16(Location16::Reg(Reg16::HL), Location16::Immediate(0x0010))),
        "LD HL, 0010"
    );
    assert_eq!(
        op_text(&Op::JP(JumpConditional::Unconditional, Location16::Immediate(0x0040))),
        "JP 0040"
    );
    assert_eq!(
        op_text(&Op::JP(JumpConditional::Zero, Location16::Immediate(0x0003))),
        "JP Z, 0003"
    );
    assert_eq!(op_text(&Op::JR(JumpConditional::NonZero, -2)), "JR NZ, -2");
    assert_eq!(op_text(&Op::JR(JumpConditional::Unconditional, 100)), "JR 100");
    assert_eq!(op_text(&Op::DJNZ(-128)), "DJNZ -128");
    assert_eq!(op_text(&Op::CALL(JumpConditional::Unconditional, 0x000e)), "CALL 000e");
    assert_eq!(op_text(&Op::RET(JumpConditional::Unconditional)), "RET");
    assert_eq!(op_text(&Op::RET(JumpConditional::Carry)), "RET C");
    assert_eq!(op_text(&Op::PUSH(Location16::Reg(Reg16::BC))), "PUSH BC");
    assert_eq!(op_text(&Op::OUT(Location8::Reg(Reg8::A), Location8::Immediate(0))), "OUT A, 00");
    assert_eq!(op_text(&Op::RLCA), "RLCA");
}

#[test]
fn leaf_components_render_hex_values() {
    let r8 = Register8::create(RegisterProps { label: "A".to_string(), value: 0x3f });
    assert_eq!(r8.view(), "A:3f");
    let r16 = Register16::create(RegisterProps { label: "HL".to_string(), value: 0x00a4 });
    assert_eq!(r16.view(), "HL:00a4");
    assert_eq!(Literal8 { value: 0x07 }.view(), "07");
    assert_eq!(Literal16 { value: 0x1234 }.view(), "1234");
}

#[test]
fn leaf_components_take_changes() {
    let mut r8 = Register8::create(RegisterProps { label: "A".to_string(), value: 0x00 });
    assert!(r8.change(RegisterProps { label: "B".to_string(), value: 0x55 }));
    assert_eq!(r8.view(), "B:55");
    assert!(!r8.update());
    let mut l16 = Literal16 { value: 0 };
    assert!(l16.change(Literal16 { value: 0xfefe }));
    assert_eq!(l16.view(), "fefe");
}

#[test]
fn register_table_rows_pair_the_halves() {
    let table = Registers::create(Registers { registers: sample_regs() });
    let view = table.view();
    assert_eq!(view.rows.len(), 4);
    assert_eq!(view.rows[0].pair.view(), "AF:0601");
    assert_eq!(view.rows[0].left.view(), "A:01");
    assert_eq!(view.rows[0].right.view(), "F:06");
    assert_eq!(view.rows[1].pair.view(), "BC:0302");
    assert_eq!(view.rows[2].pair.view(), "DE:0504");
    assert_eq!(view.rows[3].pair.view(), "HL:0807");
    assert_eq!(view.pc.view(), "PC:0075");
}

#[test]
fn byte_cells_carry_address_text_and_separator() {
    let c = byte_view(0x0009, 0xff);
    assert_eq!(c.addr, "0009");
    assert_eq!(c.text, "ff ");
    assert_eq!(c.sep, "   ");
    assert_eq!(byte_view(0x0013, 0x00).sep, "\n");
    assert_eq!(byte_view(0x0000, 0x00).sep, " ");
    assert_eq!(byte_view(0x0063, 0x00).sep, "\n");
}
