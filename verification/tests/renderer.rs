use zeerust_web::model::{location_view, RenderError, Widget};
use zeerust_web::ops::{Location16, Location8, Reg16, Reg8};
use zeerust_web::snapshot::{MachineSnapshot, RegisterFile, MEMORY_SIZE};
use zeerust_web::util::Location;

fn snapshot_with(regs: RegisterFile, mem: Vec<u8>) -> MachineSnapshot {
    MachineSnapshot { regs, mem, output: vec![] }
}

fn base_regs() -> RegisterFile {
    RegisterFile {
        a: 0x11,
        f: 0x00,
        b: 0x22,
        c: 0x33,
        d: 0x44,
        e: 0x55,
        h: 0x00,
        l: 0x10,
        ap: 0,
        fp: 0,
        bp: 0,
        cp: 0,
        dp: 0,
        ep: 0,
        hp: 0,
        lp: 0,
        pc: 0x0002,
        ix: 0,
        iy: 0,
        sp: 0x4000,
    }
}

fn zeroed_memory() -> Vec<u8> {
    vec![0u8; MEMORY_SIZE]
}

#[test]
fn reg8_resolves_to_register_file_value() {
    let mut mem = zeroed_memory();
    mem[0x1000] = 0x99;
    let s = snapshot_with(base_regs(), mem);
    let widgets = location_view(&s, Location::Loc8(Location8::Reg(Reg8::B))).unwrap();
    assert_eq!(widgets.len(), 1);
    match &widgets[0] {
        Widget::Register8(c) => {
            assert_eq!(c.label, "B");
            assert_eq!(c.value, 0x22);
        }
        other => panic!("expected a register widget, got {:?}", other),
    }
}

#[test]
fn reg8_resolution_ignores_memory_contents() {
    let loc = Location::Loc8(Location8::Reg(Reg8::D));
    let s1 = snapshot_with(base_regs(), zeroed_memory());
    let s2 = snapshot_with(base_regs(), vec![0xabu8; MEMORY_SIZE]);
    assert_eq!(location_view(&s1, loc).unwrap(), location_view(&s2, loc).unwrap());
}

#[test]
fn reg_indirect_reads_register_then_memory() {
    let mut mem = zeroed_memory();
    mem[0x1000] = 0x77;
    let s = snapshot_with(base_regs(), mem);
    // HL pairs little-endian: H holds the low byte, so HL reads 0x1000.
    let widgets = location_view(&s, Location::Loc8(Location8::RegIndirect(Reg16::HL))).unwrap();
    assert_eq!(widgets.len(), 2);
    match (&widgets[0], &widgets[1]) {
        (Widget::Register16(r), Widget::Literal8(b)) => {
            assert_eq!(r.label, "HL");
            assert_eq!(r.value, 0x1000);
            assert_eq!(b.value, 0x77);
        }
        other => panic!("unexpected widgets {:?}", other),
    }
}

#[test]
fn immediate_indirect_reads_memory_at_the_literal() {
    let mut mem = zeroed_memory();
    mem[0x0123] = 0x42;
    let s = snapshot_with(base_regs(), mem);
    let widgets =
        location_view(&s, Location::Loc8(Location8::ImmediateIndirect(0x0123))).unwrap();
    assert_eq!(widgets.len(), 2);
    match (&widgets[0], &widgets[1]) {
        (Widget::Literal16(addr), Widget::Literal8(b)) => {
            assert_eq!(addr.value, 0x0123);
            assert_eq!(b.value, 0x42);
        }
        other => panic!("unexpected widgets {:?}", other),
    }
}

#[test]
fn immediates_resolve_to_themselves() {
    let s = snapshot_with(base_regs(), zeroed_memory());
    let w8 = location_view(&s, Location::Loc8(Location8::Immediate(0x5a))).unwrap();
    match &w8[0] {
        Widget::Literal8(c) => assert_eq!(c.value, 0x5a),
        other => panic!("unexpected widget {:?}", other),
    }
    let w16 = location_view(&s, Location::Loc16(Location16::Immediate(0xbeef))).unwrap();
    match &w16[0] {
        Widget::Literal16(c) => assert_eq!(c.value, 0xbeef),
        other => panic!("unexpected widget {:?}", other),
    }
}

#[test]
fn reg16_resolves_from_the_register_file() {
    let s = snapshot_with(base_regs(), zeroed_memory());
    let widgets = location_view(&s, Location::Loc16(Location16::Reg(Reg16::BC))).unwrap();
    match &widgets[0] {
        Widget::Register16(c) => {
            assert_eq!(c.label, "BC");
            assert_eq!(c.value, 0x3322);
        }
        other => panic!("unexpected widget {:?}", other),
    }
}

#[test]
fn program_counter_resolves_to_pc() {
    let s = snapshot_with(base_regs(), zeroed_memory());
    let widgets = location_view(&s, Location::ProgramCounter).unwrap();
    match &widgets[0] {
        Widget::Register16(c) => {
            assert_eq!(c.label, "PC");
            assert_eq!(c.value, 0x0002);
        }
        other => panic!("unexpected widget {:?}", other),
    }
}

#[test]
fn sixteen_bit_indirect_reads_fail_explicitly() {
    let s = snapshot_with(base_regs(), zeroed_memory());
    assert_eq!(
        location_view(&s, Location::Loc16(Location16::RegIndirect(Reg16::SP))),
        Err(RenderError::NoIndirect16Read)
    );
    assert_eq!(
        location_view(&s, Location::Loc16(Location16::ImmediateIndirect(0x0040))),
        Err(RenderError::ImmediateIndirect16)
    );
}

#[test]
fn out_of_range_addresses_fail_explicitly() {
    let mut regs = base_regs();
    regs.h = 0x00;
    regs.l = 0x40;  // HL pairs little-endian: value 0x4000, beyond memory
    let s = snapshot_with(regs, zeroed_memory());
    assert_eq!(
        location_view(&s, Location::Loc8(Location8::RegIndirect(Reg16::HL))),
        Err(RenderError::AddressOutOfRange)
    );
    assert_eq!(
        location_view(&s, Location::Loc8(Location8::ImmediateIndirect(0x4000))),
        Err(RenderError::AddressOutOfRange)
    );
}
