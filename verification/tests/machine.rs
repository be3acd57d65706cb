use zeerust_web::model::{CPUCommand, Model};
use zeerust_web::ops::{Location8, Op, Reg8};
use zeerust_web::selector::{selection_to_msg, ProgramSelect, SelectView};
use zeerust_web::snapshot::MEMORY_SIZE;

fn example(index: usize) -> Vec<u8> {
    let mut selector = ProgramSelect { disabled: false };
    selector.update(Some(index)).expect("example program exists")
}

#[test]
fn fresh_model_is_at_power_on() {
    let m = Model::create();
    let s = m.machine.snapshot();
    assert_eq!(s.regs.pc, 0);
    assert_eq!(s.regs.a, 0);
    assert_eq!(s.regs.sp, MEMORY_SIZE as u16);
    assert_eq!(s.mem, vec![0u8; MEMORY_SIZE]);
    assert_eq!(s.output, Vec::<u8>::new());
    assert!(!m.loaded);
    assert!(!m.show_memory);
}

#[test]
fn show_memory_roundtrip_leaves_engine_untouched() {
    let mut m = Model::create();
    m.update(CPUCommand::LoadProgram(example(0)));
    m.update(CPUCommand::Step);
    m.update(CPUCommand::Step);
    let before = m.machine.snapshot();
    let loaded_before = m.loaded;
    m.update(CPUCommand::ShowMemory(true));
    m.update(CPUCommand::ShowMemory(false));
    let after = m.machine.snapshot();
    assert_eq!(before.regs, after.regs);
    assert_eq!(before.mem, after.mem);
    assert_eq!(before.output, after.output);
    assert_eq!(m.loaded, loaded_before);
}

#[test]
fn reset_restores_power_on_state() {
    let fresh = Model::create().machine.snapshot();
    let mut m = Model::create();
    m.update(CPUCommand::LoadProgram(example(1)));
    m.update(CPUCommand::Run);
    assert_ne!(m.machine.snapshot().regs, fresh.regs);
    m.update(CPUCommand::Reset);
    let after = m.machine.snapshot();
    assert_eq!(after.regs, fresh.regs);
    assert_eq!(after.mem, fresh.mem);
    assert_eq!(after.output, Vec::<u8>::new());
    assert!(!m.loaded);
}

#[test]
fn loaded_program_decodes_like_its_first_byte() {
    let binary = example(0);
    let mut m = Model::create();
    m.update(CPUCommand::LoadProgram(binary.clone()));
    assert!(m.loaded);

    // The engine loads at address zero and the program counter starts
    // there, so the decoded instruction is the one encoded at byte 0:
    // for this program, LD B, 0.
    let direct = zeerust::cpu::opcodes::opcode([binary[0], binary[1], binary[2], binary[3]]);
    assert_eq!(format!("{:?}", direct.0), "LD8(Reg(B), Immediate(0))");
    assert_eq!(
        m.instruction(),
        Some(Op::LD8(Location8::Reg(Reg8::B), Location8::Immediate(0)))
    );

    // One step later the instruction at the new program counter is the
    // next one in the image.
    m.update(CPUCommand::Step);
    let after_step = m.machine.snapshot();
    let offset = after_step.regs.pc as usize;
    let direct_next = zeerust::cpu::opcodes::opcode([
        binary[offset],
        binary[offset + 1],
        binary[offset + 2],
        binary[offset + 3],
    ]);
    assert_eq!(format!("{:?}", direct_next.0), "INC(Reg(B))");
    assert_eq!(m.instruction(), Some(Op::INC(Location8::Reg(Reg8::B))));
}

#[test]
fn loading_twice_without_reset_is_ignored() {
    let mut m = Model::create();
    m.update(CPUCommand::LoadProgram(example(0)));
    let before = m.machine.snapshot();
    m.update(CPUCommand::LoadProgram(example(1)));
    let after = m.machine.snapshot();
    assert_eq!(before.mem, after.mem);
    assert!(m.loaded);
    m.update(CPUCommand::Reset);
    m.update(CPUCommand::LoadProgram(example(1)));
    assert!(m.loaded);
}

#[test]
fn run_captures_program_output() {
    let mut m = Model::create();
    assert_eq!(m.output(), "");
    m.update(CPUCommand::LoadProgram(example(1)));
    m.update(CPUCommand::Run);
    assert_eq!(m.output(), "ZEERUST");
    assert_eq!(m.machine.snapshot().output, b"ZEERUST".to_vec());
}

#[test]
fn non_text_output_renders_as_hex_dump() {
    // LD A, ff; OUT (0), A; LD A, fe; OUT (0), A; HALT
    let program = vec![0x3e, 0xff, 0xd3, 0x00, 0x3e, 0xfe, 0xd3, 0x00, 0x76];
    let mut m = Model::create();
    m.update(CPUCommand::LoadProgram(program));
    m.update(CPUCommand::Run);
    assert_eq!(m.machine.snapshot().output, vec![0xff, 0xfe]);
    assert_eq!(m.output(), "[ff, fe]");
}

#[test]
fn view_tree_follows_the_model_state() {
    let mut m = Model::create();
    m.update(CPUCommand::LoadProgram(example(3)));
    let v = m.view();
    assert!(v.selector_disabled);
    // countdown begins LD B, 9.
    assert_eq!(v.opcode, "LD B, 09");
    assert_eq!(v.buttons, vec!["Step", "Run", "Reset"]);
    assert!(v.destination.is_some());
    assert!(v.source.is_some());
    assert!(v.memory.cells.is_none());
    assert_eq!(v.memory.button, "Show Memory ");
    assert_eq!(v.registers.rows.len(), 4);
    m.update(CPUCommand::ShowMemory(true));
    let v = m.view();
    assert_eq!(v.memory.button, "Hide Memory");
    let cells = v.memory.cells.expect("memory dump is shown");
    assert_eq!(cells.len(), MEMORY_SIZE);
    // countdown begins LD B, 9: the dump's first cells show it.
    assert_eq!(cells[0].text, "06 ");
    assert_eq!(cells[1].text, "09 ");
    assert_eq!(cells[0].addr, "0000");
}

#[test]
fn selector_lists_placeholder_then_examples() {
    let selector = ProgramSelect { disabled: false };
    let v: SelectView = selector.view();
    assert!(!v.disabled);
    assert_eq!(v.placeholder, "Load a program");
    assert_eq!(v.options.len(), 4);
    assert_eq!(v.options[0].label, "fizzbuzz");
    assert_eq!(v.options[1].label, "hello zeerust");
    assert_eq!(v.options[2].label, "hello world");
    assert_eq!(v.options[3].label, "countdown");
    assert_eq!(v.options[0].value, 2);
}

#[test]
fn selector_update_resolves_only_valid_indices() {
    let mut selector = ProgramSelect { disabled: true };
    assert!(selector.update(None).is_none());
    assert!(selector.update(Some(99)).is_none());
    let bytes = selector.update(Some(0)).expect("first example exists");
    assert!(!bytes.is_empty());
    assert!(bytes.len() <= MEMORY_SIZE);
}

#[test]
fn selector_returns_the_chosen_program_unchanged() {
    let mut selector = ProgramSelect { disabled: false };
    for index in 0..4usize {
        let bytes = selector.update(Some(index)).expect("example exists");
        assert_eq!(bytes, zeerust::examples::EXAMPLES[index].binary.to_vec());
    }
    // fizzbuzz opens with LD B, 0.
    let first = selector.update(Some(0)).expect("example exists");
    assert_eq!(&first[..2], &[0x06, 0x00]);
}

#[test]
fn placeholder_selection_emits_nothing() {
    assert_eq!(selection_to_msg(0), None);
    assert_eq!(selection_to_msg(1), Some(0));
    assert_eq!(selection_to_msg(4), Some(3));
}
