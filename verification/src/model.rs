//! The view-model: one machine, two UI flags, a reducer that applies
//! commands, and a pure derivation of the full render tree from the
//! current state.

use vstd::prelude::*;

use zeerust::z80::io::BufOutput;
use zeerust::z80::Z80;

use crate::components::{
    row_matches, spec_no_instruction, spec_op_text, spec_reg16_name, spec_reg8_name, reg16_name,
    reg8_name, Literal16, Literal8, Opcode, OpcodeProperties, Register16, Register8, Registers,
    RegistersView,
};
use crate::engine::{
    attach_output, decode_instruction, engine_load, engine_memory, engine_memory_copy, engine_pc,
    engine_reg16, engine_reg8, engine_registers, engine_run, engine_step, fresh_engine,
    fresh_output, output_bytes, spec_decoded,
};
use crate::hex::{hex_byte_str, hex_word_str, spec_hex2, spec_hex4};
use crate::ops::{Location8, Location16, Op, Reg16, Reg8};
use crate::output::{output_text, spec_output_text};
use crate::snapshot::{
    power_on_memory, power_on_registers, MachineSnapshot, RegisterFile, MEMORY_SIZE,
};
use crate::util::{dst_src_of, op_dst_src, Location};

verus! {

/// One CPU engine together with the capture buffer attached to its
/// output port. All engine state is owned here and written only by the
/// reducer.
#[verifier::ext_equal]
pub struct Machine {
    pub z80: Z80,
    pub output: BufOutput,
}

impl Machine {
    /// A fresh machine: a power-on engine with a capture buffer attached
    /// to output port zero.
    pub fn new() -> (m: Machine)
        ensures
            engine_registers(m.z80) == power_on_registers(),
            engine_memory(m.z80) == power_on_memory(),
    {
        let mut z80 = fresh_engine();
        let output = fresh_output();
        attach_output(&mut z80, 0, &output);
        Machine { z80, output }
    }

    /// A read-only snapshot of the machine for one render cycle: the
    /// register file, all of memory, and whatever the capture buffer
    /// holds at this moment.
    pub fn snapshot(&self) -> (s: MachineSnapshot)
        ensures
            s.regs == engine_registers(self.z80),
            s.mem@ == engine_memory(self.z80),
    {
        let regs = RegisterFile {
            a: engine_reg8(&self.z80, Reg8::A),
            f: engine_reg8(&self.z80, Reg8::F),
            b: engine_reg8(&self.z80, Reg8::B),
            c: engine_reg8(&self.z80, Reg8::C),
            d: engine_reg8(&self.z80, Reg8::D),
            e: engine_reg8(&self.z80, Reg8::E),
            h: engine_reg8(&self.z80, Reg8::H),
            l: engine_reg8(&self.z80, Reg8::L),
            ap: engine_reg8(&self.z80, Reg8::AP),
            fp: engine_reg8(&self.z80, Reg8::FP),
            bp: engine_reg8(&self.z80, Reg8::BP),
            cp: engine_reg8(&self.z80, Reg8::CP),
            dp: engine_reg8(&self.z80, Reg8::DP),
            ep: engine_reg8(&self.z80, Reg8::EP),
            hp: engine_reg8(&self.z80, Reg8::HP),
            lp: engine_reg8(&self.z80, Reg8::LP),
            pc: engine_pc(&self.z80),
            ix: engine_reg16(&self.z80, Reg16::IX),
            iy: engine_reg16(&self.z80, Reg16::IY),
            sp: engine_reg16(&self.z80, Reg16::SP),
        };
        proof {
            assert(regs =~= engine_registers(self.z80));
        }
        let mem = engine_memory_copy(&self.z80);
        let output = output_bytes(&self.output);
        MachineSnapshot { regs, mem, output }
    }
}

/// The commands through which the view-model is mutated: the single
/// channel from the UI into the machine and the flags.
#[derive(Clone, PartialEq, Eq, Debug)]
pub enum CPUCommand {
    /// Execute exactly one instruction.
    Step,
    /// Execute until the engine halts.
    Run,
    /// Discard the machine for a fresh one.
    Reset,
    /// Show or hide the memory panel.
    ShowMemory(bool),
    /// Install a program image at the engine's load address.
    LoadProgram(Vec<u8>),
}

/// The top-level state: the machine plus the UI-only flags.
#[verifier::ext_equal]
pub struct Model {
    pub machine: Machine,
    pub show_memory: bool,
    pub loaded: bool,
}

/// ShowMemory only sets the panel flag: the machine — engine and
/// capture buffer alike — and the loaded flag are untouched.
pub open spec fn steps_show_memory(pre: Model, b: bool, post: Model) -> bool {
    &&& post.machine == pre.machine
    &&& post.show_memory == b
    &&& post.loaded == pre.loaded
}

/// Reset discards the machine for a freshly constructed one — registers
/// and memory back at their power-on values — and forgets the loaded
/// flag; the panel flag is kept.
pub open spec fn steps_reset(pre: Model, post: Model) -> bool {
    &&& engine_registers(post.machine.z80) == power_on_registers()
    &&& engine_memory(post.machine.z80) == power_on_memory()
    &&& !post.loaded
    &&& post.show_memory == pre.show_memory
}

/// LoadProgram installs the bytes over the bottom of memory and marks
/// the model loaded — once: while a program is loaded, or when the bytes
/// cannot fit into memory, the command changes nothing.
pub open spec fn steps_load(pre: Model, program: Seq<u8>, post: Model) -> bool {
    if !pre.loaded && program.len() <= MEMORY_SIZE {
        &&& engine_memory(post.machine.z80) == program + engine_memory(pre.machine.z80).skip(
            program.len() as int,
        )
        &&& engine_registers(post.machine.z80) == engine_registers(pre.machine.z80)
        &&& post.machine.output == pre.machine.output
        &&& post.loaded
        &&& post.show_memory == pre.show_memory
    } else {
        post == pre
    }
}

/// Step and Run leave both UI flags and the capture-buffer attachment
/// alone; what they do to the engine is the engine's own semantics. At a
/// program counter beyond memory there is no instruction to execute, so
/// nothing at all changes.
pub open spec fn steps_engine(pre: Model, post: Model) -> bool {
    &&& post.show_memory == pre.show_memory
    &&& post.loaded == pre.loaded
    &&& post.machine.output == pre.machine.output
    &&& (engine_registers(pre.machine.z80).pc as int >= MEMORY_SIZE as int ==> post == pre)
}

impl Model {
    /// The engine's memory buffer always keeps its full size.
    pub open spec fn wf(self) -> bool {
        engine_memory(self.machine.z80).len() == MEMORY_SIZE
    }

    /// A fresh view-model: a power-on machine, the memory panel hidden,
    /// nothing loaded.
    pub fn create() -> (m: Model)
        ensures
            engine_registers(m.machine.z80) == power_on_registers(),
            engine_memory(m.machine.z80) == power_on_memory(),
            !m.show_memory,
            !m.loaded,
            m.wf(),
    {
        Model { machine: Machine::new(), show_memory: false, loaded: false }
    }

    /// Apply one command. Every command is processed to completion and
    /// asks for a full re-render.
    ///
    /// A Step or Run at a program counter beyond memory does nothing:
    /// there is no instruction there to execute. What an executed
    /// instruction does — including a failure on an encoding or an
    /// operation the engine does not implement, and a Run that never
    /// halts — is the engine's own behaviour, which the monitor only
    /// surfaces. A program loads at most once between resets.
    pub fn update(&mut self, msg: CPUCommand) -> (rerender: bool)
        requires
            old(self).wf(),
        ensures
            rerender,
            final(self).wf(),
            (match msg {
                CPUCommand::Step => steps_engine(*old(self), *final(self)),
                CPUCommand::Run => steps_engine(*old(self), *final(self)),
                CPUCommand::Reset => steps_reset(*old(self), *final(self)),
                CPUCommand::ShowMemory(b) => steps_show_memory(*old(self), b, *final(self)),
                CPUCommand::LoadProgram(program) => steps_load(
                    *old(self),
                    program@,
                    *final(self),
                ),
            }),
    {
        match msg {
            CPUCommand::Step => {
                let pc = engine_pc(&self.machine.z80);
                if (pc as usize) < MEMORY_SIZE {
                    engine_step(&mut self.machine.z80);
                }
            },
            CPUCommand::Run => {
                let pc = engine_pc(&self.machine.z80);
                if (pc as usize) < MEMORY_SIZE {
                    engine_run(&mut self.machine.z80);
                }
            },
            CPUCommand::ShowMemory(b) => {
                self.show_memory = b;
            },
            CPUCommand::LoadProgram(program) => {
                if !self.loaded && program.len() <= MEMORY_SIZE {
                    engine_load(&mut self.machine.z80, &program);
                    self.loaded = true;
                }
            },
            CPUCommand::Reset => {
                self.machine = Machine::new();
                self.loaded = false;
            },
        }
        true
    }

    /// The instruction decoded at the current program counter: exactly
    /// the decode of the machine's memory there, as the monitor's own
    /// data, and nothing beyond the end of memory. An encoding the
    /// engine does not implement fails inside the engine, as its
    /// documentation says; the monitor only surfaces that.
    pub fn instruction(&self) -> (r: Option<Op>)
        ensures
            r == spec_decoded(
                engine_memory(self.machine.z80),
                engine_registers(self.machine.z80).pc as int,
            ),
            engine_registers(self.machine.z80).pc as int >= MEMORY_SIZE as int ==> r is None,
    {
        let pc = engine_pc(&self.machine.z80);
        decode_instruction(&self.machine.z80, pc as usize)
    }

    /// The captured output as the output panel shows it: text when the
    /// bytes decode, a hex dump otherwise.
    pub fn output(&self) -> (s: String)
        ensures
            exists|bytes: Seq<u8>| s@ == spec_output_text(bytes),
    {
        let out = output_bytes(&self.machine.output);
        let s = output_text(&out);
        proof {
            assert(s@ == spec_output_text(out@));
        }
        s
    }

    /// The memory dump: one cell for every byte of engine memory.
    pub fn memory_view(&self) -> (cells: Vec<ByteCell>)
        requires
            self.wf(),
        ensures
            cells@.len() == MEMORY_SIZE,
            forall|i: int|
                0 <= i < MEMORY_SIZE ==> cell_matches(
                    #[trigger] cells@[i],
                    i,
                    engine_memory(self.machine.z80)[i],
                ),
    {
        let mem = engine_memory_copy(&self.machine.z80);
        memory_cells(&mem)
    }

    /// The memory panel: its toggle button, and the dump exactly when
    /// the panel is shown.
    pub fn memory_ui(&self) -> (ui: MemoryUi)
        requires
            self.wf(),
        ensures
            memory_panel_matches(
                engine_memory(self.machine.z80),
                self.show_memory,
                ui,
            ),
    {
        if self.show_memory {
            MemoryUi {
                button: String::from_str("Hide Memory"),
                cells: Some(self.memory_view()),
            }
        } else {
            MemoryUi { button: String::from_str("Show Memory "), cells: None }
        }
    }

    /// Derive the whole render tree from the current state. The
    /// instruction panel and the operand panels follow the decode of the
    /// machine's memory at the program counter; only the snapshot itself
    /// stays existential, because the capture buffer is shared with the
    /// engine and its contents cannot be pinned to a value.
    pub fn view(&self) -> (v: ViewTree)
        requires
            self.wf(),
        ensures
            exists|s: MachineSnapshot|
                s.regs == engine_registers(self.machine.z80) && s.mem@ == engine_memory(
                    self.machine.z80,
                ) && #[trigger] view_matches(
                    s,
                    spec_decoded(
                        engine_memory(self.machine.z80),
                        engine_registers(self.machine.z80).pc as int,
                    ),
                    self.show_memory,
                    self.loaded,
                    v,
                ),
    {
        let snap = self.machine.snapshot();
        let instr = self.instruction();
        let v = derive_view(&snap, instr, self.show_memory, self.loaded);
        proof {
            assert(view_matches(snap, instr, self.show_memory, self.loaded, v));
        }
        v
    }
}

/// One rendered cell of the memory dump: its address, its byte as two
/// hex digits with a trailing space, and the separator that follows it.
#[derive(Clone, PartialEq, Eq, Debug)]
pub struct ByteCell {
    pub addr: String,
    pub text: String,
    pub sep: String,
}

/// The separator after a dump cell: a line break every twenty bytes, a
/// wide gap every ten, a space otherwise.
pub open spec fn spec_sep(index: int) -> Seq<char> {
    if (index + 1) % 20 == 0 {
        "\n"@
    } else if (index + 1) % 10 == 0 {
        "   "@
    } else {
        " "@
    }
}

/// A dump cell shows the address, the byte and the separator for the
/// given position.
pub open spec fn cell_matches(cell: ByteCell, index: int, byte: u8) -> bool {
    &&& cell.addr@ == spec_hex4(index as u16)
    &&& cell.text@ == spec_hex2(byte) + " "@
    &&& cell.sep@ == spec_sep(index)
}

/// Render one byte of the memory dump.
pub fn byte_view(index: usize, byte: u8) -> (c: ByteCell)
    requires
        index < 65536,
    ensures
        cell_matches(c, index as int, byte),
{
    let addr = hex_word_str(index as u16);
    let mut text = hex_byte_str(byte);
    text.append(" ");
    let sep = if (index + 1) % 20 == 0 {
        "\n"
    } else if (index + 1) % 10 == 0 {
        "   "
    } else {
        " "
    };
    ByteCell { addr, text, sep: String::from_str(sep) }
}

/// Render a whole memory buffer, one cell per byte.
pub fn memory_cells(mem: &Vec<u8>) -> (cells: Vec<ByteCell>)
    requires
        mem@.len() <= 65536,
    ensures
        cells@.len() == mem@.len(),
        forall|i: int| 0 <= i < mem@.len() ==> cell_matches(#[trigger] cells@[i], i, mem@[i]),
{
    let mut cells: Vec<ByteCell> = Vec::new();
    let mut i: usize = 0;
    while i < mem.len()
        invariant
            mem@.len() <= 65536,
            i <= mem@.len(),
            cells@.len() == i,
            forall|j: int| 0 <= j < i ==> cell_matches(#[trigger] cells@[j], j, mem@[j]),
        decreases mem@.len() - i,
    {
        cells.push(byte_view(i, mem[i]));
        i = i + 1;
    }
    cells
}

/// The memory panel: its toggle button, and the dump when it is shown.
#[derive(Clone, PartialEq, Eq, Debug)]
pub struct MemoryUi {
    pub button: String,
    pub cells: Option<Vec<ByteCell>>,
}

/// The memory panel offers to hide a shown dump and to show a hidden
/// one, and carries the dump exactly when it is shown.
pub open spec fn memory_panel_matches(mem: Seq<u8>, show_memory: bool, ui: MemoryUi) -> bool {
    if show_memory {
        &&& ui.button@ == "Hide Memory"@
        &&& ui.cells matches Some(cells) && cells@.len() == mem.len() && (forall|i: int|
            0 <= i < mem.len() ==> cell_matches(#[trigger] cells@[i], i, mem[i]))
    } else {
        &&& ui.button@ == "Show Memory "@
        &&& ui.cells is None
    }
}

/// What one resolved operand location displays as.
#[derive(Clone, PartialEq, Eq, Debug)]
pub enum Widget {
    Register8(Register8),
    Register16(Register16),
    Literal8(Literal8),
    Literal16(Literal16),
}

/// Why a location cannot be resolved for display. Resolution gaps fail
/// explicitly and visibly, never by showing a substitute value.
#[derive(Clone, Copy, PartialEq, Eq, Structural, Debug)]
pub enum RenderError {
    /// No 16-bit indirect read is defined.
    NoIndirect16Read,
    /// A 16-bit immediate-indirect operand is intentionally unhandled.
    ImmediateIndirect16,
    /// The resolved address lies beyond the memory buffer.
    AddressOutOfRange,
}

/// The widget shows the named 8-bit register with the given value.
pub open spec fn widget_is_reg8(w: Widget, r: Reg8, v: u8) -> bool {
    w matches Widget::Register8(c) && c.label@ == spec_reg8_name(r) && c.value == v
}

/// The widget shows the named 16-bit register with the given value.
pub open spec fn widget_is_reg16(w: Widget, r: Reg16, v: u16) -> bool {
    w matches Widget::Register16(c) && c.label@ == spec_reg16_name(r) && c.value == v
}

/// The widget shows the program counter with the given value.
pub open spec fn widget_is_pc(w: Widget, v: u16) -> bool {
    w matches Widget::Register16(c) && c.label@ == "PC"@ && c.value == v
}

/// The widget shows the given literal byte.
pub open spec fn widget_is_lit8(w: Widget, v: u8) -> bool {
    w matches Widget::Literal8(c) && c.value == v
}

/// The widget shows the given literal word.
pub open spec fn widget_is_lit16(w: Widget, v: u16) -> bool {
    w matches Widget::Literal16(c) && c.value == v
}

/// What resolving a location against a snapshot must display: registers
/// read the register file, indirects read the register then memory,
/// immediates show the literal itself, and the unsupported 16-bit reads
/// fail with their own errors.
pub open spec fn resolves_to(
    s: MachineSnapshot,
    loc: Location,
    r: Result<Vec<Widget>, RenderError>,
) -> bool {
    match loc {
        Location::Loc8(Location8::Reg(reg)) => r matches Ok(ws) && ws@.len() == 1
            && widget_is_reg8(ws@[0], reg, s.regs.spec_reg8(reg)),
        Location::Loc8(Location8::RegIndirect(rr)) => {
            let addr = s.regs.spec_reg16(rr);
            if addr < s.mem@.len() {
                r matches Ok(ws) && ws@.len() == 2 && widget_is_reg16(ws@[0], rr, addr)
                    && widget_is_lit8(ws@[1], s.mem@[addr as int])
            } else {
                r matches Err(e) && e == RenderError::AddressOutOfRange
            }
        },
        Location::Loc8(Location8::ImmediateIndirect(a)) => {
            if a < s.mem@.len() {
                r matches Ok(ws) && ws@.len() == 2 && widget_is_lit16(ws@[0], a)
                    && widget_is_lit8(ws@[1], s.mem@[a as int])
            } else {
                r matches Err(e) && e == RenderError::AddressOutOfRange
            }
        },
        Location::Loc8(Location8::Immediate(v)) => r matches Ok(ws) && ws@.len() == 1
            && widget_is_lit8(ws@[0], v),
        Location::Loc16(Location16::Reg(rr)) => r matches Ok(ws) && ws@.len() == 1
            && widget_is_reg16(ws@[0], rr, s.regs.spec_reg16(rr)),
        Location::Loc16(Location16::RegIndirect(_)) => r matches Err(e) && e
            == RenderError::NoIndirect16Read,
        Location::Loc16(Location16::ImmediateIndirect(_)) => r matches Err(e) && e
            == RenderError::ImmediateIndirect16,
        Location::Loc16(Location16::Immediate(v)) => r matches Ok(ws) && ws@.len() == 1
            && widget_is_lit16(ws@[0], v),
        Location::ProgramCounter => r matches Ok(ws) && ws@.len() == 1 && widget_is_pc(
            ws@[0],
            s.regs.pc,
        ),
    }
}

/// Resolve an abstract location against a snapshot into the widgets
/// that display it. The snapshot is only read. Location kinds without a
/// defined read fail explicitly rather than guessing a value.
pub fn location_view(s: &MachineSnapshot, loc: Location) -> (r: Result<Vec<Widget>, RenderError>)
    ensures
        resolves_to(*s, loc, r),
{
    match loc {
        Location::Loc8(Location8::Reg(reg)) => {
            let mut ws: Vec<Widget> = Vec::new();
            ws.push(
                Widget::Register8(
                    Register8 {
                        label: String::from_str(reg8_name(reg)),
                        value: s.regs.get_reg8(reg),
                    },
                ),
            );
            Ok(ws)
        },
        Location::Loc8(Location8::RegIndirect(rr)) => {
            let addr = s.regs.get_reg16(rr);
            if (addr as usize) < s.mem.len() {
                let mut ws: Vec<Widget> = Vec::new();
                ws.push(
                    Widget::Register16(
                        Register16 { label: String::from_str(reg16_name(rr)), value: addr },
                    ),
                );
                ws.push(Widget::Literal8(Literal8 { value: s.mem[addr as usize] }));
                Ok(ws)
            } else {
                Err(RenderError::AddressOutOfRange)
            }
        },
        Location::Loc8(Location8::ImmediateIndirect(a)) => {
            if (a as usize) < s.mem.len() {
                let mut ws: Vec<Widget> = Vec::new();
                ws.push(Widget::Literal16(Literal16 { value: a }));
                ws.push(Widget::Literal8(Literal8 { value: s.mem[a as usize] }));
                Ok(ws)
            } else {
                Err(RenderError::AddressOutOfRange)
            }
        },
        Location::Loc8(Location8::Immediate(v)) => {
            let mut ws: Vec<Widget> = Vec::new();
            ws.push(Widget::Literal8(Literal8 { value: v }));
            Ok(ws)
        },
        Location::Loc16(Location16::Reg(rr)) => {
            let mut ws: Vec<Widget> = Vec::new();
            ws.push(
                Widget::Register16(
                    Register16 {
                        label: String::from_str(reg16_name(rr)),
                        value: s.regs.get_reg16(rr),
                    },
                ),
            );
            Ok(ws)
        },
        Location::Loc16(Location16::RegIndirect(_)) => Err(RenderError::NoIndirect16Read),
        Location::Loc16(Location16::ImmediateIndirect(_)) => Err(
            RenderError::ImmediateIndirect16,
        ),
        Location::Loc16(Location16::Immediate(v)) => {
            let mut ws: Vec<Widget> = Vec::new();
            ws.push(Widget::Literal16(Literal16 { value: v }));
            Ok(ws)
        },
        Location::ProgramCounter => {
            let mut ws: Vec<Widget> = Vec::new();
            ws.push(
                Widget::Register16(
                    Register16 { label: String::from_str("PC"), value: s.regs.get_pc() },
                ),
            );
            Ok(ws)
        },
    }
}

/// The whole rendered monitor for one cycle.
pub struct ViewTree {
    pub output: String,
    pub opcode: String,
    pub buttons: Vec<String>,
    pub destination: Option<Result<Vec<Widget>, RenderError>>,
    pub source: Option<Result<Vec<Widget>, RenderError>>,
    pub registers: RegistersView,
    pub selector_disabled: bool,
    pub memory: MemoryUi,
}

/// The render tree a snapshot, a decoded instruction and the UI flags
/// must produce: the output panel's text, the instruction panel, the
/// resolved destination and source operands, the register table, the
/// selector's disabled state and the memory panel.
pub open spec fn view_matches(
    s: MachineSnapshot,
    instr: Option<Op>,
    show_memory: bool,
    loaded: bool,
    v: ViewTree,
) -> bool {
    let ds = (match instr {
        Some(op) => dst_src_of(op),
        None => (None, None),
    });
    &&& v.output@ == spec_output_text(s.output@)
    &&& (match instr {
        Some(op) => v.opcode@ == spec_op_text(op),
        None => v.opcode@ == spec_no_instruction(),
    })
    &&& v.buttons@.len() == 3
    &&& v.buttons@[0]@ == "Step"@
    &&& v.buttons@[1]@ == "Run"@
    &&& v.buttons@[2]@ == "Reset"@
    &&& (match ds.0 {
        Some(loc) => v.destination matches Some(r) && resolves_to(s, loc, r),
        None => v.destination is None,
    })
    &&& (match ds.1 {
        Some(loc) => v.source matches Some(r) && resolves_to(s, loc, r),
        None => v.source is None,
    })
    &&& v.registers.rows@.len() == 4
    &&& row_matches(v.registers.rows@[0], s.regs, Reg8::A, Reg8::F, Reg16::AF)
    &&& row_matches(v.registers.rows@[1], s.regs, Reg8::B, Reg8::C, Reg16::BC)
    &&& row_matches(v.registers.rows@[2], s.regs, Reg8::D, Reg8::E, Reg16::DE)
    &&& row_matches(v.registers.rows@[3], s.regs, Reg8::H, Reg8::L, Reg16::HL)
    &&& v.registers.pc.label@ == "PC"@
    &&& v.registers.pc.value == s.regs.pc
    &&& v.selector_disabled == loaded
    &&& memory_panel_matches(s.mem@, show_memory, v.memory)
}

/// Derive the render tree from a snapshot, the decoded instruction and
/// the UI flags: the pure heart of the render cycle.
pub fn derive_view(
    s: &MachineSnapshot,
    instr: Option<Op>,
    show_memory: bool,
    loaded: bool,
) -> (v: ViewTree)
    requires
        s.mem@.len() <= 65536,
    ensures
        view_matches(*s, instr, show_memory, loaded, v),
{
    let output = output_text(&s.output);
    let opcode_panel = Opcode::create(OpcodeProperties { opcode: instr });
    let opcode = opcode_panel.view();
    let mut buttons: Vec<String> = Vec::new();
    buttons.push(String::from_str("Step"));
    buttons.push(String::from_str("Run"));
    buttons.push(String::from_str("Reset"));
    let (dst, src) = match &instr {
        Some(op) => op_dst_src(*op),
        None => (None, None),
    };
    let destination = match dst {
        Some(loc) => Some(location_view(s, loc)),
        None => None,
    };
    let source = match src {
        Some(loc) => Some(location_view(s, loc)),
        None => None,
    };
    let table = Registers::create(Registers { registers: s.regs });
    let registers = table.view();
    let memory = if show_memory {
        MemoryUi { button: String::from_str("Hide Memory"), cells: Some(memory_cells(&s.mem)) }
    } else {
        MemoryUi { button: String::from_str("Show Memory "), cells: None }
    };
    ViewTree {
        output,
        opcode,
        buttons,
        destination,
        source,
        registers,
        selector_disabled: loaded,
        memory,
    }
}

/// Setting the memory panel flag and setting it back leaves the machine
/// — engine state and capture buffer alike — exactly what it was, and
/// the loaded flag with it: the two commands are UI-only.
pub proof fn lemma_show_memory_roundtrip(m0: Model, m1: Model, m2: Model, b1: bool, b2: bool)
    requires
        steps_show_memory(m0, b1, m1),
        steps_show_memory(m1, b2, m2),
    ensures
        m2.machine == m0.machine,
        m2.loaded == m0.loaded,
        b2 == m0.show_memory ==> m2 =~= m0,
{
}

/// Setting the memory panel flag is idempotent: setting it to the same
/// value a second time changes nothing at all.
pub proof fn lemma_show_memory_idempotent(m0: Model, m1: Model, m2: Model, b: bool)
    requires
        steps_show_memory(m0, b, m1),
        steps_show_memory(m1, b, m2),
    ensures
        m2 =~= m1,
{
}

/// Reset restores the power-on state whatever sequence of commands came
/// before: registers and memory at their power-on values, and nothing
/// loaded.
pub proof fn lemma_reset_restores_power_on(pre: Model, post: Model)
    requires
        steps_reset(pre, post),
    ensures
        engine_registers(post.machine.z80) == power_on_registers(),
        engine_memory(post.machine.z80) == power_on_memory(),
        !post.loaded,
{
}

/// After a reset, loading a program leaves the program counter at the
/// base load address — power-on zero — and the instruction the monitor
/// decodes there is the decode of the loaded image itself, laid over the
/// zeroed power-on memory.
pub proof fn lemma_load_then_decode(pre: Model, program: Seq<u8>, post: Model)
    requires
        engine_registers(pre.machine.z80) == power_on_registers(),
        engine_memory(pre.machine.z80) == power_on_memory(),
        !pre.loaded,
        program.len() <= MEMORY_SIZE,
        steps_load(pre, program, post),
    ensures
        engine_registers(post.machine.z80).pc == 0,
        spec_decoded(engine_memory(post.machine.z80), 0) == spec_decoded(
            program + power_on_memory().skip(program.len() as int),
            0,
        ),
{
}

/// Resolving a register location reads exactly the register-file value
/// of that register.
pub proof fn lemma_reg8_resolution(
    s: MachineSnapshot,
    reg: Reg8,
    r: Result<Vec<Widget>, RenderError>,
)
    requires
        resolves_to(s, Location::Loc8(Location8::Reg(reg)), r),
    ensures
        r matches Ok(ws) && ws@.len() == 1 && widget_is_reg8(ws@[0], reg, s.regs.spec_reg8(reg)),
{
}

/// Resolving a register location is independent of memory contents: a
/// snapshot with the same register file and any other memory resolves
/// it the same way.
pub proof fn lemma_reg8_resolution_ignores_memory(
    s1: MachineSnapshot,
    s2: MachineSnapshot,
    reg: Reg8,
    r: Result<Vec<Widget>, RenderError>,
)
    requires
        s1.regs == s2.regs,
        resolves_to(s1, Location::Loc8(Location8::Reg(reg)), r),
    ensures
        resolves_to(s2, Location::Loc8(Location8::Reg(reg)), r),
{
}

} // verus!
