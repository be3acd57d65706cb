//! The trusted boundary around the CPU engine. The engine owns fetch,
//! decode and execute; the monitor reaches it only through the wrappers
//! here, and everything it believes about them is written in their
//! contracts. `engine_registers` and `engine_memory` name the register
//! file and the memory buffer an engine value holds.

use vstd::prelude::*;

use zeerust::ops::JumpConditional as ZJumpConditional;
use zeerust::ops::Location16 as ZLocation16;
use zeerust::ops::Location8 as ZLocation8;
use zeerust::ops::Op as ZOp;
use zeerust::ops::Reg16 as ZReg16;
use zeerust::ops::Reg8 as ZReg8;
use zeerust::z80::io::BufOutput;
use zeerust::z80::Z80;

use crate::convert::instr_from;
use crate::ops::{Op, Reg16, Reg8};
use crate::snapshot::{power_on_memory, power_on_registers, RegisterFile, MEMORY_SIZE};

verus! {

#[verifier::external_type_specification]
#[verifier::external_body]
pub struct ExZ80(Z80);

#[verifier::external_type_specification]
#[verifier::external_body]
pub struct ExBufOutput(BufOutput);

#[verifier::external_type_specification]
#[verifier::external_body]
pub struct ExOp(ZOp);

#[verifier::external_type_specification]
#[verifier::external_body]
pub struct ExLocation8(ZLocation8);

#[verifier::external_type_specification]
#[verifier::external_body]
pub struct ExLocation16(ZLocation16);

#[verifier::external_type_specification]
#[verifier::external_body]
pub struct ExReg8(ZReg8);

#[verifier::external_type_specification]
#[verifier::external_body]
pub struct ExReg16(ZReg16);

#[verifier::external_type_specification]
#[verifier::external_body]
pub struct ExJumpConditional(ZJumpConditional);

/// The register file held by an engine value.
pub uninterp spec fn engine_registers(z: Z80) -> RegisterFile;

/// The memory buffer held by an engine value, all MEMORY_SIZE bytes.
pub uninterp spec fn engine_memory(z: Z80) -> Seq<u8>;

/// The instruction decoded from the given memory bytes at the given
/// address, as the monitor's own data; nothing when the address is
/// outside the bytes. A function of the bytes and the address alone.
pub uninterp spec fn spec_decoded(mem: Seq<u8>, at: int) -> Option<Op>;

/// The bytes of one example program of the registry, constant per index.
pub uninterp spec fn example_bytes_of(i: int) -> Seq<u8>;

/// The registry's program names, in order.
pub open spec fn spec_example_name(i: int) -> Seq<char> {
    if i == 0 {
        "fizzbuzz"@
    } else if i == 1 {
        "hello zeerust"@
    } else if i == 2 {
        "hello world"@
    } else {
        "countdown"@
    }
}

/// How many example programs the engine's registry carries.
pub const EXAMPLE_COUNT: usize = 4;

/// Relies on Z80::default: a fresh engine has zeroed registers and zeroed
/// memory, with the stack pointer at the top of memory.
#[verifier::external_body]
pub(crate) fn fresh_engine() -> (z: Z80)
    ensures
        engine_registers(z) == power_on_registers(),
        engine_memory(z) == power_on_memory(),
{
    Z80::default()
}

/// Relies on BufOutput::default: a fresh capture buffer.
#[verifier::external_body]
pub(crate) fn fresh_output() -> (o: BufOutput) {
    BufOutput::default()
}

/// Relies on Z80::install_output: attaching an output device only touches
/// the engine's device table, never its registers or its memory.
#[verifier::external_body]
pub(crate) fn attach_output(z: &mut Z80, port: u8, o: &BufOutput)
    ensures
        engine_registers(*final(z)) == engine_registers(*old(z)),
        engine_memory(*final(z)) == engine_memory(*old(z)),
{
    z.install_output(port, Box::new(o.clone()));
}

/// Relies on BufOutput::result: a copy of every byte captured so far,
/// oldest first. The buffer is shared with the engine it is attached to,
/// so nothing relates two reads of the same buffer.
#[verifier::external_body]
pub(crate) fn output_bytes(o: &BufOutput) -> (r: Vec<u8>) {
    o.result()
}

/// Relies on Z80::step: execute the one instruction at the program
/// counter. The engine documents a panic when the program counter is
/// beyond its memory; that input is excluded here. What the instruction
/// does to registers, memory and devices is the engine's own semantics,
/// and failures inside the executed instruction (encodings and operations
/// the engine does not implement, stores outside memory, ports with no
/// device) remain the engine's responsibility, so nothing is claimed of
/// the state after the call, except that the memory buffer — one
/// fixed-size array — keeps its length.
#[verifier::external_body]
pub(crate) fn engine_step(z: &mut Z80)
    requires
        engine_registers(*old(z)).pc < MEMORY_SIZE as u16,
    ensures
        engine_memory(*final(z)).len() == engine_memory(*old(z)).len(),
{
    z.step()
}

/// Relies on Z80::run: step until the engine halts. Synchronous and
/// unbounded: a program that never halts never returns, as the engine's
/// documentation says. The same per-instruction caveats as for a single
/// step apply, and the memory buffer keeps its length here too.
#[verifier::external_body]
pub(crate) fn engine_run(z: &mut Z80)
    requires
        engine_registers(*old(z)).pc < MEMORY_SIZE as u16,
    ensures
        engine_memory(*final(z)).len() == engine_memory(*old(z)).len(),
{
    z.run()
}

/// Relies on Z80::load: copy the program over the bottom of memory,
/// leaving the rest of memory and every register as they were.
#[verifier::external_body]
pub(crate) fn engine_load(z: &mut Z80, program: &Vec<u8>)
    requires
        program@.len() <= MEMORY_SIZE,
    ensures
        engine_memory(*final(z)) == program@ + engine_memory(*old(z)).skip(
            program@.len() as int,
        ),
        engine_registers(*final(z)) == engine_registers(*old(z)),
{
    z.load(program.as_slice())
}

/// Relies on Z80::parse_opcode: decode the instruction at the given
/// address without touching the machine, converted to the monitor's own
/// data, with nothing when the address is outside memory. The result is
/// a function of the memory bytes and the address alone. The engine
/// documents a panic on encodings it does not implement; that remains
/// its responsibility.
#[verifier::external_body]
pub(crate) fn decode_instruction(z: &Z80, at: usize) -> (r: Option<Op>)
    ensures
        r == spec_decoded(engine_memory(*z), at as int),
        at >= MEMORY_SIZE ==> r is None,
{
    match z.parse_opcode(at) {
        Some((op, _consumed)) => instr_from(&op),
        None => None,
    }
}

/// Relies on Registers::get_reg8, through the engine's register file.
#[verifier::external_body]
pub(crate) fn engine_reg8(z: &Z80, r: Reg8) -> (v: u8)
    ensures
        v == engine_registers(*z).spec_reg8(r),
{
    let zr = match r {
        Reg8::A => ZReg8::A, Reg8::F => ZReg8::F,
        Reg8::B => ZReg8::B, Reg8::C => ZReg8::C,
        Reg8::D => ZReg8::D, Reg8::E => ZReg8::E,
        Reg8::H => ZReg8::H, Reg8::L => ZReg8::L,
        Reg8::AP => ZReg8::AP, Reg8::FP => ZReg8::FP,
        Reg8::BP => ZReg8::BP, Reg8::CP => ZReg8::CP,
        Reg8::DP => ZReg8::DP, Reg8::EP => ZReg8::EP,
        Reg8::HP => ZReg8::HP, Reg8::LP => ZReg8::LP,
    };
    z.registers.get_reg8(zr)
}

/// Relies on Registers::get_reg16, through the engine's register file: a
/// pair combines its first register low and its second high.
#[verifier::external_body]
pub(crate) fn engine_reg16(z: &Z80, r: Reg16) -> (v: u16)
    ensures
        v == engine_registers(*z).spec_reg16(r),
{
    let zr = match r {
        Reg16::AF => ZReg16::AF, Reg16::BC => ZReg16::BC,
        Reg16::DE => ZReg16::DE, Reg16::HL => ZReg16::HL,
        Reg16::AFP => ZReg16::AFP, Reg16::BCP => ZReg16::BCP,
        Reg16::DEP => ZReg16::DEP, Reg16::HLP => ZReg16::HLP,
        Reg16::IX => ZReg16::IX, Reg16::IY => ZReg16::IY,
        Reg16::SP => ZReg16::SP,
    };
    z.registers.get_reg16(&zr)
}

/// Relies on Registers::get_pc.
#[verifier::external_body]
pub(crate) fn engine_pc(z: &Z80) -> (v: u16)
    ensures
        v == engine_registers(*z).pc,
{
    z.registers.get_pc()
}

/// Relies on the engine's memory being one MEMORY_SIZE-byte buffer.
#[verifier::external_body]
pub(crate) fn engine_memory_copy(z: &Z80) -> (r: Vec<u8>)
    ensures
        r@ == engine_memory(*z),
{
    z.memory.memory.to_vec()
}

/// Relies on the engine's example registry: EXAMPLE_COUNT named
/// programs, in the order fizzbuzz, hello zeerust, hello world,
/// countdown.
#[verifier::external_body]
pub(crate) fn example_name(index: usize) -> (r: Option<String>)
    ensures
        r is Some <==> index < EXAMPLE_COUNT,
        r is Some ==> r->0@ == spec_example_name(index as int),
{
    zeerust::examples::EXAMPLES.get(index).map(|e| e.name.to_string())
}

/// Relies on the engine's example registry: EXAMPLE_COUNT programs, each
/// a constant binary small enough to load into memory.
#[verifier::external_body]
pub(crate) fn example_binary(index: usize) -> (r: Option<Vec<u8>>)
    ensures
        r is Some <==> index < EXAMPLE_COUNT,
        r is Some ==> r->0@ == example_bytes_of(index as int),
        r is Some ==> r->0@.len() <= MEMORY_SIZE,
{
    zeerust::examples::EXAMPLES.get(index).map(|e| e.binary.to_vec())
}

/// Relies on the engine's example registry holding EXAMPLE_COUNT entries.
#[verifier::external_body]
pub(crate) fn example_count() -> (n: usize)
    ensures
        n == EXAMPLE_COUNT,
{
    zeerust::examples::EXAMPLES.len()
}

} // verus!
