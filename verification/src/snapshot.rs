//! A read-only snapshot of the machine: the register file, the full
//! memory buffer and the bytes captured on the output port. Display
//! components read from a snapshot and never mutate it.

use vstd::prelude::*;

use crate::ops::{Reg16, Reg8};

verus! {

/// How many bytes of memory the engine addresses.
pub const MEMORY_SIZE: usize = 16384;

/// Where the stack pointer rests at power-on.
pub const POWER_ON_SP: u16 = 16384;

/// The register file: every 8-bit register, the shadow set, and the
/// 16-bit special registers.
#[derive(Clone, Copy, PartialEq, Eq, Structural, Debug)]
#[verifier::ext_equal]
pub struct RegisterFile {
    pub a: u8,
    pub f: u8,
    pub b: u8,
    pub c: u8,
    pub d: u8,
    pub e: u8,
    pub h: u8,
    pub l: u8,
    pub ap: u8,
    pub fp: u8,
    pub bp: u8,
    pub cp: u8,
    pub dp: u8,
    pub ep: u8,
    pub hp: u8,
    pub lp: u8,
    pub pc: u16,
    pub ix: u16,
    pub iy: u16,
    pub sp: u16,
}

/// The register file at power-on: everything zero, except the stack
/// pointer, which rests at the top of memory.
pub open spec fn power_on_registers() -> RegisterFile {
    RegisterFile {
        a: 0,
        f: 0,
        b: 0,
        c: 0,
        d: 0,
        e: 0,
        h: 0,
        l: 0,
        ap: 0,
        fp: 0,
        bp: 0,
        cp: 0,
        dp: 0,
        ep: 0,
        hp: 0,
        lp: 0,
        pc: 0,
        ix: 0,
        iy: 0,
        sp: POWER_ON_SP,
    }
}

/// Memory at power-on: every byte zero.
pub open spec fn power_on_memory() -> Seq<u8> {
    Seq::new(MEMORY_SIZE as nat, |i: int| 0u8)
}

impl RegisterFile {
    /// The value of an 8-bit register.
    pub open spec fn spec_reg8(self, r: Reg8) -> u8 {
        match r {
            Reg8::A => self.a,
            Reg8::F => self.f,
            Reg8::B => self.b,
            Reg8::C => self.c,
            Reg8::D => self.d,
            Reg8::E => self.e,
            Reg8::H => self.h,
            Reg8::L => self.l,
            Reg8::AP => self.ap,
            Reg8::FP => self.fp,
            Reg8::BP => self.bp,
            Reg8::CP => self.cp,
            Reg8::DP => self.dp,
            Reg8::EP => self.ep,
            Reg8::HP => self.hp,
            Reg8::LP => self.lp,
        }
    }

    /// The value of a 16-bit register. A combined pair holds its first
    /// register in the low byte and its second in the high byte.
    pub open spec fn spec_reg16(self, r: Reg16) -> u16 {
        match r {
            Reg16::AF => (self.f as int * 256 + self.a as int) as u16,
            Reg16::BC => (self.c as int * 256 + self.b as int) as u16,
            Reg16::DE => (self.e as int * 256 + self.d as int) as u16,
            Reg16::HL => (self.l as int * 256 + self.h as int) as u16,
            Reg16::AFP => (self.fp as int * 256 + self.ap as int) as u16,
            Reg16::BCP => (self.cp as int * 256 + self.bp as int) as u16,
            Reg16::DEP => (self.ep as int * 256 + self.dp as int) as u16,
            Reg16::HLP => (self.lp as int * 256 + self.hp as int) as u16,
            Reg16::IX => self.ix,
            Reg16::IY => self.iy,
            Reg16::SP => self.sp,
        }
    }

    /// Read an 8-bit register.
    pub fn get_reg8(&self, r: Reg8) -> (v: u8)
        ensures
            v == self.spec_reg8(r),
    {
        match r {
            Reg8::A => self.a,
            Reg8::F => self.f,
            Reg8::B => self.b,
            Reg8::C => self.c,
            Reg8::D => self.d,
            Reg8::E => self.e,
            Reg8::H => self.h,
            Reg8::L => self.l,
            Reg8::AP => self.ap,
            Reg8::FP => self.fp,
            Reg8::BP => self.bp,
            Reg8::CP => self.cp,
            Reg8::DP => self.dp,
            Reg8::EP => self.ep,
            Reg8::HP => self.hp,
            Reg8::LP => self.lp,
        }
    }

    /// Read a 16-bit register or register pair.
    pub fn get_reg16(&self, r: Reg16) -> (v: u16)
        ensures
            v == self.spec_reg16(r),
    {
        match r {
            Reg16::AF => (self.f as u16) * 256 + (self.a as u16),
            Reg16::BC => (self.c as u16) * 256 + (self.b as u16),
            Reg16::DE => (self.e as u16) * 256 + (self.d as u16),
            Reg16::HL => (self.l as u16) * 256 + (self.h as u16),
            Reg16::AFP => (self.fp as u16) * 256 + (self.ap as u16),
            Reg16::BCP => (self.cp as u16) * 256 + (self.bp as u16),
            Reg16::DEP => (self.ep as u16) * 256 + (self.dp as u16),
            Reg16::HLP => (self.lp as u16) * 256 + (self.hp as u16),
            Reg16::IX => self.ix,
            Reg16::IY => self.iy,
            Reg16::SP => self.sp,
        }
    }

    /// Read the program counter.
    pub fn get_pc(&self) -> (v: u16)
        ensures
            v == self.pc,
    {
        self.pc
    }
}

/// A read-only view of the machine for one render cycle.
#[derive(Clone, PartialEq, Eq, Debug)]
pub struct MachineSnapshot {
    /// The register file.
    pub regs: RegisterFile,
    /// The full memory buffer.
    pub mem: Vec<u8>,
    /// Everything captured on the output port so far.
    pub output: Vec<u8>,
}

impl MachineSnapshot {
    /// A snapshot always carries the engine's whole memory.
    pub open spec fn wf(self) -> bool {
        self.mem@.len() == MEMORY_SIZE
    }
}

} // verus!
