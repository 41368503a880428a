//! Memory-mapped registers and the read-modify-write primitives on them.
//!
//! A [`RegisterFile`] stands for the address space of the device's registers:
//! each address holds one register, whose value is kept zero-extended to a
//! 32-bit word; a register that was never written reads as 0. Every write made
//! by a driver is also appended to a log, so that contracts can state the exact
//! order of writes (for instance around the pin write protection).
use std::collections::HashMap;
use vstd::prelude::*;

verus! {

broadcast use vstd::std_specs::hash::group_hash_axioms;

/// The value held at address `a` by a register space whose written values are `m`.
pub open spec fn word_at(m: Map<u32, u32>, a: u32) -> u32 {
    if m.contains_key(a) {
        m[a]
    } else {
        0
    }
}

/// The device's register space.
pub struct RegisterFile {
    values: HashMap<u32, u32>,
    log: Vec<(u32, u32)>,
}

impl RegisterFile {
    /// The values written so far, by address.
    pub closed spec fn mem(&self) -> Map<u32, u32> {
        self.values@
    }

    /// Every write made through [`RegisterFile::write`], oldest first.
    pub closed spec fn writes(&self) -> Seq<(u32, u32)> {
        self.log@
    }

    /// The value of the register at `a`.
    pub open spec fn word(&self, a: u32) -> u32 {
        word_at(self.mem(), a)
    }

    /// A register space in its reset state: every register reads as 0.
    pub fn new() -> (r: RegisterFile)
        ensures
            r.mem() == Map::<u32, u32>::empty(),
            r.writes() == Seq::<(u32, u32)>::empty(),
    {
        RegisterFile { values: HashMap::new(), log: Vec::new() }
    }

    /// Reads the register at `address`.
    pub fn read(&self, address: u32) -> (r: u32)
        ensures
            r == self.word(address),
    {
        match self.values.get(&address) {
            Some(v) => *v,
            None => 0,
        }
    }

    /// Writes `value` to the register at `address`.
    pub fn write(&mut self, address: u32, value: u32)
        ensures
            final(self).mem() == old(self).mem().insert(address, value),
            final(self).writes() == old(self).writes().push((address, value)),
    {
        self.values.insert(address, value);
        self.log.push((address, value));
    }

    /// The writes made so far, oldest first.
    pub fn write_log(&self) -> (r: &Vec<(u32, u32)>)
        ensures
            r@ == self.writes(),
    {
        &self.log
    }

    /// Reads the register at `address`, which clears the bits of `clear_mask`
    /// in it as a side effect (a status register with clear-on-read flags).
    /// No write is logged: the change is the hardware's own.
    pub fn read_and_clear(&mut self, address: u32, clear_mask: u32) -> (r: u32)
        ensures
            r == old(self).word(address),
            final(self).mem() == old(self).mem().insert(address, r & !clear_mask),
            final(self).writes() == old(self).writes(),
    {
        let v = self.read(address);
        self.values.insert(address, v & !clear_mask);
        v
    }

    /// Sets the register at `address` the way the device itself does (an input
    /// level, a status flag, a read-only calibration value). No write is logged.
    pub fn set_by_hardware(&mut self, address: u32, value: u32)
        ensures
            final(self).mem() == old(self).mem().insert(address, value),
            final(self).writes() == old(self).writes(),
    {
        self.values.insert(address, value);
    }
}

/// The widths a register can have: `u8`, `u16` and `u32`.
pub trait RegisterType: Copy + Sized {
    /// The value zero-extended to a 32-bit word.
    spec fn to_word(self) -> u32;

    /// The word truncated to this width.
    spec fn from_word(w: u32) -> Self;
}

impl RegisterType for u8 {
    open spec fn to_word(self) -> u32 {
        self as u32
    }

    open spec fn from_word(w: u32) -> u8 {
        w as u8
    }
}

impl RegisterType for u16 {
    open spec fn to_word(self) -> u32 {
        self as u32
    }

    open spec fn from_word(w: u32) -> u16 {
        w as u16
    }
}

impl RegisterType for u32 {
    open spec fn to_word(self) -> u32 {
        self
    }

    open spec fn from_word(w: u32) -> u32 {
        w
    }
}

/// The word held after ORing `mask` into a register of width `T` that holds `w`.
pub open spec fn or_word<T: RegisterType>(w: u32, mask: T) -> u32 {
    T::from_word(w).to_word() | mask.to_word()
}

/// The word held after ANDing `mask` into a register of width `T` that holds `w`.
pub open spec fn and_word<T: RegisterType>(w: u32, mask: T) -> u32 {
    T::from_word(w).to_word() & mask.to_word()
}

/// The word held after XORing `mask` into a register of width `T` that holds `w`.
pub open spec fn xor_word<T: RegisterType>(w: u32, mask: T) -> u32 {
    T::from_word(w).to_word() ^ mask.to_word()
}

/// The handle of one memory-mapped register.
#[derive(Clone, Copy)]
pub struct Register {
    pub address: u32,
}

/// Read-modify-write of a register with a bitmask: the register is read once
/// and the combined value is written back once.
pub trait VolatileBoolOps<T: RegisterType>: Copy {
    /// The address of the register.
    spec fn addr(self) -> u32;

    /// ORs `bitmask` into the register.
    fn volatile_or(self, regs: &mut RegisterFile, bitmask: T)
        ensures
            final(regs).mem() == old(regs).mem().insert(
                self.addr(),
                or_word(old(regs).word(self.addr()), bitmask),
            ),
            final(regs).writes() == old(regs).writes().push(
                (self.addr(), or_word(old(regs).word(self.addr()), bitmask)),
            ),
    ;

    /// ANDs `bitmask` into the register.
    fn volatile_and(self, regs: &mut RegisterFile, bitmask: T)
        ensures
            final(regs).mem() == old(regs).mem().insert(
                self.addr(),
                and_word(old(regs).word(self.addr()), bitmask),
            ),
            final(regs).writes() == old(regs).writes().push(
                (self.addr(), and_word(old(regs).word(self.addr()), bitmask)),
            ),
    ;

    /// XORs `bitmask` into the register.
    fn volatile_xor(self, regs: &mut RegisterFile, bitmask: T)
        ensures
            final(regs).mem() == old(regs).mem().insert(
                self.addr(),
                xor_word(old(regs).word(self.addr()), bitmask),
            ),
            final(regs).writes() == old(regs).writes().push(
                (self.addr(), xor_word(old(regs).word(self.addr()), bitmask)),
            ),
    ;
}

impl VolatileBoolOps<u32> for Register {
    open spec fn addr(self) -> u32 {
        self.address
    }

    fn volatile_or(self, regs: &mut RegisterFile, bitmask: u32) {
        let v = regs.read(self.address);
        assert(or_word(v, bitmask) == v | bitmask);
        regs.write(self.address, v | bitmask);
    }

    fn volatile_and(self, regs: &mut RegisterFile, bitmask: u32) {
        let v = regs.read(self.address);
        assert(and_word(v, bitmask) == v & bitmask);
        assert(VolatileBoolOps::<u32>::addr(self) == self.address);
        regs.write(self.address, v & bitmask);
    }

    fn volatile_xor(self, regs: &mut RegisterFile, bitmask: u32) {
        let v = regs.read(self.address);
        assert(xor_word(v, bitmask) == v ^ bitmask);
        regs.write(self.address, v ^ bitmask);
    }
}

impl VolatileBoolOps<u16> for Register {
    open spec fn addr(self) -> u32 {
        self.address
    }

    fn volatile_or(self, regs: &mut RegisterFile, bitmask: u16) {
        let v = regs.read(self.address) as u16;
        regs.write(self.address, (v | bitmask) as u32);
        assert((v | bitmask) as u32 == (v as u32) | (bitmask as u32)) by (bit_vector);
    }

    fn volatile_and(self, regs: &mut RegisterFile, bitmask: u16) {
        let v = regs.read(self.address) as u16;
        regs.write(self.address, (v & bitmask) as u32);
        assert((v & bitmask) as u32 == (v as u32) & (bitmask as u32)) by (bit_vector);
    }

    fn volatile_xor(self, regs: &mut RegisterFile, bitmask: u16) {
        let v = regs.read(self.address) as u16;
        regs.write(self.address, (v ^ bitmask) as u32);
        assert((v ^ bitmask) as u32 == (v as u32) ^ (bitmask as u32)) by (bit_vector);
    }
}

impl VolatileBoolOps<u8> for Register {
    open spec fn addr(self) -> u32 {
        self.address
    }

    fn volatile_or(self, regs: &mut RegisterFile, bitmask: u8) {
        let v = regs.read(self.address) as u8;
        regs.write(self.address, (v | bitmask) as u32);
        assert((v | bitmask) as u32 == (v as u32) | (bitmask as u32)) by (bit_vector);
    }

    fn volatile_and(self, regs: &mut RegisterFile, bitmask: u8) {
        let v = regs.read(self.address) as u8;
        regs.write(self.address, (v & bitmask) as u32);
        assert((v & bitmask) as u32 == (v as u32) & (bitmask as u32)) by (bit_vector);
    }

    fn volatile_xor(self, regs: &mut RegisterFile, bitmask: u8) {
        let v = regs.read(self.address) as u8;
        regs.write(self.address, (v ^ bitmask) as u32);
        assert((v ^ bitmask) as u32 == (v as u32) ^ (bitmask as u32)) by (bit_vector);
    }
}

} // verus!
