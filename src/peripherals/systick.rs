//! The SysTick timer of the Arm CPU (Armv7-M Architecture Reference Manual,
//! SysTick chapter).
use crate::peripherals::registers::{word_at, RegisterFile};
use crate::peripherals::take_once;
use crate::peripherals::Peripherals;
use vstd::prelude::*;

verus! {

/// SysTick Control and Status Register.
/// Bit 0 runs the timer; bit 16 is set when the current value has reached 0
/// since the register was last read, and reading the register clears it.
pub const CSR_ADDRESS: u32 = 0xe000e010;

/// SysTick Reload Value Register: the value that the current value takes when
/// it ticks down past 0. Only its lower 24 bits are used.
pub const RVR_ADDRESS: u32 = 0xe000e014;

/// SysTick Current Value Register. While the timer runs it ticks down to 0 and
/// then wraps to the reload value. Any write sets it to 0; it takes the reload
/// value on the next clock cycle.
pub const CVR_ADDRESS: u32 = 0xe000e018;

/// SysTick Calibration Register. Its lower 24 bits give the number of ticks in
/// 10 ms.
pub const CALIB_ADDRESS: u32 = 0xe000e01c;

/// The bit of the control register that runs the timer.
pub const CSR_ENABLE: u32 = 0x1;

/// The bit of the control register that reports a wrap of the timer.
pub const CSR_COUNTFLAG: u32 = 0x10000;

/// The 24 bits of the reload, current and calibration values.
pub const VALUE_MASK: u32 = 0x00ffffff;

/// System timer of the Arm CPU.
///
/// When enabled, the timer value ticks down until it reaches 0, then wraps
/// around to a configurable reload value. A status bit is set when it wraps.
/// The hardware holds the timer's state; this value only records whether this
/// program has enabled it.
pub struct SysTick {
    enabled: bool,
}

impl SysTick {
    /// Whether this program has enabled the timer.
    pub closed spec fn enabled(&self) -> bool {
        self.enabled
    }

    fn new() -> (r: Self)
        ensures
            !r.enabled(),
    {
        SysTick { enabled: false }
    }

    /// Create a SysTick instance if no instance has been created yet.
    pub fn instance(peripherals: &mut Peripherals) -> (r: Option<Self>)
        ensures
            (r.is_some(), final(peripherals).systick_available()) == take_once(
                old(peripherals).systick_available(),
            ),
            final(peripherals).ports_available() == old(peripherals).ports_available(),
            r matches Some(t) ==> !t.enabled(),
    {
        if peripherals.take_systick() {
            Some(SysTick::new())
        } else {
            None
        }
    }

    /// Returns the number of ticks per 10ms.
    pub fn get_ticks_per_10ms(&self, regs: &RegisterFile) -> (r: u32)
        ensures
            r == regs.word(CALIB_ADDRESS) & VALUE_MASK,
    {
        regs.read(CALIB_ADDRESS) & VALUE_MASK
    }

    /// Run the timer.
    ///
    /// Reading the control register clears the wrap flag, so a wrap that
    /// happened before this call is not reported afterwards.
    pub fn enable(&mut self, regs: &mut RegisterFile)
        ensures
            final(self).enabled(),
            final(regs).mem() == old(regs).mem().insert(
                CSR_ADDRESS,
                (old(regs).word(CSR_ADDRESS) & !CSR_COUNTFLAG) | CSR_ENABLE,
            ),
            final(regs).writes() == old(regs).writes().push(
                (CSR_ADDRESS, (old(regs).word(CSR_ADDRESS) & !CSR_COUNTFLAG) | CSR_ENABLE),
            ),
            final(regs).word(CSR_ADDRESS) & CSR_ENABLE != 0,
            final(regs).word(CSR_ADDRESS) & CSR_COUNTFLAG == 0,
    {
        let v = regs.read_and_clear(CSR_ADDRESS, CSR_COUNTFLAG);
        let w = (v & !CSR_COUNTFLAG) | CSR_ENABLE;
        regs.write(CSR_ADDRESS, w);
        assert(w & 0x1 != 0 && w & 0x10000 == 0) by (bit_vector)
            requires
                w == (v & !0x10000u32) | 0x1u32,
        ;
        self.enabled = true;
    }

    /// Stop the timer.
    ///
    /// Reading the control register clears the wrap flag, as for `enable`.
    pub fn disable(&mut self, regs: &mut RegisterFile)
        ensures
            !final(self).enabled(),
            final(regs).mem() == old(regs).mem().insert(
                CSR_ADDRESS,
                (old(regs).word(CSR_ADDRESS) & !CSR_COUNTFLAG) & !CSR_ENABLE,
            ),
            final(regs).writes() == old(regs).writes().push(
                (CSR_ADDRESS, (old(regs).word(CSR_ADDRESS) & !CSR_COUNTFLAG) & !CSR_ENABLE),
            ),
            final(regs).word(CSR_ADDRESS) & CSR_ENABLE == 0,
            final(regs).word(CSR_ADDRESS) & CSR_COUNTFLAG == 0,
    {
        let v = regs.read_and_clear(CSR_ADDRESS, CSR_COUNTFLAG);
        let w = (v & !CSR_COUNTFLAG) & !CSR_ENABLE;
        regs.write(CSR_ADDRESS, w);
        assert(w & 0x1 == 0 && w & 0x10000 == 0) by (bit_vector)
            requires
                w == (v & !0x10000u32) & !0x1u32,
        ;
        self.enabled = false;
    }

    /// Returns true if the timer is enabled.
    pub fn is_enabled(&self) -> (r: bool)
        ensures
            r == self.enabled(),
    {
        self.enabled
    }

    /// Returns true if the timer has wrapped since it was checked last time.
    ///
    /// This takes `&mut self` because reading the control register clears the
    /// wrap flag: a wrap is reported once.
    pub fn timer_wrapped(&mut self, regs: &mut RegisterFile) -> (r: bool)
        ensures
            *final(self) == *old(self),
            r == (old(regs).word(CSR_ADDRESS) & CSR_COUNTFLAG != 0),
            final(regs).mem() == old(regs).mem().insert(
                CSR_ADDRESS,
                old(regs).word(CSR_ADDRESS) & !CSR_COUNTFLAG,
            ),
            final(regs).writes() == old(regs).writes(),
    {
        regs.read_and_clear(CSR_ADDRESS, CSR_COUNTFLAG) & CSR_COUNTFLAG != 0
    }

    /// Read the current value.
    pub fn get_current_value(&self, regs: &RegisterFile) -> (r: u32)
        ensures
            r == regs.word(CVR_ADDRESS),
    {
        regs.read(CVR_ADDRESS)
    }

    /// Reset the timer: the current value becomes 0, and the timer reloads
    /// from the reload value on the next clock cycle.
    pub fn reset(&mut self, regs: &mut RegisterFile)
        ensures
            *final(self) == *old(self),
            final(regs).mem() == old(regs).mem().insert(CVR_ADDRESS, 0),
            final(regs).writes() == old(regs).writes().push((CVR_ADDRESS, 0)),
    {
        regs.write(CVR_ADDRESS, 0);
    }

    /// Set a new reload value, keeping only its lower 24 bits. This has no
    /// impact on the current timer value.
    pub fn set_reset_value(&mut self, regs: &mut RegisterFile, reset_value: u32)
        ensures
            *final(self) == *old(self),
            final(regs).mem() == old(regs).mem().insert(RVR_ADDRESS, reset_value & VALUE_MASK),
            final(regs).writes() == old(regs).writes().push(
                (RVR_ADDRESS, reset_value & VALUE_MASK),
            ),
    {
        let clamped_reset_value = reset_value & VALUE_MASK;
        regs.write(RVR_ADDRESS, clamped_reset_value);
    }

    /// Read the reload value.
    pub fn get_reset_value(&self, regs: &RegisterFile) -> (r: u32)
        ensures
            r == regs.word(RVR_ADDRESS) & VALUE_MASK,
    {
        regs.read(RVR_ADDRESS) & VALUE_MASK
    }
}

/// Setting the reload value to `v` and reading it back gives `v` with its
/// upper 8 bits cleared, whatever the registers held before.
pub proof fn lemma_reset_value_round_trip(m: Map<u32, u32>, v: u32)
    ensures
        word_at(m.insert(RVR_ADDRESS, v & VALUE_MASK), RVR_ADDRESS) & VALUE_MASK == v & 0x00ffffff,
{
    assert((v & 0x00ffffff) & 0x00ffffff == v & 0x00ffffff) by (bit_vector);
}

} // verus!
