//! Control the GPIO pins.
//!
//! Call [`get_pins`] to get a struct with the pins labelled as they are on the
//! Arduino board.
//!
//! The configuration of a pin is part of its type: a [`GpioPin`] carries a
//! mode marker ([`PinModeUnknown`], [`PinModeOutput`], [`PinModeInput`] or
//! [`PinModeInputPullup`]) and only offers the operations of that mode. A pin
//! is configured once: the change consumes the unconfigured pin and returns it
//! in its new mode; a configured pin has no way back.
//!
//! The traits [`OutputPin`], [`InputPin`] and [`InputPullupPin`] classify pins
//! by their configuration: to accept any output pin, write
//! `fn with_output_pin<P: OutputPin>(pin: P, ...)`.
//!
//! Register addresses and bit assignments follow the Renesas RA4M1 hardware
//! manual (I/O ports chapter).
use crate::peripherals::registers::{word_at, Register, RegisterFile, VolatileBoolOps};
use crate::peripherals::take_once;
use crate::peripherals::Peripherals;
use core::marker::PhantomData;
use vstd::prelude::*;

verus! {

/// Pin Write Protection register. Writes to the Pin Function Select registers
/// take effect only while its bit 6 is 1, and that bit can only be written
/// while bit 7 is 0.
pub const PWPR_ADDRESS: u32 = 0x40040d03;

/// Write-protection value that unlocks the Pin Function Select registers (bit 6).
pub const PWPR_UNLOCK: u32 = 0x40;

/// Write-protection value that locks the Pin Function Select registers (bit 7).
pub const PWPR_LOCK: u32 = 0x80;

/// Address of the Pin Function Select register of port 0, pin 0.
pub const PFS_BASE_ADDRESS: u32 = 0x40040800;

/// Pin Function Select value of a GPIO input without pull-up (all bits 0).
pub const PFS_INPUT: u32 = 0;

/// Pin Function Select value of a GPIO output (bit 2).
pub const PFS_OUTPUT: u32 = 0x04;

/// Pin Function Select value of a GPIO input with pull-up (bit 4).
pub const PFS_INPUT_PULLUP: u32 = 0x10;

/// Address of the first Port Control register of port 0.
pub const PORT_BASE_ADDRESS: u32 = 0x40040000;

/// Distance between the register banks of two consecutive ports.
pub const PORT_ADDRESS_GAP: u32 = 0x20;

/// The number of port register banks.
pub const NUM_PORTS: u32 = 5;

/// The number of pins of a port.
pub const PINS_PER_PORT: u32 = 16;

/// Address of the Pin Function Select register of a pin.
pub open spec fn pfs_address(port: u32, pin: u32) -> u32 {
    (PFS_BASE_ADDRESS + 4 * (16 * port + pin)) as u32
}

/// Address of Port Control Register 1 of a port: its upper half drives the
/// output level of each pin.
pub open spec fn pcntr1_address(port: u32) -> u32 {
    (PORT_BASE_ADDRESS + port * PORT_ADDRESS_GAP) as u32
}

/// Address of Port Control Register 2 of a port: its lower half reads the
/// input level of each pin.
pub open spec fn pcntr2_address(port: u32) -> u32 {
    (PORT_BASE_ADDRESS + 4 + port * PORT_ADDRESS_GAP) as u32
}

/// The bit of Port Control Register 1 that drives `pin` high.
pub open spec fn output_bit(pin: u32) -> u32 {
    1u32 << ((pin + 16) as u32)
}

/// The bit of Port Control Register 2 that reads the level of `pin`.
pub open spec fn input_bit(pin: u32) -> u32 {
    1u32 << pin
}

/// Whether `pin` of `port` is set to drive its output high.
pub open spec fn output_is_high(m: Map<u32, u32>, port: u32, pin: u32) -> bool {
    word_at(m, pcntr1_address(port)) & output_bit(pin) != 0
}

/// Whether `pin` of `port` reads a high input level.
pub open spec fn input_is_high(m: Map<u32, u32>, port: u32, pin: u32) -> bool {
    word_at(m, pcntr2_address(port)) & input_bit(pin) != 0
}

/// Port Control Register 1 of `port` after driving `pin` high.
pub open spec fn high_word(m: Map<u32, u32>, port: u32, pin: u32) -> u32 {
    word_at(m, pcntr1_address(port)) | output_bit(pin)
}

/// Port Control Register 1 of `port` after driving `pin` low.
pub open spec fn low_word(m: Map<u32, u32>, port: u32, pin: u32) -> u32 {
    word_at(m, pcntr1_address(port)) & !output_bit(pin)
}

/// Port Control Register 1 of `port` after toggling the output of `pin`.
pub open spec fn toggled_word(m: Map<u32, u32>, port: u32, pin: u32) -> u32 {
    word_at(m, pcntr1_address(port)) ^ output_bit(pin)
}

/// The registers after driving `pin` of `port` high.
pub open spec fn driven_high(m: Map<u32, u32>, port: u32, pin: u32) -> Map<u32, u32> {
    m.insert(pcntr1_address(port), high_word(m, port, pin))
}

/// The registers after driving `pin` of `port` low.
pub open spec fn driven_low(m: Map<u32, u32>, port: u32, pin: u32) -> Map<u32, u32> {
    m.insert(pcntr1_address(port), low_word(m, port, pin))
}

/// The registers after toggling the output of `pin` of `port`.
pub open spec fn toggled(m: Map<u32, u32>, port: u32, pin: u32) -> Map<u32, u32> {
    m.insert(pcntr1_address(port), toggled_word(m, port, pin))
}

/// The registers after configuring `pin` of `port` with the Pin Function
/// Select value `value`: the register holds it, and the write protection is
/// locked again.
pub open spec fn configured(m: Map<u32, u32>, port: u32, pin: u32, value: u32) -> Map<u32, u32> {
    m.insert(pfs_address(port, pin), value).insert(PWPR_ADDRESS, PWPR_LOCK)
}

/// The writes that configure `pin` of `port` with `value`: unlock the write
/// protection (0, then the unlock bit), write the Pin Function Select
/// register, lock the write protection (0, then the lock bit).
pub open spec fn configuration_writes(port: u32, pin: u32, value: u32) -> Seq<(u32, u32)> {
    seq![
        (PWPR_ADDRESS, 0u32),
        (PWPR_ADDRESS, PWPR_UNLOCK),
        (pfs_address(port, pin), value),
        (PWPR_ADDRESS, 0u32),
        (PWPR_ADDRESS, PWPR_LOCK),
    ]
}

/// Toggling a pin's output flips the level it drives, and toggling it twice
/// restores every register to the value it had, so the pin drives the
/// level it drove before.
pub proof fn lemma_toggle_twice(m: Map<u32, u32>, port: u32, pin: u32)
    requires
        pin < PINS_PER_PORT,
    ensures
        output_is_high(toggled(m, port, pin), port, pin) == !output_is_high(m, port, pin),
        forall|a: u32| #[trigger]
            word_at(toggled(toggled(m, port, pin), port, pin), a) == word_at(m, a),
        output_is_high(toggled(toggled(m, port, pin), port, pin), port, pin) == output_is_high(
            m,
            port,
            pin,
        ),
{
    let w = word_at(m, pcntr1_address(port));
    let b = output_bit(pin);
    assert((w ^ b) ^ b == w) by (bit_vector);
    assert(((w ^ b) & b != 0) == !(w & b != 0)) by (bit_vector)
        requires
            b == 1u32 << ((pin + 16) as u32),
            pin < 16,
    ;
}

/// How driving and toggling act on the output bit of a pin.
proof fn lemma_output_bit(w: u32, pin: u32)
    requires
        pin < PINS_PER_PORT,
    ensures
        (w | output_bit(pin)) & output_bit(pin) != 0,
        (w & !output_bit(pin)) & output_bit(pin) == 0,
        ((w ^ output_bit(pin)) & output_bit(pin) != 0) == !(w & output_bit(pin) != 0),
{
    let b = output_bit(pin);
    assert((w | b) & b != 0 && (w & !b) & b == 0 && (((w ^ b) & b != 0) == !(w & b != 0)))
        by (bit_vector)
        requires
            b == 1u32 << ((pin + 16) as u32),
            pin < 16,
    ;
}

/// Marker for the configuration of a pin.
pub trait PinMode {

}

/// The pin's configuration is not known.
pub struct PinModeUnknown;

impl PinMode for PinModeUnknown {

}

/// The pin is configured as an output.
pub struct PinModeOutput;

impl PinMode for PinModeOutput {

}

/// The pin is configured as an input without pull-up.
pub struct PinModeInput;

impl PinMode for PinModeInput {

}

/// The pin is configured as an input with pull-up.
pub struct PinModeInputPullup;

impl PinMode for PinModeInputPullup {

}

/// Status of a GPIO pin.
#[derive(Clone, Copy, Debug, PartialEq, Eq, Structural)]
pub enum PinStatus {
    /// Pin is at LOW voltage.
    Low,
    /// Pin is at HIGH voltage.
    High,
}

/// Controls whether the Pin Function Select registers can be written to.
struct PinWriteProtection;

impl PinWriteProtection {
    fn new() -> Self {
        PinWriteProtection
    }

    /// Unlocks the registers by first setting all bits to 0 and then bit 6 to 1.
    fn unlock(&self, regs: &mut RegisterFile)
        ensures
            final(regs).mem() == old(regs).mem().insert(PWPR_ADDRESS, 0).insert(
                PWPR_ADDRESS,
                PWPR_UNLOCK,
            ),
            final(regs).writes() == old(regs).writes().push((PWPR_ADDRESS, 0)).push(
                (PWPR_ADDRESS, PWPR_UNLOCK),
            ),
    {
        regs.write(PWPR_ADDRESS, 0);
        regs.write(PWPR_ADDRESS, PWPR_UNLOCK);
    }

    /// Locks the registers by first setting all bits to 0 and then bit 7 to 1.
    fn lock(&self, regs: &mut RegisterFile)
        ensures
            final(regs).mem() == old(regs).mem().insert(PWPR_ADDRESS, 0).insert(
                PWPR_ADDRESS,
                PWPR_LOCK,
            ),
            final(regs).writes() == old(regs).writes().push((PWPR_ADDRESS, 0)).push(
                (PWPR_ADDRESS, PWPR_LOCK),
            ),
    {
        regs.write(PWPR_ADDRESS, 0);
        regs.write(PWPR_ADDRESS, PWPR_LOCK);
    }
}

/// Selects whether a pin is an input or an output.
struct PinFunctionSelect {
    port: u32,
    pin: u32,
    write_protection: PinWriteProtection,
}

impl PinFunctionSelect {
    fn new(port: u32, pin: u32) -> (r: Self)
        ensures
            r.port == port,
            r.pin == pin,
    {
        PinFunctionSelect { port, pin, write_protection: PinWriteProtection::new() }
    }

    /// Writes `value` to the pin's function select register, between an
    /// unlock and a lock of the write protection.
    fn write_unlocked(&self, regs: &mut RegisterFile, value: u32)
        requires
            self.port < NUM_PORTS,
            self.pin < PINS_PER_PORT,
        ensures
            final(regs).mem() == configured(old(regs).mem(), self.port, self.pin, value),
            final(regs).writes() == old(regs).writes() + configuration_writes(
                self.port,
                self.pin,
                value,
            ),
    {
        let address = PFS_BASE_ADDRESS + 4 * (16 * self.port + self.pin);
        self.write_protection.unlock(regs);
        regs.write(address, value);
        self.write_protection.lock(regs);
        proof {
            let m = old(regs).mem();
            assert(address != PWPR_ADDRESS);
            assert(final(regs).mem() =~= configured(m, self.port, self.pin, value));
            assert(final(regs).writes() =~= old(regs).writes() + configuration_writes(
                self.port,
                self.pin,
                value,
            ));
        }
    }

    fn set_to_input(&self, regs: &mut RegisterFile)
        requires
            self.port < NUM_PORTS,
            self.pin < PINS_PER_PORT,
        ensures
            final(regs).mem() == configured(old(regs).mem(), self.port, self.pin, PFS_INPUT),
            final(regs).writes() == old(regs).writes() + configuration_writes(
                self.port,
                self.pin,
                PFS_INPUT,
            ),
    {
        self.write_unlocked(regs, PFS_INPUT);
    }

    fn set_to_input_pullup(&self, regs: &mut RegisterFile)
        requires
            self.port < NUM_PORTS,
            self.pin < PINS_PER_PORT,
        ensures
            final(regs).mem() == configured(
                old(regs).mem(),
                self.port,
                self.pin,
                PFS_INPUT_PULLUP,
            ),
            final(regs).writes() == old(regs).writes() + configuration_writes(
                self.port,
                self.pin,
                PFS_INPUT_PULLUP,
            ),
    {
        self.write_unlocked(regs, PFS_INPUT_PULLUP);
    }

    fn set_to_output(&self, regs: &mut RegisterFile)
        requires
            self.port < NUM_PORTS,
            self.pin < PINS_PER_PORT,
        ensures
            final(regs).mem() == configured(old(regs).mem(), self.port, self.pin, PFS_OUTPUT),
            final(regs).writes() == old(regs).writes() + configuration_writes(
                self.port,
                self.pin,
                PFS_OUTPUT,
            ),
    {
        self.write_unlocked(regs, PFS_OUTPUT);
    }
}

/// The output and input registers of one port.
struct PortControl {
    port: u32,
}

impl PortControl {
    fn new(port: u32) -> (r: Self)
        ensures
            r.port == port,
    {
        PortControl { port }
    }

    fn pcntr1(&self) -> (r: Register)
        requires
            self.port < NUM_PORTS,
        ensures
            r.address == pcntr1_address(self.port),
    {
        Register { address: PORT_BASE_ADDRESS + self.port * PORT_ADDRESS_GAP }
    }

    fn pin_is_set_high(&self, regs: &RegisterFile, pin: u32) -> (r: bool)
        requires
            self.port < NUM_PORTS,
            pin < PINS_PER_PORT,
        ensures
            r == output_is_high(regs.mem(), self.port, pin),
    {
        let reg = self.pcntr1();
        regs.read(reg.address) & (1u32 << (pin + 16)) != 0
    }

    fn pin_is_high(&self, regs: &RegisterFile, pin: u32) -> (r: bool)
        requires
            self.port < NUM_PORTS,
            pin < PINS_PER_PORT,
        ensures
            r == input_is_high(regs.mem(), self.port, pin),
    {
        let address = PORT_BASE_ADDRESS + 4 + self.port * PORT_ADDRESS_GAP;
        regs.read(address) & (1u32 << pin) != 0
    }

    fn set_pin_high(&self, regs: &mut RegisterFile, pin: u32)
        requires
            self.port < NUM_PORTS,
            pin < PINS_PER_PORT,
        ensures
            final(regs).mem() == driven_high(old(regs).mem(), self.port, pin),
            final(regs).writes() == old(regs).writes().push(
                (pcntr1_address(self.port), high_word(old(regs).mem(), self.port, pin)),
            ),
    {
        let reg = self.pcntr1();
        VolatileBoolOps::<u32>::volatile_or(reg, regs, 1u32 << (pin + 16));
    }

    fn set_pin_low(&self, regs: &mut RegisterFile, pin: u32)
        requires
            self.port < NUM_PORTS,
            pin < PINS_PER_PORT,
        ensures
            final(regs).mem() == driven_low(old(regs).mem(), self.port, pin),
            final(regs).writes() == old(regs).writes().push(
                (pcntr1_address(self.port), low_word(old(regs).mem(), self.port, pin)),
            ),
    {
        let reg = self.pcntr1();
        VolatileBoolOps::<u32>::volatile_and(reg, regs, !(1u32 << (pin + 16)));
    }

    fn toggle_pin_output(&self, regs: &mut RegisterFile, pin: u32)
        requires
            self.port < NUM_PORTS,
            pin < PINS_PER_PORT,
        ensures
            final(regs).mem() == toggled(old(regs).mem(), self.port, pin),
            final(regs).writes() == old(regs).writes().push(
                (pcntr1_address(self.port), toggled_word(old(regs).mem(), self.port, pin)),
            ),
    {
        let reg = self.pcntr1();
        VolatileBoolOps::<u32>::volatile_xor(reg, regs, 1u32 << (pin + 16));
    }
}

/// A physical GPIO pin, identified by its port and its number within the port,
/// in the configuration `M`.
///
/// A value of this type can only be made by splitting a port or by converting
/// another value for the same pin, which it consumes.
pub struct GpioPin<M: PinMode> {
    port_control: PortControl,
    function_select: PinFunctionSelect,
    mode: PhantomData<M>,
}

impl<M: PinMode> GpioPin<M> {
    #[verifier::type_invariant]
    spec fn well_formed(self) -> bool {
        &&& self.port_control.port == self.function_select.port
        &&& self.function_select.port < NUM_PORTS
        &&& self.function_select.pin < PINS_PER_PORT
    }

    /// Whether this is pin `pin` of port `port`.
    pub open spec fn is_at(&self, port: u32, pin: u32) -> bool {
        self.port_no() == port && self.pin_no() == pin
    }

    fn new(port: u32, pin: u32) -> (r: Self)
        requires
            port < NUM_PORTS,
            pin < PINS_PER_PORT,
        ensures
            r.is_at(port, pin),
    {
        GpioPin {
            port_control: PortControl::new(port),
            function_select: PinFunctionSelect::new(port, pin),
            mode: PhantomData,
        }
    }
}

/// Common trait for all pins: a pin is identified by its port and its number
/// within the port.
pub trait Pin: Sized {
    /// The number of the pin's port.
    spec fn port_no(&self) -> u32;

    /// The number of the pin within its port.
    spec fn pin_no(&self) -> u32;
}

/// A digital output pin.
pub trait OutputPin: Pin {
    /// Is the pin currently set to output HIGH?
    fn is_set_high(&self, regs: &RegisterFile) -> (r: bool)
        ensures
            r == output_is_high(regs.mem(), self.port_no(), self.pin_no()),
            self.port_no() < NUM_PORTS,
            self.pin_no() < PINS_PER_PORT,
    ;

    /// Make the pin output HIGH.
    fn set_high(&mut self, regs: &mut RegisterFile)
        ensures
            *final(self) == *old(self),
            final(regs).mem() == driven_high(
                old(regs).mem(),
                old(self).port_no(),
                old(self).pin_no(),
            ),
            final(regs).writes() == old(regs).writes().push(
                (
                    pcntr1_address(old(self).port_no()),
                    high_word(old(regs).mem(), old(self).port_no(), old(self).pin_no()),
                ),
            ),
            output_is_high(final(regs).mem(), old(self).port_no(), old(self).pin_no()),            old(self).port_no() < NUM_PORTS,
            old(self).pin_no() < PINS_PER_PORT,
    ;

    /// Make the pin output LOW.
    fn set_low(&mut self, regs: &mut RegisterFile)
        ensures
            *final(self) == *old(self),
            final(regs).mem() == driven_low(
                old(regs).mem(),
                old(self).port_no(),
                old(self).pin_no(),
            ),
            final(regs).writes() == old(regs).writes().push(
                (
                    pcntr1_address(old(self).port_no()),
                    low_word(old(regs).mem(), old(self).port_no(), old(self).pin_no()),
                ),
            ),
            !output_is_high(final(regs).mem(), old(self).port_no(), old(self).pin_no()),            old(self).port_no() < NUM_PORTS,
            old(self).pin_no() < PINS_PER_PORT,
    ;

    /// Set the pin status.
    fn set(&mut self, regs: &mut RegisterFile, status: PinStatus)
        ensures
            *final(self) == *old(self),
            status == PinStatus::High ==> final(regs).mem() == driven_high(
                old(regs).mem(),
                old(self).port_no(),
                old(self).pin_no(),
            ),
            status == PinStatus::Low ==> final(regs).mem() == driven_low(
                old(regs).mem(),
                old(self).port_no(),
                old(self).pin_no(),
            ),
            final(regs).writes() == old(regs).writes().push(
                (
                    pcntr1_address(old(self).port_no()),
                    if status == PinStatus::High {
                        high_word(old(regs).mem(), old(self).port_no(), old(self).pin_no())
                    } else {
                        low_word(old(regs).mem(), old(self).port_no(), old(self).pin_no())
                    },
                ),
            ),
            output_is_high(final(regs).mem(), old(self).port_no(), old(self).pin_no()) == (status
                == PinStatus::High),
            old(self).port_no() < NUM_PORTS,
            old(self).pin_no() < PINS_PER_PORT,
    {
        match status {
            PinStatus::Low => self.set_low(regs),
            PinStatus::High => self.set_high(regs),
        }
    }

    /// Toggle the output of the pin.
    fn toggle(&mut self, regs: &mut RegisterFile)
        ensures
            *final(self) == *old(self),
            final(regs).mem() == toggled(old(regs).mem(), old(self).port_no(), old(self).pin_no()),
            final(regs).writes() == old(regs).writes().push(
                (
                    pcntr1_address(old(self).port_no()),
                    toggled_word(old(regs).mem(), old(self).port_no(), old(self).pin_no()),
                ),
            ),
            output_is_high(final(regs).mem(), old(self).port_no(), old(self).pin_no())
                == !output_is_high(old(regs).mem(), old(self).port_no(), old(self).pin_no()),            old(self).port_no() < NUM_PORTS,
            old(self).pin_no() < PINS_PER_PORT,
    ;
}

/// An input pin.
pub trait InputPin: Pin {
    /// Whether the pin's pull-up resistor is enabled.
    spec fn pullup_enabled(&self) -> bool;

    /// Returns true if this pin has a pull-up.
    fn is_input_pullup(&self) -> (r: bool)
        ensures
            r == self.pullup_enabled(),
    ;

    /// Returns true if this pin receives HIGH voltage.
    fn is_high(&self, regs: &RegisterFile) -> (r: bool)
        ensures
            r == input_is_high(regs.mem(), self.port_no(), self.pin_no()),
            self.port_no() < NUM_PORTS,
            self.pin_no() < PINS_PER_PORT,
    ;

    /// Returns true if this pin receives LOW voltage.
    fn is_low(&self, regs: &RegisterFile) -> (r: bool)
        ensures
            r == !input_is_high(regs.mem(), self.port_no(), self.pin_no()),
    {
        !self.is_high(regs)
    }

    /// Return the input status.
    fn get_status(&self, regs: &RegisterFile) -> (r: PinStatus)
        ensures
            r == (if input_is_high(regs.mem(), self.port_no(), self.pin_no()) {
                PinStatus::High
            } else {
                PinStatus::Low
            }),
    {
        if self.is_high(regs) {
            PinStatus::High
        } else {
            PinStatus::Low
        }
    }
}

/// An input pin with a pull-up resistor.
///
/// The value read on an input pin may fluctuate if it is not connected to
/// anything. A pull-up resistor makes the pin read HIGH in that situation; it
/// only reads LOW when connected to ground.
pub trait InputPullupPin: InputPin {
    /// The pull-up of such a pin is enabled.
    proof fn lemma_pullup_enabled(&self)
        ensures
            self.pullup_enabled(),
    ;
}

impl<M: PinMode> Pin for GpioPin<M> {
    closed spec fn port_no(&self) -> u32 {
        self.function_select.port
    }

    closed spec fn pin_no(&self) -> u32 {
        self.function_select.pin
    }
}

impl GpioPin<PinModeUnknown> {
    /// "Forget" the configuration of this pin; the hardware is left as it is.
    pub fn into_unknown(self) -> (r: GpioPin<PinModeUnknown>)
        ensures
            r.port_no() == self.port_no(),
            r.pin_no() == self.pin_no(),
    {
        proof {
            use_type_invariant(&self);
        }
        GpioPin::new(self.function_select.port, self.function_select.pin)
    }

    /// Configure this pin into an output pin.
    pub fn into_output(self, regs: &mut RegisterFile) -> (r: GpioPin<PinModeOutput>)
        ensures
            r.port_no() == self.port_no(),
            r.pin_no() == self.pin_no(),
            final(regs).mem() == configured(
                old(regs).mem(),
                self.port_no(),
                self.pin_no(),
                PFS_OUTPUT,
            ),
            final(regs).writes() == old(regs).writes() + configuration_writes(
                self.port_no(),
                self.pin_no(),
                PFS_OUTPUT,
            ),
    {
        proof {
            use_type_invariant(&self);
        }
        self.function_select.set_to_output(regs);
        GpioPin::new(self.function_select.port, self.function_select.pin)
    }

    /// Configure this pin into an input pin.
    pub fn into_input(self, regs: &mut RegisterFile) -> (r: GpioPin<PinModeInput>)
        ensures
            r.port_no() == self.port_no(),
            r.pin_no() == self.pin_no(),
            final(regs).mem() == configured(
                old(regs).mem(),
                self.port_no(),
                self.pin_no(),
                PFS_INPUT,
            ),
            final(regs).writes() == old(regs).writes() + configuration_writes(
                self.port_no(),
                self.pin_no(),
                PFS_INPUT,
            ),
    {
        proof {
            use_type_invariant(&self);
        }
        self.function_select.set_to_input(regs);
        GpioPin::new(self.function_select.port, self.function_select.pin)
    }

    /// Configure this pin into an input pin with pull-up.
    pub fn into_input_pullup(self, regs: &mut RegisterFile) -> (r: GpioPin<PinModeInputPullup>)
        ensures
            r.port_no() == self.port_no(),
            r.pin_no() == self.pin_no(),
            final(regs).mem() == configured(
                old(regs).mem(),
                self.port_no(),
                self.pin_no(),
                PFS_INPUT_PULLUP,
            ),
            final(regs).writes() == old(regs).writes() + configuration_writes(
                self.port_no(),
                self.pin_no(),
                PFS_INPUT_PULLUP,
            ),
    {
        proof {
            use_type_invariant(&self);
        }
        self.function_select.set_to_input_pullup(regs);
        GpioPin::new(self.function_select.port, self.function_select.pin)
    }
}

impl OutputPin for GpioPin<PinModeOutput> {
    fn is_set_high(&self, regs: &RegisterFile) -> (r: bool) {
        proof {
            use_type_invariant(self);
        }
        self.port_control.pin_is_set_high(regs, self.function_select.pin)
    }

    fn set_high(&mut self, regs: &mut RegisterFile) {
        proof {
            use_type_invariant(&*self);
            lemma_output_bit(
                regs.word(pcntr1_address(self.function_select.port)),
                self.function_select.pin,
            );
        }
        self.port_control.set_pin_high(regs, self.function_select.pin);
    }

    fn set_low(&mut self, regs: &mut RegisterFile) {
        proof {
            use_type_invariant(&*self);
            lemma_output_bit(
                regs.word(pcntr1_address(self.function_select.port)),
                self.function_select.pin,
            );
        }
        self.port_control.set_pin_low(regs, self.function_select.pin);
    }

    fn toggle(&mut self, regs: &mut RegisterFile) {
        proof {
            use_type_invariant(&*self);
            lemma_output_bit(
                regs.word(pcntr1_address(self.function_select.port)),
                self.function_select.pin,
            );
        }
        self.port_control.toggle_pin_output(regs, self.function_select.pin);
    }
}

impl InputPin for GpioPin<PinModeInput> {
    open spec fn pullup_enabled(&self) -> bool {
        false
    }

    fn is_input_pullup(&self) -> (r: bool) {
        false
    }

    fn is_high(&self, regs: &RegisterFile) -> (r: bool) {
        proof {
            use_type_invariant(self);
        }
        self.port_control.pin_is_high(regs, self.function_select.pin)
    }
}

impl InputPin for GpioPin<PinModeInputPullup> {
    open spec fn pullup_enabled(&self) -> bool {
        true
    }

    fn is_input_pullup(&self) -> (r: bool) {
        true
    }

    fn is_high(&self, regs: &RegisterFile) -> (r: bool) {
        proof {
            use_type_invariant(self);
        }
        self.port_control.pin_is_high(regs, self.function_select.pin)
    }
}

impl InputPullupPin for GpioPin<PinModeInputPullup> {
    proof fn lemma_pullup_enabled(&self) {
    }
}

/// The pins of port 0, each in an unknown configuration.
pub struct Port0Pins {
    pub p000: GpioPin<PinModeUnknown>,
    pub p001: GpioPin<PinModeUnknown>,
    pub p002: GpioPin<PinModeUnknown>,
    pub p014: GpioPin<PinModeUnknown>,
}

/// I/O port 0.
pub struct Port0 {
    private: (),
}

impl Port0 {
    pub(crate) fn new() -> Self {
        Port0 { private: () }
    }

    /// Split up the port and return a struct with the individual pins.
    pub fn split(self) -> (r: Port0Pins)
        ensures
            r.p000.is_at(0, 0),
            r.p001.is_at(0, 1),
            r.p002.is_at(0, 2),
            r.p014.is_at(0, 14),
    {
        Port0Pins {
            p000: GpioPin::new(0, 0),
            p001: GpioPin::new(0, 1),
            p002: GpioPin::new(0, 2),
            p014: GpioPin::new(0, 14),
        }
    }
}

/// The pins of port 1, each in an unknown configuration.
pub struct Port1Pins {
    pub p100: GpioPin<PinModeUnknown>,
    pub p101: GpioPin<PinModeUnknown>,
    pub p102: GpioPin<PinModeUnknown>,
    pub p103: GpioPin<PinModeUnknown>,
    pub p104: GpioPin<PinModeUnknown>,
    pub p105: GpioPin<PinModeUnknown>,
    pub p106: GpioPin<PinModeUnknown>,
    pub p107: GpioPin<PinModeUnknown>,
    pub p111: GpioPin<PinModeUnknown>,
    pub p112: GpioPin<PinModeUnknown>,
}

/// I/O port 1.
pub struct Port1 {
    private: (),
}

impl Port1 {
    pub(crate) fn new() -> Self {
        Port1 { private: () }
    }

    /// Split up the port and return a struct with the individual pins.
    pub fn split(self) -> (r: Port1Pins)
        ensures
            r.p100.is_at(1, 0),
            r.p101.is_at(1, 1),
            r.p102.is_at(1, 2),
            r.p103.is_at(1, 3),
            r.p104.is_at(1, 4),
            r.p105.is_at(1, 5),
            r.p106.is_at(1, 6),
            r.p107.is_at(1, 7),
            r.p111.is_at(1, 11),
            r.p112.is_at(1, 12),
    {
        Port1Pins {
            p100: GpioPin::new(1, 0),
            p101: GpioPin::new(1, 1),
            p102: GpioPin::new(1, 2),
            p103: GpioPin::new(1, 3),
            p104: GpioPin::new(1, 4),
            p105: GpioPin::new(1, 5),
            p106: GpioPin::new(1, 6),
            p107: GpioPin::new(1, 7),
            p111: GpioPin::new(1, 11),
            p112: GpioPin::new(1, 12),
        }
    }
}

/// The pins of port 3, each in an unknown configuration.
pub struct Port3Pins {
    pub p301: GpioPin<PinModeUnknown>,
    pub p302: GpioPin<PinModeUnknown>,
    pub p303: GpioPin<PinModeUnknown>,
    pub p304: GpioPin<PinModeUnknown>,
}

/// I/O port 3.
pub struct Port3 {
    private: (),
}

impl Port3 {
    pub(crate) fn new() -> Self {
        Port3 { private: () }
    }

    /// Split up the port and return a struct with the individual pins.
    pub fn split(self) -> (r: Port3Pins)
        ensures
            r.p301.is_at(3, 1),
            r.p302.is_at(3, 2),
            r.p303.is_at(3, 3),
            r.p304.is_at(3, 4),
    {
        Port3Pins {
            p301: GpioPin::new(3, 1),
            p302: GpioPin::new(3, 2),
            p303: GpioPin::new(3, 3),
            p304: GpioPin::new(3, 4),
        }
    }
}

/// The pins of port 4, each in an unknown configuration.
pub struct Port4Pins {
    pub p410: GpioPin<PinModeUnknown>,
    pub p411: GpioPin<PinModeUnknown>,
}

/// I/O port 4.
pub struct Port4 {
    private: (),
}

impl Port4 {
    pub(crate) fn new() -> Self {
        Port4 { private: () }
    }

    /// Split up the port and return a struct with the individual pins.
    pub fn split(self) -> (r: Port4Pins)
        ensures
            r.p410.is_at(4, 10),
            r.p411.is_at(4, 11),
    {
        Port4Pins {
            p410: GpioPin::new(4, 10),
            p411: GpioPin::new(4, 11),
        }
    }
}

/// Pins that are exposed on the Arduino board, by their silkscreen names:
/// digital pins `d0` to `d13` and analog pins `a0` to `a5`.
///
/// Pin d13 controls the LED.
pub struct ArduinoPins {
    pub d0: GpioPin<PinModeUnknown>,
    pub d1: GpioPin<PinModeUnknown>,
    pub d2: GpioPin<PinModeUnknown>,
    pub d3: GpioPin<PinModeUnknown>,
    pub d4: GpioPin<PinModeUnknown>,
    pub d5: GpioPin<PinModeUnknown>,
    pub d6: GpioPin<PinModeUnknown>,
    pub d7: GpioPin<PinModeUnknown>,
    pub d8: GpioPin<PinModeUnknown>,
    pub d9: GpioPin<PinModeUnknown>,
    pub d10: GpioPin<PinModeUnknown>,
    pub d11: GpioPin<PinModeUnknown>,
    pub d12: GpioPin<PinModeUnknown>,
    pub d13: GpioPin<PinModeUnknown>,
    pub a0: GpioPin<PinModeUnknown>,
    pub a1: GpioPin<PinModeUnknown>,
    pub a2: GpioPin<PinModeUnknown>,
    pub a3: GpioPin<PinModeUnknown>,
    pub a4: GpioPin<PinModeUnknown>,
    pub a5: GpioPin<PinModeUnknown>,
}

impl ArduinoPins {
    /// Each board pin is the physical pin that the board wires it to.
    pub open spec fn wired(&self) -> bool {
        &&& self.d0.is_at(3, 1)
        &&& self.d1.is_at(3, 2)
        &&& self.d2.is_at(1, 4)
        &&& self.d3.is_at(1, 5)
        &&& self.d4.is_at(1, 6)
        &&& self.d5.is_at(1, 7)
        &&& self.d6.is_at(1, 11)
        &&& self.d7.is_at(1, 12)
        &&& self.d8.is_at(3, 4)
        &&& self.d9.is_at(3, 3)
        &&& self.d10.is_at(1, 3)
        &&& self.d11.is_at(4, 11)
        &&& self.d12.is_at(4, 10)
        &&& self.d13.is_at(1, 2)
        &&& self.a0.is_at(0, 14)
        &&& self.a1.is_at(0, 0)
        &&& self.a2.is_at(0, 1)
        &&& self.a3.is_at(0, 2)
        &&& self.a4.is_at(1, 1)
        &&& self.a5.is_at(1, 0)
    }
}

/// The bundle of all I/O ports of the board.
pub struct Ports {
    pub(crate) port0: Port0,
    pub(crate) port1: Port1,
    pub(crate) port3: Port3,
    pub(crate) port4: Port4,
}

/// Get the pins that are exposed on the Arduino board.
///
/// The port bundle is handed out once: the first call obtains it and splits it
/// into pins, every later call returns `None`.
pub fn get_pins(peripherals: &mut Peripherals) -> (r: Option<ArduinoPins>)
    ensures
        (r.is_some(), final(peripherals).ports_available()) == take_once(
            old(peripherals).ports_available(),
        ),
        final(peripherals).systick_available() == old(peripherals).systick_available(),
        r matches Some(pins) ==> pins.wired(),
{
    let ports = match peripherals.take_ports() {
        Some(ports) => ports,
        None => return None,
    };
    let port0_pins = ports.port0.split();
    let port1_pins = ports.port1.split();
    let port3_pins = ports.port3.split();
    let port4_pins = ports.port4.split();
    Some(ArduinoPins {
        d0: port3_pins.p301,
        d1: port3_pins.p302,
        d2: port1_pins.p104,
        d3: port1_pins.p105,
        d4: port1_pins.p106,
        d5: port1_pins.p107,
        d6: port1_pins.p111,
        d7: port1_pins.p112,
        d8: port3_pins.p304,
        d9: port3_pins.p303,
        d10: port1_pins.p103,
        d11: port4_pins.p411,
        d12: port4_pins.p410,
        d13: port1_pins.p102,
        a0: port0_pins.p014,
        a1: port0_pins.p000,
        a2: port0_pins.p001,
        a3: port0_pins.p002,
        a4: port1_pins.p101,
        a5: port1_pins.p100,
    })
}

} // verus!
