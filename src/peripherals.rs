//! The memory-mapped peripherals of the board.
pub mod pins;
pub mod registers;
pub mod systick;


use crate::peripherals::pins::{Port0, Port1, Port3, Port4, Ports};
use vstd::prelude::*;

verus! {

/// The board's peripherals that can be handed out once each: the bundle of
/// I/O ports and the SysTick timer.
///
/// A program creates one value of this type at startup and takes its
/// peripherals from it (see `pins::get_pins` and `systick::SysTick::instance`);
/// every later request for a peripheral already taken finds it absent.
pub struct Peripherals {
    ports: Option<Ports>,
    systick_created: bool,
}

impl Peripherals {
    /// Whether the port bundle is still there to be taken.
    pub closed spec fn ports_available(&self) -> bool {
        self.ports.is_some()
    }

    /// Whether the SysTick timer is still there to be taken.
    pub closed spec fn systick_available(&self) -> bool {
        !self.systick_created
    }

    /// Takes the port bundle, if it is still there.
    pub(crate) fn take_ports(&mut self) -> (r: Option<Ports>)
        ensures
            (r.is_some(), final(self).ports_available()) == take_once(old(self).ports_available()),
            final(self).systick_available() == old(self).systick_available(),
    {
        self.ports.take()
    }

    /// Takes the SysTick timer: whether it was still there.
    pub(crate) fn take_systick(&mut self) -> (r: bool)
        ensures
            (r, final(self).systick_available()) == take_once(old(self).systick_available()),
            final(self).ports_available() == old(self).ports_available(),
    {
        let available = !self.systick_created;
        self.systick_created = true;
        available
    }

    /// All peripherals of the board, none taken yet.
    ///
    /// A program creates exactly one, at startup, and passes it to the code
    /// that takes the peripherals: each value hands out its own port bundle
    /// and timer, so a second value would hand out every pin again.
    pub fn new() -> (r: Peripherals)
        ensures
            r.ports_available(),
            r.systick_available(),
    {
        Peripherals {
            ports: Some(
                Ports {
                    port0: Port0::new(),
                    port1: Port1::new(),
                    port3: Port3::new(),
                    port4: Port4::new(),
                },
            ),
            systick_created: false,
        }
    }
}

/// The outcome of a request for a peripheral that is handed out once, given
/// whether it was still available: whether the request obtains it, and whether
/// it is available afterwards.
pub open spec fn take_once(available: bool) -> (bool, bool) {
    (available, false)
}

/// A peripheral is handed out at most once: a request finds it if and only if it
/// was available, after any request it is gone, and so a second request always
/// finds it absent, whatever the first one found.
pub proof fn lemma_take_once(available: bool)
    ensures
        take_once(available).0 == available,
        !take_once(take_once(available).1).0,
        take_once(take_once(available).1).1 == take_once(available).1,
{
}

} // verus!
