//! The owner of the two collaborators.

use vstd::prelude::*;

verus! {

/// A transceiver: a serial port and the pin that sets its direction.
///
/// The adapter owns both for as long as it lives. It hands them back together,
/// and lets the serial port alone be reconfigured in place.
pub struct Max485<RIDO, REDE> {
    serial: RIDO,
    pin: REDE,
}

impl<RIDO, REDE> View for Max485<RIDO, REDE> {
    type V = (RIDO, REDE);

    /// The serial port and the pin that the adapter owns.
    closed spec fn view(&self) -> (RIDO, REDE) {
        (self.serial, self.pin)
    }
}

impl<RIDO, REDE> Max485<RIDO, REDE> {
    /// The adapter that owns `serial` and `pin`.
    pub closed spec fn combine(serial: RIDO, pin: REDE) -> Self {
        Max485 { serial, pin }
    }

    /// Combines a serial port and a direction pin. Neither is touched.
    pub fn new(serial: RIDO, pin: REDE) -> (adapter: Self)
        ensures
            adapter == Self::combine(serial, pin),
            adapter@ == (serial, pin),
    {
        Self { serial, pin }
    }

    /// Ends the adapter and hands back the serial port and the pin, as they
    /// are.
    pub fn take_peripherals(self) -> (parts: (RIDO, REDE))
        ensures
            parts == self@,
    {
        (self.serial, self.pin)
    }

    /// Applies `config` to the serial port, in place. The pin is not shown to
    /// `config` and stays as it is.
    pub fn reconfig_port<F>(&mut self, config: F) where F: Fn(&mut RIDO)
        requires
            forall|port: &mut RIDO| *port == old(self)@.0 ==> config.requires((port,)),
        ensures
            final(self)@.1 == old(self)@.1,
            exists|port: &mut RIDO|
                *port == old(self)@.0 && *final(port) == final(self)@.0 && config.ensures(
                    (port,),
                    (),
                ),
    {
        config(&mut self.serial);
    }

    /// Taking apart what was combined gives back the same serial port and the
    /// same pin.
    pub proof fn lemma_combine_then_take(serial: RIDO, pin: REDE)
        ensures
            Self::combine(serial, pin)@ == (serial, pin),
    {
    }

    /// Combining what was taken apart gives back the same adapter: it holds
    /// nothing but its two parts.
    pub proof fn lemma_take_then_combine(self)
        ensures
            Self::combine(self@.0, self@.1) == self,
    {
    }
}

} // verus!
