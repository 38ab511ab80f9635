//! The error of the transceiver: the error of one of its two collaborators.

use embedded_io_async::ErrorKind;
use vstd::prelude::*;

verus! {

/// `embedded_io_async::ErrorKind`, the classes into which `embedded-io` sorts
/// the errors of a byte stream. The enum is declared with its variants, all of
/// them without fields, so that contracts can name `ErrorKind::Other`. Nothing
/// else is taken on trust about it.
#[verifier::external_type_specification]
pub struct ExErrorKind(ErrorKind);

/// A failure of the serial port or of the direction pin, with the error that
/// the collaborator gave.
///
/// The transceiver has no failures of its own.
#[derive(Debug)]
pub enum Error<S, P> {
    /// The serial port failed.
    Serial(S),
    /// The direction pin failed.
    Pin(P),
}

impl<S, P> Error<S, P> {
    /// The class of the error.
    ///
    /// An error of the serial port has the class that the serial port gives
    /// it: `classify` is asked, and its answer is returned. An error of the
    /// pin has no class among those of a byte stream and is
    /// `ErrorKind::Other`, whatever the pin reported; `classify` is not
    /// called.
    pub fn kind<F>(&self, classify: F) -> (kind: ErrorKind) where F: FnOnce(&S) -> ErrorKind
        requires
            self matches Error::Serial(serial) ==> classify.requires((&serial,)),
        ensures
            match self {
                Error::Serial(serial) => classify.ensures((serial,), kind),
                Error::Pin(_) => kind == ErrorKind::Other,
            },
    {
        match self {
            Error::Serial(serial) => classify(serial),
            Error::Pin(_) => ErrorKind::Other,
        }
    }
}

} // verus!
