//! Sharing a handful of physical GPIO lines among many remote sessions: a
//! lazily filled pin-to-line registry with idempotent, single-creation
//! acquisition; a polling read session; and a two-phase write protocol that
//! binds a pin with its first message and applies values, in arrival order,
//! with every later one.

use vstd::prelude::*;

pub mod protocol;
pub mod registry;
pub mod session;

verus! {

/// The failures a session can report to its client. Every failure is scoped
/// to the one session that met it; no failure corrupts the registry or
/// another session.
#[derive(Clone, Copy, PartialEq, Eq, Structural, Debug)]
pub enum GpioError {
    /// The hardware controller device cannot be opened at startup.
    StartupFailure,
    /// A pin's line cannot be acquired (claimed elsewhere, invalid number).
    LineAcquisition,
    /// A write stream broke the bind-then-apply handshake.
    ProtocolViolation,
    /// A get-value or set-value call failed on an acquired line.
    HardwareIo,
}

impl GpioError {
    /// The human-readable reason a client sees with its terminal error
    /// status.
    pub fn describe(&self) -> (r: String)
        ensures
            *self is StartupFailure ==> r@ == "cannot open the gpio chip device"@,
            *self is LineAcquisition ==> r@ == "cannot acquire the gpio line"@,
            *self is ProtocolViolation ==> r@ == "expected a pin number first, then values only"@,
            *self is HardwareIo ==> r@ == "cannot operate the gpio pin"@,
    {
        match self {
            GpioError::StartupFailure => "cannot open the gpio chip device".to_owned(),
            GpioError::LineAcquisition => "cannot acquire the gpio line".to_owned(),
            GpioError::ProtocolViolation => "expected a pin number first, then values only".to_owned(),
            GpioError::HardwareIo => "cannot operate the gpio pin".to_owned(),
        }
    }
}

} // verus!
