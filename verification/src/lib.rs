//! Bare-metal I2C master bring-up, verified against a register-level model.
//!
//! The library models each peripheral register block (clock gating, GPIO
//! port, timer, I2C controller) as a struct of plain register words, and
//! implements the power-on-to-address-phase sequence over that model:
//! clock gating, alternate-function pin setup, timing-register programming
//! derived from the bus clock, and the START/address protocol handshake
//! driven by bounded status polling.

use vstd::prelude::*;

pub mod gpio;
pub mod i2c;
pub mod regs;
pub mod sequencer;
pub mod timer;

verus! {

/// Bound on every status poll: how often a flag is peeked at before the
/// wait expires into a typed failure.  The simulated hardware answers a
/// request before the first peek or never, so any positive bound decides.
pub const POLL_LIMIT: u32 = 16;

/// Failure of a bounded wait on a hardware status flag.
///
/// The hardware reports progress only through status bits, so every wait is
/// a bounded poll; when the polled flag never rises the wait yields one of
/// these instead of hanging.
#[derive(Clone, Copy, Debug, PartialEq, Eq, Structural)]
pub enum DriverError {
    /// The START condition was never observed as generated on the bus.
    BusNotReady,
    /// The addressed slave never acknowledged the address byte.
    AddressNack,
    /// The free-running timer never reported an update event.
    TimerStalled,
}

} // verus!
