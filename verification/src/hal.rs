//! Capabilities the driver needs from its environment.
//!
//! The device sits on a two-wire serial bus and requires mandatory waits for
//! its conversion times. Both are supplied by the caller as implementations
//! of these traits. Nothing can be promised about what a physical bus
//! returns, so the trait methods carry no contracts; the driver states what
//! holds of its own state and results whatever the bus answers.

use vstd::prelude::*;

verus! {

/// A synchronous register-level channel to the device.
///
/// Every access the device defines is either a write of a register address
/// followed by one value byte, or a write of a register address followed
/// immediately by a one-byte read, with no intervening bus release.
pub trait BusTransport {
    /// Transport-specific failure, surfaced verbatim to the caller.
    type BusError;

    /// Write `value` to `register` of the device at `address`.
    fn write_register(&mut self, address: u8, register: u8, value: u8) -> Result<
        (),
        Self::BusError,
    >;

    /// Read one byte from `register` of the device at `address`.
    fn read_register(&mut self, address: u8, register: u8) -> Result<u8, Self::BusError>;
}

/// A blocking delay source for the device's mandatory conversion times.
pub trait WaitSource {
    /// Suspend the calling context for at least `ms` milliseconds.
    fn delay_ms(&mut self, ms: u32);

    /// Suspend the calling context for at least `us` microseconds.
    fn delay_us(&mut self, us: u32);
}

} // verus!
