//! The host capability boundary.
//!
//! The host supplies five operations by name. Each takes and returns 32-bit
//! unsigned integers only. Here each operation is a value of [`HostCall`]; the
//! functions of this module build them, one function per imported symbol. This
//! layer validates nothing: a pin or a mode that the host does not know is the
//! host's to deal with.

use vstd::prelude::*;

verus! {

/// Signal level: the line is driven low.
pub const LOW: u32 = 0;

/// Signal level: the line is driven high.
pub const HIGH: u32 = 1;

/// Pin mode: high-impedance input.
pub const INPUT: u32 = 0x0;

/// Pin mode: push-pull output. The only mode in which a pin may be written.
pub const OUTPUT: u32 = 0x1;

/// Pin mode: input with the internal pull-up enabled.
pub const INPUT_PULLUP: u32 = 0x2;

/// One request to the host.
#[derive(Clone, Copy, Debug, PartialEq, Eq, Structural)]
pub enum HostCall {
    /// Read the millisecond counter.
    Millis,
    /// Block for at least `ms` milliseconds.
    Delay { ms: u32 },
    /// Set the electrical mode of `pin`.
    PinMode { pin: u32, mode: u32 },
    /// Drive `pin` to `value`.
    DigitalWrite { pin: u32, value: u32 },
    /// Ask for the identifier of the built-in indicator pin.
    GetPinLed,
}

/// The request for the current value of the millisecond counter.
pub fn millis() -> (call: HostCall)
    ensures
        call == HostCall::Millis,
{
    HostCall::Millis
}

/// The request to block for `ms` milliseconds.
pub fn delay(ms: u32) -> (call: HostCall)
    ensures
        call == (HostCall::Delay { ms }),
{
    HostCall::Delay { ms }
}

/// The request to put `pin` into `mode`.
pub fn pin_mode(pin: u32, mode: u32) -> (call: HostCall)
    ensures
        call == (HostCall::PinMode { pin, mode }),
{
    HostCall::PinMode { pin, mode }
}

/// The request to drive `pin` to `value`.
pub fn digital_write(pin: u32, value: u32) -> (call: HostCall)
    ensures
        call == (HostCall::DigitalWrite { pin, value }),
{
    HostCall::DigitalWrite { pin, value }
}

/// The request for the host's built-in indicator pin.
pub fn get_pin_led() -> (call: HostCall)
    ensures
        call == HostCall::GetPinLed,
{
    HostCall::GetPinLed
}

} // verus!
