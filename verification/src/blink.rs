//! The control program: configure the pin once, then blink it for ever.
//!
//! The program is a small automaton. A [`Stage`] says which request comes
//! next; [`Stage::advance`] hands that request out and moves on. An internal
//! fault leads to [`Stage::Halted`], from which nothing is requested again.

use vstd::prelude::*;
use crate::arduino_api::{HostCall, HIGH, LOW, OUTPUT, pin_mode, digital_write, delay};

verus! {

/// The pin that the program drives.
pub const LED: u32 = 19;

/// How long the pin is held high in each cycle, in milliseconds.
pub const ON_MS: u32 = 100;

/// How long the pin is held low in each cycle, in milliseconds.
pub const OFF_MS: u32 = 900;

/// Where the program stands: the request it makes next.
#[derive(Clone, Copy, Debug, PartialEq, Eq, Structural)]
pub enum Stage {
    /// Nothing has happened yet; the pin is to be configured.
    Boot,
    /// The pin is to be driven high.
    Raise,
    /// The pin is high and is to be held for the on-duration.
    HoldOn,
    /// The pin is to be driven low.
    Lower,
    /// The pin is low and is to be held for the off-duration.
    HoldOff,
    /// An internal fault has occurred; the program idles for ever.
    Halted,
}

/// What the driver reports to the program.
#[derive(Clone, Copy, Debug, PartialEq, Eq, Structural)]
pub enum Event {
    /// The program may go on: it has just started, or the host has returned.
    Proceed,
    /// An internal fault has occurred.
    Fault,
}

/// The request that setup makes.
pub open spec fn setup_call() -> HostCall {
    HostCall::PinMode { pin: LED, mode: OUTPUT }
}

/// The four requests of one cycle, in order.
pub open spec fn cycle_calls() -> Seq<HostCall> {
    seq![
        HostCall::DigitalWrite { pin: LED, value: HIGH },
        HostCall::Delay { ms: ON_MS },
        HostCall::DigitalWrite { pin: LED, value: LOW },
        HostCall::Delay { ms: OFF_MS },
    ]
}

/// One-time setup: the designated pin becomes an output.
pub fn setup() -> (call: HostCall)
    ensures
        call == setup_call(),
{
    pin_mode(LED, OUTPUT)
}

/// One cycle: drive the pin high, hold, drive it low, hold.
pub fn run() -> (calls: [HostCall; 4])
    ensures
        calls@ == cycle_calls(),
{
    let calls = [
        digital_write(LED, HIGH),
        delay(ON_MS),
        digital_write(LED, LOW),
        delay(OFF_MS),
    ];
    assert(calls@ =~= cycle_calls());
    calls
}

/// The fault handler: wherever the program stood, it is halted from now on.
pub fn handle_panic(_stage: Stage) -> (halted: Stage)
    ensures
        halted == Stage::Halted,
{
    Stage::Halted
}

impl Stage {
    /// The request that the program makes at this stage, if it makes one.
    pub open spec fn pending(self) -> Option<HostCall> {
        match self {
            Stage::Boot => Some(setup_call()),
            Stage::Raise => Some(cycle_calls()[0]),
            Stage::HoldOn => Some(cycle_calls()[1]),
            Stage::Lower => Some(cycle_calls()[2]),
            Stage::HoldOff => Some(cycle_calls()[3]),
            Stage::Halted => None,
        }
    }

    /// The stage that follows once the pending request has been made.
    pub open spec fn successor(self) -> Stage {
        match self {
            Stage::Boot => Stage::Raise,
            Stage::Raise => Stage::HoldOn,
            Stage::HoldOn => Stage::Lower,
            Stage::Lower => Stage::HoldOff,
            Stage::HoldOff => Stage::Raise,
            Stage::Halted => Stage::Halted,
        }
    }

    /// The stage after `event`.
    pub open spec fn step_stage(self, event: Event) -> Stage {
        match event {
            Event::Proceed => self.successor(),
            Event::Fault => Stage::Halted,
        }
    }

    /// The request made in answer to `event`.
    pub open spec fn step_call(self, event: Event) -> Option<HostCall> {
        match event {
            Event::Proceed => self.pending(),
            Event::Fault => None,
        }
    }

    /// The stage in which the program starts.
    pub fn boot() -> (stage: Stage)
        ensures
            stage == Stage::Boot,
    {
        Stage::Boot
    }

    /// Whether the program has halted.
    pub fn is_halted(&self) -> (b: bool)
        ensures
            b == (*self == Stage::Halted),
    {
        match self {
            Stage::Halted => true,
            _ => false,
        }
    }

    /// One step of the program: the stage after `event`, and the request to
    /// perform before the next step, if there is one.
    pub fn advance(self, event: Event) -> (next: (Stage, Option<HostCall>))
        ensures
            next.0 == self.step_stage(event),
            next.1 == self.step_call(event),
    {
        match event {
            Event::Fault => (handle_panic(self), None),
            Event::Proceed => match self {
                Stage::Boot => (Stage::Raise, Some(setup())),
                Stage::Raise => (Stage::HoldOn, Some(run()[0])),
                Stage::HoldOn => (Stage::Lower, Some(run()[1])),
                Stage::Lower => (Stage::HoldOff, Some(run()[2])),
                Stage::HoldOff => (Stage::Raise, Some(run()[3])),
                Stage::Halted => (Stage::Halted, None),
            },
        }
    }
}

} // verus!
