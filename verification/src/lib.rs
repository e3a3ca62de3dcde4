//! A one-pin blinker written as a state machine.
//!
//! The program drives a single digital output on a fixed on/off duty cycle. It
//! owns no hardware: every effect is a request to the host, described by a
//! [`arduino_api::HostCall`]. The driver around this library performs each request and
//! asks for the next one.
//!
//! * [`arduino_api`]: the operations that the host supplies, as values, and the
//!   integer codes they share.
//! * [`blink`]: the control program: setup, one cycle, the fault handler and
//!   the step function that strings them together.
//! * [`timeline`]: what an execution is, and what holds of every execution.

pub mod arduino_api;
pub mod blink;
pub mod timeline;
