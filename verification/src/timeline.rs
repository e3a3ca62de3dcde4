//! Executions of the program, and what holds of all of them.
//!
//! An execution is the sequence of events that the driver reported, starting
//! from boot. From it follow the stage that the program has reached and the
//! requests that it has made: its trace. Time is read off the trace: a delay
//! of `ms` lasts exactly `ms` milliseconds and every other request takes none.

use vstd::prelude::*;
use crate::blink::{Event, Stage, LED, ON_MS, OFF_MS, setup_call, cycle_calls};
use crate::arduino_api::{HostCall, HIGH, LOW, OUTPUT};

verus! {

/// The stage that the program has reached, from boot, after `events`.
pub open spec fn stage_after(events: Seq<Event>) -> Stage
    decreases events.len(),
{
    if events.len() == 0 {
        Stage::Boot
    } else {
        stage_after(events.drop_last()).step_stage(events.last())
    }
}

/// The requests that the program has made, from boot, in answer to `events`.
pub open spec fn calls(events: Seq<Event>) -> Seq<HostCall>
    decreases events.len(),
{
    if events.len() == 0 {
        Seq::empty()
    } else {
        let before = events.drop_last();
        match stage_after(before).step_call(events.last()) {
            Some(call) => calls(before).push(call),
            None => calls(before),
        }
    }
}

/// Whether no fault occurs in `events`.
pub open spec fn fault_free(events: Seq<Event>) -> bool {
    forall|i: int| 0 <= i < events.len() ==> events[i] == Event::Proceed
}

/// The request with index `i` of the undisturbed program: setup first, then
/// the cycle over and over.
pub open spec fn nth_call(i: nat) -> HostCall {
    if i == 0 {
        setup_call()
    } else {
        cycle_calls()[(i - 1) % 4]
    }
}

/// The first `n` requests of the undisturbed program.
pub open spec fn script(n: nat) -> Seq<HostCall> {
    Seq::new(n, |i: int| nth_call(i as nat))
}

/// The stage of the undisturbed program once it has made `n` requests.
pub open spec fn stage_at(n: nat) -> Stage {
    if n == 0 {
        Stage::Boot
    } else if (n - 1) % 4 == 0 {
        Stage::Raise
    } else if (n - 1) % 4 == 1 {
        Stage::HoldOn
    } else if (n - 1) % 4 == 2 {
        Stage::Lower
    } else {
        Stage::HoldOff
    }
}

/// The length of one cycle in milliseconds.
pub open spec fn period() -> nat {
    (ON_MS + OFF_MS) as nat
}

/// The milliseconds that have passed once `trace` has been performed.
pub open spec fn elapsed(trace: Seq<HostCall>) -> nat
    decreases trace.len(),
{
    if trace.len() == 0 {
        0
    } else {
        let before = elapsed(trace.drop_last());
        match trace.last() {
            HostCall::Delay { ms } => before + ms as nat,
            _ => before,
        }
    }
}

/// The level of `pin` once `trace` has been performed: the value last
/// written to it, and low if it was never written.
pub open spec fn level_after(trace: Seq<HostCall>, pin: u32) -> u32
    decreases trace.len(),
{
    if trace.len() == 0 {
        LOW
    } else {
        match trace.last() {
            HostCall::DigitalWrite { pin: p, value } if p == pin => value,
            _ => level_after(trace.drop_last(), pin),
        }
    }
}

/// The level of `pin` during millisecond `t` of `trace`, counted from its
/// start; `None` if the trace ends before that.
pub open spec fn level_at(trace: Seq<HostCall>, pin: u32, t: nat) -> Option<u32>
    decreases trace.len(),
{
    if trace.len() == 0 {
        None
    } else {
        let before = trace.drop_last();
        if t < elapsed(before) {
            level_at(before, pin, t)
        } else if t < elapsed(trace) {
            Some(level_after(before, pin))
        } else {
            None
        }
    }
}

/// The level that the duty cycle prescribes for millisecond `t`.
pub open spec fn duty_level(t: nat) -> u32 {
    if t % period() < ON_MS {
        HIGH
    } else {
        LOW
    }
}

/// The undisturbed program grows by one request at a time.
proof fn lemma_script_unfold(n: nat)
    requires
        n > 0,
    ensures
        script(n).drop_last() == script((n - 1) as nat),
        script(n).last() == nth_call((n - 1) as nat),
        script(n) == script((n - 1) as nat).push(nth_call((n - 1) as nat)),
{
    assert(script(n).drop_last() =~= script((n - 1) as nat));
    assert(script(n) =~= script((n - 1) as nat).push(nth_call((n - 1) as nat)));
}

/// Whatever the events, the trace is a prefix of the undisturbed program, and
/// a program that has not halted stands where that prefix ends.
pub proof fn lemma_trace_follows_script(events: Seq<Event>)
    ensures
        calls(events) == script(calls(events).len()),
        calls(events).len() <= events.len(),
        stage_after(events) != Stage::Halted ==> stage_after(events) == stage_at(
            calls(events).len(),
        ),
        fault_free(events) ==> stage_after(events) != Stage::Halted && calls(events).len()
            == events.len(),
    decreases events.len(),
{
    if events.len() > 0 {
        let before = events.drop_last();
        lemma_trace_follows_script(before);
        let n = calls(before).len();
        if fault_free(events) {
            assert forall|i: int| 0 <= i < before.len() implies before[i] == Event::Proceed by {
                assert(before[i] == events[i]);
            }
            assert(events.last() == events[events.len() - 1]);
        }
        match stage_after(before).step_call(events.last()) {
            Some(call) => {
                assert(stage_after(before) == stage_at(n));
                assert(call == nth_call(n));
                lemma_script_unfold(n + 1);
            },
            None => {},
        }
    } else {
        assert(calls(events) =~= script(0));
    }
}

/// Setup comes first and only once: in every execution the first request
/// configures the designated pin as an output, no later request configures a
/// pin, and so every write to a pin comes after it.
pub proof fn law_setup_precedes_writes(events: Seq<Event>)
    ensures
        calls(events).len() > 0 ==> calls(events)[0] == (HostCall::PinMode {
            pin: LED,
            mode: OUTPUT,
        }),
        forall|i: int|
            0 < i < calls(events).len() ==> !(#[trigger] calls(events)[i] is PinMode),
        forall|i: int|
            0 <= i < calls(events).len() && #[trigger] calls(events)[i] is DigitalWrite ==> 0 < i,
{
    lemma_trace_follows_script(events);
}

/// Without a fault the program never stops: after any number of events it has
/// made as many requests, it has a next request to make, and every four
/// requests after the first are one whole cycle.
pub proof fn law_runs_for_ever(events: Seq<Event>)
    requires
        fault_free(events),
    ensures
        calls(events).len() == events.len(),
        calls(events) == script(events.len()),
        stage_after(events) != Stage::Halted,
        stage_after(events).pending() is Some,
        forall|k: int|
            0 <= k && 4 * k + 5 <= events.len() ==> #[trigger] calls(events).subrange(
                4 * k + 1,
                4 * k + 5,
            ) == cycle_calls(),
{
    lemma_trace_follows_script(events);
    let trace = calls(events);
    assert forall|k: int| 0 <= k && 4 * k + 5 <= events.len() implies #[trigger] trace.subrange(
        4 * k + 1,
        4 * k + 5,
    ) == cycle_calls() by {
        let part = trace.subrange(4 * k + 1, 4 * k + 5);
        assert(part[0] == trace[4 * k + 1]);
        assert(part[1] == trace[4 * k + 2]);
        assert(part[2] == trace[4 * k + 3]);
        assert(part[3] == trace[4 * k + 4]);
        assert(part =~= cycle_calls());
    }
}

/// A fault is final: once an event is a fault the program is halted, and the
/// trace is what it was before that event, whatever events follow.
pub proof fn law_fault_is_final(events: Seq<Event>, i: int)
    requires
        0 <= i < events.len(),
        events[i] == Event::Fault,
    ensures
        stage_after(events) == Stage::Halted,
        stage_after(events).pending() is None,
        calls(events) == calls(events.take(i)),
    decreases events.len(),
{
    let before = events.drop_last();
    if i == events.len() - 1 {
        assert(before =~= events.take(i));
    } else {
        law_fault_is_final(before, i);
        assert(before.take(i) =~= events.take(i));
    }
}

/// The clock and the pin of the undisturbed program after `n` requests.
proof fn lemma_clock(n: nat)
    ensures
        n == 0 ==> elapsed(script(n)) == 0 && level_after(script(n), LED) == LOW,
        n > 0 ==> elapsed(script(n)) == 1000 * ((n - 1) / 4) + (if (n - 1) % 4 >= 2 {
            100int
        } else {
            0int
        }),
        n > 0 ==> level_after(script(n), LED) == (if (n - 1) % 4 == 1 || (n - 1) % 4 == 2 {
            HIGH
        } else {
            LOW
        }),
    decreases n,
{
    if n > 0 {
        lemma_clock((n - 1) as nat);
        lemma_script_unfold(n);
    }
}

/// The duty cycle holds of every prefix of the undisturbed program.
proof fn lemma_script_level(n: nat, t: nat)
    requires
        t < elapsed(script(n)),
    ensures
        level_at(script(n), LED, t) == Some(duty_level(t)),
    decreases n,
{
    lemma_clock(n);
    if n > 0 {
        let m = (n - 1) as nat;
        lemma_script_unfold(n);
        lemma_clock(m);
        if t < elapsed(script(m)) {
            lemma_script_level(m, t);
        } else {
            let q = (m - 1) / 4;
            assert(t % 1000 == t - 1000 * q);
        }
    }
}

/// A whole cycle takes one period: without a fault, once setup and `k` whole
/// cycles are done, `k` periods have passed and the pin is low again.
pub proof fn law_cycle_takes_one_period(events: Seq<Event>, k: nat)
    requires
        fault_free(events),
        events.len() == 1 + 4 * k,
    ensures
        period() == 1000,
        elapsed(calls(events)) == k * period(),
        level_after(calls(events), LED) == LOW,
        stage_after(events) == Stage::Raise,
{
    lemma_trace_follows_script(events);
    lemma_clock(events.len());
}

/// The duty cycle: in every execution, during each millisecond that the trace
/// covers, the designated pin is high if the millisecond lies in the first
/// on-duration of its period and low otherwise.
pub proof fn law_duty_cycle(events: Seq<Event>, t: nat)
    requires
        t < elapsed(calls(events)),
    ensures
        level_at(calls(events), LED, t) == Some(duty_level(t)),
        duty_level(t) == HIGH <==> t % 1000 < 100,
        duty_level(t) == LOW <==> 100 <= t % 1000,
{
    lemma_trace_follows_script(events);
    lemma_script_level(calls(events).len(), t);
}

} // verus!
