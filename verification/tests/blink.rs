use arduino_blink::blink::{handle_panic, run, setup, Event, Stage, LED, OFF_MS, ON_MS};
use arduino_blink::arduino_api::HostCall;

/// Feeds `events` to a freshly booted program and records what it asks for.
fn drive(events: &[Event]) -> (Stage, Vec<HostCall>) {
    let mut stage = Stage::boot();
    let mut trace = Vec::new();
    for event in events {
        let (next, call) = stage.advance(*event);
        if let Some(call) = call {
            trace.push(call);
        }
        stage = next;
    }
    (stage, trace)
}

fn proceed(n: usize) -> Vec<Event> {
    vec![Event::Proceed; n]
}

/// The pin's level during each millisecond of `trace`: a delay lasts as long
/// as it says, anything else takes no time.
fn levels(trace: &[HostCall], pin: u32) -> Vec<u32> {
    let mut level = 0;
    let mut out = Vec::new();
    for call in trace {
        match *call {
            HostCall::DigitalWrite { pin: p, value } if p == pin => level = value,
            HostCall::Delay { ms } => {
                for _ in 0..ms {
                    out.push(level);
                }
            }
            _ => {}
        }
    }
    out
}

#[test]
fn program_constants() {
    assert_eq!(LED, 19);
    assert_eq!(ON_MS, 100);
    assert_eq!(OFF_MS, 900);
}

#[test]
fn boot_is_not_halted() {
    assert_eq!(Stage::boot(), Stage::Boot);
    assert!(!Stage::boot().is_halted());
    assert!(Stage::Halted.is_halted());
    assert!(!Stage::HoldOff.is_halted());
}

#[test]
fn setup_configures_the_led_as_output() {
    assert_eq!(setup(), HostCall::PinMode { pin: 19, mode: 1 });
}

#[test]
fn run_is_high_hold_low_hold() {
    assert_eq!(
        run(),
        [
            HostCall::DigitalWrite { pin: 19, value: 1 },
            HostCall::Delay { ms: 100 },
            HostCall::DigitalWrite { pin: 19, value: 0 },
            HostCall::Delay { ms: 900 },
        ]
    );
}

#[test]
fn handle_panic_halts_from_every_stage() {
    let stages = [
        Stage::Boot,
        Stage::Raise,
        Stage::HoldOn,
        Stage::Lower,
        Stage::HoldOff,
        Stage::Halted,
    ];
    for stage in stages {
        assert_eq!(handle_panic(stage), Stage::Halted);
    }
}

#[test]
fn advance_walks_the_stages_in_order() {
    assert_eq!(
        Stage::Boot.advance(Event::Proceed),
        (Stage::Raise, Some(HostCall::PinMode { pin: 19, mode: 1 }))
    );
    assert_eq!(
        Stage::Raise.advance(Event::Proceed),
        (Stage::HoldOn, Some(HostCall::DigitalWrite { pin: 19, value: 1 }))
    );
    assert_eq!(
        Stage::HoldOn.advance(Event::Proceed),
        (Stage::Lower, Some(HostCall::Delay { ms: 100 }))
    );
    assert_eq!(
        Stage::Lower.advance(Event::Proceed),
        (Stage::HoldOff, Some(HostCall::DigitalWrite { pin: 19, value: 0 }))
    );
    assert_eq!(
        Stage::HoldOff.advance(Event::Proceed),
        (Stage::Raise, Some(HostCall::Delay { ms: 900 }))
    );
    assert_eq!(Stage::Halted.advance(Event::Proceed), (Stage::Halted, None));
}

#[test]
fn a_fault_halts_from_every_stage_without_a_request() {
    let stages = [
        Stage::Boot,
        Stage::Raise,
        Stage::HoldOn,
        Stage::Lower,
        Stage::HoldOff,
        Stage::Halted,
    ];
    for stage in stages {
        assert_eq!(stage.advance(Event::Fault), (Stage::Halted, None));
    }
}

#[test]
fn the_pin_is_configured_once_before_any_write() {
    let (_, trace) = drive(&proceed(200));
    assert_eq!(trace[0], HostCall::PinMode { pin: 19, mode: 1 });
    let configured = trace
        .iter()
        .filter(|call| matches!(call, HostCall::PinMode { .. }))
        .count();
    assert_eq!(configured, 1);
    let first_write = trace
        .iter()
        .position(|call| matches!(call, HostCall::DigitalWrite { .. }));
    assert_eq!(first_write, Some(1));
}

#[test]
fn the_first_two_windows_repeat_the_same_four_requests() {
    let (stage, trace) = drive(&proceed(9));
    let cycle = [
        HostCall::DigitalWrite { pin: 19, value: 1 },
        HostCall::Delay { ms: 100 },
        HostCall::DigitalWrite { pin: 19, value: 0 },
        HostCall::Delay { ms: 900 },
    ];
    assert_eq!(trace.len(), 9);
    assert_eq!(&trace[1..5], &cycle[..]);
    assert_eq!(&trace[5..9], &cycle[..]);
    assert_eq!(stage, Stage::Raise);
}

#[test]
fn the_order_does_not_depend_on_time_passing() {
    // Nothing here sleeps: the requests are only recorded.
    let (_, trace) = drive(&proceed(1 + 4 * 50));
    let cycle = run();
    for k in 0..50 {
        assert_eq!(&trace[1 + 4 * k..5 + 4 * k], &cycle[..]);
    }
}

#[test]
fn a_fault_in_the_fifth_cycle_stops_all_requests() {
    // Setup, four whole cycles, and the first two requests of the fifth.
    let mut events = proceed(1 + 4 * 4 + 2);
    events.push(Event::Fault);
    let before = drive(&events[..events.len() - 1]).1;
    events.extend(proceed(100));
    let (stage, trace) = drive(&events);
    assert_eq!(stage, Stage::Halted);
    assert!(stage.is_halted());
    assert_eq!(trace, before);
    assert_eq!(trace.len(), 19);
    assert_eq!(trace[18], HostCall::Delay { ms: 100 });
}

#[test]
fn a_fault_before_setup_leaves_the_trace_empty() {
    let mut events = vec![Event::Fault];
    events.extend(proceed(10));
    let (stage, trace) = drive(&events);
    assert_eq!(stage, Stage::Halted);
    assert!(trace.is_empty());
}

#[test]
fn without_a_fault_every_event_brings_a_request() {
    for n in [0usize, 1, 2, 5, 41, 1000] {
        let (stage, trace) = drive(&proceed(n));
        assert_eq!(trace.len(), n);
        assert!(!stage.is_halted());
        assert!(stage.advance(Event::Proceed).1.is_some());
    }
}

#[test]
fn each_period_is_on_for_a_tenth_then_off() {
    let (_, trace) = drive(&proceed(1 + 4 * 3));
    let levels = levels(&trace, LED);
    assert_eq!(levels.len(), 3000);
    for (t, level) in levels.iter().enumerate() {
        let expected = if t % 1000 < 100 { 1 } else { 0 };
        assert_eq!(*level, expected, "millisecond {}", t);
    }
    assert_eq!(levels[99], 1);
    assert_eq!(levels[100], 0);
    assert_eq!(levels[999], 0);
    assert_eq!(levels[1000], 1);
}

#[test]
fn whole_cycles_take_whole_seconds() {
    for k in [0usize, 1, 2, 7] {
        let (stage, trace) = drive(&proceed(1 + 4 * k));
        assert_eq!(levels(&trace, LED).len(), 1000 * k);
        assert_eq!(stage, Stage::Raise);
    }
}
