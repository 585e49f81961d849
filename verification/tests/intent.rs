use fungi::cost::chain::{Amount, ScriptBuf, TxOut};
use fungi::cost::intent::{
    Action, Duration, FixedPaymentInstructions, Instant, Intent, PayoffCurve, Segment,
};

fn sats(sat: u64) -> Amount {
    Amount { sat }
}

fn secs(seconds: u64) -> Duration {
    Duration {
        nanos: std::time::Duration::from_secs(seconds).as_nanos(),
    }
}

/// Some moment with time before it.
fn now() -> Instant {
    Instant {
        nanos: 1_700_000_000_000_000_000,
    }
}

fn after(at: Instant, gap: Duration) -> Instant {
    Instant {
        nanos: at.nanos + gap.nanos,
    }
}

fn before(at: Instant, gap: Duration) -> Instant {
    Instant {
        nanos: at.nanos - gap.nanos,
    }
}

fn request() -> FixedPaymentInstructions {
    FixedPaymentInstructions {
        script_pubkey: ScriptBuf { bytes: vec![0x51] },
        amount: sats(50_000),
    }
}

/// A curve rising to a peak and falling back to nothing: a payment the user gives up
/// on once the deadline is past.
fn single_peaked(start: Instant) -> PayoffCurve {
    PayoffCurve::new(
        start,
        vec![(secs(1800), sats(100_000)), (secs(1800), sats(0))],
    )
}

#[test]
fn payment_instructions_carry_a_script_and_an_amount() {
    let instructions = request();

    assert_eq!(instructions.amount, sats(50_000));
    assert_eq!(instructions.clone(), instructions);
}

/// An intent nobody has decided about yet is worth nothing at every moment, which
/// needs no breakpoints to say.
#[test]
fn a_curve_may_declare_nothing_at_all() {
    let curve = PayoffCurve::new(now(), vec![]);

    assert!(curve.breakpoints().is_empty());
}

#[test]
fn payoff_climbs_and_falls_in_a_straight_line_between_breakpoints() {
    let start = now();
    let curve = single_peaked(start);

    assert_eq!(curve.payoff(start), sats(0));
    assert_eq!(curve.payoff(after(start, secs(900))), sats(50_000));
    assert_eq!(curve.payoff(after(start, secs(1800))), sats(100_000));
    assert_eq!(curve.payoff(after(start, secs(2700))), sats(50_000));
}

/// Both ends hold, so every instant has an answer.
#[test]
fn payoff_outside_the_curve_holds_the_nearer_end() {
    let start = now();
    let curve = single_peaked(start);

    assert_eq!(curve.payoff(before(start, secs(600))), sats(0));
    assert_eq!(curve.payoff(after(start, secs(7200))), sats(0));
}

/// A curve nobody has decided about is worth nothing whenever you ask.
#[test]
fn a_curve_without_breakpoints_is_worth_nothing() {
    let start = now();
    let curve = PayoffCurve::new(start, vec![]);

    assert_eq!(curve.payoff(after(start, secs(600))), sats(0));
}

/// A cap the user wants from the outset, rather than a line climbing towards one.
#[test]
fn a_breakpoint_no_duration_after_the_start_steps_straight_to_its_worth() {
    let start = now();
    let curve = PayoffCurve::new(start, vec![(secs(0), sats(100)), (secs(60), sats(100))]);

    assert_eq!(curve.payoff(start), sats(100));
    assert_eq!(curve.payoff(after(start, secs(30))), sats(100));
}

/// The runs a curve is made of, which is what a caller comparing two curves needs.
#[test]
fn a_curve_is_made_of_the_runs_between_its_breakpoints() {
    let start = now();
    let peak = after(start, secs(1800));
    let over = after(peak, secs(1800));

    let segments: Vec<Segment> = single_peaked(start).segments();

    assert_eq!(
        segments,
        [
            Segment {
                span: start..peak,
                start: sats(0),
                end: sats(100_000),
            },
            Segment {
                span: peak..over,
                start: sats(100_000),
                end: sats(0),
            },
        ]
    );
    assert_eq!(segments[0].clone(), segments[0]);
}

/// The flat ends run forever, so they are not runs the curve can hand out.
#[test]
fn a_curve_without_breakpoints_has_no_runs() {
    assert_eq!(PayoffCurve::new(now(), vec![]).segments().len(), 0);
}

/// Asking past either end is answered by that end, rather than by running the line
/// on to wherever it would have gone.
#[test]
fn a_run_holds_at_the_end_nearest_what_it_is_asked_about() {
    let start = now();
    let segment = Segment {
        span: start..after(start, secs(60)),
        start: sats(100),
        end: sats(200),
    };

    assert_eq!(segment.interpolate(before(start, secs(60))), sats(100));
    assert_eq!(segment.interpolate(after(start, secs(600))), sats(200));
}

#[test]
fn breakpoints_are_spaced_from_the_one_before_them() {
    let start = now();
    let curve = single_peaked(start);

    assert_eq!(
        *curve.breakpoints(),
        [(secs(1800), sats(100_000)), (secs(1800), sats(0))]
    );
    assert_eq!(curve.clone(), curve);
}

#[test]
fn an_intent_keeps_its_action_and_payoff_curve() {
    let start = now();
    let intent = Intent::new(Action::OutputCreation(request()), single_peaked(start));

    assert_eq!(*intent.action(), Action::OutputCreation(request()));
    assert_eq!(*intent.payoff_curve(), single_peaked(start));
    assert_eq!(intent.clone(), intent);
}

#[test]
fn an_action_asks_for_the_output_it_describes() {
    let outputs = Action::OutputCreation(request()).outputs();
    assert_eq!(
        outputs,
        [TxOut {
            value: sats(50_000),
            script_pubkey: ScriptBuf { bytes: vec![0x51] },
        }]
    );
}

#[test]
fn a_step_is_worth_nothing_before_it_happens() {
    let start = now();
    let curve = PayoffCurve::new(start, vec![(secs(0), sats(100)), (secs(60), sats(100))]);

    assert_eq!(curve.payoff(before(start, secs(1))), sats(0));
    let step = Segment {
        span: start..start,
        start: sats(3),
        end: sats(100),
    };
    assert_eq!(step.interpolate(before(start, secs(1))), sats(3));
    assert_eq!(step.interpolate(start), sats(100));
}

#[test]
fn a_step_in_the_middle_ends_one_run_and_begins_another() {
    let start = now();
    let curve = PayoffCurve::new(
        start,
        vec![
            (secs(60), sats(100)),
            (secs(0), sats(400)),
            (secs(60), sats(500)),
        ],
    );
    let step = after(start, secs(60));

    assert_eq!(curve.payoff(before(step, secs(30))), sats(50));
    assert_eq!(curve.payoff(step), sats(100));
    assert_eq!(curve.payoff(after(step, secs(30))), sats(450));
    assert_eq!(curve.payoff(after(step, secs(61))), sats(500));
}

#[test]
fn whole_satoshis_are_gone_in_either_direction() {
    let run = |start: u64, end: u64| Segment {
        span: Instant { nanos: 10 }..Instant { nanos: 13 },
        start: sats(start),
        end: sats(end),
    };
    assert_eq!(run(0, 10).interpolate(Instant { nanos: 11 }), sats(3));
    assert_eq!(run(0, 10).interpolate(Instant { nanos: 12 }), sats(6));
    assert_eq!(run(10, 0).interpolate(Instant { nanos: 11 }), sats(7));
    assert_eq!(run(10, 0).interpolate(Instant { nanos: 12 }), sats(4));
    assert_eq!(run(10, 0).interpolate(Instant { nanos: 13 }), sats(0));
    assert_eq!(
        run(0, u64::MAX).interpolate(Instant { nanos: 12 }),
        sats(u64::MAX / 3 * 2)
    );
}

#[test]
fn payoff_stays_between_the_ends_of_its_run() {
    let curve = PayoffCurve::new(
        Instant { nanos: 5 },
        vec![
            (Duration { nanos: 7 }, sats(20)),
            (Duration { nanos: 11 }, sats(3)),
        ],
    );
    let worth: Vec<u64> = (0..30)
        .map(|nanos| curve.payoff(Instant { nanos }).sat)
        .collect();
    assert!(worth[..5].iter().all(|&sat| sat == 0));
    assert!(worth[5..=12].windows(2).all(|pair| pair[0] <= pair[1]));
    assert_eq!(worth[12], 20);
    assert!(worth[12..=23].windows(2).all(|pair| pair[0] >= pair[1]));
    assert!(worth[23..].iter().all(|&sat| sat == 3));
}
