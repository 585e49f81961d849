//! Defines what the user wants, and how much they care.

use crate::cost::chain::{Amount, ScriptBuf, TxOut, TxOutView};
use std::ops::Range;
use vstd::prelude::*;

verus! {

/// A moment, in nanoseconds since some moment before all others.
#[derive(Debug, Clone, Copy, PartialEq, Eq, PartialOrd, Ord, Hash, Structural)]
pub struct Instant {
    /// How many nanoseconds.
    pub nanos: u128,
}

/// A length of time, in nanoseconds.
#[derive(Debug, Clone, Copy, PartialEq, Eq, PartialOrd, Ord, Hash, Structural)]
pub struct Duration {
    /// How many nanoseconds.
    pub nanos: u128,
}

/// The required information for an output creation intent.
///
/// Corresponds to just the on chain variant of `bitcoin-payment-instructions`.
#[derive(Debug, PartialEq, Eq)]
pub struct FixedPaymentInstructions {
    /// Output script the payment must pay to.
    pub script_pubkey: ScriptBuf,
    /// Exact amount the payment must carry.
    pub amount: Amount,
}

/// Something the user wants to happen, which can be realized in potentially more than
/// one way.
#[derive(Debug, PartialEq, Eq)]
pub enum Action {
    /// Pay someone under instructions they supplied, out of band.
    OutputCreation(FixedPaymentInstructions),
}

/// When the curve that begins at `start` reaches its breakpoint number `n`, its start
/// being number nought.
pub open spec fn reaches(start: nat, points: Seq<(Duration, Amount)>, n: nat) -> nat
    decreases n,
{
    if n == 0 {
        start
    } else {
        reaches(start, points, (n - 1) as nat) + points[n - 1].0.nanos as nat
    }
}

/// What a curve is worth at its breakpoint number `n`, its start being number nought.
pub open spec fn worth(points: Seq<(Duration, Amount)>, n: nat) -> u64 {
    if n == 0 {
        0
    } else {
        points[n - 1].1.sat
    }
}

/// How far apart two amounts are.
pub open spec fn apart(from: u64, to: u64) -> nat {
    if from <= to {
        (to - from) as nat
    } else {
        (from - to) as nat
    }
}

/// Where a straight run between two moments and two amounts sits at `at`. It holds at
/// whichever end `at` lies beyond; in between, it has gone its way in proportion to the
/// time passed, in whole satoshis. A run that takes no time is a step: taken by itself, it
/// is worth what it steps to from its instant on.
pub open spec fn on_the_way(begin: nat, end: nat, from: u64, to: u64, at: nat) -> int {
    if at < begin {
        from as int
    } else if at >= end {
        to as int
    } else {
        let gone = apart(from, to) * ((at - begin) as nat) / ((end - begin) as nat);
        if from <= to {
            from + gone
        } else {
            from - gone
        }
    }
}

/// What a curve is worth at `at`, from its breakpoint number `n` on: where its first run
/// that ends no sooner than `at` sits then, and what it came to once all have ended.
pub open spec fn worth_from(
    start: nat,
    points: Seq<(Duration, Amount)>,
    n: nat,
    at: nat,
) -> int
    decreases points.len() - n,
{
    if n >= points.len() {
        worth(points, points.len()) as int
    } else if at <= reaches(start, points, n + 1) {
        on_the_way(
            reaches(start, points, n),
            reaches(start, points, n + 1),
            worth(points, n),
            worth(points, n + 1),
            at,
        )
    } else {
        worth_from(start, points, n + 1, at)
    }
}

/// What realizing an intent is worth over time, as breakpoints on a piecewise linear
/// curve.
///
/// The curve is worth nothing at its start, and each breakpoint says how long after the
/// one before it the curve changes.
#[derive(Debug, PartialEq, Eq)]
pub struct PayoffCurve {
    start: Instant,
    breakpoints: Vec<(Duration, Amount)>,
}

/// A straight run of a curve, from one breakpoint to the next.
#[derive(Debug, PartialEq, Eq)]
pub struct Segment {
    /// When the run begins and ends.
    pub span: Range<Instant>,
    /// What the curve is worth at `span.start`.
    pub start: Amount,
    /// What the curve is worth at `span.end`.
    pub end: Amount,
}

impl Clone for Segment {
    fn clone(&self) -> (segment: Self)
        ensures
            segment == *self,
    {
        Self { span: self.span.start..self.span.end, start: self.start, end: self.end }
    }
}

impl Segment {
    /// Where the run sits at a moment, which holds at whichever end that lies beyond.
    pub open spec fn at(self, nanos: nat) -> int {
        on_the_way(
            self.span.start.nanos as nat,
            self.span.end.nanos as nat,
            self.start.sat,
            self.end.sat,
            nanos,
        )
    }

    /// Where the run sits at `at`, which holds at whichever end `at` lies beyond.
    pub fn interpolate(&self, at: Instant) -> (amount: Amount)
        requires
            self.span.start.nanos <= self.span.end.nanos,
            self.span.start.nanos <= at.nanos < self.span.end.nanos ==> apart(
                self.start.sat,
                self.end.sat,
            ) * (at.nanos - self.span.start.nanos) <= u128::MAX,
        ensures
            amount.sat == self.at(at.nanos as nat),
            at.nanos < self.span.start.nanos ==> amount == self.start,
            at.nanos >= self.span.end.nanos ==> amount == self.end,
            self.span.start.nanos <= at.nanos < self.span.end.nanos ==> {
                let length = self.span.end.nanos - self.span.start.nanos;
                let elapsed = at.nanos - self.span.start.nanos;
                &&& self.start.sat <= self.end.sat ==> {
                    let gone = amount.sat - self.start.sat;
                    &&& 0 <= gone
                    &&& gone * length <= (self.end.sat - self.start.sat) * elapsed
                    &&& (self.end.sat - self.start.sat) * elapsed < (gone + 1) * length
                }
                &&& self.end.sat <= self.start.sat ==> {
                    let gone = self.start.sat - amount.sat;
                    &&& 0 <= gone
                    &&& gone * length <= (self.start.sat - self.end.sat) * elapsed
                    &&& (self.start.sat - self.end.sat) * elapsed < (gone + 1) * length
                }
            },
    {
        proof {
            a_segment_is_a_straight_line(*self, at.nanos as nat);
        }
        let (begin, end): (u128, u128) = (self.span.start.nanos, self.span.end.nanos);
        if at.nanos < begin {
            return self.start;
        }
        // A breakpoint no duration after the one before it is a step rather than a run, and
        // taken by itself it is worth what it steps to from its instant on.
        if at.nanos >= end {
            return self.end;
        }
        let elapsed: u128 = at.nanos - begin;
        let span: u128 = end - begin;
        let (from, to): (u64, u64) = (self.start.sat, self.end.sat);
        let climb: u128 = if from <= to {
            (to - from) as u128
        } else {
            (from - to) as u128
        };
        proof {
            assert(climb * elapsed == apart(from, to) * ((at.nanos - begin) as nat));
            assert(climb * elapsed / (span as int) <= climb) by (nonlinear_arith)
                requires
                    0 <= elapsed <= span,
                    0 < span,
                    0 <= climb,
            ;
            assert(0 <= climb * elapsed) by (nonlinear_arith)
                requires
                    0 <= elapsed,
                    0 <= climb,
            ;
        }
        let gone: u64 = (climb * elapsed / span) as u64;
        if from <= to {
            Amount { sat: from + gone }
        } else {
            Amount { sat: from - gone }
        }
    }
}

/// A curve reaches its breakpoints in order.
proof fn reaches_in_order(start: nat, points: Seq<(Duration, Amount)>, m: nat, n: nat)
    requires
        m <= n,
    ensures
        reaches(start, points, m) <= reaches(start, points, n),
    decreases n,
{
    if m < n {
        reaches_in_order(start, points, m, (n - 1) as nat);
    }
}

impl PayoffCurve {
    /// When the curve begins.
    pub closed spec fn begins(self) -> nat {
        self.start.nanos as nat
    }

    /// The curve's breakpoints.
    pub closed spec fn points(self) -> Seq<(Duration, Amount)> {
        self.breakpoints@
    }

    /// What the curve is worth at a moment.
    pub open spec fn worth_at(self, nanos: nat) -> int {
        worth_from(self.begins(), self.points(), 0, nanos)
    }

    /// The moments up to the breakpoint after which `at` falls, and how far the curve
    /// has come in between, can be computed.
    pub open spec fn computable(self, at: nat) -> bool {
        forall|n: nat|
            n < self.points().len() && (n == 0 || at > reaches(self.begins(), self.points(), n))
                ==> {
                let end = #[trigger] reaches(self.begins(), self.points(), n + 1);
                let begin = reaches(self.begins(), self.points(), n);
                &&& end <= u128::MAX
                &&& begin <= at < end ==> apart(
                    worth(self.points(), n),
                    worth(self.points(), n + 1),
                ) * (at - begin) <= u128::MAX
            }
    }

    /// A curve worth nothing at `start`, each duration afterwards has some amount
    /// associated with it. At start `start` the payoff is nothing. Each breakpoint is
    /// specified in terms of a [`Duration`] from the previous point, and a payoff `Amount`
    /// at that point. After the last breakpoint the payoff curve is continued with a
    /// constant function with the same value as the last breakpoint.
    pub fn new(start: Instant, breakpoints: Vec<(Duration, Amount)>) -> (curve: Self)
        ensures
            curve.begins() == start.nanos,
            curve.points() == breakpoints@,
    {
        PayoffCurve { start, breakpoints }
    }

    /// The curve's breakpoints, each spaced from the one before it.
    pub fn breakpoints(&self) -> (breakpoints: &Vec<(Duration, Amount)>)
        ensures
            breakpoints@ == self.points(),
    {
        &self.breakpoints
    }

    /// The straight runs between the curve's breakpoints, in order.
    ///
    /// Before the first the curve is worth nothing, and after the last it holds that
    /// run's end forever. Neither is a finite span, so neither is yielded here.
    pub fn segments(&self) -> (segments: Vec<Segment>)
        requires
            reaches(self.begins(), self.points(), self.points().len()) <= u128::MAX,
        ensures
            segments@.len() == self.points().len(),
            forall|n: nat|
                n < segments@.len() ==> {
                    let segment = #[trigger] segments@[n as int];
                    &&& segment.span.start.nanos == reaches(self.begins(), self.points(), n)
                    &&& segment.span.end.nanos == reaches(self.begins(), self.points(), n + 1)
                    &&& segment.start.sat == worth(self.points(), n)
                    &&& segment.end.sat == worth(self.points(), n + 1)
                },
    {
        let mut segments: Vec<Segment> = Vec::new();
        let mut at = self.start;
        let mut worth_now = Amount { sat: 0 };
        let mut i: usize = 0;
        while i < self.breakpoints.len()
            invariant
                i <= self.points().len(),
                self.points() == self.breakpoints@,
                reaches(self.begins(), self.points(), self.points().len()) <= u128::MAX,
                segments@.len() == i,
                at.nanos == reaches(self.begins(), self.points(), i as nat),
                worth_now.sat == worth(self.points(), i as nat),
                forall|n: nat|
                    n < i ==> {
                        let segment = #[trigger] segments@[n as int];
                        &&& segment.span.start.nanos == reaches(self.begins(), self.points(), n)
                        &&& segment.span.end.nanos == reaches(self.begins(), self.points(), n + 1)
                        &&& segment.start.sat == worth(self.points(), n)
                        &&& segment.end.sat == worth(self.points(), n + 1)
                    },
            decreases self.points().len() - i,
        {
            let (gap, next_worth) = self.breakpoints[i];
            proof {
                reaches_in_order(
                    self.begins(),
                    self.points(),
                    (i + 1) as nat,
                    self.points().len(),
                );
            }
            let next = Instant { nanos: at.nanos + gap.nanos };
            segments.push(Segment { span: at..next, start: worth_now, end: next_worth });
            at = next;
            worth_now = next_worth;
            i = i + 1;
        }
        segments
    }

    /// What the intent is worth at `at`.
    ///
    /// At an instant where one run ends and another begins, the one that ends says. So a
    /// step at the start shows from its instant on, and one further on right after it.
    pub fn payoff(&self, at: Instant) -> (amount: Amount)
        requires
            self.computable(at.nanos as nat),
        ensures
            amount.sat == self.worth_at(at.nanos as nat),
    {
        let mut begin = self.start;
        let mut worth_now = Amount { sat: 0 };
        let mut i: usize = 0;
        while i < self.breakpoints.len()
            invariant
                i <= self.points().len(),
                self.points() == self.breakpoints@,
                self.computable(at.nanos as nat),
                begin.nanos == reaches(self.begins(), self.points(), i as nat),
                worth_now.sat == worth(self.points(), i as nat),
                i == 0 || at.nanos > begin.nanos,
                self.worth_at(at.nanos as nat) == worth_from(
                    self.begins(),
                    self.points(),
                    i as nat,
                    at.nanos as nat,
                ),
            decreases self.points().len() - i,
        {
            let (gap, next_worth) = self.breakpoints[i];
            assert(reaches(self.begins(), self.points(), (i + 1) as nat) <= u128::MAX);
            let end = Instant { nanos: begin.nanos + gap.nanos };
            let segment = Segment { span: begin..end, start: worth_now, end: next_worth };
            if at.nanos <= end.nanos {
                return segment.interpolate(at);
            }
            begin = end;
            worth_now = next_worth;
            i = i + 1;
        }
        worth_now
    }
}

impl Clone for FixedPaymentInstructions {
    fn clone(&self) -> (instructions: Self)
        ensures
            instructions.script_pubkey.bytes@ == self.script_pubkey.bytes@,
            instructions.amount == self.amount,
    {
        Self { script_pubkey: self.script_pubkey.clone(), amount: self.amount }
    }
}

/// What an action asks for, by value.
pub enum ActionView {
    /// An output of so many satoshis, paid to this script.
    OutputCreation(Seq<u8>, u64),
}

impl View for Action {
    type V = ActionView;

    open spec fn view(&self) -> ActionView {
        match *self {
            Action::OutputCreation(instructions) => ActionView::OutputCreation(
                instructions.script_pubkey.bytes@,
                instructions.amount.sat,
            ),
        }
    }
}

impl ActionView {
    /// The outputs that realize the action.
    pub open spec fn outputs(self) -> Seq<TxOutView> {
        match self {
            ActionView::OutputCreation(script, sat) => seq![TxOutView { sat, script }],
        }
    }
}

impl Clone for Action {
    fn clone(&self) -> (action: Self)
        ensures
            action@ == self@,
    {
        match self {
            Action::OutputCreation(instructions) => Action::OutputCreation(instructions.clone()),
        }
    }
}

impl Action {
    /// The outputs that a transaction realizing the action pays.
    pub fn outputs(&self) -> (outputs: Vec<TxOut>)
        ensures
            match *self {
                Action::OutputCreation(asked) => {
                    &&& outputs@.len() == 1
                    &&& outputs@[0].value == asked.amount
                    &&& outputs@[0].script_pubkey.bytes@ == asked.script_pubkey.bytes@
                },
            },
            outputs@.len() == self@.outputs().len(),
            forall|i: int|
                0 <= i < outputs@.len() ==> #[trigger] outputs@[i]@ == self@.outputs()[i],
    {
        match self {
            Action::OutputCreation(instructions) => {
                let mut outputs: Vec<TxOut> = Vec::new();
                outputs.push(
                    TxOut {
                        value: instructions.amount,
                        script_pubkey: instructions.script_pubkey.clone(),
                    },
                );
                outputs
            },
        }
    }
}

impl Clone for PayoffCurve {
    fn clone(&self) -> (curve: Self)
        ensures
            curve.begins() == self.begins(),
            curve.points() == self.points(),
    {
        let mut breakpoints: Vec<(Duration, Amount)> = Vec::new();
        let mut i: usize = 0;
        while i < self.breakpoints.len()
            invariant
                i <= self.breakpoints@.len(),
                breakpoints@ == self.breakpoints@.take(i as int),
            decreases self.breakpoints@.len() - i,
        {
            breakpoints.push(self.breakpoints[i]);
            i = i + 1;
        }
        assert(breakpoints@ =~= self.breakpoints@);
        PayoffCurve { start: self.start, breakpoints }
    }
}

/// An [`Action`] together with a [`PayoffCurve`] determined by the user.
#[derive(Debug, PartialEq, Eq)]
pub struct Intent {
    inner: Action,
    payoff_curve: PayoffCurve,
}

/// An intent, by value.
pub struct IntentView {
    /// What the user wants to happen.
    pub action: ActionView,
    /// When the curve begins.
    pub begins: nat,
    /// The curve's breakpoints.
    pub points: Seq<(Duration, Amount)>,
}

impl View for Intent {
    type V = IntentView;

    closed spec fn view(&self) -> IntentView {
        IntentView {
            action: self.inner@,
            begins: self.payoff_curve.begins(),
            points: self.payoff_curve.points(),
        }
    }
}

impl Clone for Intent {
    fn clone(&self) -> (intent: Self)
        ensures
            intent@ == self@,
    {
        Self { inner: self.inner.clone(), payoff_curve: self.payoff_curve.clone() }
    }
}

impl Intent {
    /// Build an intent with the payoff curve the user attached to it.
    pub fn new(inner: Action, payoff_curve: PayoffCurve) -> (intent: Self)
        ensures
            intent@ == (IntentView {
                action: inner@,
                begins: payoff_curve.begins(),
                points: payoff_curve.points(),
            }),
    {
        Intent { inner, payoff_curve }
    }

    /// What the user wants to happen.
    pub fn action(&self) -> (action: &Action)
        ensures
            action@ == self@.action,
    {
        &self.inner
    }

    /// What its happening is worth over time.
    pub fn payoff_curve(&self) -> (curve: &PayoffCurve)
        ensures
            curve.begins() == self@.begins,
            curve.points() == self@.points,
    {
        &self.payoff_curve
    }
}

/// A curve follows its runs: at any moment after a breakpoint, and up to the next, it is
/// worth what the run between the two has come to.
pub proof fn a_curve_follows_its_runs(curve: PayoffCurve, n: nat, at: nat)
    requires
        n < curve.points().len(),
        n == 0 || at > reaches(curve.begins(), curve.points(), n),
        at <= reaches(curve.begins(), curve.points(), n + 1),
    ensures
        curve.worth_at(at) == on_the_way(
            reaches(curve.begins(), curve.points(), n),
            reaches(curve.begins(), curve.points(), n + 1),
            worth(curve.points(), n),
            worth(curve.points(), n + 1),
            at,
        ),
{
    earlier_runs_are_passed(curve.begins(), curve.points(), 0, n, at);
}

/// Runs that ended before `at` do not matter to what the curve is worth then.
proof fn earlier_runs_are_passed(
    start: nat,
    points: Seq<(Duration, Amount)>,
    m: nat,
    n: nat,
    at: nat,
)
    requires
        m <= n <= points.len(),
        n == 0 || at > reaches(start, points, n),
    ensures
        worth_from(start, points, m, at) == worth_from(start, points, n, at),
    decreases n - m,
{
    if m < n {
        reaches_in_order(start, points, m + 1, n);
        earlier_runs_are_passed(start, points, m + 1, n, at);
    }
}

/// Before its start a curve is worth nothing.
pub proof fn a_curve_is_worth_nothing_before_its_start(curve: PayoffCurve, at: nat)
    requires
        at < curve.begins(),
    ensures
        curve.worth_at(at) == 0,
{
    if curve.points().len() > 0 {
        reaches_in_order(curve.begins(), curve.points(), 0, 1);
    }
}

/// At its start a curve is worth nothing, unless it steps up right there.
pub proof fn a_curve_starts_from_nothing(curve: PayoffCurve)
    requires
        curve.points().len() > 0 ==> curve.points()[0].0.nanos > 0,
    ensures
        curve.worth_at(curve.begins()) == 0,
{
    if curve.points().len() > 0 {
        let gap = curve.points()[0].0.nanos as nat;
        assert(reaches(curve.begins(), curve.points(), 0) == curve.begins());
        assert(reaches(curve.begins(), curve.points(), 1) == curve.begins() + gap);
        let climb = apart(0, worth(curve.points(), 1));
        assert(climb * 0 / gap == 0) by (nonlinear_arith)
            requires
                gap > 0,
        ;
    }
}

/// A breakpoint some time after the one before it is where the curve is worth what the
/// breakpoint says.
pub proof fn a_curve_passes_through_its_breakpoints(curve: PayoffCurve, n: nat)
    requires
        0 < n <= curve.points().len(),
        curve.points()[n - 1].0.nanos > 0,
    ensures
        curve.worth_at(reaches(curve.begins(), curve.points(), n)) == worth(curve.points(), n),
{
    a_curve_follows_its_runs(
        curve,
        (n - 1) as nat,
        reaches(curve.begins(), curve.points(), n),
    );
}

/// After its last breakpoint a curve holds what it is worth there, forever.
pub proof fn a_curve_holds_its_last_worth(curve: PayoffCurve, at: nat)
    requires
        at > reaches(curve.begins(), curve.points(), curve.points().len()),
    ensures
        curve.worth_at(at) == worth(curve.points(), curve.points().len()),
{
    earlier_runs_are_passed(curve.begins(), curve.points(), 0, curve.points().len(), at);
}

/// A run stays between its two ends.
pub proof fn a_run_stays_between_its_ends(begin: nat, end: nat, from: u64, to: u64, at: nat)
    requires
        begin <= end,
    ensures
        from <= to ==> from <= on_the_way(begin, end, from, to, at) <= to,
        to <= from ==> to <= on_the_way(begin, end, from, to, at) <= from,
{
    if begin <= at < end {
        part_of_the_way(apart(from, to), (at - begin) as nat, (end - begin) as nat);
    }
}

/// A part of a way is no longer than the way.
proof fn part_of_the_way(way: nat, elapsed: nat, span: nat)
    requires
        elapsed <= span,
        span > 0,
    ensures
        0 <= way * elapsed / span <= way,
{
    assert(0 <= way * elapsed / span <= way) by (nonlinear_arith)
        requires
            elapsed <= span,
            span > 0,
    ;
}

/// A run only ever goes its way: the later, the nearer to its end.
pub proof fn a_run_only_goes_its_way(
    begin: nat,
    end: nat,
    from: u64,
    to: u64,
    sooner: nat,
    later: nat,
)
    requires
        begin <= end,
        sooner <= later,
    ensures
        from <= to ==> on_the_way(begin, end, from, to, sooner) <= on_the_way(
            begin,
            end,
            from,
            to,
            later,
        ),
        to <= from ==> on_the_way(begin, end, from, to, sooner) >= on_the_way(
            begin,
            end,
            from,
            to,
            later,
        ),
{
    a_run_stays_between_its_ends(begin, end, from, to, sooner);
    a_run_stays_between_its_ends(begin, end, from, to, later);
    if begin <= sooner && later < end {
        let (way, span) = (apart(from, to), (end - begin) as nat);
        let (a, b) = ((sooner - begin) as nat, (later - begin) as nat);
        assert(way * a <= way * b) by (nonlinear_arith)
            requires
                a <= b,
        ;
        vstd::arithmetic::div_mod::lemma_div_is_ordered(
            (way * a) as int,
            (way * b) as int,
            span as int,
        );
    }
}

/// A curve is never worth more than its highest breakpoint.
pub proof fn a_curve_never_exceeds_its_breakpoints(curve: PayoffCurve, at: nat, most: u64)
    requires
        forall|i: int|
            0 <= i < curve.points().len() ==> (#[trigger] curve.points()[i]).1.sat <= most,
    ensures
        0 <= curve.worth_at(at) <= most,
{
    never_exceeds_from(curve.begins(), curve.points(), 0, at, most);
}

/// From any breakpoint on, a curve is never worth more than its highest one.
proof fn never_exceeds_from(
    start: nat,
    points: Seq<(Duration, Amount)>,
    n: nat,
    at: nat,
    most: u64,
)
    requires
        forall|i: int| 0 <= i < points.len() ==> (#[trigger] points[i]).1.sat <= most,
    ensures
        0 <= worth_from(start, points, n, at) <= most,
    decreases points.len() - n,
{
    if n < points.len() {
        reaches_in_order(start, points, n, n + 1);
        a_run_stays_between_its_ends(
            reaches(start, points, n),
            reaches(start, points, n + 1),
            worth(points, n),
            worth(points, n + 1),
            at,
        );
        never_exceeds_from(start, points, n + 1, at, most);
    }
}

/// A run is a straight line: while it lasts, the distance gone from where it starts stands to
/// the whole distance as the time gone stands to the whole time, in whole satoshis.
pub proof fn a_run_is_a_straight_line(begin: nat, end: nat, from: u64, to: u64, at: nat)
    requires
        begin <= at < end,
    ensures
        from <= to ==> {
            let gone = on_the_way(begin, end, from, to, at) - from;
            &&& 0 <= gone
            &&& gone * (end - begin) <= (to - from) * (at - begin)
            &&& (to - from) * (at - begin) < (gone + 1) * (end - begin)
        },
        to <= from ==> {
            let gone = from - on_the_way(begin, end, from, to, at);
            &&& 0 <= gone
            &&& gone * (end - begin) <= (from - to) * (at - begin)
            &&& (from - to) * (at - begin) < (gone + 1) * (end - begin)
        },
{
    let (way, elapsed, span) = (apart(from, to) as int, at - begin, end - begin);
    let gone = way * elapsed / span;
    assert(0 <= way * elapsed) by (nonlinear_arith)
        requires
            0 <= way,
            0 <= elapsed,
    ;
    vstd::arithmetic::div_mod::lemma_fundamental_div_mod(way * elapsed, span);
    vstd::arithmetic::div_mod::lemma_div_pos_is_pos(way * elapsed, span);
    let rest = (way * elapsed) % span;
    assert(0 <= rest < span);
    if from == to {
        assert(way * elapsed == 0) by (nonlinear_arith)
            requires
                way == 0,
        ;
        assert(gone == 0);
    }
    assert(gone * span <= way * elapsed < (gone + 1) * span) by (nonlinear_arith)
        requires
            way * elapsed == span * gone + rest,
            0 <= rest < span,
    ;
}

/// A segment is a straight line between its two ends, and holds at either.
pub proof fn a_segment_is_a_straight_line(segment: Segment, at: nat)
    requires
        segment.span.start.nanos <= segment.span.end.nanos,
    ensures
        at < segment.span.start.nanos ==> segment.at(at) == segment.start.sat,
        at >= segment.span.end.nanos ==> segment.at(at) == segment.end.sat,
        segment.span.start.nanos <= at < segment.span.end.nanos ==> {
            let length = segment.span.end.nanos - segment.span.start.nanos;
            let elapsed = at - segment.span.start.nanos;
            &&& segment.start.sat <= segment.end.sat ==> {
                let gone = segment.at(at) - segment.start.sat;
                &&& 0 <= gone
                &&& gone * length <= (segment.end.sat - segment.start.sat) * elapsed
                &&& (segment.end.sat - segment.start.sat) * elapsed < (gone + 1) * length
            }
            &&& segment.end.sat <= segment.start.sat ==> {
                let gone = segment.start.sat - segment.at(at);
                &&& 0 <= gone
                &&& gone * length <= (segment.start.sat - segment.end.sat) * elapsed
                &&& (segment.start.sat - segment.end.sat) * elapsed < (gone + 1) * length
            }
        },
{
    if segment.span.start.nanos <= at < segment.span.end.nanos {
        a_run_is_a_straight_line(
            segment.span.start.nanos as nat,
            segment.span.end.nanos as nat,
            segment.start.sat,
            segment.end.sat,
            at,
        );
    }
}

/// A run holds what it starts from before it begins, and what it goes to once it has ended.
pub proof fn a_run_holds_at_its_ends(begin: nat, end: nat, from: u64, to: u64, at: nat)
    requires
        begin <= end,
    ensures
        at < begin ==> on_the_way(begin, end, from, to, at) == from,
        at >= end ==> on_the_way(begin, end, from, to, at) == to,
{
}

/// A curve's breakpoints are spaced from the one before, the first from its start, and say
/// what the curve is worth there; at its start it is worth nothing.
pub proof fn breakpoints_are_spaced_from_the_one_before(
    start: nat,
    points: Seq<(Duration, Amount)>,
    n: nat,
)
    requires
        n < points.len(),
    ensures
        reaches(start, points, 0) == start,
        reaches(start, points, n + 1) - reaches(start, points, n) == points[n as int].0.nanos,
        worth(points, 0) == 0,
        worth(points, n + 1) == points[n as int].1.sat,
{
}

/// Two amounts are as far apart as has to be added to the lower one to come to the other.
pub proof fn amounts_are_apart_by_their_difference(from: u64, to: u64)
    ensures
        from <= to ==> from + apart(from, to) == to,
        to <= from ==> to + apart(from, to) == from,
{
}

/// A curve is straight between its breakpoints: at a moment after one, and up to the next, the
/// distance that its worth has gone from the first to the second stands to the distance
/// between the two as the time gone stands to the time between them, in whole satoshis.
pub proof fn a_curve_is_straight_between_its_breakpoints(curve: PayoffCurve, n: nat, at: nat)
    requires
        0 < n < curve.points().len(),
        reaches(curve.begins(), curve.points(), n) < at <= reaches(
            curve.begins(),
            curve.points(),
            n,
        ) + curve.points()[n as int].0.nanos,
    ensures
        ({
            let from = curve.points()[n - 1].1.sat;
            let to = curve.points()[n as int].1.sat;
            let length = curve.points()[n as int].0.nanos as int;
            let elapsed = at - reaches(curve.begins(), curve.points(), n);
            &&& from <= to ==> {
                let gone = curve.worth_at(at) - from;
                &&& 0 <= gone
                &&& gone * length <= (to - from) * elapsed < (gone + 1) * length
            }
            &&& to <= from ==> {
                let gone = from - curve.worth_at(at);
                &&& 0 <= gone
                &&& gone * length <= (from - to) * elapsed < (gone + 1) * length
            }
        }),
{
    let begin = reaches(curve.begins(), curve.points(), n);
    let end = reaches(curve.begins(), curve.points(), n + 1);
    let (from, to) = (curve.points()[n - 1].1.sat, curve.points()[n as int].1.sat);
    a_curve_follows_its_runs(curve, n, at);
    if at < end {
        a_run_is_a_straight_line(begin, end, from, to, at);
    } else {
        let (way, length) = (apart(from, to) as int, end - begin);
        assert(way * length < (way + 1) * length) by (nonlinear_arith)
            requires
                length > 0,
        ;
    }
}

/// From nothing at its start a curve goes straight to its first breakpoint.
pub proof fn a_curve_goes_straight_to_its_first_breakpoint(curve: PayoffCurve, at: nat)
    requires
        0 < curve.points().len(),
        curve.begins() <= at < curve.begins() + curve.points()[0].0.nanos,
    ensures
        ({
            let to = curve.points()[0].1.sat;
            let length = curve.points()[0].0.nanos as int;
            let elapsed = at - curve.begins();
            let now = curve.worth_at(at);
            &&& 0 <= now
            &&& now * length <= to * elapsed < (now + 1) * length
        }),
{
    assert(reaches(curve.begins(), curve.points(), 0) == curve.begins());
    assert(reaches(curve.begins(), curve.points(), 1) == curve.begins()
        + curve.points()[0].0.nanos);
    a_curve_follows_its_runs(curve, 0, at);
    a_run_is_a_straight_line(
        curve.begins(),
        curve.begins() + curve.points()[0].0.nanos as nat,
        0,
        curve.points()[0].1.sat,
        at,
    );
}

/// A curve without breakpoints is worth nothing, and one with some is worth what the last says
/// at any moment after it.
pub proof fn a_curve_ends_where_its_last_breakpoint_says(curve: PayoffCurve, at: nat)
    ensures
        curve.points().len() == 0 ==> curve.worth_at(at) == 0,
        curve.points().len() > 0 && at > reaches(
            curve.begins(),
            curve.points(),
            curve.points().len(),
        ) ==> curve.worth_at(at) == curve.points().last().1.sat,
{
    if curve.points().len() > 0 && at > reaches(
        curve.begins(),
        curve.points(),
        curve.points().len(),
    ) {
        a_curve_holds_its_last_worth(curve, at);
    }
}

/// A curve can be followed at every moment if its moments can be counted and none of its runs
/// lasts longer than 64 bits can count.
pub proof fn ordinary_curves_can_be_followed(curve: PayoffCurve, at: nat)
    requires
        reaches(curve.begins(), curve.points(), curve.points().len()) <= u128::MAX,
        forall|i: int|
            0 <= i < curve.points().len() ==> (#[trigger] curve.points()[i]).0.nanos <= u64::MAX,
    ensures
        curve.computable(at),
{
    let (start, points) = (curve.begins(), curve.points());
    assert forall|n: nat| n < points.len() && (n == 0 || at > reaches(start, points, n)) implies {
        let end = #[trigger] reaches(start, points, n + 1);
        let begin = reaches(start, points, n);
        &&& end <= u128::MAX
        &&& begin <= at < end ==> apart(worth(points, n), worth(points, n + 1)) * (at - begin)
            <= u128::MAX
    } by {
        let (begin, end) = (reaches(start, points, n), reaches(start, points, n + 1));
        reaches_in_order(start, points, n + 1, points.len());
        let way = apart(worth(points, n), worth(points, n + 1));
        assert(end - begin == points[n as int].0.nanos);
        if begin <= at < end {
            let elapsed = (at - begin) as nat;
            assert(way * elapsed <= 0xffff_ffff_ffff_ffff * 0xffff_ffff_ffff_ffff)
                by (nonlinear_arith)
                requires
                    way <= 0xffff_ffff_ffff_ffff,
                    elapsed <= 0xffff_ffff_ffff_ffff,
            ;
        }
    }
}

/// An action is shown by the script and the amount that it names, and asks for one output,
/// with that amount and to that script.
pub proof fn an_action_asks_for_its_output(asked: FixedPaymentInstructions)
    ensures
        Action::OutputCreation(asked)@ == ActionView::OutputCreation(
            asked.script_pubkey.bytes@,
            asked.amount.sat,
        ),
        Action::OutputCreation(asked)@.outputs().len() == 1,
        Action::OutputCreation(asked)@.outputs()[0].sat == asked.amount.sat,
        Action::OutputCreation(asked)@.outputs()[0].script == asked.script_pubkey.bytes@,
{
}

} // verus!
