use crate::date::Date;
use crate::metrics::Revenue;
use vstd::prelude::*;

verus! {

/// Half the width of the window a forecast date is drawn from: four weeks
/// on either side of a timeline.
pub const JITTER_DAYS: u32 = 28;

/// How many value multipliers a forecast chooses among.
pub const MULTIPLIER_COUNT: usize = 5;

/// The `k`-th value multiplier of a forecast, in tenths: 0, 0.8, 0.9, 1.0
/// and 1.1.
pub open spec fn multiplier_tenths_spec(k: int) -> int {
    if k == 0 {
        0
    } else if k == 1 {
        8
    } else if k == 2 {
        9
    } else if k == 3 {
        10
    } else {
        11
    }
}

/// `value` times `tenths` tenths, truncated toward zero, and capped at the
/// largest `u32`.
pub open spec fn scaled(value: u32, tenths: int) -> int {
    let x = value * tenths / 10;
    if x > u32::MAX {
        u32::MAX as int
    } else {
        x
    }
}

/// Relies on `rand::Rng::gen_range` over the thread-local generator of
/// `rand::thread_rng`: a number drawn uniformly from `0..n`, which panics on
/// an empty range.
#[verifier::external_body]
fn random_below(n: u64) -> (r: u64)
    requires
        n > 0,
    ensures
        r < n,
{
    rand::Rng::gen_range(&mut rand::thread_rng(), 0..n)
}

/// The `k`-th value multiplier of a forecast, in tenths.
pub fn multiplier_tenths(k: usize) -> (r: u64)
    requires
        k < MULTIPLIER_COUNT,
    ensures
        r == multiplier_tenths_spec(k as int),
{
    match k {
        0 => 0,
        1 => 8,
        2 => 9,
        3 => 10,
        _ => 11,
    }
}

/// `value` times `tenths` tenths, truncated toward zero; a result past the
/// largest `u32` gives the largest `u32`.
pub fn scale(value: u32, tenths: u64) -> (r: u32)
    requires
        tenths <= 11,
    ensures
        r == scaled(value, tenths as int),
{
    assert(value as u64 * tenths <= 0xffff_ffffu64 * 11) by (nonlinear_arith)
        requires
            tenths <= 11,
    ;
    let x: u64 = value as u64 * tenths / 10;
    if x > u32::MAX as u64 {
        u32::MAX
    } else {
        x as u32
    }
}

/// A named piece of work: the day it starts, how many whole days it runs
/// past that day, and the revenue it brings in if it is realised as
/// scheduled.
#[derive(Debug)]
pub struct Timeline {
    pub name: String,
    pub start_date: Date,
    /// Length in whole days; the timeline ends this many days after it starts.
    pub duration: u32,
    pub metric: Revenue,
}

impl PartialEq for Timeline {
    fn eq(&self, other: &Timeline) -> (r: bool) {
        self.name == other.name && self.start_date == other.start_date
            && self.duration == other.duration && self.metric == other.metric
    }
}

impl vstd::std_specs::cmp::PartialEqSpecImpl for Timeline {
    open spec fn obeys_eq_spec() -> bool {
        true
    }

    open spec fn eq_spec(&self, other: &Timeline) -> bool {
        &&& self.name@ == other.name@
        &&& self.start_date == other.start_date
        &&& self.duration == other.duration
        &&& self.metric == other.metric
    }
}

/// The name of a timeline that was given none.
pub const DEFAULT_NAME: &'static str = "New Timeline";

/// The length of a timeline that was given none: four weeks.
pub const DEFAULT_DURATION_DAYS: u32 = 28;

/// The revenue of a timeline that was given none.
pub const DEFAULT_REVENUE: u32 = 10000;

impl Default for Timeline {
    /// A timeline named "New Timeline" that starts on 1970-01-01, runs four
    /// weeks and brings in 10000.
    fn default() -> (r: Timeline)
        ensures
            r.name@ == DEFAULT_NAME@,
            r.start_date.day == crate::date::UNIX_EPOCH_DAY,
            r.duration == DEFAULT_DURATION_DAYS,
            r.metric.value == DEFAULT_REVENUE,
    {
        Timeline {
            name: DEFAULT_NAME.to_owned(),
            start_date: Date::default(),
            duration: DEFAULT_DURATION_DAYS,
            metric: Revenue { value: DEFAULT_REVENUE },
        }
    }
}

impl Timeline {
    /// The default timeline.
    pub fn new() -> (r: Timeline)
        ensures
            r.name@ == DEFAULT_NAME@,
            r.start_date.day == crate::date::UNIX_EPOCH_DAY,
            r.duration == DEFAULT_DURATION_DAYS,
            r.metric.value == DEFAULT_REVENUE,
    {
        Self::default()
    }

    /// A builder for a timeline named `name`, with every other field at its
    /// default.
    pub fn builder(name: &str) -> (r: TimelineBuilder)
        ensures
            r@.0 == name@,
            r@.1.day == crate::date::UNIX_EPOCH_DAY,
            r@.2 == DEFAULT_DURATION_DAYS,
            r@.3 == DEFAULT_REVENUE,
    {
        TimelineBuilder::new(name)
    }

    /// The number of the last day of the timeline.
    pub open spec fn end_day(self) -> int {
        self.start_date.day + self.duration
    }

    /// The last day of the timeline.
    pub open spec fn end(self) -> Date {
        Date { day: self.end_day() as i64 }
    }

    /// Whether `date` lies in the timeline, its first and last day included.
    pub open spec fn covers(self, date: Date) -> bool {
        self.start_date.day <= date.day <= self.end_day()
    }

    /// What the timeline contributes on `date`: its full value on each of
    /// its days, nothing on any other.
    pub open spec fn contribution_at(self, date: Date) -> u32 {
        if self.covers(date) {
            self.metric.value
        } else {
            0
        }
    }

    /// How many days the forecast window holds: the timeline's own days
    /// past its start, and `JITTER_DAYS` more on either side.
    pub open spec fn jitter_span(self) -> int {
        self.duration + 2 * JITTER_DAYS
    }

    /// Whether every day of the forecast window has a number that fits in
    /// an `i64`.
    pub open spec fn jitter_fits(self) -> bool {
        &&& i64::MIN <= self.start_date.day - JITTER_DAYS
        &&& self.end_day() + JITTER_DAYS <= i64::MAX
    }

    /// The forecast for the `offset`-th day of the forecast window and the
    /// `pick`-th value multiplier.
    pub open spec fn rolled(self, offset: int, pick: int) -> (u32, Date) {
        (
            scaled(self.metric.value, multiplier_tenths_spec(pick)) as u32,
            self.start_date.plus(offset - JITTER_DAYS),
        )
    }

    /// The last day of this timeline: `duration` days after its start.
    pub fn end_date(&self) -> (r: Date)
        requires
            self.end_day() <= i64::MAX,
        ensures
            r == self.end(),
    {
        Date { day: self.start_date.day + self.duration as i64 }
    }

    /// The revenue this timeline contributes on `date`: all of it on any day
    /// from its start to its end, both included, and nothing on other days.
    pub fn contribution_on(&self, date: Date) -> (r: u32)
        ensures
            r == self.contribution_at(date),
    {
        let last_day: i128 = self.start_date.day as i128 + self.duration as i128;
        let in_scope = date.day >= self.start_date.day && date.day as i128 <= last_day;
        if in_scope {
            self.metric.value
        } else {
            0
        }
    }

    /// The forecast made of two given draws: the date `offset` days into the
    /// forecast window, which opens `JITTER_DAYS` before the start, and the
    /// value scaled by the `pick`-th multiplier.
    pub fn roll_from(&self, offset: u64, pick: usize) -> (r: (u32, Date))
        requires
            self.jitter_fits(),
            offset < self.jitter_span(),
            pick < MULTIPLIER_COUNT,
        ensures
            r == self.rolled(offset as int, pick as int),
    {
        let min_day = self.start_date.day - JITTER_DAYS as i64;
        let date = Date { day: min_day + offset as i64 };
        let value = scale(self.metric.value, multiplier_tenths(pick));
        (value, date)
    }

    /// One random forecast of this timeline: a date drawn uniformly from the
    /// window of `JITTER_DAYS` before its start to `JITTER_DAYS` after its
    /// end, and, independently, its value scaled by a multiplier drawn
    /// uniformly from 0, 0.8, 0.9, 1.0 and 1.1.
    pub fn roll(&self) -> (r: (u32, Date))
        requires
            self.jitter_fits(),
        ensures
            exists|offset: int, pick: int|
                0 <= offset < self.jitter_span() && 0 <= pick < MULTIPLIER_COUNT && r
                    == #[trigger] self.rolled(offset, pick),
            self.start_date.day - JITTER_DAYS <= r.1.day < self.end_day() + JITTER_DAYS,
            ({
                let v = self.metric.value;
                ||| r.0 == 0
                ||| r.0 == scaled(v, 8)
                ||| r.0 == scaled(v, 9)
                ||| r.0 == v
                ||| r.0 == scaled(v, 11)
            }),
    {
        let span: u64 = self.duration as u64 + 2 * JITTER_DAYS as u64;
        let offset = random_below(span);
        let pick = random_below(MULTIPLIER_COUNT as u64) as usize;
        let r = self.roll_from(offset, pick);
        assert(r == self.rolled(offset as int, pick as int));
        let ghost v = self.metric.value as int;
        assert(v * 0 / 10 == 0 && v * 10 / 10 == v) by (nonlinear_arith);
        r
    }
}

/// Puts a timeline together field by field, starting from the defaults.
pub struct TimelineBuilder {
    name: String,
    start_date: Date,
    duration: u32,
    metric: Revenue,
}

impl View for TimelineBuilder {
    /// The name, start date, length in days and revenue set so far.
    type V = (Seq<char>, Date, u32, u32);

    closed spec fn view(&self) -> (Seq<char>, Date, u32, u32) {
        (self.name@, self.start_date, self.duration, self.metric.value)
    }
}

impl TimelineBuilder {
    /// A builder for a timeline named `name` that starts on 1970-01-01, runs
    /// four weeks and brings in 10000.
    pub fn new(name: &str) -> (r: TimelineBuilder)
        ensures
            r@.0 == name@,
            r@.1.day == crate::date::UNIX_EPOCH_DAY,
            r@.2 == DEFAULT_DURATION_DAYS,
            r@.3 == DEFAULT_REVENUE,
    {
        TimelineBuilder {
            name: name.to_owned(),
            start_date: Date::default(),
            duration: DEFAULT_DURATION_DAYS,
            metric: Revenue { value: DEFAULT_REVENUE },
        }
    }

    /// The timeline with the fields set so far.
    pub fn build(self) -> (r: Timeline)
        ensures
            r.name@ == self@.0,
            r.start_date == self@.1,
            r.duration == self@.2,
            r.metric.value == self@.3,
    {
        Timeline {
            name: self.name,
            start_date: self.start_date,
            duration: self.duration,
            metric: self.metric,
        }
    }

    /// Sets the name.
    pub fn name(self, name: &str) -> (r: TimelineBuilder)
        ensures
            r@.0 == name@,
            r@.1 == self@.1,
            r@.2 == self@.2,
            r@.3 == self@.3,
    {
        TimelineBuilder { name: name.to_owned(), ..self }
    }

    /// Sets the revenue.
    pub fn revenue(self, revenue: u32) -> (r: TimelineBuilder)
        ensures
            r@.0 == self@.0,
            r@.1 == self@.1,
            r@.2 == self@.2,
            r@.3 == revenue,
    {
        TimelineBuilder { metric: Revenue { value: revenue }, ..self }
    }

    /// Sets the start date.
    pub fn start_date(self, date: Date) -> (r: TimelineBuilder)
        ensures
            r@.0 == self@.0,
            r@.1 == date,
            r@.2 == self@.2,
            r@.3 == self@.3,
    {
        TimelineBuilder { start_date: date, ..self }
    }

    /// Sets the length to `weeks` whole weeks.
    pub fn weeks(self, weeks: u8) -> (r: TimelineBuilder)
        ensures
            r@.0 == self@.0,
            r@.1 == self@.1,
            r@.2 == 7 * weeks,
            r@.3 == self@.3,
    {
        TimelineBuilder { duration: 7 * weeks as u32, ..self }
    }
}

impl Default for TimelineBuilder {
    /// A builder for a timeline named "New Timeline", with every other field
    /// at its default.
    fn default() -> (r: TimelineBuilder)
        ensures
            r@.0 == DEFAULT_NAME@,
            r@.1.day == crate::date::UNIX_EPOCH_DAY,
            r@.2 == DEFAULT_DURATION_DAYS,
            r@.3 == DEFAULT_REVENUE,
    {
        TimelineBuilder::new(DEFAULT_NAME)
    }
}

/// A timeline contributes its full value on its first day and on its last
/// day, and nothing on the day before it starts or on the day after it ends.
pub proof fn lemma_contribution_at_edges(t: Timeline)
    requires
        i64::MIN < t.start_date.day,
        t.end_day() < i64::MAX,
    ensures
        t.contribution_at(t.start_date) == t.metric.value,
        t.contribution_at(t.end()) == t.metric.value,
        t.contribution_at(t.start_date.plus(-1)) == 0,
        t.contribution_at(t.end().plus(1)) == 0,
{
}

/// A timeline of zero days ends on the day it starts, and that day is the
/// only one on which it contributes anything.
pub proof fn lemma_zero_duration(t: Timeline, date: Date)
    requires
        t.duration == 0,
    ensures
        t.end() == t.start_date,
        t.contribution_at(date) == (if date == t.start_date {
            t.metric.value
        } else {
            0
        }),
{
}

} // verus!
