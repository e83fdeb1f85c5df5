//! The weekly schedule gate: a two-state machine that decides, once per
//! occurrence of a designated weekday, whether the recurring scheduled
//! action is due.

use vstd::prelude::*;

verus! {

/// A day of the week, as the schedule logic sees it.
#[derive(Clone, Copy, Debug, PartialEq, Eq, Structural)]
pub enum Weekday {
    Mon,
    Tue,
    Wed,
    Thu,
    Fri,
    Sat,
    Sun,
}

/// The two-letter German abbreviation of a weekday, used both as the
/// display prefix of the scheduled poll's question and (for the designated
/// day) as part of that question.
pub open spec fn spec_day_prefix(d: Weekday) -> Seq<char> {
    match d {
        Weekday::Mon => "Mo"@,
        Weekday::Tue => "Di"@,
        Weekday::Wed => "Mi"@,
        Weekday::Thu => "Do"@,
        Weekday::Fri => "Fr"@,
        Weekday::Sat => "Sa"@,
        Weekday::Sun => "So"@,
    }
}

/// Returns the two-letter abbreviation of `d`.
pub fn day_prefix(d: Weekday) -> (r: &'static str)
    ensures
        r@ == spec_day_prefix(d),
{
    match d {
        Weekday::Mon => "Mo",
        Weekday::Tue => "Di",
        Weekday::Wed => "Mi",
        Weekday::Thu => "Do",
        Weekday::Fri => "Fr",
        Weekday::Sat => "Sa",
        Weekday::Sun => "So",
    }
}

/// Decides whether the weekly recurring action is due. `fired` records
/// whether the action has already been triggered within the current
/// window of consecutive consultations on the designated day.
#[derive(Clone, Copy, Debug, PartialEq, Eq, Structural)]
pub struct ScheduleGate {
    /// The designated weekday on which the recurring action is due.
    pub target: Weekday,
    /// Whether the action has already fired in the current day window.
    pub fired: bool,
}

impl ScheduleGate {
    /// A consultation on day `today` triggers the action exactly when the
    /// day is the designated one and the action has not fired yet.
    pub open spec fn spec_fires(self, today: Weekday) -> bool {
        today == self.target && !self.fired
    }

    /// The state after a consultation on day `today`: the flag is set
    /// while the designated day lasts and resets on any other day.
    pub open spec fn spec_after_tick(self, today: Weekday) -> ScheduleGate {
        ScheduleGate { fired: today == self.target, ..self }
    }

    /// A fresh gate for the designated day `target`, which has not fired.
    pub fn new(target: Weekday) -> (g: ScheduleGate)
        ensures
            g.target == target,
            !g.fired,
    {
        ScheduleGate { target, fired: false }
    }

    /// One consultation of the schedule: reports whether the recurring
    /// action is due now and advances the state.
    pub fn tick(&mut self, today: Weekday) -> (fire: bool)
        ensures
            fire == old(self).spec_fires(today),
            *final(self) == old(self).spec_after_tick(today),
    {
        let fire = today == self.target && !self.fired;
        self.fired = today == self.target;
        fire
    }
}

/// How many consultations of the sequence `days`, made in order starting
/// from gate state `g`, trigger the recurring action.
pub open spec fn spec_fire_count(g: ScheduleGate, days: Seq<Weekday>) -> nat
    decreases days.len(),
{
    if days.len() == 0 {
        0
    } else {
        (if g.spec_fires(days[0]) {
            1nat
        } else {
            0nat
        }) + spec_fire_count(g.spec_after_tick(days[0]), days.subrange(1, days.len() as int))
    }
}

/// Once the schedule has fired, further consultations on the designated
/// day trigger nothing: a window of consecutive designated days after a
/// fire yields no further fire.
pub proof fn lemma_no_fire_while_set(g: ScheduleGate, days: Seq<Weekday>)
    requires
        g.fired,
        forall|i: int| 0 <= i < days.len() ==> days[i] == g.target,
    ensures
        spec_fire_count(g, days) == 0,
    decreases days.len(),
{
    if days.len() > 0 {
        let rest = days.subrange(1, days.len() as int);
        assert(forall|i: int| 0 <= i < rest.len() ==> rest[i] == g.target);
        lemma_no_fire_while_set(g.spec_after_tick(days[0]), rest);
    }
}

/// The recurring action fires at most once per occurrence of the
/// designated weekday: across any window of consecutive consultations
/// that all observe the designated day, at most one consultation fires.
pub proof fn lemma_at_most_once_per_window(g: ScheduleGate, days: Seq<Weekday>)
    requires
        forall|i: int| 0 <= i < days.len() ==> days[i] == g.target,
    ensures
        spec_fire_count(g, days) <= 1,
    decreases days.len(),
{
    if days.len() > 0 {
        let rest = days.subrange(1, days.len() as int);
        assert(forall|i: int| 0 <= i < rest.len() ==> rest[i] == g.target);
        lemma_no_fire_while_set(g.spec_after_tick(days[0]), rest);
    }
}

/// As soon as a consultation observes a day other than the designated one,
/// the schedule is pending again: the next designated day fires.
pub proof fn lemma_resets_off_target(g: ScheduleGate, today: Weekday)
    requires
        today != g.target,
    ensures
        g.spec_after_tick(today).spec_fires(g.target),
{
}

} // verus!
