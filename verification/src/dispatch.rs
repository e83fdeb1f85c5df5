//! The polling loop's verified core: the loop state (schedule gate plus
//! update cursor), the decision whether the weekly scheduled poll is due,
//! and the cursor bookkeeping over a fetched batch of updates.
//!
//! The loop itself — fetching updates from the transport, sending the
//! decided actions, spawning one handler per message — is I/O and runs
//! outside this crate; it hands each fetched batch to `ingest` and each
//! day observation to `schedule_tick`.

use vstd::prelude::*;
use vstd::string::StringExecFns;

use crate::catalog::{in_list, DataError, PollOptions};
use crate::router::{Action, Message};
use crate::schedule::{day_prefix, spec_day_prefix, ScheduleGate, Weekday};

verus! {

/// One unit of inbound activity fetched from the transport, carrying a
/// monotonically increasing id and, for text activity, a message.
pub struct Update {
    /// The transport's strictly increasing update id.
    pub id: i64,
    /// The message the update carries, if any.
    pub message: Option<Message>,
}

/// The state the polling loop carries across iterations: the weekly
/// schedule gate and the update cursor (the smallest update id not yet
/// acknowledged as processed).
pub struct PollLoop {
    /// The flag machinery of the weekly scheduled poll.
    pub gate: ScheduleGate,
    /// The update cursor handed to the next fetch.
    pub cursor: i64,
}

/// The question text of the scheduled poll on day `d`: the fixed stem
/// followed by the day's abbreviation.
pub open spec fn spec_scheduled_question(d: Weekday) -> Seq<char> {
    "Do"@ + spec_day_prefix(d)
}

/// Builds the scheduled poll's day-dependent question text.
pub fn scheduled_question(d: Weekday) -> (q: String)
    ensures
        q@ == spec_scheduled_question(d),
{
    let mut q = String::from_str("Do");
    q.append(day_prefix(d));
    q
}

/// Whether `a` is the weekly scheduled poll for day `d`: no reply target,
/// the day-dependent question, and exactly one "yes" and one "no" phrase
/// of the catalog, in that order.
pub open spec fn spec_is_scheduled_poll(a: Action, d: Weekday, cat: PollOptions) -> bool {
    a matches Action::SendPoll { reply_to, question, options } && reply_to is None && question@
        == spec_scheduled_question(d) && options@.len() == 2 && in_list(cat.ja@, options@[0]@)
        && in_list(cat.nein@, options@[1]@)
}

/// Everything one consultation of the schedule promises, given the day
/// `d` that was observed: the cursor is untouched, the schedule advances
/// by one tick on `d`, and the result is the scheduled poll exactly when
/// the schedule fires — unless a catalog list is empty, in which case that
/// single action fails with `EmptyCatalog` and is skipped (the schedule
/// still advances, so there is no retry within the same day window).
pub open spec fn spec_schedule_outcome(
    pre: PollLoop,
    post: PollLoop,
    d: Weekday,
    cat: PollOptions,
    r: Result<Option<Action>, DataError>,
) -> bool {
    &&& post.cursor == pre.cursor
    &&& post.gate == pre.gate.spec_after_tick(d)
    &&& ((r is Err) <==> (pre.gate.spec_fires(d) && (cat.ja@.len() == 0 || cat.nein@.len() == 0)))
    &&& (r matches Err(e) ==> e == DataError::EmptyCatalog)
    &&& (!pre.gate.spec_fires(d) ==> (r matches Ok(a) && a is None))
    &&& ((r is Ok && r->Ok_0 is Some) ==> (pre.gate.spec_fires(d) && spec_is_scheduled_poll(
        r->Ok_0->Some_0,
        d,
        cat,
    )))
    &&& ((pre.gate.spec_fires(d) && cat.ja@.len() > 0 && cat.nein@.len() > 0) ==> (r is Ok
        && r->Ok_0 is Some && spec_is_scheduled_poll(r->Ok_0->Some_0, d, cat)))
}

/// Builds the weekly scheduled poll for day `today`: no reply target, the
/// day-dependent question, one "yes" and one "no" phrase picked from the
/// catalog. Fails with `EmptyCatalog` exactly when one of the catalog's
/// lists is empty.
pub fn build_scheduled_poll(today: Weekday, catalog: &PollOptions) -> (r: Result<
    Action,
    DataError,
>)
    ensures
        (r is Err) <==> (catalog.ja@.len() == 0 || catalog.nein@.len() == 0),
        (r matches Err(e) ==> e == DataError::EmptyCatalog),
        (r matches Ok(a) ==> spec_is_scheduled_poll(a, today, *catalog)),
{
    let yes = match catalog.pick_yes() {
        Ok(s) => s,
        Err(e) => {
            return Err(e);
        },
    };
    let no = match catalog.pick_no() {
        Ok(s) => s,
        Err(e) => {
            return Err(e);
        },
    };
    let mut options: Vec<String> = Vec::new();
    options.push(yes);
    options.push(no);
    Ok(Action::SendPoll { reply_to: None, question: scheduled_question(today), options })
}

/// What one clock-driven consultation of the schedule promises, given the
/// day `d` the clock returned: the cursor is untouched, the schedule
/// advances by one tick on `d`, and the day is reported exactly when the
/// schedule fired on it.
pub open spec fn spec_tick_observation(
    pre: PollLoop,
    post: PollLoop,
    d: Weekday,
    r: Option<Weekday>,
) -> bool {
    &&& post.cursor == pre.cursor
    &&& post.gate == pre.gate.spec_after_tick(d)
    &&& r == (if pre.gate.spec_fires(d) {
        Some(d)
    } else {
        Option::<Weekday>::None
    })
}

/// Relies on chrono's `Local::now` and `Datelike::weekday`: the current
/// day of the week in the machine's local time zone. Nothing can be
/// promised of which day comes back.
#[verifier::external_body]
fn current_weekday() -> Weekday {
    match chrono::Datelike::weekday(&chrono::offset::Local::now()) {
        chrono::Weekday::Mon => Weekday::Mon,
        chrono::Weekday::Tue => Weekday::Tue,
        chrono::Weekday::Wed => Weekday::Wed,
        chrono::Weekday::Thu => Weekday::Thu,
        chrono::Weekday::Fri => Weekday::Fri,
        chrono::Weekday::Sat => Weekday::Sat,
        chrono::Weekday::Sun => Weekday::Sun,
    }
}

/// The messages carried by a batch of updates, in arrival order.
pub open spec fn spec_messages_of(s: Seq<Update>) -> Seq<Message>
    decreases s.len(),
{
    if s.len() == 0 {
        Seq::empty()
    } else {
        match s[0].message {
            Some(m) => seq![m] + spec_messages_of(s.subrange(1, s.len() as int)),
            None => spec_messages_of(s.subrange(1, s.len() as int)),
        }
    }
}

/// The cursor after consuming a batch: just past the last update's id,
/// or unchanged when the batch is empty.
pub open spec fn spec_cursor_after(cursor: int, s: Seq<Update>) -> int {
    if s.len() == 0 {
        cursor
    } else {
        s.last().id + 1
    }
}

/// What the transport promises of a fetched batch relative to the cursor
/// it was fetched with: ids strictly increasing, none below the cursor,
/// and none at the id type's ceiling (so that `id + 1` exists).
pub open spec fn spec_valid_batch(cursor: int, s: Seq<Update>) -> bool {
    &&& (forall|i: int, j: int| 0 <= i < j < s.len() ==> s[i].id < s[j].id)
    &&& (forall|i: int| 0 <= i < s.len() ==> cursor <= #[trigger] s[i].id)
    &&& (forall|i: int| 0 <= i < s.len() ==> #[trigger] s[i].id < i64::MAX)
}

impl PollLoop {
    /// A fresh loop state: cursor at zero, gate pending for `target`.
    pub fn new(target: Weekday) -> (p: PollLoop)
        ensures
            p.cursor == 0,
            p.gate.target == target,
            !p.gate.fired,
    {
        PollLoop { gate: ScheduleGate::new(target), cursor: 0 }
    }

    /// One consultation of the weekly schedule for the observed day
    /// `today`: advances the schedule and, exactly when it fires and the
    /// catalog has phrases, yields the scheduled poll to send.
    pub fn schedule_tick(&mut self, today: Weekday, catalog: &PollOptions) -> (r: Result<
        Option<Action>,
        DataError,
    >)
        ensures
            spec_schedule_outcome(*old(self), *final(self), today, *catalog, r),
    {
        let fire = self.gate.tick(today);
        if !fire {
            return Ok(None);
        }
        match build_scheduled_poll(today, catalog) {
            Ok(a) => Ok(Some(a)),
            Err(e) => Err(e),
        }
    }

    /// Consults the weekly schedule for the machine's current day and
    /// reports that day exactly when the schedule fired on it, so the
    /// caller can build and send the scheduled poll. The observed day is whatever
    /// the clock returned, so the contract holds for some day.
    pub fn schedule_tick_now(&mut self) -> (r: Option<Weekday>)
        ensures
            exists|d: Weekday| #[trigger] spec_tick_observation(*old(self), *final(self), d, r),
            final(self).cursor == old(self).cursor,
            (r matches Some(d) ==> d == old(self).gate.target && !old(self).gate.fired),
    {
        let today = current_weekday();
        let fire = self.gate.tick(today);
        let r = if fire {
            Some(today)
        } else {
            None
        };
        proof {
            assert(spec_tick_observation(*old(self), *self, today, r));
        }
        r
    }

    /// Consumes one fetched batch: moves the cursor just past each update
    /// in arrival order and hands back the messages the batch carries, in
    /// the same order, for the caller to dispatch. The cursor never moves
    /// backwards, and where it lands does not depend on what any message
    /// handler later does with the returned messages.
    pub fn ingest(&mut self, updates: Vec<Update>) -> (msgs: Vec<Message>)
        requires
            spec_valid_batch(old(self).cursor as int, updates@),
        ensures
            final(self).gate == old(self).gate,
            final(self).cursor == spec_cursor_after(old(self).cursor as int, updates@),
            final(self).cursor >= old(self).cursor,
            msgs@ == spec_messages_of(updates@),
    {
        let ghost all = updates@;
        let mut msgs: Vec<Message> = Vec::new();
        let mut rest = updates;
        proof {
            assert(rest@ =~= all);
            assert(msgs@ + spec_messages_of(all) =~= spec_messages_of(all));
        }
        while rest.len() > 0
            invariant
                spec_valid_batch(self.cursor as int, rest@),
                self.gate == old(self).gate,
                self.cursor >= old(self).cursor,
                msgs@ + spec_messages_of(rest@) == spec_messages_of(all),
                spec_cursor_after(self.cursor as int, rest@) == spec_cursor_after(
                    old(self).cursor as int,
                    all,
                ),
            decreases rest.len(),
        {
            let ghost before = rest@;
            let ghost prev_msgs = msgs@;
            let u = rest.remove(0);
            proof {
                assert(rest@ =~= before.subrange(1, before.len() as int));
                assert(spec_messages_of(before) == (match before[0].message {
                    Some(m) => seq![m] + spec_messages_of(rest@),
                    None => spec_messages_of(rest@),
                }));
            }
            self.cursor = u.id + 1;
            match u.message {
                Some(m) => {
                    msgs.push(m);
                    proof {
                        assert(msgs@ =~= prev_msgs + seq![m]);
                        assert((prev_msgs + seq![m]) + spec_messages_of(rest@) =~= prev_msgs + (
                        seq![m] + spec_messages_of(rest@)));
                    }
                },
                None => {},
            }
            proof {
                if rest@.len() > 0 {
                    assert(rest@.last() == before.last());
                } else {
                    assert(before.last() == u);
                }
            }
        }
        proof {
            assert(rest@.len() == 0);
            assert(msgs@ + spec_messages_of(rest@) =~= msgs@);
        }
        msgs
    }
}

} // verus!
