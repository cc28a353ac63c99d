//! When the reminders of a scheduled event are due.
//!
//! Moments are UTC date-times held as whole seconds since the Unix epoch plus
//! the nanoseconds into that second, within the range of chrono's
//! `NaiveDateTime`. The reminder moments follow the arithmetic of chrono's
//! `TimeDelta::hours` / `TimeDelta::minutes` (refused beyond
//! `DELTA_LIMIT_SECS`), `NaiveDateTime::checked_sub_signed` (refused outside
//! the representable range), `DateTime::date_naive` with
//! `NaiveDate::and_time` (the UTC day at 07:00) and `DateTime::naive_local`
//! (the UTC moment shifted by the fixed offset, refused outside the range).

use crate::durations::EventDurationKind;
use crate::ids::as_signed;
use crate::seq_facts::{
    lemma_filter_agree, lemma_filter_all, lemma_filter_contains, lemma_filter_distinct,
    lemma_filter_none, lemma_filter_split_len, lemma_filter_subsequence,
};
use vstd::prelude::*;

verus! {

/// The first second that a `NaiveDateTime` can hold (January 1 of year
/// -262143, 00:00:00 UTC), in seconds since the Unix epoch.
pub const FIRST_SECOND: i64 = -8334601228800i64;

/// The last second that a `NaiveDateTime` can hold (December 31 of year
/// 262142, 23:59:59 UTC), in seconds since the Unix epoch.
pub const LAST_SECOND: i64 = 8210266876799i64;

/// The largest number of whole seconds that a `TimeDelta` holds, either way.
pub const DELTA_LIMIT_SECS: i64 = 9223372036854775i64;

/// Seconds in a day.
pub const SECS_PER_DAY: i64 = 86400i64;

/// The time of day of a start-of-day reminder, 07:00, in seconds.
pub const START_OF_DAY_SECS: i64 = 25200i64;

/// A UTC date-time: whole seconds since the Unix epoch and the nanoseconds
/// into that second.
#[derive(Clone, Copy, Debug, PartialEq, Eq, Structural)]
pub struct Moment {
    pub secs: i64,
    pub nanos: u32,
}

/// Whether a second lies in the range of a `NaiveDateTime`.
pub open spec fn representable(secs: int) -> bool {
    FIRST_SECOND <= secs <= LAST_SECOND
}

/// Whether an offset from UTC, in seconds, is one that a `FixedOffset` holds.
pub open spec fn valid_offset(utc_offset: int) -> bool {
    -86400 < utc_offset < 86400
}

impl Moment {
    /// A moment that a `NaiveDateTime` can hold, outside a leap second.
    pub open spec fn wf(self) -> bool {
        &&& self.nanos < 1_000_000_000
        &&& representable(self.secs as int)
    }
}

/// Whether an offset from UTC, in seconds, is one that a `FixedOffset` holds.
pub fn is_valid_offset(utc_offset: i32) -> (r: bool)
    ensures
        r == valid_offset(utc_offset as int),
{
    -86400 < utc_offset && utc_offset < 86400
}

impl Moment {
    /// Whether the moment is one that a `NaiveDateTime` can hold.
    pub fn is_valid(&self) -> (r: bool)
        ensures
            r == self.wf(),
    {
        self.nanos < 1_000_000_000 && FIRST_SECOND <= self.secs && self.secs <= LAST_SECOND
    }
}

/// `a` comes strictly after `b`.
pub open spec fn is_after(a: Moment, b: Moment) -> bool {
    a.secs > b.secs || (a.secs == b.secs && a.nanos > b.nanos)
}

/// The moment `delta` seconds before `start`, where the delta is one that a
/// `TimeDelta` holds and the result one that a `NaiveDateTime` holds.
pub open spec fn shifted_back(start: Moment, delta: int) -> Option<Moment> {
    if -DELTA_LIMIT_SECS <= delta <= DELTA_LIMIT_SECS && representable(start.secs - delta) {
        Some(Moment { secs: (start.secs - delta) as i64, nanos: start.nanos })
    } else {
        None
    }
}

/// The first second of the UTC day that holds `secs`.
pub open spec fn day_start(secs: int) -> int {
    secs - secs % 86400
}

/// The moment at which a reminder becomes due, or `None` where the date
/// arithmetic leaves the range of chrono's types.
pub open spec fn reminder_at(kind: EventDurationKind, start: Moment) -> Option<Moment> {
    match kind {
        EventDurationKind::StartOfDay => Some(
            Moment { secs: (day_start(start.secs as int) + START_OF_DAY_SECS) as i64, nanos: 0 },
        ),
        EventDurationKind::Hour(t) => shifted_back(start, as_signed(t) * 3600),
        EventDurationKind::Minute(t) => shifted_back(start, as_signed(t) * 60),
    }
}

/// The clock that a reminder is compared with: the local wall clock for a
/// start-of-day reminder, UTC for the others.
pub open spec fn clock_for(kind: EventDurationKind, now: Moment, utc_offset: int) -> Moment {
    match kind {
        EventDurationKind::StartOfDay => Moment {
            secs: (now.secs + utc_offset) as i64,
            nanos: now.nanos,
        },
        _ => now,
    }
}

/// Whether a reminder can be checked at all: its moment exists and, for a
/// start-of-day reminder, the local wall clock is in range.
pub open spec fn checkable(
    kind: EventDurationKind,
    start: Moment,
    now: Moment,
    utc_offset: int,
) -> bool {
    &&& reminder_at(kind, start) is Some
    &&& (kind is StartOfDay ==> representable(now.secs + utc_offset))
}

/// Whether a reminder is due: its clock has passed its moment.
pub open spec fn is_due(kind: EventDurationKind, start: Moment, now: Moment, utc_offset: int) -> bool {
    match reminder_at(kind, start) {
        Some(at) => is_after(clock_for(kind, now, utc_offset), at),
        None => false,
    }
}

/// The reminders that are due, in their stored order.
pub open spec fn due_reminders(
    durations: Seq<EventDurationKind>,
    start: Moment,
    now: Moment,
    utc_offset: int,
) -> Seq<EventDurationKind> {
    durations.filter(due_test(start, now, utc_offset))
}

/// The test that keeps the reminders that are due.
pub open spec fn due_test(start: Moment, now: Moment, utc_offset: int) -> spec_fn(
    EventDurationKind,
) -> bool {
    |k: EventDurationKind| is_due(k, start, now, utc_offset)
}

/// The test that keeps the reminders that are not due yet.
pub open spec fn pending_test(start: Moment, now: Moment, utc_offset: int) -> spec_fn(
    EventDurationKind,
) -> bool {
    |k: EventDurationKind| !is_due(k, start, now, utc_offset)
}

/// The reminders that are not due yet, in their stored order.
pub open spec fn pending_reminders(
    durations: Seq<EventDurationKind>,
    start: Moment,
    now: Moment,
    utc_offset: int,
) -> Seq<EventDurationKind> {
    durations.filter(pending_test(start, now, utc_offset))
}

/// Whether a round of reminders can be planned: the event has started, or
/// every reminder can be checked.
pub open spec fn plannable(
    durations: Seq<EventDurationKind>,
    start: Moment,
    now: Moment,
    utc_offset: int,
) -> bool {
    is_after(now, start) || forall|i: int|
        0 <= i < durations.len() ==> #[trigger] checkable(durations[i], start, now, utc_offset)
}

/// What one round of the reminder loop does with a stored event.
#[derive(Debug)]
pub enum ReminderPlan {
    /// The event has started: its stored reminders are dropped.
    Expired,
    /// The event lies ahead: the due reminders are sent, in order, and the
    /// event keeps the others.
    Pending { due: Vec<EventDurationKind>, remaining: Vec<EventDurationKind> },
}

impl ReminderPlan {
    /// Whether the stored reminders change: the event is dropped, or some
    /// reminder was sent.
    pub open spec fn spec_changes_store(&self) -> bool {
        match self {
            ReminderPlan::Expired => true,
            ReminderPlan::Pending { due, .. } => due@.len() > 0,
        }
    }

    /// Whether the stored reminders change.
    pub fn changes_store(&self) -> (r: bool)
        ensures
            r == self.spec_changes_store(),
    {
        match self {
            ReminderPlan::Expired => true,
            ReminderPlan::Pending { due, .. } => due.len() > 0,
        }
    }
}

/// Whether `a` comes strictly after `b`.
pub fn moment_after(a: Moment, b: Moment) -> (r: bool)
    ensures
        r == is_after(a, b),
{
    a.secs > b.secs || (a.secs == b.secs && a.nanos > b.nanos)
}

/// The moment `count` units of `unit_secs` seconds before `start`, with
/// `count` read as chrono reads `count as i64`.
fn shift_back(start: Moment, count: u64, unit_secs: i64) -> (r: Option<Moment>)
    requires
        unit_secs == 3600 || unit_secs == 60,
    ensures
        r == shifted_back(start, as_signed(count) * unit_secs),
{
    let c: i128 = if count <= 0x7fff_ffff_ffff_ffffu64 {
        count as i128
    } else {
        count as i128 - 0x1_0000_0000_0000_0000i128
    };
    assert(c == as_signed(count));
    assert(-0x1_0000_0000_0000_0000 <= c < 0x1_0000_0000_0000_0000);
    let delta: i128 = if unit_secs == 3600 {
        c * 3600
    } else {
        c * 60
    };
    if delta < -(DELTA_LIMIT_SECS as i128) || delta > DELTA_LIMIT_SECS as i128 {
        return None;
    }
    let secs: i128 = start.secs as i128 - delta;
    if secs < FIRST_SECOND as i128 || secs > LAST_SECOND as i128 {
        return None;
    }
    Some(Moment { secs: secs as i64, nanos: start.nanos })
}

/// The first second of the UTC day of a representable second.
fn day_start_of(secs: i64) -> (r: i64)
    requires
        representable(secs as int),
    ensures
        r == day_start(secs as int),
        FIRST_SECOND <= r <= secs,
        r + 86399 <= LAST_SECOND,
{
    let shifted: u64 = (secs as i128 - FIRST_SECOND as i128) as u64;
    let into_day: u64 = shifted % 86400;
    proof {
        vstd::arithmetic::div_mod::lemma_mod_multiples_vanish(96465292, secs as int, 86400);
        assert(shifted == 86400 * 96465292 + secs);
        vstd::arithmetic::div_mod::lemma_fundamental_div_mod(secs as int, 86400);
        vstd::arithmetic::div_mod::lemma_fundamental_div_mod(LAST_SECOND as int, 86400);
        vstd::arithmetic::div_mod::lemma_mod_bound(secs as int, 86400);
        assert(LAST_SECOND % 86400 == 86399);
        assert((secs - secs % 86400) % 86400 == 0) by {
            vstd::arithmetic::div_mod::lemma_mod_multiples_vanish(secs / 86400, 0, 86400);
            assert(secs - secs % 86400 == 86400 * (secs / 86400));
        }
        assert(FIRST_SECOND % 86400 == 0);
        // a day start that is at most the last second lies a whole day before it
        vstd::arithmetic::div_mod::lemma_fundamental_div_mod(
            (secs - secs % 86400) as int,
            86400,
        );
        assert(secs / 86400 <= LAST_SECOND / 86400) by {
            vstd::arithmetic::div_mod::lemma_div_is_ordered(secs as int, LAST_SECOND as int, 86400);
        }
        assert(FIRST_SECOND / 86400 <= secs / 86400) by {
            vstd::arithmetic::div_mod::lemma_div_is_ordered(FIRST_SECOND as int, secs as int, 86400);
        }
    }
    secs - into_day as i64
}

/// The moment at which a reminder becomes due, or `None` where the date
/// arithmetic leaves the range of chrono's types (where chrono panics).
pub fn reminder_time(kind: EventDurationKind, start: Moment) -> (r: Option<Moment>)
    requires
        start.wf(),
    ensures
        r == reminder_at(kind, start),
{
    match kind {
        EventDurationKind::StartOfDay => {
            let day = day_start_of(start.secs);
            Some(Moment { secs: day + START_OF_DAY_SECS, nanos: 0 })
        },
        EventDurationKind::Hour(t) => shift_back(start, t, 3600),
        EventDurationKind::Minute(t) => shift_back(start, t, 60),
    }
}

/// Whether a reminder can be checked at the given clock reading.
pub fn is_checkable(kind: EventDurationKind, start: Moment, now: Moment, utc_offset: i32) -> (r:
    bool)
    requires
        start.wf(),
        now.wf(),
        valid_offset(utc_offset as int),
    ensures
        r == checkable(kind, start, now, utc_offset as int),
{
    if reminder_time(kind, start).is_none() {
        return false;
    }
    match kind {
        EventDurationKind::StartOfDay => {
            let local: i64 = now.secs + utc_offset as i64;
            FIRST_SECOND <= local && local <= LAST_SECOND
        },
        _ => true,
    }
}

/// Whether a reminder is due at the given clock reading.
pub fn reminder_due(kind: EventDurationKind, start: Moment, now: Moment, utc_offset: i32) -> (r:
    bool)
    requires
        start.wf(),
        now.wf(),
        valid_offset(utc_offset as int),
        checkable(kind, start, now, utc_offset as int),
    ensures
        r == is_due(kind, start, now, utc_offset as int),
{
    let at = match reminder_time(kind, start) {
        Some(at) => at,
        None => {
            return false;
        },
    };
    let clock = match kind {
        EventDurationKind::StartOfDay => Moment {
            secs: now.secs + utc_offset as i64,
            nanos: now.nanos,
        },
        _ => now,
    };
    moment_after(clock, at)
}

/// Whether a round of reminders can be planned for the stored reminders.
pub fn is_plannable(
    durations: &Vec<EventDurationKind>,
    start: Moment,
    now: Moment,
    utc_offset: i32,
) -> (r: bool)
    requires
        start.wf(),
        now.wf(),
        valid_offset(utc_offset as int),
    ensures
        r == plannable(durations@, start, now, utc_offset as int),
{
    if moment_after(now, start) {
        return true;
    }
    let n = durations.len();
    let mut i: usize = 0;
    while i < n
        invariant
            n == durations@.len(),
            i <= n,
            start.wf(),
            now.wf(),
            valid_offset(utc_offset as int),
            !is_after(now, start),
            forall|j: int| 0 <= j < i ==> #[trigger] checkable(durations@[j], start, now, utc_offset as int),
        decreases n - i,
    {
        if !is_checkable(durations[i], start, now, utc_offset) {
            assert(!checkable(durations@[i as int], start, now, utc_offset as int));
            return false;
        }
        i += 1;
    }
    true
}

/// One round of the reminder loop for a stored event: drops an event that
/// has started, and otherwise splits its reminders into those that are due
/// now and those that stay.
pub fn plan_reminders(
    durations: &Vec<EventDurationKind>,
    start: Moment,
    now: Moment,
    utc_offset: i32,
) -> (r: ReminderPlan)
    requires
        start.wf(),
        now.wf(),
        valid_offset(utc_offset as int),
        plannable(durations@, start, now, utc_offset as int),
    ensures
        is_after(now, start) ==> r is Expired,
        !is_after(now, start) ==> (r matches ReminderPlan::Pending { due, remaining } && due@
            == due_reminders(durations@, start, now, utc_offset as int) && remaining@
            == pending_reminders(durations@, start, now, utc_offset as int)),
{
    if moment_after(now, start) {
        return ReminderPlan::Expired;
    }
    let n = durations.len();
    let mut due: Vec<EventDurationKind> = Vec::new();
    let mut remaining: Vec<EventDurationKind> = Vec::new();
    let mut i: usize = 0;
    while i < n
        invariant
            n == durations@.len(),
            i <= n,
            start.wf(),
            now.wf(),
            valid_offset(utc_offset as int),
            !is_after(now, start),
            plannable(durations@, start, now, utc_offset as int),
            due@ == due_reminders(durations@.take(i as int), start, now, utc_offset as int),
            remaining@ == pending_reminders(durations@.take(i as int), start, now, utc_offset as int),
        decreases n - i,
    {
        proof {
            reveal_with_fuel(Seq::filter, 1);
            assert(durations@.take(i + 1).drop_last() =~= durations@.take(i as int));
            assert(checkable(durations@[i as int], start, now, utc_offset as int));
        }
        let d = durations[i];
        if reminder_due(d, start, now, utc_offset) {
            due.push(d);
        } else {
            remaining.push(d);
        }
        i += 1;
    }
    proof {
        assert(durations@.take(n as int) =~= durations@);
    }
    ReminderPlan::Pending { due, remaining }
}


/// A reminder that is due stays due as the clock moves on.
pub proof fn law_due_stays_due(
    kind: EventDurationKind,
    start: Moment,
    earlier: Moment,
    later: Moment,
    utc_offset: int,
)
    requires
        earlier.wf(),
        later.wf(),
        valid_offset(utc_offset),
        !is_after(earlier, later),
        is_due(kind, start, earlier, utc_offset),
    ensures
        is_due(kind, start, later, utc_offset),
{
}

/// One round sends each reminder or keeps it, never both: the kept
/// reminders are exactly the stored ones that are not among the sent ones,
/// and together they are as many as were stored.
pub proof fn law_round_partitions_reminders(
    durations: Seq<EventDurationKind>,
    start: Moment,
    now: Moment,
    utc_offset: int,
)
    ensures
        pending_reminders(durations, start, now, utc_offset) == durations.filter(
            |e: EventDurationKind| !due_reminders(durations, start, now, utc_offset).contains(e),
        ),
        due_reminders(durations, start, now, utc_offset).len() + pending_reminders(
            durations,
            start,
            now,
            utc_offset,
        ).len() == durations.len(),
{
    let due = due_reminders(durations, start, now, utc_offset);
    let not_sent = |e: EventDurationKind| !due.contains(e);
    assert forall|i: int| 0 <= i < durations.len() implies pending_test(start, now, utc_offset)(
        #[trigger] durations[i],
    ) == not_sent(durations[i]) by {
        lemma_filter_contains(durations, due_test(start, now, utc_offset), durations[i]);
        assert(durations.contains(durations[i]));
    }
    lemma_filter_agree(durations, pending_test(start, now, utc_offset), not_sent);
    lemma_filter_split_len(
        durations,
        due_test(start, now, utc_offset),
        pending_test(start, now, utc_offset),
    );
}

/// No reminder is sent twice: in the reminders that an event keeps, none is
/// due at the moment of the round that kept them.
pub proof fn law_kept_reminders_not_due(
    durations: Seq<EventDurationKind>,
    start: Moment,
    now: Moment,
    utc_offset: int,
)
    ensures
        due_reminders(pending_reminders(durations, start, now, utc_offset), start, now, utc_offset)
            == Seq::<EventDurationKind>::empty(),
{
    let kept = pending_reminders(durations, start, now, utc_offset);
    assert forall|i: int| 0 <= i < kept.len() implies !due_test(start, now, utc_offset)(
        #[trigger] kept[i],
    ) by {
        assert(kept.contains(kept[i]));
        lemma_filter_contains(durations, pending_test(start, now, utc_offset), kept[i]);
    }
    lemma_filter_none(kept, due_test(start, now, utc_offset));
}

/// A reminder set zero hours or minutes before an event (or a count that
/// `as i64` turns negative) is never sent: it is due only once the event
/// has started, and then the event is dropped instead.
pub proof fn law_no_lead_never_sent(kind: EventDurationKind, start: Moment, now: Moment, utc_offset: int)
    requires
        !is_after(now, start),
        match kind {
            EventDurationKind::StartOfDay => false,
            EventDurationKind::Hour(t) => as_signed(t) <= 0,
            EventDurationKind::Minute(t) => as_signed(t) <= 0,
        },
    ensures
        !is_due(kind, start, now, utc_offset),
{
}


/// `a` keeps some of the elements of `b`, in their order: it is `b` with
/// some elements dropped.
pub open spec fn is_subsequence<A>(a: Seq<A>, b: Seq<A>) -> bool
    decreases b.len(),
{
    if b.len() == 0 {
        a.len() == 0
    } else {
        is_subsequence(a, b.drop_last()) || (a.len() > 0 && a.last() == b.last()
            && is_subsequence(a.drop_last(), b.drop_last()))
    }
}

/// The reminders that an event keeps after a run of rounds of the reminder
/// loop, each round given by its clock reading and offset from UTC; `None`
/// once a round has dropped the event because it has started.
pub open spec fn after_rounds(
    durations: Seq<EventDurationKind>,
    start: Moment,
    rounds: Seq<(Moment, int)>,
) -> Option<Seq<EventDurationKind>>
    decreases rounds.len(),
{
    if rounds.len() == 0 {
        Some(durations)
    } else {
        match after_rounds(durations, start, rounds.drop_last()) {
            None => None,
            Some(kept) => {
                let (now, utc_offset) = rounds.last();
                if is_after(now, start) {
                    None
                } else {
                    Some(pending_reminders(kept, start, now, utc_offset))
                }
            },
        }
    }
}

/// Whether round `i` of a run sends the reminder `kind`.
pub open spec fn sent_in_round(
    durations: Seq<EventDurationKind>,
    start: Moment,
    rounds: Seq<(Moment, int)>,
    i: int,
    kind: EventDurationKind,
) -> bool {
    &&& 0 <= i < rounds.len()
    &&& match after_rounds(durations, start, rounds.take(i)) {
        Some(kept) => !is_after(rounds[i].0, start) && due_reminders(
            kept,
            start,
            rounds[i].0,
            rounds[i].1,
        ).contains(kind),
        None => false,
    }
}

/// The event table after one sweep of the reminder loop. The table maps each
/// event key to its guild key and stored reminders; `clocks` gives, for each
/// key, the event's start and the clock reading and offset of its round. A
/// started event is dropped; any other keeps its reminders that are not due.
pub open spec fn table_after_sweep(
    table: Map<i64, (i64, Seq<EventDurationKind>)>,
    clocks: Map<i64, (Moment, Moment, int)>,
) -> Map<i64, (i64, Seq<EventDurationKind>)> {
    Map::new(
        |k: i64| table.dom().contains(k) && !is_after(clocks[k].1, clocks[k].0),
        |k: i64| (table[k].0, pending_reminders(table[k].1, clocks[k].0, clocks[k].1, clocks[k].2)),
    )
}

/// A round only drops reminders: those it keeps are the stored ones with
/// some left out, in their stored order.
pub proof fn law_round_keeps_subsequence(
    durations: Seq<EventDurationKind>,
    start: Moment,
    now: Moment,
    utc_offset: int,
)
    ensures
        is_subsequence(pending_reminders(durations, start, now, utc_offset), durations),
{
    lemma_filter_subsequence(durations, pending_test(start, now, utc_offset));
}

/// A reminder that a round sends is not among the reminders it keeps.
pub proof fn law_sent_reminder_not_kept(
    durations: Seq<EventDurationKind>,
    start: Moment,
    now: Moment,
    utc_offset: int,
    kind: EventDurationKind,
)
    requires
        due_reminders(durations, start, now, utc_offset).contains(kind),
    ensures
        !pending_reminders(durations, start, now, utc_offset).contains(kind),
{
    lemma_filter_contains(durations, due_test(start, now, utc_offset), kind);
    lemma_filter_contains(durations, pending_test(start, now, utc_offset), kind);
}

/// Within a round each reminder is sent once, when the event stores no
/// reminder twice.
pub proof fn law_round_sends_each_once(
    durations: Seq<EventDurationKind>,
    start: Moment,
    now: Moment,
    utc_offset: int,
)
    requires
        durations.no_duplicates(),
    ensures
        due_reminders(durations, start, now, utc_offset).no_duplicates(),
{
    lemma_filter_distinct(durations, due_test(start, now, utc_offset));
}

/// A round in which nothing is due keeps every reminder, so leaving the
/// stored reminders untouched writes the same as storing the kept ones.
pub proof fn law_quiet_round_keeps_all(
    durations: Seq<EventDurationKind>,
    start: Moment,
    now: Moment,
    utc_offset: int,
)
    requires
        due_reminders(durations, start, now, utc_offset).len() == 0,
    ensures
        pending_reminders(durations, start, now, utc_offset) == durations,
{
    assert forall|i: int| 0 <= i < durations.len() implies pending_test(start, now, utc_offset)(
        #[trigger] durations[i],
    ) by {
        lemma_filter_contains(durations, due_test(start, now, utc_offset), durations[i]);
        assert(durations.contains(durations[i]));
    }
    lemma_filter_all(durations, pending_test(start, now, utc_offset));
}

/// After the round that sends a reminder, no later round of the run finds
/// it among the event's reminders.
proof fn lemma_sent_stays_gone(
    durations: Seq<EventDurationKind>,
    start: Moment,
    rounds: Seq<(Moment, int)>,
    i: int,
    j: int,
    kind: EventDurationKind,
)
    requires
        sent_in_round(durations, start, rounds, i, kind),
        i < j <= rounds.len(),
    ensures
        after_rounds(durations, start, rounds.take(j)) matches Some(kept) ==> !kept.contains(kind),
    decreases j - i,
{
    let prefix = rounds.take(j);
    assert(prefix.drop_last() =~= rounds.take(j - 1));
    assert(prefix.last() == rounds[j - 1]);
    if j == i + 1 {
        if let Some(kept) = after_rounds(durations, start, rounds.take(i)) {
            law_sent_reminder_not_kept(kept, start, rounds[i].0, rounds[i].1, kind);
        }
    } else {
        lemma_sent_stays_gone(durations, start, rounds, i, j - 1, kind);
        if let Some(kept) = after_rounds(durations, start, rounds.take(j - 1)) {
            let (now, utc_offset) = rounds[j - 1];
            lemma_filter_contains(kept, pending_test(start, now, utc_offset), kind);
        }
    }
}

/// Once a round has sent a reminder, no later round of the run holds it any
/// more: the event is dropped or keeps it no longer.
pub proof fn law_sent_reminder_never_returns(
    durations: Seq<EventDurationKind>,
    start: Moment,
    rounds: Seq<(Moment, int)>,
    i: int,
    j: int,
    kind: EventDurationKind,
)
    requires
        sent_in_round(durations, start, rounds, i, kind),
        i < j <= rounds.len(),
    ensures
        after_rounds(durations, start, rounds.take(j)) matches Some(kept) ==> !kept.contains(kind),
{
    lemma_sent_stays_gone(durations, start, rounds, i, j, kind);
}

/// Across a run of rounds each reminder is sent in at most one round.
pub proof fn law_sent_at_most_once(
    durations: Seq<EventDurationKind>,
    start: Moment,
    rounds: Seq<(Moment, int)>,
    i: int,
    j: int,
    kind: EventDurationKind,
)
    requires
        sent_in_round(durations, start, rounds, i, kind),
        sent_in_round(durations, start, rounds, j, kind),
    ensures
        i == j,
{
    if i < j {
        lemma_sent_stays_gone(durations, start, rounds, i, j, kind);
        let kept = after_rounds(durations, start, rounds.take(j))->Some_0;
        lemma_filter_contains(kept, due_test(start, rounds[j].0, rounds[j].1), kind);
    } else if j < i {
        lemma_sent_stays_gone(durations, start, rounds, j, i, kind);
        let kept = after_rounds(durations, start, rounds.take(i))->Some_0;
        lemma_filter_contains(kept, due_test(start, rounds[i].0, rounds[i].1), kind);
    }
}

/// A sweep of the event table only removes: it adds no event, keeps each
/// event's guild, and keeps of each event's reminders some, in their order.
pub proof fn law_sweep_only_removes(
    table: Map<i64, (i64, Seq<EventDurationKind>)>,
    clocks: Map<i64, (Moment, Moment, int)>,
)
    ensures
        forall|k: i64| #[trigger]
            table_after_sweep(table, clocks).dom().contains(k) ==> {
                &&& table.dom().contains(k)
                &&& table_after_sweep(table, clocks)[k].0 == table[k].0
                &&& is_subsequence(table_after_sweep(table, clocks)[k].1, table[k].1)
            },
{
    assert forall|k: i64| #[trigger]
        table_after_sweep(table, clocks).dom().contains(k) implies {
        &&& table.dom().contains(k)
        &&& table_after_sweep(table, clocks)[k].0 == table[k].0
        &&& is_subsequence(table_after_sweep(table, clocks)[k].1, table[k].1)
    } by {
        law_round_keeps_subsequence(table[k].1, clocks[k].0, clocks[k].1, clocks[k].2);
    }
}


/// A start-of-day reminder is due exactly when the local wall clock (UTC
/// now plus the signed offset) is past 07:00 on the event's UTC day.
pub proof fn law_start_of_day_due_on_local_clock(
    start: Moment,
    now: Moment,
    utc_offset: int,
)
    requires
        start.wf(),
        now.wf(),
        valid_offset(utc_offset),
        representable(now.secs + utc_offset),
    ensures
        is_due(EventDurationKind::StartOfDay, start, now, utc_offset) <==> ({
            let local = now.secs + utc_offset;
            let seven = start.secs - start.secs % 86400 + 25200;
            local > seven || (local == seven && now.nanos > 0)
        }),
{
    vstd::arithmetic::div_mod::lemma_mod_bound(start.secs as int, 86400);
}

/// The further east the offset, the earlier the local wall clock reaches a
/// start-of-day reminder: due at one offset, it is due at every larger one
/// (so west of UTC it comes later than at UTC).
pub proof fn law_start_of_day_due_grows_with_offset(
    start: Moment,
    now: Moment,
    west: int,
    east: int,
)
    requires
        start.wf(),
        now.wf(),
        valid_offset(west),
        valid_offset(east),
        representable(now.secs + west),
        representable(now.secs + east),
        west <= east,
        is_due(EventDurationKind::StartOfDay, start, now, west),
    ensures
        is_due(EventDurationKind::StartOfDay, start, now, east),
{
    law_start_of_day_due_on_local_clock(start, now, west);
    law_start_of_day_due_on_local_clock(start, now, east);
}

/// An hour reminder is due exactly when UTC now is past the start less
/// `t as i64` hours (whatever the offset), where that moment exists.
pub proof fn law_hour_due_on_utc_clock(t: u64, start: Moment, now: Moment, utc_offset: int)
    requires
        start.wf(),
        now.wf(),
        -DELTA_LIMIT_SECS <= as_signed(t) * 3600 <= DELTA_LIMIT_SECS,
        representable(start.secs - as_signed(t) * 3600),
    ensures
        is_due(EventDurationKind::Hour(t), start, now, utc_offset) <==> ({
            let at = start.secs - as_signed(t) * 3600;
            now.secs > at || (now.secs == at && now.nanos > start.nanos)
        }),
{
}

/// A minute reminder is due exactly when UTC now is past the start less
/// `t as i64` minutes (whatever the offset), where that moment exists.
pub proof fn law_minute_due_on_utc_clock(t: u64, start: Moment, now: Moment, utc_offset: int)
    requires
        start.wf(),
        now.wf(),
        -DELTA_LIMIT_SECS <= as_signed(t) * 60 <= DELTA_LIMIT_SECS,
        representable(start.secs - as_signed(t) * 60),
    ensures
        is_due(EventDurationKind::Minute(t), start, now, utc_offset) <==> ({
            let at = start.secs - as_signed(t) * 60;
            now.secs > at || (now.secs == at && now.nanos > start.nanos)
        }),
{
}

/// For every offset, a round sends exactly the stored reminders that are
/// due at its clock and offset (as `reminder_due` decides them), and keeps
/// exactly the stored reminders that are not.
pub proof fn law_round_sends_exactly_the_due(
    durations: Seq<EventDurationKind>,
    start: Moment,
    now: Moment,
    utc_offset: int,
    kind: EventDurationKind,
)
    ensures
        due_reminders(durations, start, now, utc_offset).contains(kind) <==> (durations.contains(
            kind,
        ) && is_due(kind, start, now, utc_offset)),
        pending_reminders(durations, start, now, utc_offset).contains(kind) <==> (
        durations.contains(kind) && !is_due(kind, start, now, utc_offset)),
{
    lemma_filter_contains(durations, due_test(start, now, utc_offset), kind);
    lemma_filter_contains(durations, pending_test(start, now, utc_offset), kind);
}

} // verus!
