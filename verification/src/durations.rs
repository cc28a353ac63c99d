//! The reminder durations of a scheduled event and the commands that edit them.

use crate::seq_facts::{lemma_filter_all, lemma_filter_contains, lemma_filter_distinct};
use vstd::prelude::*;

verus! {

/// When a reminder for a scheduled event is sent.
#[derive(Clone, Copy, Debug, PartialEq, Eq, Structural)]
pub enum EventDurationKind {
    /// At 07:00 on the (UTC) day of the event, compared with the local clock.
    StartOfDay,
    /// The given number of hours before the event starts.
    Hour(u64),
    /// The given number of minutes before the event starts.
    Minute(u64),
}

/// The kind of reminder that a user picks in a slash command.
#[derive(Clone, Copy, Debug, PartialEq, Eq, Structural)]
pub enum EventChoiceParameter {
    StartOfDay,
    Hour,
    Minute,
}

/// Why an event command refuses its arguments.
#[derive(Clone, Copy, Debug, PartialEq, Eq, Structural)]
pub enum EventCommandError {
    /// An hour or minute reminder was asked for without a duration.
    MissingDuration,
    /// The reminder to add is already set for the event.
    DuplicateDuration,
    /// The reminder to delete is not set for the event.
    UnknownDuration,
}

impl EventCommandError {
    /// The reply that the user sees.
    pub open spec fn spec_message(self) -> Seq<char> {
        match self {
            EventCommandError::MissingDuration => "All choices other than StartOfDay need the duration argument"@,
            EventCommandError::DuplicateDuration => "Same event duration already exists"@,
            EventCommandError::UnknownDuration => "Passed event duration does not exist"@,
        }
    }

    /// The reply that the user sees.
    pub fn message(&self) -> (r: &'static str)
        ensures
            r@ == self.spec_message(),
    {
        match self {
            EventCommandError::MissingDuration => "All choices other than StartOfDay need the duration argument",
            EventCommandError::DuplicateDuration => "Same event duration already exists",
            EventCommandError::UnknownDuration => "Passed event duration does not exist",
        }
    }
}

/// The reminder that a choice and an optional duration describe.
pub open spec fn choice_duration(
    kind: EventChoiceParameter,
    duration: Option<u64>,
) -> Result<EventDurationKind, EventCommandError> {
    match kind {
        EventChoiceParameter::StartOfDay => Ok(EventDurationKind::StartOfDay),
        EventChoiceParameter::Hour => match duration {
            Some(t) => Ok(EventDurationKind::Hour(t)),
            None => Err(EventCommandError::MissingDuration),
        },
        EventChoiceParameter::Minute => match duration {
            Some(t) => Ok(EventDurationKind::Minute(t)),
            None => Err(EventCommandError::MissingDuration),
        },
    }
}

/// The reminders of an event after `kind` is added.
pub open spec fn with_duration(
    durations: Seq<EventDurationKind>,
    kind: EventDurationKind,
) -> Seq<EventDurationKind> {
    durations.push(kind)
}

/// The reminders of an event after every copy of `kind` is taken out, the
/// others kept in their order.
pub open spec fn without_duration(
    durations: Seq<EventDurationKind>,
    kind: EventDurationKind,
) -> Seq<EventDurationKind> {
    durations.filter(other_than(kind))
}

/// The test that keeps every reminder other than `kind`.
pub open spec fn other_than(kind: EventDurationKind) -> spec_fn(EventDurationKind) -> bool {
    |e: EventDurationKind| e != kind
}

/// The reminders that a newly scheduled event starts with: one at the start
/// of its day and one an hour before it.
pub open spec fn spec_default_durations() -> Seq<EventDurationKind> {
    seq![EventDurationKind::StartOfDay, EventDurationKind::Hour(1)]
}

/// Turns the arguments of the `add` and `delete` commands into a reminder.
/// A start-of-day reminder ignores the duration; the others need one.
pub fn duration_from_choice(kind: EventChoiceParameter, duration: Option<u64>) -> (r: Result<
    EventDurationKind,
    EventCommandError,
>)
    ensures
        r == choice_duration(kind, duration),
{
    match kind {
        EventChoiceParameter::StartOfDay => Ok(EventDurationKind::StartOfDay),
        EventChoiceParameter::Hour => match duration {
            Some(t) => Ok(EventDurationKind::Hour(t)),
            None => Err(EventCommandError::MissingDuration),
        },
        EventChoiceParameter::Minute => match duration {
            Some(t) => Ok(EventDurationKind::Minute(t)),
            None => Err(EventCommandError::MissingDuration),
        },
    }
}

/// The reminders that a newly scheduled event is stored with.
pub fn default_durations() -> (r: Vec<EventDurationKind>)
    ensures
        r@ == spec_default_durations(),
        r@.no_duplicates(),
{
    let mut r: Vec<EventDurationKind> = Vec::new();
    r.push(EventDurationKind::StartOfDay);
    r.push(EventDurationKind::Hour(1));
    r
}

/// Whether `kind` is among the reminders.
pub fn contains_duration(durations: &Vec<EventDurationKind>, kind: EventDurationKind) -> (r: bool)
    ensures
        r == durations@.contains(kind),
{
    let n = durations.len();
    let mut i: usize = 0;
    while i < n
        invariant
            n == durations@.len(),
            i <= n,
            forall|j: int| 0 <= j < i ==> durations@[j] != kind,
        decreases n - i,
    {
        if durations[i] == kind {
            return true;
        }
        i += 1;
    }
    false
}

/// Adds a reminder to an event's reminders. A reminder that is already set
/// is refused, so that no reminder is stored twice.
pub fn add_duration(durations: &Vec<EventDurationKind>, kind: EventDurationKind) -> (r: Result<
    Vec<EventDurationKind>,
    EventCommandError,
>)
    ensures
        r is Err <==> durations@.contains(kind),
        r matches Err(e) ==> e == EventCommandError::DuplicateDuration,
        r matches Ok(v) ==> v@ == with_duration(durations@, kind),
{
    if contains_duration(durations, kind) {
        return Err(EventCommandError::DuplicateDuration);
    }
    let mut v = durations.clone();
    v.push(kind);
    Ok(v)
}

/// Deletes a reminder from an event's reminders. A reminder that is not set
/// is refused.
pub fn delete_duration(durations: &Vec<EventDurationKind>, kind: EventDurationKind) -> (r: Result<
    Vec<EventDurationKind>,
    EventCommandError,
>)
    ensures
        r is Err <==> !durations@.contains(kind),
        r matches Err(e) ==> e == EventCommandError::UnknownDuration,
        r matches Ok(v) ==> v@ == without_duration(durations@, kind),
{
    if !contains_duration(durations, kind) {
        return Err(EventCommandError::UnknownDuration);
    }
    let n = durations.len();
    let mut v: Vec<EventDurationKind> = Vec::new();
    let mut i: usize = 0;
    while i < n
        invariant
            n == durations@.len(),
            i <= n,
            v@ == without_duration(durations@.take(i as int), kind),
        decreases n - i,
    {
        proof {
            reveal_with_fuel(Seq::filter, 1);
            assert(durations@.take(i + 1).drop_last() =~= durations@.take(i as int));
        }
        let d = durations[i];
        if d != kind {
            v.push(d);
        }
        i += 1;
    }
    proof {
        assert(durations@.take(n as int) =~= durations@);
    }
    Ok(v)
}


/// The reminder that a command builds has the kind and the count that the
/// user chose, for every count; a start-of-day choice takes no count, and an
/// hour or minute choice without one is refused.
pub proof fn law_choice_keeps_kind_and_count(t: u64, duration: Option<u64>)
    ensures
        choice_duration(EventChoiceParameter::Hour, Some(t)) == Ok::<
            EventDurationKind,
            EventCommandError,
        >(EventDurationKind::Hour(t)),
        choice_duration(EventChoiceParameter::Minute, Some(t)) == Ok::<
            EventDurationKind,
            EventCommandError,
        >(EventDurationKind::Minute(t)),
        choice_duration(EventChoiceParameter::StartOfDay, duration) == Ok::<
            EventDurationKind,
            EventCommandError,
        >(EventDurationKind::StartOfDay),
        choice_duration(EventChoiceParameter::Hour, None) == Err::<
            EventDurationKind,
            EventCommandError,
        >(EventCommandError::MissingDuration),
        choice_duration(EventChoiceParameter::Minute, None) == Err::<
            EventDurationKind,
            EventCommandError,
        >(EventCommandError::MissingDuration),
{
}

/// A reminder that is added and then deleted leaves an event's reminders as
/// they were before.
pub proof fn law_delete_undoes_add(durations: Seq<EventDurationKind>, kind: EventDurationKind)
    requires
        !durations.contains(kind),
    ensures
        without_duration(with_duration(durations, kind), kind) == durations,
{
    reveal_with_fuel(Seq::filter, 1);
    let s = with_duration(durations, kind);
    assert(s.drop_last() =~= durations);
    assert forall|i: int| 0 <= i < durations.len() implies other_than(kind)(
        #[trigger] durations[i],
    ) by {
        assert(durations.contains(durations[i]));
    }
    lemma_filter_all(durations, other_than(kind));
}

/// An add that succeeds keeps an event's reminders free of duplicates.
pub proof fn law_add_keeps_distinct(durations: Seq<EventDurationKind>, kind: EventDurationKind)
    requires
        durations.no_duplicates(),
        !durations.contains(kind),
    ensures
        with_duration(durations, kind).no_duplicates(),
{
    let s = with_duration(durations, kind);
    assert forall|i: int, j: int| 0 <= i < s.len() && 0 <= j < s.len() && i != j
        implies s[i] != s[j] by {
        if i == durations.len() {
            assert(s[j] == durations[j]);
        } else if j == durations.len() {
            assert(s[i] == durations[i]);
        }
    }
}

/// A delete keeps an event's reminders free of duplicates.
pub proof fn law_delete_keeps_distinct(durations: Seq<EventDurationKind>, kind: EventDurationKind)
    requires
        durations.no_duplicates(),
    ensures
        without_duration(durations, kind).no_duplicates(),
{
    lemma_filter_distinct(durations, other_than(kind));
}

/// After a delete the deleted reminder is gone, and every other reminder is
/// still set exactly when it was set before.
pub proof fn law_delete_removes_only_kind(
    durations: Seq<EventDurationKind>,
    kind: EventDurationKind,
)
    ensures
        !without_duration(durations, kind).contains(kind),
        forall|x: EventDurationKind|
            x != kind ==> (#[trigger] without_duration(durations, kind).contains(x)
                <==> durations.contains(x)),
{
    lemma_filter_contains(durations, other_than(kind), kind);
    assert forall|x: EventDurationKind| x != kind implies (#[trigger] without_duration(
        durations,
        kind,
    ).contains(x) <==> durations.contains(x)) by {
        lemma_filter_contains(durations, other_than(kind), x);
    }
}

/// Deleting a set reminder and adding it again gives back the same set of
/// reminders (the re-added one now comes last).
pub proof fn law_add_restores_deleted(durations: Seq<EventDurationKind>, kind: EventDurationKind)
    requires
        durations.contains(kind),
    ensures
        with_duration(without_duration(durations, kind), kind).to_set() == durations.to_set(),
{
    let s = with_duration(without_duration(durations, kind), kind);
    let f = without_duration(durations, kind);
    assert forall|x: EventDurationKind| s.to_set().contains(x) <==> durations.to_set().contains(x) by {
        lemma_filter_contains(durations, other_than(kind), x);
        if s.contains(x) {
            let j = choose|j: int| 0 <= j < s.len() && s[j] == x;
            if j < f.len() {
                assert(f[j] == x);
            }
        }
        if x == kind {
            assert(s[f.len() as int] == x);
        } else if f.contains(x) {
            let j = choose|j: int| 0 <= j < f.len() && f[j] == x;
            assert(s[j] == x);
        }
    }
    assert(s.to_set() =~= durations.to_set());
}

} // verus!
