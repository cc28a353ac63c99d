//! How the bot's store of scheduled events follows what happens in a guild.

use crate::durations::{default_durations, spec_default_durations, EventDurationKind};
use crate::ids::{as_signed, db_id};
use vstd::prelude::*;

verus! {

/// A gateway event, with the ids that the store needs.
#[derive(Clone, Copy, Debug, PartialEq, Eq, Structural)]
pub enum GuildEvent {
    /// The bot has connected.
    Ready,
    /// A scheduled event was created in a guild.
    ScheduledEventCreated { event_id: u64, guild_id: u64 },
    /// A scheduled event was deleted.
    ScheduledEventDeleted { event_id: u64 },
    /// Any other event.
    Other,
}

/// What the bot does in answer to a gateway event.
#[derive(Debug)]
pub enum StoreAction {
    /// Report that the bot is ready.
    AnnounceReady,
    /// Store a new event with its reminders.
    Insert { event_id: i64, guild_id: i64, durations: Vec<EventDurationKind> },
    /// Drop a stored event.
    Remove { event_id: i64 },
    /// Nothing.
    Ignore,
}

/// The event table after an action: the table maps each event key to its
/// guild key and stored reminders. An insert writes the new row under its key
/// (the laws insert only keys that are absent), a removal drops the key.
pub open spec fn table_after_action(
    table: Map<i64, (i64, Seq<EventDurationKind>)>,
    action: StoreAction,
) -> Map<i64, (i64, Seq<EventDurationKind>)> {
    match action {
        StoreAction::Insert { event_id, guild_id, durations } => table.insert(
            event_id,
            (guild_id, durations@),
        ),
        StoreAction::Remove { event_id } => table.remove(event_id),
        _ => table,
    }
}

/// The event table after a gateway event: a created event is stored under its
/// key with its guild's key and the default reminders, a deleted one is
/// dropped, and any other event leaves the table as it is.
pub open spec fn table_after_event(
    table: Map<i64, (i64, Seq<EventDurationKind>)>,
    event: GuildEvent,
) -> Map<i64, (i64, Seq<EventDurationKind>)> {
    match event {
        GuildEvent::ScheduledEventCreated { event_id, guild_id } => table.insert(
            as_signed(event_id) as i64,
            (as_signed(guild_id) as i64, spec_default_durations()),
        ),
        GuildEvent::ScheduledEventDeleted { event_id } => table.remove(as_signed(event_id) as i64),
        _ => table,
    }
}

/// The answer to a gateway event: a new scheduled event is stored under its
/// database keys with the default reminders, a deleted one is dropped.
pub fn react_to_event(event: GuildEvent) -> (r: StoreAction)
    ensures
        match event {
            GuildEvent::Ready => r is AnnounceReady,
            GuildEvent::ScheduledEventCreated { event_id, guild_id } => r matches StoreAction::Insert {
                event_id: e,
                guild_id: g,
                durations,
            } && e == as_signed(event_id) && g == as_signed(guild_id) && durations@
                == spec_default_durations(),
            GuildEvent::ScheduledEventDeleted { event_id } => r matches StoreAction::Remove {
                event_id: e,
            } && e == as_signed(event_id),
            GuildEvent::Other => r is Ignore,
        },
        forall|table: Map<i64, (i64, Seq<EventDurationKind>)>| #[trigger]
            table_after_action(table, r) == table_after_event(table, event),
{
    match event {
        GuildEvent::Ready => StoreAction::AnnounceReady,
        GuildEvent::ScheduledEventCreated { event_id, guild_id } => StoreAction::Insert {
            event_id: db_id(event_id),
            guild_id: db_id(guild_id),
            durations: default_durations(),
        },
        GuildEvent::ScheduledEventDeleted { event_id } => StoreAction::Remove {
            event_id: db_id(event_id),
        },
        GuildEvent::Other => StoreAction::Ignore,
    }
}

/// Deleting a scheduled event undoes its creation: on a table that did not
/// hold the event, creating it and then deleting it gives the table back.
pub proof fn law_delete_undoes_create(
    table: Map<i64, (i64, Seq<EventDurationKind>)>,
    event_id: u64,
    guild_id: u64,
)
    requires
        !table.dom().contains(as_signed(event_id) as i64),
    ensures
        table_after_event(
            table_after_event(table, GuildEvent::ScheduledEventCreated { event_id, guild_id }),
            GuildEvent::ScheduledEventDeleted { event_id },
        ) == table,
{
    let created = table_after_event(table, GuildEvent::ScheduledEventCreated { event_id, guild_id });
    assert(created.remove(as_signed(event_id) as i64) =~= table);
}

} // verus!
