use obsidian_lite::durations::EventDurationKind;
use obsidian_lite::errors::BotError;
use obsidian_lite::events::{react_to_event, GuildEvent, StoreAction};
use obsidian_lite::ids::{db_id, event_id_argument, id_from_db};

#[test]
fn small_ids_are_stored_as_they_are() {
    assert_eq!(db_id(1234567890123), 1234567890123);
    assert_eq!(id_from_db(1234567890123), 1234567890123);
}

#[test]
fn large_ids_wrap_to_negative_keys() {
    assert_eq!(db_id(u64::MAX), -1);
    assert_eq!(db_id(1u64 << 63), i64::MIN);
    assert_eq!(id_from_db(-1), u64::MAX);
    assert_eq!(id_from_db(i64::MIN), 1u64 << 63);
}

#[test]
fn ids_round_trip() {
    for id in [0u64, 1, 42, i64::MAX as u64, (i64::MAX as u64) + 1, u64::MAX - 7, u64::MAX] {
        assert_eq!(id_from_db(db_id(id)), id);
    }
    for key in [0i64, -1, i64::MIN, i64::MAX, -42] {
        assert_eq!(db_id(id_from_db(key)), key);
    }
}

#[test]
fn event_id_argument_keeps_low_bits() {
    assert_eq!(event_id_argument(1234), 1234);
    assert_eq!(event_id_argument((1u128 << 64) + 5), 5);
    assert_eq!(event_id_argument(u128::MAX), u64::MAX);
}

#[test]
fn created_event_is_stored_with_default_reminders() {
    match react_to_event(GuildEvent::ScheduledEventCreated { event_id: u64::MAX, guild_id: 77 }) {
        StoreAction::Insert { event_id, guild_id, durations } => {
            assert_eq!(event_id, -1);
            assert_eq!(guild_id, 77);
            assert_eq!(durations, vec![EventDurationKind::StartOfDay, EventDurationKind::Hour(1)]);
        }
        other => panic!("unexpected {:?}", other),
    }
}

#[test]
fn deleted_event_is_removed() {
    assert!(matches!(
        react_to_event(GuildEvent::ScheduledEventDeleted { event_id: 9 }),
        StoreAction::Remove { event_id: 9 }
    ));
}

#[test]
fn ready_and_other_events() {
    assert!(matches!(react_to_event(GuildEvent::Ready), StoreAction::AnnounceReady));
    assert!(matches!(react_to_event(GuildEvent::Other), StoreAction::Ignore));
}

#[test]
fn outside_errors_map_to_bot_errors() {
    let json_err = serde_json::from_str::<u32>("not json").unwrap_err();
    assert_eq!(BotError::from(json_err), BotError::SerdeError);
    let io_err = std::io::Error::new(std::io::ErrorKind::Other, "disk");
    assert_eq!(BotError::from(io_err), BotError::IOError);
    assert_eq!(BotError::from(sqlx::Error::RowNotFound), BotError::DatabaseError);
    let serenity_err = poise::serenity_prelude::Error::Other("gateway");
    assert_eq!(BotError::from(serenity_err), BotError::FrameworkError);
    let reqwest_err = reqwest::Client::new().get("not a url").build().unwrap_err();
    assert_eq!(BotError::from(reqwest_err), BotError::APIError);
}

fn apply(
    table: &mut std::collections::BTreeMap<i64, (i64, Vec<EventDurationKind>)>,
    action: StoreAction,
) {
    match action {
        StoreAction::Insert { event_id, guild_id, durations } => {
            table.insert(event_id, (guild_id, durations));
        }
        StoreAction::Remove { event_id } => {
            table.remove(&event_id);
        }
        StoreAction::AnnounceReady | StoreAction::Ignore => {}
    }
}

#[test]
fn delete_undoes_create_example() {
    let mut table = std::collections::BTreeMap::new();
    table.insert(5i64, (1i64, vec![EventDurationKind::Minute(3)]));
    let before = table.clone();
    apply(&mut table, react_to_event(GuildEvent::ScheduledEventCreated { event_id: u64::MAX, guild_id: 2 }));
    assert_eq!(table.get(&-1), Some(&(2, vec![EventDurationKind::StartOfDay, EventDurationKind::Hour(1)])));
    apply(&mut table, react_to_event(GuildEvent::ScheduledEventDeleted { event_id: u64::MAX }));
    assert_eq!(table, before);
}
