use obsidian_lite::durations::{
    add_duration, contains_duration, default_durations, delete_duration, duration_from_choice,
    EventChoiceParameter, EventCommandError, EventDurationKind,
};

#[test]
fn start_of_day_ignores_duration() {
    assert_eq!(
        duration_from_choice(EventChoiceParameter::StartOfDay, None),
        Ok(EventDurationKind::StartOfDay)
    );
    assert_eq!(
        duration_from_choice(EventChoiceParameter::StartOfDay, Some(5)),
        Ok(EventDurationKind::StartOfDay)
    );
}

#[test]
fn hour_and_minute_take_the_duration() {
    assert_eq!(
        duration_from_choice(EventChoiceParameter::Hour, Some(3)),
        Ok(EventDurationKind::Hour(3))
    );
    assert_eq!(
        duration_from_choice(EventChoiceParameter::Minute, Some(15)),
        Ok(EventDurationKind::Minute(15))
    );
}

#[test]
fn hour_and_minute_need_a_duration() {
    assert_eq!(
        duration_from_choice(EventChoiceParameter::Hour, None),
        Err(EventCommandError::MissingDuration)
    );
    assert_eq!(
        duration_from_choice(EventChoiceParameter::Minute, None),
        Err(EventCommandError::MissingDuration)
    );
}

#[test]
fn new_events_get_start_of_day_and_one_hour() {
    assert_eq!(
        default_durations(),
        vec![EventDurationKind::StartOfDay, EventDurationKind::Hour(1)]
    );
}

#[test]
fn contains_finds_exact_reminder() {
    let d = default_durations();
    assert!(contains_duration(&d, EventDurationKind::Hour(1)));
    assert!(!contains_duration(&d, EventDurationKind::Minute(1)));
    assert!(!contains_duration(&Vec::new(), EventDurationKind::StartOfDay));
}

#[test]
fn add_appends_new_reminder() {
    let d = default_durations();
    assert_eq!(
        add_duration(&d, EventDurationKind::Minute(10)),
        Ok(vec![
            EventDurationKind::StartOfDay,
            EventDurationKind::Hour(1),
            EventDurationKind::Minute(10)
        ])
    );
}

#[test]
fn add_refuses_duplicate() {
    let d = default_durations();
    assert_eq!(
        add_duration(&d, EventDurationKind::Hour(1)),
        Err(EventCommandError::DuplicateDuration)
    );
    assert_eq!(
        add_duration(&d, EventDurationKind::StartOfDay),
        Err(EventCommandError::DuplicateDuration)
    );
}

#[test]
fn delete_removes_every_copy_and_keeps_order() {
    let d = vec![
        EventDurationKind::Hour(2),
        EventDurationKind::Minute(5),
        EventDurationKind::Hour(2),
        EventDurationKind::StartOfDay,
    ];
    assert_eq!(
        delete_duration(&d, EventDurationKind::Hour(2)),
        Ok(vec![EventDurationKind::Minute(5), EventDurationKind::StartOfDay])
    );
}

#[test]
fn delete_refuses_unknown_reminder() {
    let d = default_durations();
    assert_eq!(
        delete_duration(&d, EventDurationKind::Hour(2)),
        Err(EventCommandError::UnknownDuration)
    );
    assert_eq!(
        delete_duration(&Vec::new(), EventDurationKind::StartOfDay),
        Err(EventCommandError::UnknownDuration)
    );
}

#[test]
fn delete_undoes_add_example() {
    let d = default_durations();
    let added = add_duration(&d, EventDurationKind::Minute(30)).unwrap();
    assert_eq!(delete_duration(&added, EventDurationKind::Minute(30)), Ok(d));
}

#[test]
fn add_restores_deleted_set_example() {
    let d = default_durations();
    let deleted = delete_duration(&d, EventDurationKind::StartOfDay).unwrap();
    assert_eq!(deleted, vec![EventDurationKind::Hour(1)]);
    assert_eq!(
        add_duration(&deleted, EventDurationKind::StartOfDay),
        Ok(vec![EventDurationKind::Hour(1), EventDurationKind::StartOfDay])
    );
}

#[test]
fn command_error_messages() {
    assert_eq!(
        EventCommandError::MissingDuration.message(),
        "All choices other than StartOfDay need the duration argument"
    );
    assert_eq!(
        EventCommandError::DuplicateDuration.message(),
        "Same event duration already exists"
    );
    assert_eq!(
        EventCommandError::UnknownDuration.message(),
        "Passed event duration does not exist"
    );
}
