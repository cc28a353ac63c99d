# obsidian_lite

A Discord bot that reminds the members of a guild's scheduled events, with a
few utility commands. Its rules are a Verus-verified library; the bot around
them (gateway, slash commands, database, HTTP, the reminder loop) is ordinary
Rust.

- `src/durations.rs`: the reminders kept for an event and the `add` / `delete`
  commands that edit them, with their laws (a delete undoes an add, no
  reminder is stored twice, ...).
- `src/schedule.rs`: when a reminder is due, and one round of the reminder
  loop (drop a started event, or split its reminders into those sent now and
  those kept), with its laws (a due reminder stays due, none is sent twice).
- `src/events.rs`: how the store follows created and deleted events.
- `src/ids.rs`: Discord ids as signed database keys.
- `src/messages.rs`: the texts of the weather and reminder embeds.
- `src/errors.rs`: the bot's error type and the conversions into it.
- `app/`: the bot itself, which reads the clock, talks to Discord, SQLite and
  the weather service, and stores reminders as JSON.
