//! The texts that the bot sends: weather reports and event reminders.

use crate::schedule::{representable, valid_offset, Moment, FIRST_SECOND, LAST_SECOND};
use vstd::prelude::*;

verus! {

/// The weather service that the weather command asks.
pub open spec fn spec_weather_url(city: Seq<char>) -> Seq<char> {
    "https://goweather.herokuapp.com/weather/"@ + city
}

/// The forecast for one day, as the weather service reports it.
#[derive(Clone, Debug)]
pub struct DayForecast {
    pub day: String,
    pub temperature: String,
    pub wind: String,
}

/// The current weather and the forecast of a city, as the weather service
/// reports it.
#[derive(Clone, Debug)]
pub struct WeatherReport {
    pub temperature: String,
    pub wind: String,
    pub description: String,
    pub forecast: Vec<DayForecast>,
}

/// A named field of an embed (shown on a line of its own).
#[derive(Clone, Debug)]
pub struct EmbedField {
    pub name: String,
    pub value: String,
}

/// The texts of the weather embed.
#[derive(Clone, Debug)]
pub struct WeatherCard {
    pub title: String,
    pub description: String,
    pub fields: Vec<EmbedField>,
}

/// Why the weather command fails.
#[derive(Clone, Copy, Debug, PartialEq, Eq, Structural)]
pub enum WeatherError {
    /// The weather service could not be reached.
    Unreachable,
    /// The weather service has no report for the city.
    UnknownCity,
}

impl WeatherError {
    /// The reply that the user sees.
    pub open spec fn spec_message(self) -> Seq<char> {
        match self {
            WeatherError::Unreachable => "API endpoint unreachable!"@,
            WeatherError::UnknownCity => "Weather for the given city does not exist!"@,
        }
    }

    /// The reply that the user sees.
    pub fn message(&self) -> (r: &'static str)
        ensures
            r@ == self.spec_message(),
    {
        match self {
            WeatherError::Unreachable => "API endpoint unreachable!",
            WeatherError::UnknownCity => "Weather for the given city does not exist!",
        }
    }
}

/// The title of the weather embed.
pub open spec fn weather_title(report: WeatherReport, city: Seq<char>) -> Seq<char> {
    "It is currently "@ + report.description@ + " in "@ + city
}

/// The description of the weather embed.
pub open spec fn weather_description(report: WeatherReport) -> Seq<char> {
    "Temperature "@ + report.temperature@ + "\n Wind"@ + report.wind@
}

/// The field name of a day of the forecast.
pub open spec fn forecast_name(day: DayForecast) -> Seq<char> {
    "Day "@ + day.day@
}

/// The field value of a day of the forecast.
pub open spec fn forecast_value(day: DayForecast) -> Seq<char> {
    "Temperature "@ + day.temperature@ + "\nWind "@ + day.wind@
}

/// The address at which the weather of a city is asked for.
pub fn weather_url(city: &str) -> (r: String)
    ensures
        r@ == spec_weather_url(city@),
{
    let mut r = "https://goweather.herokuapp.com/weather/".to_owned();
    r.append(city);
    r
}

/// The texts of the weather embed for a city: the current weather in the
/// title and description, and a field for each day of the forecast, in order.
pub fn weather_card(report: &WeatherReport, city: &str) -> (r: WeatherCard)
    ensures
        r.title@ == weather_title(*report, city@),
        r.description@ == weather_description(*report),
        r.fields@.len() == report.forecast@.len(),
        forall|i: int|
            0 <= i < r.fields@.len() ==> (#[trigger] r.fields@[i]).name@ == forecast_name(
                report.forecast@[i],
            ) && r.fields@[i].value@ == forecast_value(report.forecast@[i]),
{
    let mut title = "It is currently ".to_owned();
    title.append(report.description.as_str());
    title.append(" in ");
    title.append(city);
    let mut description = "Temperature ".to_owned();
    description.append(report.temperature.as_str());
    description.append("\n Wind");
    description.append(report.wind.as_str());
    let mut fields: Vec<EmbedField> = Vec::new();
    let n = report.forecast.len();
    let mut i: usize = 0;
    while i < n
        invariant
            n == report.forecast@.len(),
            i <= n,
            fields@.len() == i,
            forall|j: int|
                0 <= j < i ==> (#[trigger] fields@[j]).name@ == forecast_name(report.forecast@[j])
                    && fields@[j].value@ == forecast_value(report.forecast@[j]),
        decreases n - i,
    {
        let day = &report.forecast[i];
        let mut name = "Day ".to_owned();
        name.append(day.day.as_str());
        let mut value = "Temperature ".to_owned();
        value.append(day.temperature.as_str());
        value.append("\nWind ");
        value.append(day.wind.as_str());
        fields.push(EmbedField { name, value });
        i += 1;
    }
    WeatherCard { title, description, fields }
}

/// How chrono's `DateTime::format("%H:%M %d/%m/%Y")` writes a UTC moment
/// (seconds and nanoseconds since the Unix epoch) seen at a fixed offset
/// from UTC, in seconds.
pub uninterp spec fn clock_text(secs: i64, nanos: u32, utc_offset: i32) -> Seq<char>;

/// Writes a moment as the wall clock at `utc_offset` shows it, through
/// chrono's `FixedOffset::east`, `TimeZone::timestamp` and
/// `DateTime::format("%H:%M %d/%m/%Y")`. The contract claims that the text
/// is a function of the moment and the offset, and that it depends on the
/// seconds and the offset only through the local wall clock, their sum:
/// chrono formats the date and time of the UTC date-time shifted by the
/// offset, and the pattern shows no offset. `east` panics on an
/// offset of a day or more and `timestamp` on a moment that a
/// `NaiveDateTime` cannot hold; the `requires` leaves both out. Formatting
/// itself does not panic: chrono shows a local time beyond that range too.
#[verifier::external_body]
#[allow(deprecated)]
fn format_local_clock(at: Moment, utc_offset: i32) -> (s: String)
    requires
        at.wf(),
        valid_offset(utc_offset as int),
    ensures
        s@ == clock_text(at.secs, at.nanos, utc_offset),
        forall|other: i32|
            valid_offset(other as int) && representable(at.secs + utc_offset - other) ==> s@
                == #[trigger] clock_text((at.secs + utc_offset - other) as i64, at.nanos, other),
{
    let local = chrono::TimeZone::timestamp(&chrono::FixedOffset::east(utc_offset), at.secs, at.nanos);
    local.format("%H:%M %d/%m/%Y").to_string()
}

/// The texts of a reminder embed.
#[derive(Clone, Debug)]
pub struct ReminderCard {
    pub title: String,
    pub description: String,
    /// The name of the field that shows the start.
    pub field_name: String,
    /// The start of the event on the local wall clock.
    pub scheduled_at: String,
}

/// The title of a reminder.
pub open spec fn reminder_title(name: Seq<char>) -> Seq<char> {
    "Event | "@ + name
}

/// The description of a reminder: the event's own, or a note that it has none.
pub open spec fn reminder_description(description: Option<Seq<char>>) -> Seq<char> {
    match description {
        Some(d) => d,
        None => "No description"@,
    }
}

/// The texts of the reminder that is sent for a scheduled event.
pub fn reminder_card(name: &str, description: Option<String>, start: Moment, utc_offset: i32) -> (r:
    ReminderCard)
    requires
        start.wf(),
        valid_offset(utc_offset as int),
    ensures
        r.title@ == reminder_title(name@),
        r.description@ == reminder_description(
            match description {
                Some(d) => Some(d@),
                None => None,
            },
        ),
        r.field_name@ == "Scheduled at"@,
        r.scheduled_at@ == clock_text(start.secs, start.nanos, utc_offset),
        // the start is shown on the wall clock of UTC shifted by the offset:
        // any other offset that gives the same wall clock gives the same text
        forall|other: i32|
            valid_offset(other as int) && representable(start.secs + utc_offset - other)
                ==> r.scheduled_at@ == #[trigger] clock_text(
                (start.secs + utc_offset - other) as i64,
                start.nanos,
                other,
            ),
{
    let mut title = "Event | ".to_owned();
    title.append(name);
    let description = match description {
        Some(d) => d,
        None => "No description".to_owned(),
    };
    let field_name = "Scheduled at".to_owned();
    // The offset is applied here, in checked arithmetic; chrono then writes
    // out the local wall clock as a UTC date-time.
    let local: i64 = start.secs + utc_offset as i64;
    let scheduled_at = if FIRST_SECOND <= local && local <= LAST_SECOND {
        let shown = format_local_clock(Moment { secs: local, nanos: start.nanos }, 0);
        proof {
            assert(representable(local - utc_offset));
            assert(shown@ == clock_text(((local + 0) - utc_offset) as i64, start.nanos, utc_offset));
            assert forall|other: i32|
                valid_offset(other as int) && representable(start.secs + utc_offset - other)
                    implies shown@ == #[trigger] clock_text(
                    (start.secs + utc_offset - other) as i64,
                    start.nanos,
                    other,
                ) by {
                assert(shown@ == clock_text(((local + 0) - other) as i64, start.nanos, other));
            }
        }
        shown
    } else {
        format_local_clock(start, utc_offset)
    };
    ReminderCard { title, description, field_name, scheduled_at }
}

} // verus!
