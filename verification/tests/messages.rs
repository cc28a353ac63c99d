use obsidian_lite::messages::{
    reminder_card, weather_card, weather_url, DayForecast, WeatherError, WeatherReport,
};
use obsidian_lite::schedule::Moment;

fn report() -> WeatherReport {
    WeatherReport {
        temperature: "+21 °C".to_string(),
        wind: "9 km/h".to_string(),
        description: "Sunny".to_string(),
        forecast: vec![
            DayForecast {
                day: "1".to_string(),
                temperature: "+20 °C".to_string(),
                wind: "5 km/h".to_string(),
            },
            DayForecast {
                day: "2".to_string(),
                temperature: "18 °C".to_string(),
                wind: "12 km/h".to_string(),
            },
        ],
    }
}

#[test]
fn weather_url_names_the_city() {
    assert_eq!(weather_url("Paris"), "https://goweather.herokuapp.com/weather/Paris");
}

#[test]
fn weather_card_texts() {
    let card = weather_card(&report(), "Paris");
    assert_eq!(card.title, "It is currently Sunny in Paris");
    assert_eq!(card.description, "Temperature +21 °C\n Wind9 km/h");
    assert_eq!(card.fields.len(), 2);
    assert_eq!(card.fields[0].name, "Day 1");
    assert_eq!(card.fields[0].value, "Temperature +20 °C\nWind 5 km/h");
    assert_eq!(card.fields[1].name, "Day 2");
    assert_eq!(card.fields[1].value, "Temperature 18 °C\nWind 12 km/h");
}

#[test]
fn weather_card_without_forecast() {
    let mut r = report();
    r.forecast.clear();
    assert!(weather_card(&r, "Oslo").fields.is_empty());
}

#[test]
fn weather_error_messages() {
    assert_eq!(WeatherError::Unreachable.message(), "API endpoint unreachable!");
    assert_eq!(
        WeatherError::UnknownCity.message(),
        "Weather for the given city does not exist!"
    );
}

#[test]
fn reminder_card_texts() {
    // 2024-05-10 15:30:00 UTC, seen at UTC+2
    let card = reminder_card(
        "Game night",
        Some("Bring snacks".to_string()),
        Moment { secs: 1715355000, nanos: 0 },
        7200,
    );
    assert_eq!(card.title, "Event | Game night");
    assert_eq!(card.description, "Bring snacks");
    assert_eq!(card.field_name, "Scheduled at");
    assert_eq!(card.scheduled_at, "17:30 10/05/2024");
}

#[test]
fn reminder_card_without_description() {
    let card = reminder_card("Launch", None, Moment { secs: 0, nanos: 0 }, 3600);
    assert_eq!(card.description, "No description");
    assert_eq!(card.scheduled_at, "01:00 01/01/1970");
}

#[test]
fn reminder_card_crosses_the_date_line() {
    let card = reminder_card("x", None, Moment { secs: 1715355000, nanos: 0 }, -16 * 3600);
    assert_eq!(card.scheduled_at, "23:30 09/05/2024");
}
