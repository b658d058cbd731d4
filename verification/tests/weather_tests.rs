use journey2::compose::format_date_line;
use journey2::compose::format_friendly_timestamp;
use journey2::compose::generate_preamble;
use journey2::datetime::Date;
use journey2::datetime::Timestamp;
use journey2::error::JournalError;
use journey2::location::Location;
use journey2::location::build_geocoding_url;
use journey2::location::describe_location;
use journey2::location::sanitise_spaces_html;
use journey2::location::split_location;
use journey2::weather::ForecastData;
use journey2::weather::WeatherSnapshot;
use journey2::weather::build_forecast_url;
use journey2::weather::forecast_request;
use journey2::weather::snapshot_at_hour;
use journey2::weather_codes::describe_weather_code;
use journey2::weather_codes::get_weather_map;

#[test]
fn weather_code_lookup_matches_the_table() {
    assert_eq!(describe_weather_code(0), "Clear skies");
    assert_eq!(describe_weather_code(71), "Snow fall: Slight intensity");
    assert_eq!(describe_weather_code(12), "Unknown conditions");
    assert_eq!(describe_weather_code(99), "Thunderstorm with heavy hail");
    assert_eq!(describe_weather_code(45), "Fog");
    assert_eq!(describe_weather_code(48), "Fog");
}

#[test]
fn weather_map_holds_exactly_the_known_codes() {
    let map = get_weather_map();
    assert_eq!(map.len(), 28);
    assert_eq!(map.get(&0), Some(&"Clear skies"));
    assert_eq!(map.get(&71), Some(&"Snow fall: Slight intensity"));
    assert_eq!(map.get(&12), None);
    assert_eq!(map.get(&82), Some(&"Violent rain showers"));
}

#[test]
fn addresses_are_cut_at_the_last_comma() {
    assert_eq!(
        split_location("1600 Pennsylvania Avenue NW, Washington, D.C"),
        "D.C"
    );
    assert_eq!(split_location("Lor Marzuki, Singapore City"), "Singapore City");
    assert_eq!(split_location("Guayaquil"), "Guayaquil");
    assert_eq!(split_location("  Cebu  "), "Cebu");
    assert_eq!(split_location("a,"), "");
}

#[test]
fn spaces_are_made_url_ready() {
    assert_eq!(sanitise_spaces_html("Singapore City"), "Singapore%20City");
    assert_eq!(sanitise_spaces_html("Gaza"), "Gaza");
    assert_eq!(sanitise_spaces_html(" a b "), "%20a%20b%20");
}

#[test]
fn geocoding_url_carries_the_city() {
    assert_eq!(
        build_geocoding_url("Singapore%20City"),
        "https://geocoding-api.open-meteo.com/v1/search?name=Singapore%20City"
    );
}

fn sample_location() -> Location {
    Location {
        name: String::from("Washington"),
        latitude: String::from("38.89511"),
        longitude: String::from("-77.03637"),
        timezone: String::from("America/New_York"),
        country_code: String::from("US"),
        admin1: Some(String::from("District of Columbia")),
        admin2: None,
        admin3: None,
        admin4: None,
    }
}

#[test]
fn locations_render_with_their_country_name() {
    // The country code goes through the lookup: the rendering would differ if
    // the code came back unchanged.
    assert_eq!(
        describe_location(&sample_location()),
        "Washington, District of Columbia, United States of America \
         (38.89511, -77.03637) with timezone 'America/New_York'"
    );
}

#[test]
fn unknown_country_codes_render_as_themselves() {
    let mut l = sample_location();
    l.country_code = String::from("ZZ");
    l.admin1 = None;
    assert_eq!(
        describe_location(&l),
        "Washington, ZZ (38.89511, -77.03637) with timezone 'America/New_York'"
    );
}

fn sample_forecast() -> ForecastData {
    ForecastData {
        hourly_temperature: vec![String::from("1.0"), String::from("2.5")],
        hourly_humidity: vec![String::from("80"), String::from("82")],
        hourly_apparent_temperature: vec![String::from("0.1"), String::from("1.9")],
        hourly_rain: vec![String::from("0"), String::from("0.3")],
        hourly_pressure: vec![String::from("1013.2"), String::from("1012.8")],
        hourly_visibility_km: vec![String::from("24.14"), String::from("10")],
        hourly_windspeed: vec![String::from("5.4"), String::from("7.2")],
        hourly_wind_direction_centi: vec![0, 9000],
        hourly_weather_code: vec![0, 71],
        daily_sunrise: vec![String::from("2024-03-07T06:31")],
        daily_sunset: vec![String::from("2024-03-07T18:04")],
        daily_uv_index_max: vec![String::from("3.5")],
    }
}

#[test]
fn snapshot_indexes_the_requested_hour() {
    let w = snapshot_at_hour(&sample_forecast(), 1).unwrap();
    assert_eq!(w.temperature, "2.5");
    assert_eq!(w.apparent_temperature, "1.9");
    assert_eq!(w.weather_code, 71);
    assert_eq!(w.rain, "0.3");
    assert_eq!(w.windspeed, "7.2");
    assert_eq!(w.wind_direction_centi, 9000);
    assert_eq!(w.pressure, "1012.8");
    assert_eq!(w.humidity, "82");
    assert_eq!(w.visibility_km, "10");
    assert_eq!(w.uv_index, "3.5");
    assert_eq!(w.sunrise, "06:31");
    assert_eq!(w.sunset, "18:04");
}

#[test]
fn snapshot_refuses_an_hour_the_response_lacks() {
    assert!(matches!(
        snapshot_at_hour(&sample_forecast(), 2),
        Err(JournalError::SnapshotParse)
    ));
    let mut f = sample_forecast();
    f.daily_sunrise = vec![];
    assert!(matches!(
        snapshot_at_hour(&f, 0),
        Err(JournalError::SnapshotParse)
    ));
}

#[test]
fn forecast_url_has_the_fixed_field_lists() {
    assert_eq!(
        build_forecast_url("52.52", "13.405", "Europe%2FBerlin", "2023-08-21"),
        "https://api.open-meteo.com/v1/forecast?latitude=52.52&longitude=13.405\
         &hourly=temperature_2m,relativehumidity_2m,apparent_temperature,rain,\
         pressure_msl,visibility,windspeed_120m,winddirection_120m,weathercode\
         &daily=sunrise,sunset,uv_index_max&timezone=Europe%2FBerlin\
         &start_date=2023-08-21&end_date=2023-08-21"
    );
}

#[test]
fn forecast_request_splits_the_date_itself() {
    let (url, hour) = forecast_request("2023-08-21 13:45:00", "52.52", "13.405", "Europe/Berlin")
        .unwrap();
    assert_eq!(hour, 13);
    assert!(url.contains("&timezone=Europe%2FBerlin&"));
    assert!(url.contains("&start_date=2023-08-21&end_date=2023-08-21"));
    assert!(matches!(
        forecast_request("2023-08-21", "52.52", "13.405", "Europe/Berlin"),
        Err(JournalError::Parse(_))
    ));
}

fn sample_timestamp() -> Timestamp {
    Timestamp { date: Date { year: 2024, month: 3, day: 7 }, hour: 21, minute: 45, second: 0 }
}

#[test]
fn date_line_is_weekday_qualified() {
    assert_eq!(
        format_date_line(&sample_timestamp(), "CET (+01:00)"),
        "Thu, 2024 Mar 07 21:45:00 CET (+01:00)"
    );
}

#[test]
fn friendly_timestamps_spell_the_month() {
    assert_eq!(format_friendly_timestamp(&sample_timestamp()), "07 March 2024, 21:45");
}

#[test]
fn preamble_has_the_fixed_layout() {
    let w = WeatherSnapshot {
        temperature: String::from("2.5"),
        apparent_temperature: String::from("1.9"),
        weather_code: 71,
        rain: String::from("0.3"),
        windspeed: String::from("7.2"),
        wind_direction_centi: 9000,
        pressure: String::from("1012.8"),
        humidity: String::from("82"),
        visibility_km: String::from("24.14"),
        uv_index: String::from("3.5"),
        sunrise: String::from("06:31"),
        sunset: String::from("18:04"),
    };
    let text = generate_preamble("Lor Marzuki, Singapore City", &sample_timestamp(), "CET (+01:00)", &w);
    assert_eq!(
        text,
        "DATE: Thu, 2024 Mar 07 21:45:00 CET (+01:00)\n\
         LOCATION: Lor Marzuki, Singapore City\n\
         \n\
         Temperature: 2.5 C, feels like 1.9 C, Snow fall: Slight intensity.\n\
         UV Index: 3.5  Sunrise: 06:31   Sunset: 18:04\n\
         Rain: 0.3 mm\n\
         Winds: 7.2 km/h E\n\
         Pressure: 1012.8 hPa\n\
         Humidity: 82%\n\
         Visibility: 24.14 km\n"
    );
}
