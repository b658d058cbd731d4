//! The weather snapshot: the single-day forecast request, and the reading of
//! the response's hourly and daily arrays at the requested hour.

use vstd::prelude::*;
use vstd::string::StrSliceExecFns;
use vstd::string::StringExecFns;

use crate::datetime::datetime_query_date;
use crate::datetime::datetime_query_hour;
use crate::datetime::datetime_query_ok;
use crate::datetime::split_datetime;
use crate::error::JournalError;
use crate::strutil::after_last;
use crate::strutil::replaced;
use crate::strutil::suffix_after_last;

verus! {

/// The forecast response's arrays, numbers already rendered as the decimal
/// strings the entry prints: one value per hour of the day for the hourly
/// fields, one per requested day for the daily ones.  Visibility is already
/// in kilometres; wind direction is in hundredths of a degree.
pub struct ForecastData {
    pub hourly_temperature: Vec<String>,
    pub hourly_humidity: Vec<String>,
    pub hourly_apparent_temperature: Vec<String>,
    pub hourly_rain: Vec<String>,
    pub hourly_pressure: Vec<String>,
    pub hourly_visibility_km: Vec<String>,
    pub hourly_windspeed: Vec<String>,
    pub hourly_wind_direction_centi: Vec<i32>,
    pub hourly_weather_code: Vec<usize>,
    pub daily_sunrise: Vec<String>,
    pub daily_sunset: Vec<String>,
    pub daily_uv_index_max: Vec<String>,
}

/// One hour's weather, as the entry preamble prints it.  Constructed once per
/// entry; only its rendered text is ever persisted.
#[derive(Debug)]
pub struct WeatherSnapshot {
    pub temperature: String,
    pub apparent_temperature: String,
    pub weather_code: usize,
    pub rain: String,
    pub windspeed: String,
    pub wind_direction_centi: i32,
    pub pressure: String,
    pub humidity: String,
    pub visibility_km: String,
    pub uv_index: String,
    pub sunrise: String,
    pub sunset: String,
}

/// Whether the response covers the requested hour: every hourly array must
/// reach past it, and every daily array must have its first day.
pub open spec fn forecast_has_hour(f: ForecastData, hour: int) -> bool {
    &&& hour < f.hourly_temperature@.len()
    &&& hour < f.hourly_humidity@.len()
    &&& hour < f.hourly_apparent_temperature@.len()
    &&& hour < f.hourly_rain@.len()
    &&& hour < f.hourly_pressure@.len()
    &&& hour < f.hourly_visibility_km@.len()
    &&& hour < f.hourly_windspeed@.len()
    &&& hour < f.hourly_wind_direction_centi@.len()
    &&& hour < f.hourly_weather_code@.len()
    &&& f.daily_sunrise@.len() >= 1
    &&& f.daily_sunset@.len() >= 1
    &&& f.daily_uv_index_max@.len() >= 1
}

/// Indexes the response at the requested hour.  The sunrise and sunset ISO
/// timestamps keep only their time-of-day suffix after the `T`.  A response
/// that does not cover the hour is a recoverable snapshot parse error, not an
/// abort.
pub fn snapshot_at_hour(f: &ForecastData, hour: usize) -> (r: Result<WeatherSnapshot, JournalError>)
    ensures
        r is Ok <==> forecast_has_hour(*f, hour as int),
        r matches Err(e) ==> e is SnapshotParse,
        r matches Ok(w) ==> {
            &&& w.temperature@ == f.hourly_temperature@[hour as int]@
            &&& w.apparent_temperature@ == f.hourly_apparent_temperature@[hour as int]@
            &&& w.weather_code == f.hourly_weather_code@[hour as int]
            &&& w.rain@ == f.hourly_rain@[hour as int]@
            &&& w.windspeed@ == f.hourly_windspeed@[hour as int]@
            &&& w.wind_direction_centi == f.hourly_wind_direction_centi@[hour as int]
            &&& w.pressure@ == f.hourly_pressure@[hour as int]@
            &&& w.humidity@ == f.hourly_humidity@[hour as int]@
            &&& w.visibility_km@ == f.hourly_visibility_km@[hour as int]@
            &&& w.uv_index@ == f.daily_uv_index_max@[0]@
            &&& w.sunrise@ == after_last(f.daily_sunrise@[0]@, 'T')
            &&& w.sunset@ == after_last(f.daily_sunset@[0]@, 'T')
        },
{
    if hour >= f.hourly_temperature.len() || hour >= f.hourly_humidity.len() || hour
        >= f.hourly_apparent_temperature.len() || hour >= f.hourly_rain.len() || hour
        >= f.hourly_pressure.len() || hour >= f.hourly_visibility_km.len() || hour
        >= f.hourly_windspeed.len() || hour >= f.hourly_wind_direction_centi.len() || hour
        >= f.hourly_weather_code.len() || f.daily_sunrise.len() == 0 || f.daily_sunset.len() == 0
        || f.daily_uv_index_max.len() == 0 {
        return Err(JournalError::SnapshotParse);
    }
    Ok(
        WeatherSnapshot {
            temperature: f.hourly_temperature[hour].clone(),
            apparent_temperature: f.hourly_apparent_temperature[hour].clone(),
            weather_code: f.hourly_weather_code[hour],
            rain: f.hourly_rain[hour].clone(),
            windspeed: f.hourly_windspeed[hour].clone(),
            wind_direction_centi: f.hourly_wind_direction_centi[hour],
            pressure: f.hourly_pressure[hour].clone(),
            humidity: f.hourly_humidity[hour].clone(),
            visibility_km: f.hourly_visibility_km[hour].clone(),
            uv_index: f.daily_uv_index_max[0].clone(),
            sunrise: String::from_str(suffix_after_last(f.daily_sunrise[0].as_str(), 'T')),
            sunset: String::from_str(suffix_after_last(f.daily_sunset[0].as_str(), 'T')),
        },
    )
}

/// The single-day forecast request: the fixed hourly and daily field lists,
/// the coordinates, the URL-ready timezone, and the day as both ends of the
/// range.
pub open spec fn forecast_url(
    latitude: Seq<char>,
    longitude: Seq<char>,
    timezone_url_ready: Seq<char>,
    date_iso: Seq<char>,
) -> Seq<char> {
    "https://api.open-meteo.com/v1/forecast?latitude="@ + latitude + "&longitude="@ + longitude
        + "&hourly=temperature_2m,relativehumidity_2m,apparent_temperature,rain,pressure_msl,visibility,windspeed_120m,winddirection_120m,weathercode&daily=sunrise,sunset,uv_index_max&timezone="@
        + timezone_url_ready + "&start_date="@ + date_iso + "&end_date="@ + date_iso
}

/// Builds the forecast request from already URL-ready pieces.
pub fn build_forecast_url(latitude: &str, longitude: &str, timezone_url_ready: &str, date_iso: &str)
    -> (r: String)
    ensures
        r@ == forecast_url(latitude@, longitude@, timezone_url_ready@, date_iso@),
{
    let mut out = String::from_str("https://api.open-meteo.com/v1/forecast?latitude=");
    out.append(latitude);
    out.append("&longitude=");
    out.append(longitude);
    out.append(
        "&hourly=temperature_2m,relativehumidity_2m,apparent_temperature,rain,pressure_msl,visibility,windspeed_120m,winddirection_120m,weathercode&daily=sunrise,sunset,uv_index_max&timezone=",
    );
    out.append(timezone_url_ready);
    out.append("&start_date=");
    out.append(date_iso);
    out.append("&end_date=");
    out.append(date_iso);
    proof {
        assert(out@ =~= forecast_url(latitude@, longitude@, timezone_url_ready@, date_iso@));
    }
    out
}

/// Prepares the whole forecast request from the raw `YYYY-MM-DD HH:MM`
/// string: the request URL and the hour to index the response at.  A string
/// outside the query shape is a recoverable parse error, where the reference
/// tool would abort.
pub fn forecast_request(date: &str, latitude: &str, longitude: &str, timezone: &str) -> (r: Result<
    (String, usize),
    JournalError,
>)
    ensures
        r is Ok <==> datetime_query_ok(date@),
        r matches Ok(p) ==> p.0@ == forecast_url(
            latitude@,
            longitude@,
            replaced(timezone@, '/', "%2F"@),
            datetime_query_date(date@),
        ) && p.1 == datetime_query_hour(date@),
        r matches Err(e) ==> e is Parse,
{
    match split_datetime(date) {
        Some((date_iso, hour)) => {
            let timezone_url_ready = crate::datetime::preprocess_timezone_for_url(timezone);
            let url = build_forecast_url(
                latitude,
                longitude,
                timezone_url_ready.as_str(),
                date_iso.as_str(),
            );
            Ok((url, hour))
        },
        None => Err(
            JournalError::Parse(String::from_str("The date is not in `YYYY-MM-DD HH:MM` form.")),
        ),
    }
}

} // verus!
