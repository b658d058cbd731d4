//! The entry composer: the fixed-layout preamble text, from the location
//! name, the timestamp and the weather snapshot.  A pure function with no
//! side effects.

use vstd::prelude::*;
use vstd::string::StringExecFns;

use crate::compass::compass_index;
use crate::compass::compass_label;
use crate::compass::get_direction;
use crate::datetime::Timestamp;
use crate::datetime::month_abbrev;
use crate::datetime::month_abbrev_of;
use crate::datetime::month_full_name;
use crate::datetime::month_full_name_of;
use crate::datetime::weekday_abbrev;
use crate::datetime::weekday_abbrev_of;
use crate::datetime::weekday_index;
use crate::datetime::weekday_of;
use crate::strutil::four_digits;
use crate::strutil::push_four_digits;
use crate::strutil::push_two_digits;
use crate::strutil::two_digits;
use crate::weather_codes::describe_weather_code;
use crate::weather_codes::weather_description;
use crate::weather::WeatherSnapshot;

verus! {

/// The entry's first line body: weekday, date and clock time, then the
/// timezone label (abbreviation and offset) the caller supplies.
pub open spec fn date_line(ts: Timestamp, tz_label: Seq<char>) -> Seq<char> {
    weekday_abbrev(weekday_index(ts.date.year as int, ts.date.month as int, ts.date.day as int))
        + ", "@ + four_digits(ts.date.year as int) + " "@ + month_abbrev(ts.date.month as int)
        + " "@ + two_digits(ts.date.day as int) + " "@ + two_digits(ts.hour as int) + ":"@
        + two_digits(ts.minute as int) + ":"@ + two_digits(ts.second as int) + " "@ + tz_label
}

/// Renders the date line: `Sat, 2024 Mar 07 21:45:00` and the timezone label.
#[verifier::rlimit(50)]
pub fn format_date_line(ts: &Timestamp, tz_label: &str) -> (r: String)
    requires
        ts.wf(),
    ensures
        r@ == date_line(*ts, tz_label@),
{
    let mut out = String::from_str(weekday_abbrev_of(weekday_of(&ts.date)));
    out.append(", ");
    push_four_digits(&mut out, ts.date.year);
    out.append(" ");
    out.append(month_abbrev_of(ts.date.month));
    out.append(" ");
    push_two_digits(&mut out, ts.date.day);
    out.append(" ");
    push_two_digits(&mut out, ts.hour);
    out.append(":");
    push_two_digits(&mut out, ts.minute);
    out.append(":");
    push_two_digits(&mut out, ts.second);
    out.append(" ");
    out.append(tz_label);
    proof {
        assert(out@ =~= date_line(*ts, tz_label@));
    }
    out
}

/// The human rendering of an entry's timestamp in the open dialogue:
/// `07 March 2024, 21:45`.
pub open spec fn friendly_timestamp(ts: Timestamp) -> Seq<char> {
    two_digits(ts.date.day as int) + " "@ + month_full_name(ts.date.month as int) + " "@
        + four_digits(ts.date.year as int) + ", "@ + two_digits(ts.hour as int) + ":"@
        + two_digits(ts.minute as int)
}

/// Renders an entry's timestamp for the disambiguation list.
pub fn format_friendly_timestamp(ts: &Timestamp) -> (r: String)
    requires
        ts.wf(),
    ensures
        r@ == friendly_timestamp(*ts),
{
    let mut out = String::new();
    push_two_digits(&mut out, ts.date.day);
    out.append(" ");
    out.append(month_full_name_of(ts.date.month));
    out.append(" ");
    push_four_digits(&mut out, ts.date.year);
    out.append(", ");
    push_two_digits(&mut out, ts.hour);
    out.append(":");
    push_two_digits(&mut out, ts.minute);
    proof {
        assert(out@ =~= friendly_timestamp(*ts));
    }
    out
}

/// The first half of the weather block: temperature, conditions, UV index and
/// the sun times.
pub open spec fn weather_block_sky(w: WeatherSnapshot) -> Seq<char> {
    "\n\nTemperature: "@ + w.temperature@ + " C, feels like "@ + w.apparent_temperature@ + " C, "@
        + weather_description(w.weather_code) + ".\nUV Index: "@ + w.uv_index@ + "  Sunrise: "@
        + w.sunrise@ + "   Sunset: "@ + w.sunset@
}

/// The second half of the weather block: rain, wind, pressure, humidity and
/// visibility.
pub open spec fn weather_block_air(w: WeatherSnapshot) -> Seq<char> {
    "\nRain: "@ + w.rain@ + " mm\nWinds: "@ + w.windspeed@ + " km/h "@ + compass_label(
        compass_index(w.wind_direction_centi as int),
    ) + "\nPressure: "@ + w.pressure@ + " hPa\nHumidity: "@ + w.humidity@ + "%\nVisibility: "@
        + w.visibility_km@ + " km\n"@
}

/// The weather block of the preamble, from the temperature line to the
/// visibility line.
pub open spec fn weather_block(w: WeatherSnapshot) -> Seq<char> {
    weather_block_sky(w) + weather_block_air(w)
}

/// Appends the weather block to the preamble under construction.
fn append_weather_block(out: &mut String, weather: &WeatherSnapshot)
    ensures
        final(out)@ == old(out)@ + weather_block(*weather),
{
    out.append("\n\nTemperature: ");
    out.append(weather.temperature.as_str());
    out.append(" C, feels like ");
    out.append(weather.apparent_temperature.as_str());
    out.append(" C, ");
    out.append(describe_weather_code(weather.weather_code));
    out.append(".\nUV Index: ");
    out.append(weather.uv_index.as_str());
    out.append("  Sunrise: ");
    out.append(weather.sunrise.as_str());
    out.append("   Sunset: ");
    out.append(weather.sunset.as_str());
    proof {
        assert(out@ =~= old(out)@ + weather_block_sky(*weather));
    }
    let ghost mid = out@;
    out.append("\nRain: ");
    out.append(weather.rain.as_str());
    out.append(" mm\nWinds: ");
    out.append(weather.windspeed.as_str());
    out.append(" km/h ");
    let direction = get_direction(weather.wind_direction_centi as i64);
    out.append(direction.as_str());
    out.append("\nPressure: ");
    out.append(weather.pressure.as_str());
    out.append(" hPa\nHumidity: ");
    out.append(weather.humidity.as_str());
    out.append("%\nVisibility: ");
    out.append(weather.visibility_km.as_str());
    out.append(" km\n");
    proof {
        assert(out@ =~= mid + weather_block_air(*weather));
        assert(out@ =~= old(out)@ + weather_block(*weather));
    }
}

/// The whole preamble: the date line, the location line, and the weather
/// block.
pub open spec fn preamble_text(
    location_full_name: Seq<char>,
    ts: Timestamp,
    tz_label: Seq<char>,
    w: WeatherSnapshot,
) -> Seq<char> {
    "DATE: "@ + date_line(ts, tz_label) + "\nLOCATION: "@ + location_full_name + weather_block(w)
}

/// Composes the preamble for a new entry.  No side effects: the text is all
/// it produces.
#[verifier::rlimit(50)]
pub fn generate_preamble(
    location_full_name: &str,
    ts: &Timestamp,
    tz_label: &str,
    weather: &WeatherSnapshot,
) -> (r: String)
    requires
        ts.wf(),
    ensures
        r@ == preamble_text(location_full_name@, *ts, tz_label@, *weather),
{
    let mut out = String::from_str("DATE: ");
    let line = format_date_line(ts, tz_label);
    out.append(line.as_str());
    out.append("\nLOCATION: ");
    out.append(location_full_name);
    proof {
        assert(out@ =~= "DATE: "@ + date_line(*ts, tz_label@) + "\nLOCATION: "@
            + location_full_name@);
    }
    append_weather_block(&mut out, weather);
    proof {
        assert(out@ =~= preamble_text(location_full_name@, *ts, tz_label@, *weather));
    }
    out
}

} // verus!
