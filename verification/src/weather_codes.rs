//! The fixed table of weather codes and their human descriptions.

use std::collections::HashMap;
use vstd::prelude::*;

verus! {

broadcast use vstd::std_specs::hash::group_hash_axioms;

/// The codes the table maps; every other code renders as unknown conditions.
pub open spec fn is_known_weather_code(code: usize) -> bool {
    code == 0 || code == 1 || code == 2 || code == 3 || code == 45 || code == 48 || code == 51
        || code == 53 || code == 55 || code == 56 || code == 57 || code == 61 || code == 63
        || code == 65 || code == 66 || code == 67 || code == 71 || code == 73 || code == 75
        || code == 77 || code == 80 || code == 81 || code == 82 || code == 85 || code == 86
        || code == 95 || code == 96 || code == 99
}

/// The description of a weather code, unknown codes included.
pub open spec fn weather_description(code: usize) -> Seq<char> {
    if code == 0 {
        "Clear skies"@
    } else if code == 1 {
        "Mainly clear skies"@
    } else if code == 2 {
        "Partly cloudy skies"@
    } else if code == 3 {
        "Overcast skies"@
    } else if code == 45 || code == 48 {
        "Fog"@
    } else if code == 51 {
        "Light drizzle"@
    } else if code == 53 {
        "Moderate drizzle"@
    } else if code == 55 {
        "Heavy drizzle"@
    } else if code == 56 {
        "Light drizzle, freezing"@
    } else if code == 57 {
        "Moderate or heavy drizzle, freezing"@
    } else if code == 61 {
        "Light rain"@
    } else if code == 63 {
        "Moderate rain"@
    } else if code == 65 {
        "Heavy rain"@
    } else if code == 66 {
        "Light rain, freezing"@
    } else if code == 67 {
        "Moderate or heavy rain, freezing"@
    } else if code == 71 {
        "Snow fall: Slight intensity"@
    } else if code == 73 {
        "Snow fall: Moderate intensity"@
    } else if code == 75 {
        "Snow fall: Heavy intensity"@
    } else if code == 77 {
        "Snow grains"@
    } else if code == 80 {
        "Light rain showers"@
    } else if code == 81 {
        "Moderate rain showers"@
    } else if code == 82 {
        "Violent rain showers"@
    } else if code == 85 {
        "Snow showers: Slight intensity"@
    } else if code == 86 {
        "Snow showers: Heavy intensity"@
    } else if code == 95 {
        "Thunderstorm: Slight or moderate"@
    } else if code == 96 {
        "Thunderstorm with slight hail"@
    } else if code == 99 {
        "Thunderstorm with heavy hail"@
    } else {
        "Unknown conditions"@
    }
}

/// The description for `code`, with the fallback for unmapped codes.
pub fn describe_weather_code(code: usize) -> (r: &'static str)
    ensures
        r@ == weather_description(code),
{
    if code == 0 {
        "Clear skies"
    } else if code == 1 {
        "Mainly clear skies"
    } else if code == 2 {
        "Partly cloudy skies"
    } else if code == 3 {
        "Overcast skies"
    } else if code == 45 || code == 48 {
        "Fog"
    } else if code == 51 {
        "Light drizzle"
    } else if code == 53 {
        "Moderate drizzle"
    } else if code == 55 {
        "Heavy drizzle"
    } else if code == 56 {
        "Light drizzle, freezing"
    } else if code == 57 {
        "Moderate or heavy drizzle, freezing"
    } else if code == 61 {
        "Light rain"
    } else if code == 63 {
        "Moderate rain"
    } else if code == 65 {
        "Heavy rain"
    } else if code == 66 {
        "Light rain, freezing"
    } else if code == 67 {
        "Moderate or heavy rain, freezing"
    } else if code == 71 {
        "Snow fall: Slight intensity"
    } else if code == 73 {
        "Snow fall: Moderate intensity"
    } else if code == 75 {
        "Snow fall: Heavy intensity"
    } else if code == 77 {
        "Snow grains"
    } else if code == 80 {
        "Light rain showers"
    } else if code == 81 {
        "Moderate rain showers"
    } else if code == 82 {
        "Violent rain showers"
    } else if code == 85 {
        "Snow showers: Slight intensity"
    } else if code == 86 {
        "Snow showers: Heavy intensity"
    } else if code == 95 {
        "Thunderstorm: Slight or moderate"
    } else if code == 96 {
        "Thunderstorm with slight hail"
    } else if code == 99 {
        "Thunderstorm with heavy hail"
    } else {
        "Unknown conditions"
    }
}

/// The table as a map, keyed by code: it holds exactly the known codes, each
/// with its description.
pub fn get_weather_map() -> (m: HashMap<usize, &'static str>)
    ensures
        forall|c: usize| m@.contains_key(c) == is_known_weather_code(c),
        forall|c: usize| #[trigger]
            m@.contains_key(c) ==> m@[c]@ == weather_description(c),
{
    let mut m: HashMap<usize, &'static str> = HashMap::new();
    m.insert(0, "Clear skies");
    m.insert(1, "Mainly clear skies");
    m.insert(2, "Partly cloudy skies");
    m.insert(3, "Overcast skies");
    m.insert(45, "Fog");
    m.insert(48, "Fog");
    m.insert(51, "Light drizzle");
    m.insert(53, "Moderate drizzle");
    m.insert(55, "Heavy drizzle");
    m.insert(56, "Light drizzle, freezing");
    m.insert(57, "Moderate or heavy drizzle, freezing");
    m.insert(61, "Light rain");
    m.insert(63, "Moderate rain");
    m.insert(65, "Heavy rain");
    m.insert(66, "Light rain, freezing");
    m.insert(67, "Moderate or heavy rain, freezing");
    m.insert(71, "Snow fall: Slight intensity");
    m.insert(73, "Snow fall: Moderate intensity");
    m.insert(75, "Snow fall: Heavy intensity");
    m.insert(77, "Snow grains");
    m.insert(80, "Light rain showers");
    m.insert(81, "Moderate rain showers");
    m.insert(82, "Violent rain showers");
    m.insert(85, "Snow showers: Slight intensity");
    m.insert(86, "Snow showers: Heavy intensity");
    m.insert(95, "Thunderstorm: Slight or moderate");
    m.insert(96, "Thunderstorm with slight hail");
    m.insert(99, "Thunderstorm with heavy hail");
    m
}

} // verus!
