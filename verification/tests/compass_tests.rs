use journey2::compass::get_direction;

// Directions are handed over in hundredths of a degree, so 22.5 degrees is
// 2250 and 11.25 degrees is 1125.
#[test]
fn test_get_direction() {
    // Test common directions
    assert_eq!(get_direction(0), "N");
    assert_eq!(get_direction(4500), "NE");
    assert_eq!(get_direction(9000), "E");
    assert_eq!(get_direction(13500), "SE");
    assert_eq!(get_direction(18000), "S");
    assert_eq!(get_direction(22500), "SW");
    assert_eq!(get_direction(27000), "W");
    assert_eq!(get_direction(31500), "NW");
    assert_eq!(get_direction(36000), "N");

    // Test edge cases
    assert_eq!(get_direction(-4500), "N"); // Negative degrees
    assert_eq!(get_direction(36100), "N"); // Degrees greater than 360
    assert_eq!(get_direction(2250), "NNE"); // Degrees on a boundary between two directions
    assert_eq!(get_direction(1125), "NNE"); // Degrees on the boundary between N and NNE
    assert_eq!(get_direction(34875), "N"); // Degrees on the boundary between NNW and N
}

#[test]
fn direction_covers_all_sixteen_labels() {
    let expected = [
        "N", "NNE", "NE", "ENE", "E", "ESE", "SE", "SSE", "S", "SSW", "SW", "WSW", "W", "WNW",
        "NW", "NNW",
    ];
    for (k, label) in expected.iter().enumerate() {
        let centi = (k as i64) * 2250;
        assert_eq!(get_direction(centi), *label);
    }
}

#[test]
fn direction_is_periodic_in_full_turns() {
    for centi in [0i64, 1125, 2250, 9000, 18000, 33750, 35999] {
        assert_eq!(get_direction(centi), get_direction(centi + 36000));
        assert_eq!(get_direction(centi), get_direction(centi + 72000));
    }
}

#[test]
fn direction_sector_edges() {
    // Each sector is 22.5 degrees wide, centred on its multiple of 22.5.
    assert_eq!(get_direction(1124), "N");
    assert_eq!(get_direction(1125), "NNE");
    assert_eq!(get_direction(3374), "NNE");
    assert_eq!(get_direction(3375), "NE");
    assert_eq!(get_direction(34874), "NNW");
    assert_eq!(get_direction(34875), "N");
}
