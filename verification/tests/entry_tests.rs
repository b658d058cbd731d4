use journey2::datetime::Date;
use journey2::datetime::Timestamp;
use journey2::entry::entry_file_name;
use journey2::entry::entry_query_pattern;
use journey2::entry::expand_file_path;
use journey2::entry::extract_naive_datetime;
use journey2::entry::get_dotfile_path;
use journey2::entry::get_path_for_todays_entry;
use journey2::entry::get_temp_file_path;
use journey2::entry::locate_entries;

fn ts(year: u32, month: u32, day: u32, hour: u32, minute: u32) -> Timestamp {
    Timestamp { date: Date { year, month, day }, hour, minute, second: 0 }
}

#[test]
fn entry_paths_are_derived_from_the_minute() {
    let t = ts(2024, 3, 7, 21, 45);
    assert_eq!(entry_file_name(&t), "2024/03/07.21-45.txt");
    assert_eq!(
        get_path_for_todays_entry("/data", &t),
        "/data/2024/03/07.21-45.txt"
    );
    assert_eq!(
        get_path_for_todays_entry("/data", &ts(987, 1, 2, 3, 4)),
        "/data/0987/01/02.03-04.txt"
    );
}

#[test]
fn entry_path_parses_back_to_its_timestamp() {
    assert_eq!(
        extract_naive_datetime("2024/03/07.21-45.txt"),
        Some(ts(2024, 3, 7, 21, 45))
    );
    assert_eq!(
        extract_naive_datetime("0987/01/02.03-04.txt"),
        Some(ts(987, 1, 2, 3, 4))
    );
    assert_eq!(extract_naive_datetime("2024/03/07.21-45.md"), None);
    assert_eq!(extract_naive_datetime("2024/03/07.24-45.txt"), None);
    assert_eq!(extract_naive_datetime("2024/03/07.21-60.txt"), None);
    assert_eq!(extract_naive_datetime("2024/02/30.10-00.txt"), None);
    assert_eq!(extract_naive_datetime("2024-03-07.21-45.txt"), None);
    assert_eq!(extract_naive_datetime(""), None);
}

#[test]
fn locator_finds_a_written_entry_by_its_date() {
    // The round trip: a file written at 2024/03/07.21-45.txt is discoverable
    // by a query for 2024-03-07 and reads back as 21:45 on that day.
    let paths: Vec<String> = vec![
        String::from("/data/2024/03/07.21-45.txt"),
        String::from("/data/2024/03/08.10-00.txt"),
        String::from("/data/2024/03/07.09-15.txt"),
        String::from("/data/notes.md"),
        String::from("/data/2024/03/07.bad.txt"),
    ];
    let found = locate_entries(&paths, "/data", &Date { year: 2024, month: 3, day: 7 });
    assert_eq!(found, vec![ts(2024, 3, 7, 21, 45), ts(2024, 3, 7, 9, 15)]);
}

#[test]
fn locator_pattern_has_the_expected_shape() {
    assert_eq!(
        entry_query_pattern("/data", &Date { year: 2024, month: 3, day: 7 }),
        "/data/2024/03/07*.txt"
    );
}

#[test]
fn locator_returns_nothing_for_an_empty_walk() {
    let paths: Vec<String> = vec![];
    let found = locate_entries(&paths, "/data", &Date { year: 2024, month: 3, day: 7 });
    assert!(found.is_empty());
}

#[test]
fn helper_paths_join_fixed_names() {
    assert_eq!(get_temp_file_path("/data"), "/data/.temp_entry");
    assert_eq!(get_dotfile_path("/home/u"), "/home/u/.journal");
}

#[test]
fn file_paths_expand_against_home() {
    assert_eq!(expand_file_path("", "/home/u"), "/home/u/journal");
    assert_eq!(expand_file_path("~/docs/j", "/home/u"), "/home/u/docs/j");
    assert_eq!(expand_file_path("~", "/home/u"), "/home/u/");
    assert_eq!(expand_file_path("/var/j", "/home/u"), "/var/j");
    assert_eq!(expand_file_path("~weird", "/home/u"), "~weird");
}
