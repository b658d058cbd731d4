use journey2::choice::ChoicePrompt;
use journey2::choice::ChoiceStep;
use journey2::choice::begin_choice;
use journey2::config::Config;
use journey2::config::config_from_pairs;
use journey2::config::render_config;
use journey2::config::should_write_config;
use journey2::editor::EditorOutcome;
use journey2::editor::conclude_editing;
use journey2::error::JournalError;
use journey2::interact::EditorSelection;
use journey2::interact::editor_command_for_choice;
use journey2::interact::is_affirmative;
use journey2::timezone::TzStep;
use journey2::timezone::begin_timezone_dialogue;
use journey2::timezone::is_valid_timezone;

fn pending(step: ChoiceStep) -> ChoicePrompt {
    match step {
        ChoiceStep::Pending(p) => p,
        _ => panic!("expected a pending prompt"),
    }
}

#[test]
fn empty_candidate_list_fails_resolution() {
    assert!(matches!(
        begin_choice(0),
        ChoiceStep::Failed(JournalError::NotFound)
    ));
}

#[test]
fn single_candidate_resolves_without_prompt() {
    assert!(matches!(begin_choice(1), ChoiceStep::Resolved(0)));
}

#[test]
fn several_candidates_accept_an_index_in_range() {
    let p = pending(begin_choice(3));
    assert!(matches!(p.answer("2"), ChoiceStep::Resolved(1)));

    let p = pending(begin_choice(3));
    assert!(matches!(p.answer("1"), ChoiceStep::Resolved(0)));

    let p = pending(begin_choice(3));
    assert!(matches!(p.answer(" 3 "), ChoiceStep::Resolved(2)));
}

#[test]
fn out_of_range_and_garbage_answers_burn_chances() {
    let p = pending(begin_choice(3));
    let p = pending(p.answer("0"));
    let p = pending(p.answer("4"));
    let p = pending(p.answer("nine"));
    let p = pending(p.answer(""));
    assert_eq!(p.chances, 1);
    assert!(matches!(
        p.answer("-1"),
        ChoiceStep::Failed(JournalError::ExhaustedAttempts)
    ));
}

#[test]
fn a_late_valid_answer_still_resolves() {
    let p = pending(begin_choice(2));
    let p = pending(p.answer("7"));
    assert!(matches!(p.answer("2"), ChoiceStep::Resolved(1)));
}

#[test]
fn timezone_names_are_checked_against_the_iana_table() {
    assert!(is_valid_timezone("Europe/London"));
    assert!(is_valid_timezone("Asia/Tokyo"));
    assert!(!is_valid_timezone("Notaplace/Nowhere"));
    assert!(!is_valid_timezone(""));
    assert!(!is_valid_timezone("europe/london"));
}

#[test]
fn timezone_dialogue_confirms_on_yes() {
    let step = begin_timezone_dialogue(String::from("Europe/London"), None);
    let d = match step {
        TzStep::Pending(d) => d,
        _ => panic!("expected a pending dialogue"),
    };
    match d.answer(true, "") {
        TzStep::Confirmed(tz) => assert_eq!(tz, "Europe/London"),
        _ => panic!("expected confirmation"),
    }
}

#[test]
fn timezone_dialogue_rejects_invalid_names_at_once() {
    assert!(matches!(
        begin_timezone_dialogue(String::from("Nowhere/Atoll"), None),
        TzStep::Failed(JournalError::TimezoneParse)
    ));

    let d = match begin_timezone_dialogue(String::from("Europe/London"), None) {
        TzStep::Pending(d) => d,
        _ => panic!("expected a pending dialogue"),
    };
    assert!(matches!(
        d.answer(false, "Bad/Zone"),
        TzStep::Failed(JournalError::TimezoneParse)
    ));
}

#[test]
fn timezone_dialogue_spends_its_budget() {
    let d = match begin_timezone_dialogue(String::from("Europe/London"), Some(1)) {
        TzStep::Pending(d) => d,
        _ => panic!("expected a pending dialogue"),
    };
    let d = match d.answer(false, "Asia/Tokyo") {
        TzStep::Pending(d) => d,
        _ => panic!("expected one more round"),
    };
    assert_eq!(d.candidate, "Asia/Tokyo");
    assert_eq!(d.remaining, Some(0));
    assert!(matches!(
        d.answer(false, "Europe/Paris"),
        TzStep::Failed(JournalError::ExhaustedAttempts)
    ));
}

#[test]
fn affirmative_answers_are_yes_y_and_yeah() {
    assert!(is_affirmative("yes"));
    assert!(is_affirmative("y"));
    assert!(is_affirmative("yeah"));
    assert!(is_affirmative("YES"));
    assert!(is_affirmative(" Yes "));
    assert!(is_affirmative("\tY\n"));
    assert!(!is_affirmative("no"));
    assert!(!is_affirmative(""));
    assert!(!is_affirmative("yess"));
    assert!(!is_affirmative("oui"));
}

#[test]
fn editor_menu_maps_choices_to_commands() {
    for (choice, cmd) in [(1usize, "vim"), (2, "emacs"), (3, "nano"), (4, "pico")] {
        match editor_command_for_choice(choice) {
            EditorSelection::Chosen(c) => assert_eq!(c, cmd),
            _ => panic!("expected a named editor"),
        }
    }
    assert!(matches!(
        editor_command_for_choice(5),
        EditorSelection::NeedsCustom
    ));
    assert!(matches!(editor_command_for_choice(0), EditorSelection::Invalid));
    assert!(matches!(editor_command_for_choice(6), EditorSelection::Invalid));
}

#[test]
fn unchanged_draft_is_a_no_op() {
    let preamble = "DATE: x\nLOCATION: y\n";
    let outcome = conclude_editing(preamble, String::from(preamble), true);
    assert!(matches!(outcome, EditorOutcome::Unchanged));
}

#[test]
fn changed_draft_is_committed_verbatim() {
    let preamble = "DATE: x\nLOCATION: y\n";
    let edited = String::from("DATE: x\nLOCATION: y\n\nDear diary...\n");
    match conclude_editing(preamble, edited.clone(), true) {
        EditorOutcome::Committed(content) => assert_eq!(content, edited),
        _ => panic!("expected a commit"),
    }
}

#[test]
fn failed_editor_discards_nothing() {
    let outcome = conclude_editing("a", String::from("b"), false);
    assert!(matches!(outcome, EditorOutcome::Failure));
}

#[test]
fn overwrite_guard_respects_a_decline() {
    assert!(!should_write_config(true, false));
    assert!(should_write_config(true, true));
    assert!(should_write_config(false, false));
    assert!(should_write_config(false, true));
}

#[test]
fn config_renders_to_the_fixed_table() {
    let c = Config {
        location_full_name: String::from("Lor Marzuki, Singapore City"),
        location_latitude: String::from("1.29"),
        location_longitude: String::from("103.85"),
        timezone: String::from("Asia/Singapore"),
        editor: String::from("vim"),
    };
    assert_eq!(
        render_config(&c),
        "[defaults]\n\
         location_full_name=\"Lor Marzuki, Singapore City\"\n\
         location_latitude=\"1.29\"\n\
         location_longitude=\"103.85\"\n\
         timezone=\"Asia/Singapore\"\n\
         editor=\"vim\"\n"
    );
}

fn sample_pairs() -> Vec<(String, Option<String>)> {
    vec![
        (String::from("location_full_name"), Some(String::from("Gaza"))),
        (String::from("location_latitude"), Some(String::from("31.5"))),
        (String::from("location_longitude"), Some(String::from("34.46"))),
        (String::from("timezone"), Some(String::from("Asia/Gaza"))),
        (String::from("editor"), Some(String::from("nano"))),
    ]
}

#[test]
fn config_reads_back_from_its_pairs() {
    let c = config_from_pairs(&sample_pairs()).unwrap();
    assert_eq!(c.location_full_name, "Gaza");
    assert_eq!(c.location_latitude, "31.5");
    assert_eq!(c.location_longitude, "34.46");
    assert_eq!(c.timezone, "Asia/Gaza");
    assert_eq!(c.editor, "nano");
}

#[test]
fn a_missing_config_field_is_the_missing_error() {
    let mut pairs = sample_pairs();
    pairs.remove(3);
    assert!(matches!(
        config_from_pairs(&pairs),
        Err(JournalError::ConfigMissing)
    ));
}

#[test]
fn a_non_string_config_field_is_the_parse_error() {
    let mut pairs = sample_pairs();
    pairs[1] = (String::from("location_latitude"), None);
    assert!(matches!(
        config_from_pairs(&pairs),
        Err(JournalError::ConfigParse)
    ));
}

#[test]
fn round_trip_of_render_and_read() {
    // The rendered text, parsed as TOML by the binary's codec, comes back as
    // the same five pairs; here the pairs are built directly.
    let c = config_from_pairs(&sample_pairs()).unwrap();
    let text = render_config(&c);
    assert!(text.contains("timezone=\"Asia/Gaza\""));
    assert!(text.starts_with("[defaults]\n"));
}

#[test]
fn error_messages_are_human_readable() {
    assert_eq!(
        JournalError::NotFound.message(),
        "There are no locations in the database with that name."
    );
    assert_eq!(JournalError::ExhaustedAttempts.message(), "Too many failed attempts.");
    assert_eq!(JournalError::Io(String::from("boom")).message(), "boom");
    assert_eq!(JournalError::Parse(String::from("bad digit")).message(), "bad digit");
    assert_eq!(
        JournalError::ChoiceOutOfRange.message(),
        "That doesn't seem to be one of the choices."
    );
    assert_eq!(
        JournalError::ConfigMissing.message(),
        "Oops!  Looks like you haven't initialised your journal yet.  \
         Try running `journal init` first."
    );
    assert_eq!(JournalError::ConfigParse.message(), "The config file could not be read.");
    assert_eq!(JournalError::EditorExit.message(), "The editor did not exit successfully.");
    assert_eq!(
        JournalError::SnapshotParse.message(),
        "The weather response did not have the expected shape."
    );
    assert_eq!(
        JournalError::TimezoneParse.message(),
        "That is not a valid IANA timezone name."
    );
}
