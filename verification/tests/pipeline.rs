use gfontapi::fonts::FontFamily;
use gfontapi::fonts::FontStyles;
use gfontapi::pipeline::join_results;
use gfontapi::pipeline::plan_downloads;
use gfontapi::pipeline::progress_message;
use gfontapi::pipeline::summary_message;
use gfontapi::pipeline::Outcome;
use gfontapi::pipeline::ProgressState;

fn example_family(files: Vec<(&str, &str)>) -> FontFamily {
    FontFamily {
        family: String::from("Example Sans"),
        variants: files.iter().map(|(t, _)| t.to_string()).collect(),
        subsets: vec![String::from("latin")],
        files: files
            .into_iter()
            .map(|(t, u)| (t.to_string(), u.to_string()))
            .collect(),
        category: String::from("sans-serif"),
    }
}

#[test]
fn plan_resolves_every_mapped_variant() {
    let family = example_family(vec![
        ("regular", "https://fonts.example/r.ttf"),
        ("700italic", "https://fonts.example/bi.ttf"),
    ]);
    let plan = plan_downloads(&family, "example-sans", "./fonts/example-sans");
    assert_eq!(plan.units.len(), 2);
    assert!(plan.failures.is_empty());

    assert_eq!(plan.units[0].style, FontStyles::Regular);
    assert_eq!(plan.units[0].url, "https://fonts.example/r.ttf");
    assert_eq!(
        plan.units[0].ttf_path,
        "./fonts/example-sans/example-sans-regular.ttf"
    );
    assert_eq!(
        plan.units[0].woff2_path,
        "./fonts/example-sans/example-sans-regular.woff2"
    );
    assert_eq!(plan.units[0].outcome, Outcome::Pending);

    assert_eq!(plan.units[1].style, FontStyles::BoldItalic);
    assert_eq!(
        plan.units[1].woff2_path,
        "./fonts/example-sans/example-sans-bold-italic.woff2"
    );
}

#[test]
fn unmapped_token_fails_only_its_own_variant() {
    let family = example_family(vec![
        ("regular", "https://fonts.example/r.ttf"),
        ("999", "https://fonts.example/x.ttf"),
        ("700", "https://fonts.example/b.ttf"),
    ]);
    let plan = plan_downloads(&family, "example-sans", "./fonts/example-sans");
    assert_eq!(plan.units.len(), 2);
    assert_eq!(plan.units[0].style, FontStyles::Regular);
    assert_eq!(plan.units[1].style, FontStyles::Bold);
    assert_eq!(plan.failures, vec![String::from("999")]);
}

#[test]
fn completed_count_equals_total_regardless_of_failures() {
    let events = vec![
        (FontStyles::Regular, true),
        (FontStyles::Bold, false),
        (FontStyles::BlackItalic, true),
        (FontStyles::Thin, false),
    ];
    let state = join_results(&events);
    assert_eq!(state.completed_count(), 4);
    assert_eq!(
        state.succeeded_tags(),
        vec![FontStyles::Regular, FontStyles::BlackItalic]
    );
}

#[test]
fn join_of_no_events_is_empty() {
    let state = join_results(&vec![]);
    assert_eq!(state.completed_count(), 0);
    assert!(state.succeeded_tags().is_empty());
}

#[test]
fn succeeded_tags_hold_no_failed_tag_and_no_duplicate() {
    let events = vec![
        (FontStyles::Thin, true),
        (FontStyles::ThinItalic, false),
        (FontStyles::Medium, true),
        (FontStyles::Bold, true),
        (FontStyles::Black, false),
    ];
    let state = join_results(&events);
    for (style, success) in &events {
        let recorded = state.succeeded_tags().contains(style);
        assert_eq!(recorded, *success, "tag {:?}", style);
    }
    for i in 0..state.succeeded_tags().len() {
        for j in i + 1..state.succeeded_tags().len() {
            assert_ne!(state.succeeded_tags()[i], state.succeeded_tags()[j]);
        }
    }
}

#[test]
fn record_completion_is_one_atomic_step() {
    let mut state = ProgressState::new();
    state.record_completion(FontStyles::Regular, true);
    assert_eq!(state.completed_count(), 1);
    assert_eq!(state.succeeded_tags(), vec![FontStyles::Regular]);
    state.record_completion(FontStyles::Bold, false);
    assert_eq!(state.completed_count(), 2);
    assert_eq!(state.succeeded_tags(), vec![FontStyles::Regular]);
}

#[test]
fn outcome_state_machine_walks_to_terminal_states() {
    let family = example_family(vec![("regular", "https://fonts.example/r.ttf")]);
    let mut plan = plan_downloads(&family, "example-sans", "fonts/example-sans");
    let unit = &mut plan.units[0];
    assert_eq!(unit.outcome, Outcome::Pending);
    assert!(!unit.is_success());
    unit.mark_download(true);
    assert_eq!(unit.outcome, Outcome::Downloaded);
    assert!(!unit.is_success());
    unit.mark_conversion(true);
    assert_eq!(unit.outcome, Outcome::Converted);
    assert!(unit.is_success());

    let family = example_family(vec![("700", "https://fonts.example/b.ttf")]);
    let mut plan = plan_downloads(&family, "example-sans", "fonts/example-sans");
    let unit = &mut plan.units[0];
    unit.mark_download(false);
    assert_eq!(unit.outcome, Outcome::Failed);
    assert!(!unit.is_success());
}

#[test]
fn download_failure_keeps_the_other_variant() {
    // One variant's download fails with a network error: the pipeline still
    // joins with a full count and returns exactly the surviving tag.
    let family = example_family(vec![
        ("regular", "https://fonts.example/r.ttf"),
        ("700italic", "https://fonts.example/bi.ttf"),
    ]);
    let mut plan = plan_downloads(&family, "example-sans", "fonts/example-sans");
    plan.units[0].mark_download(true);
    plan.units[0].mark_conversion(true);
    plan.units[1].mark_download(false);
    let events: Vec<(FontStyles, bool)> = plan
        .units
        .iter()
        .map(|u| (u.style, u.is_success()))
        .collect();
    let state = join_results(&events);
    assert_eq!(state.completed_count(), 2);
    assert_eq!(state.succeeded_tags(), vec![FontStyles::Regular]);
}

#[test]
fn progress_and_summary_messages() {
    assert_eq!(progress_message(0, 2), "Converting fonts... (0/2)");
    assert_eq!(progress_message(2, 2), "Converting fonts... (2/2)");
    assert_eq!(progress_message(13, 107), "Converting fonts... (13/107)");
    assert_eq!(summary_message(2), "Converted 2 fonts");
    assert_eq!(summary_message(0), "Converted 0 fonts");
}
