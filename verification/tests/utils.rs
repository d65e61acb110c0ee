use gfontapi::text::format_font_string;
use gfontapi::text::join_path;
use gfontapi::text::make_slug;
use gfontapi::text::path_leaf;
use gfontapi::text::str_eq;
use gfontapi::text::u64_to_string;
use gfontapi::utils::choose_api_key;
use gfontapi::utils::get_output_dir;
use gfontapi::utils::get_woff2_compress;

#[test]
fn output_dir_defaults_to_fonts() {
    assert_eq!(get_output_dir(None), "./fonts");
    assert_eq!(get_output_dir(Some(String::from("assets/type"))), "assets/type");
}

#[test]
fn woff2_compress_prefers_the_system_install() {
    assert_eq!(get_woff2_compress(true, true).unwrap(), "/usr/local/bin/woff2_compress");
    assert_eq!(get_woff2_compress(true, false).unwrap(), "/usr/local/bin/woff2_compress");
    assert_eq!(get_woff2_compress(false, true).unwrap(), "~/.gfontapi/bin/woff2_compress");
    assert_eq!(
        get_woff2_compress(false, false).unwrap_err(),
        "Could not locate woff2_compress binary on system"
    );
}

#[test]
fn explicit_api_key_wins_over_environment() {
    assert_eq!(
        choose_api_key(Some(String::from("cli-key")), Some(String::from("env-key"))),
        Some(String::from("cli-key"))
    );
    assert_eq!(
        choose_api_key(None, Some(String::from("env-key"))),
        Some(String::from("env-key"))
    );
    assert_eq!(choose_api_key(None, Some(String::new())), None);
    assert_eq!(choose_api_key(None, None), None);
}

#[test]
fn slug_lowercases_and_dashes_the_family_name() {
    assert_eq!(make_slug("Example Sans"), "example-sans");
    assert_eq!(make_slug("Roboto"), "roboto");
    assert_eq!(make_slug("Open Sans Pro"), "open-sans-pro");
    assert_eq!(make_slug("already-dashed"), "already-dashed");
}

#[test]
fn format_font_string_title_cases_dashed_words() {
    assert_eq!(format_font_string("example-sans"), "Example Sans");
    assert_eq!(format_font_string("roboto"), "Roboto");
    assert_eq!(format_font_string("open-sans-pro"), "Open Sans Pro");
    assert_eq!(format_font_string(""), "");
    assert_eq!(format_font_string("a--b"), "A  B");
}

#[test]
fn decimal_rendering_is_exact() {
    assert_eq!(u64_to_string(0), "0");
    assert_eq!(u64_to_string(7), "7");
    assert_eq!(u64_to_string(10), "10");
    assert_eq!(u64_to_string(204), "204");
    assert_eq!(u64_to_string(65535), "65535");
}

#[test]
fn paths_join_with_a_single_separator() {
    assert_eq!(join_path("./fonts", "example-sans"), "./fonts/example-sans");
    assert_eq!(join_path("a", "b.css"), "a/b.css");
}

#[test]
fn path_leaf_takes_the_last_component() {
    assert_eq!(path_leaf("./fonts/example-sans"), "example-sans");
    assert_eq!(path_leaf("example-sans"), "example-sans");
    assert_eq!(path_leaf("/a/b/c"), "c");
    assert_eq!(path_leaf("trailing/"), "");
}

#[test]
fn str_eq_compares_by_characters() {
    assert!(str_eq("regular", "regular"));
    assert!(!str_eq("regular", "Regular"));
    assert!(!str_eq("100", "100italic"));
    assert!(!str_eq("", "x"));
    assert!(str_eq("", ""));
}
