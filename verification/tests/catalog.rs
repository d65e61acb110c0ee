use gfontapi::fonts::build_api_url;
use gfontapi::fonts::check_catalog_status;
use gfontapi::fonts::select_family;
use gfontapi::fonts::CatalogError;
use gfontapi::fonts::Font;
use gfontapi::fonts::FontFamily;

fn one_family() -> FontFamily {
    FontFamily {
        family: String::from("Example Sans"),
        variants: vec![String::from("regular"), String::from("700italic")],
        subsets: vec![String::from("latin")],
        files: vec![
            (String::from("regular"), String::from("https://fonts.example/r.ttf")),
            (String::from("700italic"), String::from("https://fonts.example/bi.ttf")),
        ],
        category: String::from("sans-serif"),
    }
}

#[test]
fn api_url_carries_key_and_family() {
    let url = build_api_url(
        "https://www.googleapis.com/webfonts/v1/webfonts",
        "SECRET-REDACTED",
        "Example Sans",
    );
    assert_eq!(
        url,
        "https://www.googleapis.com/webfonts/v1/webfonts?key=SECRET-REDACTED&family=Example Sans"
    );
}

#[test]
fn success_status_is_accepted() {
    assert!(check_catalog_status(200).is_ok());
}

#[test]
fn http_404_is_a_fatal_catalog_error() {
    let err = check_catalog_status(404).unwrap_err();
    assert_eq!(err, CatalogError::BadStatus(404));
    assert_eq!(err.message(), "catalog request failed with HTTP status 404");
}

#[test]
fn every_non_success_status_is_fatal() {
    for status in [301u16, 400, 401, 403, 429, 500, 503] {
        assert_eq!(check_catalog_status(status).unwrap_err(), CatalogError::BadStatus(status));
    }
}

#[test]
fn first_family_of_the_response_is_selected() {
    let font = Font { items: vec![one_family()] };
    let family = select_family(font).unwrap();
    assert_eq!(family.family, "Example Sans");
    assert_eq!(family.files.len(), 2);
    assert_eq!(family.category, "sans-serif");
}

#[test]
fn empty_response_is_a_fatal_catalog_error() {
    let font = Font { items: vec![] };
    let err = select_family(font).unwrap_err();
    assert_eq!(err, CatalogError::EmptyCatalog);
    assert_eq!(err.message(), "catalog response contained no font family");
}
