use gfontapi::fonts::transpile_font_weight;
use gfontapi::fonts::FontStyles;

/// The full 18-token grammar: token, tag, kebab name, slant keyword, weight.
fn catalog_tokens() -> Vec<(&'static str, FontStyles, &'static str, &'static str, u16)> {
    vec![
        ("100", FontStyles::Thin, "thin", "normal", 100),
        ("100italic", FontStyles::ThinItalic, "thin-italic", "italic", 100),
        ("200", FontStyles::ExtraLight, "extra-light", "normal", 200),
        (
            "200italic",
            FontStyles::ExtraLightItalic,
            "extra-light-italic",
            "italic",
            200,
        ),
        ("300", FontStyles::Light, "light", "normal", 300),
        ("300italic", FontStyles::LightItalic, "light-italic", "italic", 300),
        ("regular", FontStyles::Regular, "regular", "normal", 400),
        ("italic", FontStyles::RegularItalic, "regular-italic", "italic", 400),
        ("500", FontStyles::Medium, "medium", "normal", 500),
        ("500italic", FontStyles::MediumItalic, "medium-italic", "italic", 500),
        ("600", FontStyles::SemiBold, "semi-bold", "normal", 600),
        (
            "600italic",
            FontStyles::SemiBoldItalic,
            "semi-bold-italic",
            "italic",
            600,
        ),
        ("700", FontStyles::Bold, "bold", "normal", 700),
        ("700italic", FontStyles::BoldItalic, "bold-italic", "italic", 700),
        ("800", FontStyles::ExtraBold, "extra-bold", "normal", 800),
        (
            "800italic",
            FontStyles::ExtraBoldItalic,
            "extra-bold-italic",
            "italic",
            800,
        ),
        ("900", FontStyles::Black, "black", "normal", 900),
        ("900italic", FontStyles::BlackItalic, "black-italic", "italic", 900),
    ]
}

#[test]
fn all_18_tokens_resolve() {
    let table = catalog_tokens();
    assert_eq!(table.len(), 18);
    for (token, tag, name, slant, weight) in table {
        let resolved = transpile_font_weight(token).unwrap();
        assert_eq!(resolved, tag, "token {token}");
        assert_eq!(resolved.name(), name);
        let (got_slant, got_weight) = resolved.get_style_and_weight();
        assert_eq!(got_slant, slant, "token {token}");
        assert_eq!(got_weight, weight, "token {token}");
    }
}

#[test]
fn every_weight_is_a_hundred_step() {
    for (_, tag, _, _, _) in catalog_tokens() {
        let (_, weight) = tag.get_style_and_weight();
        assert!((100..=900).contains(&weight));
        assert_eq!(weight % 100, 0);
    }
}

#[test]
fn slant_is_italic_exactly_for_italic_tokens() {
    for (token, tag, _, _, _) in catalog_tokens() {
        let (slant, _) = tag.get_style_and_weight();
        if token == "italic" || token.ends_with("italic") {
            assert_eq!(slant, "italic", "token {token}");
        } else {
            assert_eq!(slant, "normal", "token {token}");
        }
    }
}

#[test]
fn unknown_tokens_are_not_found() {
    for token in ["999", "400", "400italic", "", "Regular", "bold", "100 ", "italic "] {
        let r = transpile_font_weight(token);
        assert!(r.is_err(), "token {token:?} should not resolve");
        assert_eq!(r.unwrap_err(), "Couldn't find the variant in the style table");
    }
}
