//! The style mapper and the catalog data model.
//!
//! A catalog names each weight/style combination of a family with one of 18
//! string tokens. [`transpile_font_weight`] maps a token to its normalized
//! [`FontStyles`] tag; [`FontStyles::get_style_and_weight`] gives the tag's
//! CSS slant keyword and numeric weight. The catalog response itself is
//! modeled by [`Font`] and [`FontFamily`], and the fetcher's decisions
//! (status validation, family selection) are here as well.

use vstd::prelude::*;
use vstd::string::*;

use crate::text::dec_of;
use crate::text::str_eq;
use crate::text::u64_to_string;

verus! {

/// The normalized tag of one weight/style combination: nine weights, each in
/// an upright and an italic slant.
#[derive(Clone, Copy, Debug, PartialEq, Eq, Structural)]
pub enum FontStyles {
    Thin,
    ThinItalic,
    ExtraLight,
    ExtraLightItalic,
    Light,
    LightItalic,
    Regular,
    RegularItalic,
    Medium,
    MediumItalic,
    SemiBold,
    SemiBoldItalic,
    Bold,
    BoldItalic,
    ExtraBold,
    ExtraBoldItalic,
    Black,
    BlackItalic,
}

/// The numeric CSS weight of a style tag.
pub open spec fn style_weight(s: FontStyles) -> u16 {
    match s {
        FontStyles::Thin => 100,
        FontStyles::ThinItalic => 100,
        FontStyles::ExtraLight => 200,
        FontStyles::ExtraLightItalic => 200,
        FontStyles::Light => 300,
        FontStyles::LightItalic => 300,
        FontStyles::Regular => 400,
        FontStyles::RegularItalic => 400,
        FontStyles::Medium => 500,
        FontStyles::MediumItalic => 500,
        FontStyles::SemiBold => 600,
        FontStyles::SemiBoldItalic => 600,
        FontStyles::Bold => 700,
        FontStyles::BoldItalic => 700,
        FontStyles::ExtraBold => 800,
        FontStyles::ExtraBoldItalic => 800,
        FontStyles::Black => 900,
        FontStyles::BlackItalic => 900,
    }
}

/// Whether the style tag is an italic one.
pub open spec fn style_is_italic(s: FontStyles) -> bool {
    match s {
        FontStyles::ThinItalic => true,
        FontStyles::ExtraLightItalic => true,
        FontStyles::LightItalic => true,
        FontStyles::RegularItalic => true,
        FontStyles::MediumItalic => true,
        FontStyles::SemiBoldItalic => true,
        FontStyles::BoldItalic => true,
        FontStyles::ExtraBoldItalic => true,
        FontStyles::BlackItalic => true,
        _ => false,
    }
}

/// The kebab-case name of a style tag, used in file names and user output.
pub open spec fn style_name_spec(s: FontStyles) -> Seq<char> {
    match s {
        FontStyles::Thin => "thin"@,
        FontStyles::ThinItalic => "thin-italic"@,
        FontStyles::ExtraLight => "extra-light"@,
        FontStyles::ExtraLightItalic => "extra-light-italic"@,
        FontStyles::Light => "light"@,
        FontStyles::LightItalic => "light-italic"@,
        FontStyles::Regular => "regular"@,
        FontStyles::RegularItalic => "regular-italic"@,
        FontStyles::Medium => "medium"@,
        FontStyles::MediumItalic => "medium-italic"@,
        FontStyles::SemiBold => "semi-bold"@,
        FontStyles::SemiBoldItalic => "semi-bold-italic"@,
        FontStyles::Bold => "bold"@,
        FontStyles::BoldItalic => "bold-italic"@,
        FontStyles::ExtraBold => "extra-bold"@,
        FontStyles::ExtraBoldItalic => "extra-bold-italic"@,
        FontStyles::Black => "black"@,
        FontStyles::BlackItalic => "black-italic"@,
    }
}

impl FontStyles {
    /// The CSS slant keyword and numeric weight of this style tag.
    pub fn get_style_and_weight(&self) -> (r: (&'static str, u16))
        ensures
            r.1 == style_weight(*self),
            r.0@ == (if style_is_italic(*self) {
                "italic"@
            } else {
                "normal"@
            }),
    {
        match self {
            FontStyles::Black => ("normal", 900),
            FontStyles::BlackItalic => ("italic", 900),
            FontStyles::ExtraBold => ("normal", 800),
            FontStyles::ExtraBoldItalic => ("italic", 800),
            FontStyles::Bold => ("normal", 700),
            FontStyles::BoldItalic => ("italic", 700),
            FontStyles::SemiBold => ("normal", 600),
            FontStyles::SemiBoldItalic => ("italic", 600),
            FontStyles::Medium => ("normal", 500),
            FontStyles::MediumItalic => ("italic", 500),
            FontStyles::Regular => ("normal", 400),
            FontStyles::RegularItalic => ("italic", 400),
            FontStyles::Light => ("normal", 300),
            FontStyles::LightItalic => ("italic", 300),
            FontStyles::ExtraLight => ("normal", 200),
            FontStyles::ExtraLightItalic => ("italic", 200),
            FontStyles::Thin => ("normal", 100),
            FontStyles::ThinItalic => ("italic", 100),
        }
    }

    /// The kebab-case name of this style tag.
    pub fn name(&self) -> (r: &'static str)
        ensures
            r@ == style_name_spec(*self),
    {
        match self {
            FontStyles::Thin => "thin",
            FontStyles::ThinItalic => "thin-italic",
            FontStyles::ExtraLight => "extra-light",
            FontStyles::ExtraLightItalic => "extra-light-italic",
            FontStyles::Light => "light",
            FontStyles::LightItalic => "light-italic",
            FontStyles::Regular => "regular",
            FontStyles::RegularItalic => "regular-italic",
            FontStyles::Medium => "medium",
            FontStyles::MediumItalic => "medium-italic",
            FontStyles::SemiBold => "semi-bold",
            FontStyles::SemiBoldItalic => "semi-bold-italic",
            FontStyles::Bold => "bold",
            FontStyles::BoldItalic => "bold-italic",
            FontStyles::ExtraBold => "extra-bold",
            FontStyles::ExtraBoldItalic => "extra-bold-italic",
            FontStyles::Black => "black",
            FontStyles::BlackItalic => "black-italic",
        }
    }
}

/// The total lookup table from catalog tokens to style tags: `Some` on
/// exactly the 18 supported tokens, `None` on everything else.
pub open spec fn token_style(s: Seq<char>) -> Option<FontStyles> {
    if s == "100"@ {
        Some(FontStyles::Thin)
    } else if s == "100italic"@ {
        Some(FontStyles::ThinItalic)
    } else if s == "200"@ {
        Some(FontStyles::ExtraLight)
    } else if s == "200italic"@ {
        Some(FontStyles::ExtraLightItalic)
    } else if s == "300"@ {
        Some(FontStyles::Light)
    } else if s == "300italic"@ {
        Some(FontStyles::LightItalic)
    } else if s == "regular"@ {
        Some(FontStyles::Regular)
    } else if s == "italic"@ {
        Some(FontStyles::RegularItalic)
    } else if s == "500"@ {
        Some(FontStyles::Medium)
    } else if s == "500italic"@ {
        Some(FontStyles::MediumItalic)
    } else if s == "600"@ {
        Some(FontStyles::SemiBold)
    } else if s == "600italic"@ {
        Some(FontStyles::SemiBoldItalic)
    } else if s == "700"@ {
        Some(FontStyles::Bold)
    } else if s == "700italic"@ {
        Some(FontStyles::BoldItalic)
    } else if s == "800"@ {
        Some(FontStyles::ExtraBold)
    } else if s == "800italic"@ {
        Some(FontStyles::ExtraBoldItalic)
    } else if s == "900"@ {
        Some(FontStyles::Black)
    } else if s == "900italic"@ {
        Some(FontStyles::BlackItalic)
    } else {
        None
    }
}

/// Resolves a catalog variant token to its style tag; reports an error for a
/// token outside the 18-entry table, so that the caller can fail that one
/// variant and keep going.
pub fn transpile_font_weight(font_string: &str) -> (r: Result<FontStyles, String>)
    ensures
        match token_style(font_string@) {
            Some(style) => r matches Ok(tag) && tag == style,
            None => r matches Err(e) && e@ == "Couldn't find the variant in the style table"@,
        },
{
    if str_eq(font_string, "100") {
        Ok(FontStyles::Thin)
    } else if str_eq(font_string, "100italic") {
        Ok(FontStyles::ThinItalic)
    } else if str_eq(font_string, "200") {
        Ok(FontStyles::ExtraLight)
    } else if str_eq(font_string, "200italic") {
        Ok(FontStyles::ExtraLightItalic)
    } else if str_eq(font_string, "300") {
        Ok(FontStyles::Light)
    } else if str_eq(font_string, "300italic") {
        Ok(FontStyles::LightItalic)
    } else if str_eq(font_string, "regular") {
        Ok(FontStyles::Regular)
    } else if str_eq(font_string, "italic") {
        Ok(FontStyles::RegularItalic)
    } else if str_eq(font_string, "500") {
        Ok(FontStyles::Medium)
    } else if str_eq(font_string, "500italic") {
        Ok(FontStyles::MediumItalic)
    } else if str_eq(font_string, "600") {
        Ok(FontStyles::SemiBold)
    } else if str_eq(font_string, "600italic") {
        Ok(FontStyles::SemiBoldItalic)
    } else if str_eq(font_string, "700") {
        Ok(FontStyles::Bold)
    } else if str_eq(font_string, "700italic") {
        Ok(FontStyles::BoldItalic)
    } else if str_eq(font_string, "800") {
        Ok(FontStyles::ExtraBold)
    } else if str_eq(font_string, "800italic") {
        Ok(FontStyles::ExtraBoldItalic)
    } else if str_eq(font_string, "900") {
        Ok(FontStyles::Black)
    } else if str_eq(font_string, "900italic") {
        Ok(FontStyles::BlackItalic)
    } else {
        Err(String::from_str("Couldn't find the variant in the style table"))
    }
}

/// The nine italic tokens of the table.
pub open spec fn italic_token(s: Seq<char>) -> bool {
    ||| s == "100italic"@
    ||| s == "200italic"@
    ||| s == "300italic"@
    ||| s == "italic"@
    ||| s == "500italic"@
    ||| s == "600italic"@
    ||| s == "700italic"@
    ||| s == "800italic"@
    ||| s == "900italic"@
}

/// Every style tag carries one of the nine hundred-step weights.
pub proof fn lemma_style_weight_range(s: FontStyles)
    ensures
        100 <= style_weight(s) <= 900,
        style_weight(s) % 100 == 0,
{
}

/// A mapped token yields an italic tag exactly when the token itself is one
/// of the italic tokens.
pub proof fn lemma_token_slant(s: Seq<char>)
    requires
        token_style(s) is Some,
    ensures
        style_is_italic(token_style(s)->Some_0) <==> italic_token(s),
{
    reveal_strlit("100");
    reveal_strlit("100italic");
    reveal_strlit("200");
    reveal_strlit("200italic");
    reveal_strlit("300");
    reveal_strlit("300italic");
    reveal_strlit("regular");
    reveal_strlit("italic");
    reveal_strlit("500");
    reveal_strlit("500italic");
    reveal_strlit("600");
    reveal_strlit("600italic");
    reveal_strlit("700");
    reveal_strlit("700italic");
    reveal_strlit("800");
    reveal_strlit("800italic");
    reveal_strlit("900");
    reveal_strlit("900italic");
    assert("100"@.len() == 3 && "200"@.len() == 3 && "300"@.len() == 3 && "500"@.len() == 3
        && "600"@.len() == 3 && "700"@.len() == 3 && "800"@.len() == 3 && "900"@.len() == 3);
    assert("regular"@.len() == 7);
    assert("italic"@.len() == 6);
    assert("100italic"@.len() == 9 && "200italic"@.len() == 9 && "300italic"@.len() == 9
        && "500italic"@.len() == 9 && "600italic"@.len() == 9 && "700italic"@.len() == 9
        && "800italic"@.len() == 9 && "900italic"@.len() == 9);
}

/// Two tokens that resolve to the same style tag are the same token: the
/// table maps the 18 tokens one-to-one onto the 18 tags.
pub proof fn lemma_token_style_injective(s1: Seq<char>, s2: Seq<char>)
    requires
        token_style(s1) is Some,
        token_style(s1) == token_style(s2),
    ensures
        s1 == s2,
{
}

/// One family record of the catalog: its name, the raw variant tokens, the
/// language subsets, the token-to-URL table of downloadable files, and the
/// catalog category.
#[derive(Clone, Debug)]
pub struct FontFamily {
    pub family: String,
    pub variants: Vec<String>,
    pub subsets: Vec<String>,
    pub files: Vec<(String, String)>,
    pub category: String,
}

/// The catalog response: the list of family records matching the query.
#[derive(Clone, Debug)]
pub struct Font {
    pub items: Vec<FontFamily>,
}

/// Why a catalog query failed; any of these is fatal for the whole run.
#[derive(Clone, Copy, Debug, PartialEq, Eq, Structural)]
pub enum CatalogError {
    /// The catalog answered with a non-success HTTP status.
    BadStatus(u16),
    /// The response held no family record.
    EmptyCatalog,
}

impl CatalogError {
    /// A plain-text description of the failure, for the error report.
    pub fn message(&self) -> (r: String)
        ensures
            match *self {
                CatalogError::BadStatus(code) => r@ == "catalog request failed with HTTP status "@
                    + dec_of(code as nat),
                CatalogError::EmptyCatalog => r@ == "catalog response contained no font family"@,
            },
    {
        match self {
            CatalogError::BadStatus(code) => {
                let mut r = String::from_str("catalog request failed with HTTP status ");
                let digits = u64_to_string(*code as u64);
                r.append(digits.as_str());
                r
            },
            CatalogError::EmptyCatalog => String::from_str(
                "catalog response contained no font family",
            ),
        }
    }
}

/// The catalog query URL: the base endpoint with the key and family name as
/// query parameters.
pub open spec fn api_url_spec(base: Seq<char>, key: Seq<char>, family: Seq<char>) -> Seq<char> {
    base + "?key="@ + key + "&family="@ + family
}

pub fn build_api_url(base_url: &str, api_key: &str, font_name: &str) -> (r: String)
    ensures
        r@ == api_url_spec(base_url@, api_key@, font_name@),
{
    let mut r = String::from_str(base_url);
    r.append("?key=");
    r.append(api_key);
    r.append("&family=");
    r.append(font_name);
    proof {
        assert(r@ =~= api_url_spec(base_url@, api_key@, font_name@));
    }
    r
}

/// Accepts exactly the HTTP success status the catalog promises; any other
/// status is fatal for the run.
pub fn check_catalog_status(status: u16) -> (r: Result<(), CatalogError>)
    ensures
        status == 200 ==> r is Ok,
        status != 200 ==> (r matches Err(e) && e == CatalogError::BadStatus(status)),
{
    if status == 200 {
        Ok(())
    } else {
        Err(CatalogError::BadStatus(status))
    }
}

/// Selects the family record the run works with: the first item of the
/// response. A response with no items is a fatal catalog error.
pub fn select_family(font: Font) -> (r: Result<FontFamily, CatalogError>)
    ensures
        font.items@.len() == 0 ==> (r matches Err(e) && e == CatalogError::EmptyCatalog),
        font.items@.len() > 0 ==> (r matches Ok(f) && f == font.items@[0]),
{
    let mut items = font.items;
    if items.len() == 0 {
        Err(CatalogError::EmptyCatalog)
    } else {
        Ok(items.remove(0))
    }
}

} // verus!
