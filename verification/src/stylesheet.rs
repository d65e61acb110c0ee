//! The stylesheet generator: one `@font-face` record per successfully
//! processed style tag, in the order the pipeline recorded them, written to
//! `fonts.css` in the font directory.
//!
//! The family name a record displays is derived from the font directory's
//! leaf name (dashes become spaces, each word title-cased), independent of
//! the catalog's raw casing. The unverified shell only copies the rendered
//! text to disk; every character of the stylesheet is fixed here.

use vstd::prelude::*;
use vstd::string::*;

use crate::fonts::style_is_italic;
use crate::fonts::style_weight;
use crate::fonts::FontStyles;
use crate::pipeline::font_file_name;
use crate::pipeline::unit_file_name;
use crate::text::dec_of;
use crate::text::format_font_string;
use crate::text::join_path;
use crate::text::join_path_spec;
use crate::text::leaf_of;
use crate::text::path_leaf;
use crate::text::title_case;
use crate::text::u64_to_string;

verus! {

/// The CSS-facing display name: the font directory's leaf, title-cased.
pub open spec fn display_name_spec(dir: Seq<char>) -> Seq<char> {
    title_case(leaf_of(dir))
}

/// Derives the display name the stylesheet uses from the font directory.
pub fn css_display_name(font_dir: &str) -> (r: String)
    ensures
        r@ == display_name_spec(font_dir@),
{
    let leaf = path_leaf(font_dir);
    format_font_string(leaf.as_str())
}

/// One `@font-face` record: the display name, the converted artifact's
/// quoted path, the slant keyword and the numeric weight.
pub open spec fn font_face_record_spec(
    display: Seq<char>,
    dir: Seq<char>,
    family: Seq<char>,
    style: FontStyles,
) -> Seq<char> {
    "@font-face {\n\tfont-family: \""@ + display + "\";\n\tsrc: url(\""@ + join_path_spec(
        dir,
        unit_file_name(family, style, "woff2"@),
    ) + "\");\n\tfont-style: "@ + (if style_is_italic(style) {
        "italic"@
    } else {
        "normal"@
    }) + ";\n\tfont-weight: "@ + dec_of(style_weight(style) as nat) + ";\n}\n"@
}

/// Renders one `@font-face` record. `display_name` is the display name the
/// whole stylesheet shares; the caller computes it once with
/// [`css_display_name`].
pub fn font_face_record(
    display_name: &str,
    font_dir: &str,
    family_name: &str,
    style: FontStyles,
) -> (r: String)
    ensures
        r@ == font_face_record_spec(display_name@, font_dir@, family_name@, style),
{
    let mut r = String::from_str("@font-face {\n\tfont-family: \"");
    r.append(display_name);
    r.append("\";\n\tsrc: url(\"");
    let file = font_file_name(family_name, style, "woff2");
    let path = join_path(font_dir, file.as_str());
    r.append(path.as_str());
    r.append("\");\n\tfont-style: ");
    let slant_and_weight = style.get_style_and_weight();
    r.append(slant_and_weight.0);
    r.append(";\n\tfont-weight: ");
    let weight = u64_to_string(slant_and_weight.1 as u64);
    r.append(weight.as_str());
    r.append(";\n}\n");
    proof {
        assert(r@ =~= font_face_record_spec(display_name@, font_dir@, family_name@, style));
    }
    r
}

/// The whole `fonts.css` content: every record in pipeline order, each
/// followed by the blank line the incremental writer leaves.
pub open spec fn stylesheet_spec(
    styles: Seq<FontStyles>,
    dir: Seq<char>,
    family: Seq<char>,
) -> Seq<char>
    decreases styles.len(),
{
    if styles.len() == 0 {
        Seq::empty()
    } else {
        stylesheet_spec(styles.drop_last(), dir, family) + font_face_record_spec(
            display_name_spec(dir),
            dir,
            family,
            styles.last(),
        ) + "\n"@
    }
}

/// Renders the full stylesheet for the successfully processed tags, in the
/// order the pipeline recorded them.
pub fn render_stylesheet(styles: &Vec<FontStyles>, font_dir: &str, family_name: &str) -> (r:
    String)
    ensures
        r@ == stylesheet_spec(styles@, font_dir@, family_name@),
{
    let display = css_display_name(font_dir);
    let n = styles.len();
    let mut out = String::new();
    let mut i: usize = 0;
    proof {
        assert(styles@.take(0) =~= Seq::<FontStyles>::empty());
    }
    while i < n
        invariant
            i <= n,
            n == styles@.len(),
            display@ == display_name_spec(font_dir@),
            out@ == stylesheet_spec(styles@.take(i as int), font_dir@, family_name@),
        decreases n - i,
    {
        let record = font_face_record(display.as_str(), font_dir, family_name, styles[i]);
        out.append(record.as_str());
        out.append("\n");
        proof {
            assert(styles@.take(i as int + 1).drop_last() =~= styles@.take(i as int));
            assert(styles@.take(i as int + 1).last() == styles@[i as int]);
            assert(out@ =~= stylesheet_spec(styles@.take(i as int + 1), font_dir@, family_name@));
        }
        i += 1;
    }
    proof {
        assert(styles@.take(n as int) =~= styles@);
    }
    out
}

/// Where the stylesheet goes: `fonts.css` inside the font directory.
pub fn css_file_path(font_dir: &str) -> (r: String)
    ensures
        r@ == join_path_spec(font_dir@, "fonts.css"@),
{
    join_path(font_dir, "fonts.css")
}

/// The records of a run, one per recorded tag, in that order.
pub open spec fn records_of(
    styles: Seq<FontStyles>,
    dir: Seq<char>,
    family: Seq<char>,
) -> Seq<Seq<char>> {
    styles.map_values(|s: FontStyles| font_face_record_spec(display_name_spec(dir), dir, family, s))
}

proof fn lemma_records_subset(
    a: Seq<FontStyles>,
    b: Seq<FontStyles>,
    dir: Seq<char>,
    family: Seq<char>,
)
    requires
        a.to_set().subset_of(b.to_set()),
    ensures
        records_of(a, dir, family).to_set().subset_of(records_of(b, dir, family).to_set()),
{
    let ra = records_of(a, dir, family);
    let rb = records_of(b, dir, family);
    assert forall|r: Seq<char>| ra.to_set().contains(r) implies rb.to_set().contains(r) by {
        let i = choose|i: int| 0 <= i < ra.len() && ra[i] == r;
        assert(a.contains(a[i]));
        assert(b.to_set().contains(a[i]));
        let j = choose|j: int| 0 <= j < b.len() && b[j] == a[i];
        assert(rb[j] == r);
        assert(rb.contains(r));
    }
}

/// Completion order is the run's only nondeterminism: two runs whose
/// successful tags form the same set produce stylesheets holding the same
/// set of font-face records, so a rerun on identical inputs differs at most
/// by record order.
pub proof fn lemma_stylesheet_order_independent(
    styles1: Seq<FontStyles>,
    styles2: Seq<FontStyles>,
    dir: Seq<char>,
    family: Seq<char>,
)
    requires
        styles1.to_set() == styles2.to_set(),
    ensures
        records_of(styles1, dir, family).to_set() == records_of(styles2, dir, family).to_set(),
{
    lemma_records_subset(styles1, styles2, dir, family);
    lemma_records_subset(styles2, styles1, dir, family);
    assert(records_of(styles1, dir, family).to_set() =~= records_of(
        styles2,
        dir,
        family,
    ).to_set());
}

} // verus!
