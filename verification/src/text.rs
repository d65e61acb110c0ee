//! String building blocks shared by the catalog, pipeline and stylesheet
//! modules: equality on `&str`, decimal rendering of counters, path joining,
//! family-name slugs and display names.

use vstd::prelude::*;
use vstd::string::*;

verus! {

/// What `str::to_lowercase` returns: the Unicode lowercase mapping of the
/// characters, a function of the input characters alone.
pub uninterp spec fn lower_of(s: Seq<char>) -> Seq<char>;

/// What `char::to_uppercase` returns: the Unicode uppercase mapping of one
/// character (possibly several characters long), a function of the character
/// alone.
pub uninterp spec fn upper_of(c: char) -> Seq<char>;

/// Relies on `String::push` from std: appends the character at the end.
pub assume_specification[ String::push ](s: &mut String, ch: char)
    ensures
        final(s)@ == old(s)@.push(ch),
;

/// Relies on `str::to_lowercase` from std: returns the lowercase mapping of
/// the input, which depends on the input characters alone.
#[verifier::external_body]
fn to_lowercase(s: &str) -> (r: String)
    ensures
        r@ == lower_of(s@),
{
    s.to_lowercase()
}

/// Relies on `char::to_uppercase` from std: returns the uppercase mapping of
/// the character, which depends on the character alone.
#[verifier::external_body]
fn char_to_uppercase(c: char) -> (r: String)
    ensures
        r@ == upper_of(c),
{
    c.to_uppercase().collect()
}

/// Character-for-character equality of two string slices.
pub fn str_eq(a: &str, b: &str) -> (r: bool)
    ensures
        r == (a@ == b@),
{
    let a_len = a.unicode_len();
    let b_len = b.unicode_len();
    if a_len != b_len {
        return false;
    }
    let mut i: usize = 0;
    while i < a_len
        invariant
            i <= a_len,
            a_len == a@.len(),
            b_len == b@.len(),
            a_len == b_len,
            forall|j: int| 0 <= j < i ==> a@[j] == b@[j],
        decreases a_len - i,
    {
        if a.get_char(i) != b.get_char(i) {
            return false;
        }
        i += 1;
    }
    proof {
        assert(a@ =~= b@);
    }
    true
}

/// The decimal digit character for `d < 10`.
pub open spec fn digit_char(d: nat) -> char {
    if d == 0 {
        '0'
    } else if d == 1 {
        '1'
    } else if d == 2 {
        '2'
    } else if d == 3 {
        '3'
    } else if d == 4 {
        '4'
    } else if d == 5 {
        '5'
    } else if d == 6 {
        '6'
    } else if d == 7 {
        '7'
    } else if d == 8 {
        '8'
    } else {
        '9'
    }
}

/// The usual decimal rendering of a natural number, most significant digit
/// first, with no leading zeros (and `0` rendered as `"0"`).
pub open spec fn dec_of(n: nat) -> Seq<char>
    decreases n,
{
    if n < 10 {
        seq![digit_char(n)]
    } else {
        dec_of(n / 10).push(digit_char(n % 10))
    }
}

fn digit_str(d: u64) -> (r: &'static str)
    requires
        d < 10,
    ensures
        r@ == seq![digit_char(d as nat)],
{
    if d == 0 {
        proof {
            reveal_strlit("0");
            assert("0"@ =~= seq!['0']);
        }
        "0"
    } else if d == 1 {
        proof {
            reveal_strlit("1");
            assert("1"@ =~= seq!['1']);
        }
        "1"
    } else if d == 2 {
        proof {
            reveal_strlit("2");
            assert("2"@ =~= seq!['2']);
        }
        "2"
    } else if d == 3 {
        proof {
            reveal_strlit("3");
            assert("3"@ =~= seq!['3']);
        }
        "3"
    } else if d == 4 {
        proof {
            reveal_strlit("4");
            assert("4"@ =~= seq!['4']);
        }
        "4"
    } else if d == 5 {
        proof {
            reveal_strlit("5");
            assert("5"@ =~= seq!['5']);
        }
        "5"
    } else if d == 6 {
        proof {
            reveal_strlit("6");
            assert("6"@ =~= seq!['6']);
        }
        "6"
    } else if d == 7 {
        proof {
            reveal_strlit("7");
            assert("7"@ =~= seq!['7']);
        }
        "7"
    } else if d == 8 {
        proof {
            reveal_strlit("8");
            assert("8"@ =~= seq!['8']);
        }
        "8"
    } else {
        proof {
            reveal_strlit("9");
            assert("9"@ =~= seq!['9']);
        }
        "9"
    }
}

/// Renders a counter in decimal.
pub fn u64_to_string(n: u64) -> (r: String)
    ensures
        r@ == dec_of(n as nat),
    decreases n,
{
    if n < 10 {
        String::from_str(digit_str(n))
    } else {
        let mut r = u64_to_string(n / 10);
        r.append(digit_str(n % 10));
        proof {
            assert(r@ =~= dec_of(n as nat));
        }
        r
    }
}

/// A path under `dir`, written with the `/` separator.
pub open spec fn join_path_spec(dir: Seq<char>, file: Seq<char>) -> Seq<char> {
    dir + "/"@ + file
}

pub fn join_path(dir: &str, file: &str) -> (r: String)
    ensures
        r@ == join_path_spec(dir@, file@),
{
    let mut r = String::from_str(dir);
    r.append("/");
    r.append(file);
    proof {
        assert(r@ =~= join_path_spec(dir@, file@));
    }
    r
}

/// Spaces replaced by dashes.
pub open spec fn dashify(s: Seq<char>) -> Seq<char> {
    s.map_values(|c: char| if c == ' ' { '-' } else { c })
}

/// The directory-friendly slug of a family name: lowercased, with spaces
/// turned into dashes.
pub open spec fn slug_of(name: Seq<char>) -> Seq<char> {
    dashify(lower_of(name))
}

pub fn make_slug(name: &str) -> (r: String)
    ensures
        r@ == slug_of(name@),
{
    let lowered = to_lowercase(name);
    let n = lowered.as_str().unicode_len();
    let mut out = String::new();
    let mut i: usize = 0;
    while i < n
        invariant
            i <= n,
            n == lowered@.len(),
            out@ == dashify(lowered@.take(i as int)),
        decreases n - i,
    {
        let c = lowered.as_str().get_char(i);
        if c == ' ' {
            out.push('-');
        } else {
            out.push(c);
        }
        proof {
            assert(lowered@.take(i + 1 as int) =~= lowered@.take(i as int).push(
                lowered@[i as int],
            ));
            assert(dashify(lowered@.take(i + 1 as int)) =~= dashify(lowered@.take(i as int)).push(
                if lowered@[i as int] == ' ' {
                    '-'
                } else {
                    lowered@[i as int]
                },
            ));
        }
        i += 1;
    }
    proof {
        assert(lowered@.take(n as int) =~= lowered@);
    }
    out
}

/// The last `/`-separated component of a path (empty when the path ends
/// with a separator).
pub open spec fn leaf_of(s: Seq<char>) -> Seq<char>
    decreases s.len(),
{
    if s.len() == 0 {
        Seq::empty()
    } else if s[s.len() - 1] == '/' {
        Seq::empty()
    } else {
        leaf_of(s.drop_last()).push(s[s.len() - 1])
    }
}

/// Extracts the last component of a `/`-separated path, the way the
/// stylesheet derives the family's display name from its directory.
pub fn path_leaf(path: &str) -> (r: String)
    ensures
        r@ == leaf_of(path@),
{
    let n = path.unicode_len();
    let mut out = String::new();
    let mut i: usize = 0;
    proof {
        assert(path@.take(0) =~= Seq::<char>::empty());
    }
    while i < n
        invariant
            i <= n,
            n == path@.len(),
            out@ == leaf_of(path@.take(i as int)),
        decreases n - i,
    {
        let c = path.get_char(i);
        proof {
            assert(path@.take(i as int + 1).drop_last() =~= path@.take(i as int));
            assert(path@.take(i as int + 1).last() == path@[i as int]);
        }
        if c == '/' {
            out = String::new();
        } else {
            out.push(c);
        }
        i += 1;
    }
    proof {
        assert(path@.take(n as int) =~= path@);
    }
    out
}

/// One pass of title-casing: a `-` becomes a space, and a character that
/// begins a word (the first one, or one right after a `-`) is uppercased.
pub open spec fn title_from(s: Seq<char>, word_start: bool) -> Seq<char>
    decreases s.len(),
{
    if s.len() == 0 {
        Seq::empty()
    } else if s[0] == '-' {
        seq![' '] + title_from(s.skip(1), true)
    } else if word_start {
        upper_of(s[0]) + title_from(s.skip(1), false)
    } else {
        seq![s[0]] + title_from(s.skip(1), false)
    }
}

/// A dashed name rewritten for display: dashes become spaces and each word
/// starts with its uppercase mapping.
pub open spec fn title_case(s: Seq<char>) -> Seq<char> {
    title_from(s, true)
}

/// Turns a dashed (kebab-case) name into a display name, uppercasing the
/// first character of every dash-separated word and joining the words with
/// spaces.
pub fn format_font_string(input: &str) -> (r: String)
    ensures
        r@ == title_case(input@),
{
    let n = input.unicode_len();
    let mut out = String::new();
    let mut word_start: bool = true;
    let mut i: usize = 0;
    proof {
        assert(input@.skip(0) =~= input@);
        assert(Seq::<char>::empty() + title_from(input@, true) =~= title_from(input@, true));
    }
    while i < n
        invariant
            i <= n,
            n == input@.len(),
            title_case(input@) == out@ + title_from(input@.skip(i as int), word_start),
        decreases n - i,
    {
        let c = input.get_char(i);
        proof {
            assert(input@.skip(i as int)[0] == input@[i as int]);
            assert(input@.skip(i as int).skip(1) =~= input@.skip(i as int + 1));
        }
        let ghost prev_out = out@;
        let ghost rest = input@.skip(i as int);
        if c == '-' {
            out.push(' ');
            word_start = true;
            proof {
                assert(title_from(rest, true) == seq![' '] + title_from(rest.skip(1), true));
                assert(prev_out + title_from(rest, true) =~= out@ + title_from(
                    input@.skip(i as int + 1),
                    true,
                ));
            }
        } else {
            let ghost was_word_start = word_start;
            if word_start {
                let up = char_to_uppercase(c);
                out.append(up.as_str());
                word_start = false;
                proof {
                    assert(title_from(rest, true) == upper_of(rest[0]) + title_from(
                        rest.skip(1),
                        false,
                    ));
                    assert(prev_out + title_from(rest, true) =~= out@ + title_from(
                        input@.skip(i as int + 1),
                        false,
                    ));
                }
            } else {
                out.push(c);
                proof {
                    assert(title_from(rest, false) == seq![rest[0]] + title_from(
                        rest.skip(1),
                        false,
                    ));
                    assert(prev_out + title_from(rest, false) =~= out@ + title_from(
                        input@.skip(i as int + 1),
                        false,
                    ));
                }
            }
        }
        i += 1;
    }
    proof {
        assert(input@.skip(n as int) =~= Seq::<char>::empty());
        assert(out@ + Seq::<char>::empty() =~= out@);
    }
    out
}

} // verus!
