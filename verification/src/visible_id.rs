use vstd::prelude::*;
use crate::labels::{palette, palette_color, Color};
use crate::text::text_eq;

verus! {

/// A character that may stand in a visible id: an upper-case ASCII letter or a digit.
pub open spec fn is_visible_id_char(c: char) -> bool {
    ('A' <= c && c <= 'Z') || ('0' <= c && c <= '9')
}

/// The shape that a visible id read from a CSV file must have: four characters, each an
/// upper-case ASCII letter or a digit.
pub open spec fn is_visible_id_shape(s: Seq<char>) -> bool {
    &&& s.len() == 4
    &&& forall|i: int| 0 <= i < 4 ==> is_visible_id_char(#[trigger] s[i])
}

/// The regular expression that visible ids are checked against.
pub open spec fn visible_id_pattern() -> Seq<char> {
    "^[A-Z0-9]{4}$"@
}

/// Whether `regex` compiles `pattern` (`None` if not) and, if it does, whether the
/// expression matches `text`.
pub uninterp spec fn regex_match_outcome(pattern: Seq<char>, text: Seq<char>) -> Option<bool>;

/// Compiles `pattern` with `regex::Regex::new` and asks `Regex::is_match` about `text`.
/// For the visible id pattern the `regex` syntax documentation fixes the answer: `^` and `$`
/// anchor at the start and the end of the text, `[A-Z0-9]` is one character of the two
/// ranges and `{4}` repeats it exactly four times. For other patterns only the name says
/// what comes back.
#[verifier::external_body]
fn regex_is_match(pattern: &str, text: &str) -> (r: Option<bool>)
    ensures
        r == regex_match_outcome(pattern@, text@),
        pattern@ == visible_id_pattern() ==> r == Some(is_visible_id_shape(text@)),
{
    match regex::Regex::new(pattern) {
        Ok(expression) => Some(expression.is_match(text)),
        Err(_) => None,
    }
}

/// Whether `s` is a well-formed visible id: it has four bytes and matches `^[A-Z0-9]{4}$`.
pub fn is_valid_visible_id(s: &str) -> (r: bool)
    ensures
        r == is_visible_id_shape(s@),
{
    proof {
        if is_visible_id_shape(s@) {
            assert(vstd::utf8::is_ascii_chars(s@));
            vstd::utf8::is_ascii_chars_encode_utf8(s@);
        }
    }
    if s.len() != 4 {
        return false;
    }
    match regex_is_match("^[A-Z0-9]{4}$", s) {
        Some(matched) => matched,
        None => false,
    }
}

/// An ASCII letter or digit, as a byte.
pub open spec fn is_alphanumeric_byte(b: u8) -> bool {
    (65 <= b && b <= 90) || (97 <= b && b <= 122) || (48 <= b && b <= 57)
}

/// Draws one byte with `rand::thread_rng().sample(rand::distributions::Alphanumeric)`, which
/// the `rand` documentation says is one of the ASCII letters `a-z`, `A-Z` or digits `0-9`.
#[verifier::external_body]
fn random_alphanumeric() -> (b: u8)
    ensures
        is_alphanumeric_byte(b),
{
    rand::Rng::sample(&mut rand::thread_rng(), rand::distributions::Alphanumeric)
}

/// Draws a number with `rand::random::<usize>()`; any value may come back.
#[verifier::external_body]
fn random_usize() -> usize {
    rand::random::<usize>()
}

/// The upper-case form of an ASCII byte; other bytes are left as they are.
pub open spec fn upper_byte(b: u8) -> u8 {
    if 97 <= b && b <= 122 {
        (b - 32) as u8
    } else {
        b
    }
}

pub fn to_upper_byte(b: u8) -> (r: u8)
    ensures
        r == upper_byte(b),
{
    if 97 <= b && b <= 122 {
        b - 32
    } else {
        b
    }
}

/// The one-character text of an upper-case letter or digit byte.
fn visible_id_char_text(b: u8) -> (r: &'static str)
    requires
        (65 <= b && b <= 90) || (48 <= b && b <= 57),
    ensures
        r@ == seq![b as char],
        is_visible_id_char(b as char),
{
    let table = "ABCDEFGHIJKLMNOPQRSTUVWXYZ0123456789";
    proof {
        reveal_strlit("ABCDEFGHIJKLMNOPQRSTUVWXYZ0123456789");
    }
    assert(table.is_ascii());
    let index: usize = if b >= 65 {
        (b - 65) as usize
    } else {
        (b - 48 + 26) as usize
    };
    table.substring_ascii(index, index + 1)
}

/// The text of a candidate visible id built from drawn bytes: each byte in upper case.
pub open spec fn candidate_text(draws: Seq<u8>) -> Seq<char> {
    draws.map_values(|b: u8| upper_byte(b) as char)
}

/// Builds a candidate visible id from five drawn letters or digits, in upper case.
pub fn candidate_from_draws(draws: &Vec<u8>) -> (r: String)
    requires
        draws.len() == 5,
        forall|i: int| 0 <= i < 5 ==> is_alphanumeric_byte(#[trigger] draws[i]),
    ensures
        r@ == candidate_text(draws@),
        r@.len() == 5,
        forall|i: int| 0 <= i < 5 ==> is_visible_id_char(#[trigger] r@[i]),
{
    let mut text = String::new();
    let mut k: usize = 0;
    while k < 5
        invariant
            k <= 5,
            draws.len() == 5,
            forall|i: int| 0 <= i < 5 ==> is_alphanumeric_byte(#[trigger] draws[i]),
            text@ == candidate_text(draws@.take(k as int)),
            forall|i: int| 0 <= i < k ==> is_visible_id_char(#[trigger] text@[i]),
        decreases 5 - k,
    {
        let upper = to_upper_byte(draws[k]);
        let piece = visible_id_char_text(upper);
        text.append(piece);
        assert(draws@.take(k + 1) == draws@.take(k as int).push(draws@[k as int]));
        k = k + 1;
    }
    assert(draws@.take(5) == draws@);
    text
}

/// Draws a candidate visible id: five random letters or digits, in upper case.
pub fn draw_visible_id_candidate() -> (r: String)
    ensures
        r@.len() == 5,
        forall|i: int| 0 <= i < 5 ==> is_visible_id_char(#[trigger] r@[i]),
{
    let mut draws: Vec<u8> = Vec::new();
    let mut k: usize = 0;
    while k < 5
        invariant
            k <= 5,
            draws.len() == k,
            forall|i: int| 0 <= i < k ==> is_alphanumeric_byte(#[trigger] draws[i]),
        decreases 5 - k,
    {
        draws.push(random_alphanumeric());
        k = k + 1;
    }
    candidate_from_draws(&draws)
}

/// Whether `candidate` is not yet one of the `existing` visible ids.
pub open spec fn is_fresh(candidate: Seq<char>, existing: Seq<String>) -> bool {
    forall|i: int| 0 <= i < existing.len() ==> (#[trigger] existing[i])@ != candidate
}

/// Keeps a candidate visible id if no existing label already uses it.
pub fn accept_if_fresh(candidate: String, existing: &Vec<String>) -> (r: Option<String>)
    ensures
        is_fresh(candidate@, existing@) ==> r == Some(candidate),
        !is_fresh(candidate@, existing@) ==> r is None,
{
    let mut k: usize = 0;
    while k < existing.len()
        invariant
            k <= existing.len(),
            forall|i: int| 0 <= i < k ==> (#[trigger] existing@[i])@ != candidate@,
        decreases existing.len() - k,
    {
        if text_eq(existing[k].as_str(), candidate.as_str()) {
            return None;
        }
        k = k + 1;
    }
    Some(candidate)
}

/// Whether `s` could be a drawn candidate: five upper-case ASCII letters or digits.
pub open spec fn is_candidate_shape(s: Seq<char>) -> bool {
    &&& s.len() == 5
    &&& forall|i: int| 0 <= i < 5 ==> is_visible_id_char(#[trigger] s[i])
}

/// Whether some existing visible id could be drawn as a candidate, so that a draw may
/// be refused.
pub open spec fn may_collide(existing: Seq<String>) -> bool {
    exists|i: int| 0 <= i < existing.len() && is_candidate_shape((#[trigger] existing[i])@)
}

/// One draw of a new visible id: five random upper-case letters or digits, kept only if
/// no existing label uses them yet. Generation repeats the draw until it is kept. A draw
/// is refused only when it hit an existing id, so it is always kept when no existing id
/// has the shape of a candidate.
pub fn draw_fresh_visible_id(existing: &Vec<String>) -> (r: Option<String>)
    ensures
        r matches Some(id) ==> {
            &&& is_candidate_shape(id@)
            &&& is_fresh(id@, existing@)
        },
        r is None ==> may_collide(existing@),
        !may_collide(existing@) ==> r is Some,
{
    let candidate = draw_visible_id_candidate();
    let ghost drawn = candidate@;
    let r = accept_if_fresh(candidate, existing);
    proof {
        if r is None {
            let i = choose|i: int| 0 <= i < existing@.len() && (#[trigger] existing@[i])@ == drawn;
            assert(is_candidate_shape(existing@[i]@));
        }
    }
    r
}

/// Draws the colour of a new label from the palette.
pub fn draw_label_color() -> (r: Color)
    ensures
        palette().contains(r),
{
    let draw = random_usize();
    let c = palette_color(draw);
    assert(palette()[(draw % 9) as int] == c);
    c
}

} // verus!
