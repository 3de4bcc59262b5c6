//! Which colours the browser gives to a platform and to a row. The colours
//! are named here; painting with them is the caller's part.

use vstd::prelude::*;

verus! {

/// The colour of the text of a platform.
#[derive(Clone, Copy, Debug, PartialEq, Eq, Structural)]
pub enum Tint {
    Green,
    Blue,
    Red,
    /// The colour of ordinary text.
    Plain,
}

/// The background of a row of a list.
#[derive(Clone, Copy, Debug, PartialEq, Eq, Structural)]
pub enum RowShade {
    Normal,
    Alternate,
}

/// What `str::to_lowercase` returns for `text`: its lowercase equivalent by
/// the rules of Unicode.
pub uninterp spec fn lowercase(text: Seq<char>) -> Seq<char>;

/// Whether `needle` stands somewhere in `haystack`, character for character
/// and without a gap.
pub open spec fn occurs_in(needle: Seq<char>, haystack: Seq<char>) -> bool {
    exists|at: int|
        0 <= at && at + needle.len() <= haystack.len() && #[trigger] haystack.subrange(
            at,
            at + needle.len(),
        ) == needle
}

/// The tint of a platform whose name in lowercase is `lower`: green where it
/// names nvidia, else blue where it names intel, else red where it names
/// amd, else plain.
pub open spec fn tint_of(lower: Seq<char>) -> Tint {
    if occurs_in("nvidia"@, lower) {
        Tint::Green
    } else if occurs_in("intel"@, lower) {
        Tint::Blue
    } else if occurs_in("amd"@, lower) {
        Tint::Red
    } else {
        Tint::Plain
    }
}

/// The shade of the row at position `index`: rows at even positions are
/// normal, the others alternate.
pub open spec fn shade_of(index: usize) -> RowShade {
    if index % 2 == 0 {
        RowShade::Normal
    } else {
        RowShade::Alternate
    }
}

/// Calls `str::to_lowercase`. Trusted: the result is a function of the text
/// alone, named [`lowercase`]; nothing more is claimed of it.
#[verifier::external_body]
fn to_lowercase(text: &str) -> (lower: String)
    ensures
        lower@ == lowercase(text@),
{
    text.to_lowercase()
}

/// Calls `str::contains` with a text as the pattern. Trusted: it tells
/// whether the pattern matches a part of the text, which for a text as
/// pattern is [`occurs_in`].
#[verifier::external_body]
fn contains(haystack: &str, needle: &str) -> (found: bool)
    ensures
        found == occurs_in(needle@, haystack@),
{
    haystack.contains(needle)
}

/// The tint of a platform whose name in lowercase is `lower`.
pub fn tint_of_lowercase(lower: &str) -> (tint: Tint)
    ensures
        tint == tint_of(lower@),
{
    if contains(lower, "nvidia") {
        Tint::Green
    } else if contains(lower, "intel") {
        Tint::Blue
    } else if contains(lower, "amd") {
        Tint::Red
    } else {
        Tint::Plain
    }
}

/// The tint in which the browser writes about the platform called `name`,
/// whatever the case of its letters.
pub fn style_platform_name(name: &str) -> (tint: Tint)
    ensures
        tint == tint_of(lowercase(name@)),
{
    let lower = to_lowercase(name);
    tint_of_lowercase(lower.as_str())
}

/// The shade of the row at position `index` of a list.
pub fn row_shade(index: usize) -> (shade: RowShade)
    ensures
        shade == shade_of(index),
{
    if index % 2 == 0 {
        RowShade::Normal
    } else {
        RowShade::Alternate
    }
}

} // verus!
