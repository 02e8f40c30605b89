//! The fixed script: the built-in idea prompts, the breakdown aspects, the
//! scoring criteria, and the exact shape of every line the session appends
//! to the artifact.

use vstd::prelude::*;

verus! {

/// How many scoring criteria the script has.
pub const CRITERIA_COUNT: u64 = 4;

/// The highest score a single criterion can be given.
pub const SCORE_MAX: u64 = 10;

/// The denominator of the total line, derived from the criteria list rather
/// than written out, so it cannot drift if the list changes.
pub const TOTAL_MAX: u64 = CRITERIA_COUNT * SCORE_MAX;

/// The built-in idea prompt at index `i` of the fixed list of five.
pub open spec fn prompt_at(i: int) -> Seq<char> {
    if i == 0 {
        "What problem frustrated me or someone today?"@
    } else if i == 1 {
        "What can be done 10x faster or easier?"@
    } else if i == 2 {
        "What happens if I combine ___ and ___?"@
    } else if i == 3 {
        "What would this look like if it was automated?"@
    } else {
        "How could I do this without money or code?"@
    }
}

/// The built-in idea prompt at index `i`.
pub fn prompt_text(i: usize) -> (r: &'static str)
    requires
        i < 5,
    ensures
        r@ == prompt_at(i as int),
{
    match i {
        0 => "What problem frustrated me or someone today?",
        1 => "What can be done 10x faster or easier?",
        2 => "What happens if I combine ___ and ___?",
        3 => "What would this look like if it was automated?",
        _ => "How could I do this without money or code?",
    }
}

/// The breakdown aspect label at index `i` of the fixed list of four.
pub open spec fn aspect_at(i: int) -> Seq<char> {
    if i == 0 {
        "Problem it solves"@
    } else if i == 1 {
        "Core concept / solution"@
    } else if i == 2 {
        "Who benefits"@
    } else {
        "How it works (roughly)"@
    }
}

/// The breakdown aspect label at index `i`.
pub fn aspect_text(i: usize) -> (r: &'static str)
    requires
        i < 4,
    ensures
        r@ == aspect_at(i as int),
{
    match i {
        0 => "Problem it solves",
        1 => "Core concept / solution",
        2 => "Who benefits",
        _ => "How it works (roughly)",
    }
}

/// The scoring criterion label at index `i` of the fixed list of four.
pub open spec fn criterion_at(i: int) -> Seq<char> {
    if i == 0 {
        "Innovation (uniqueness)"@
    } else if i == 1 {
        "Feasibility (can it be done?)"@
    } else if i == 2 {
        "Impact (value or reach)"@
    } else {
        "Personal doability (can *I* pursue it?)"@
    }
}

/// The scoring criterion label at index `i`.
pub fn criterion_text(i: usize) -> (r: &'static str)
    requires
        i < 4,
    ensures
        r@ == criterion_at(i as int),
{
    match i {
        0 => "Innovation (uniqueness)",
        1 => "Feasibility (can it be done?)",
        2 => "Impact (value or reach)",
        _ => "Personal doability (can *I* pursue it?)",
    }
}

/// A section header as the artifact carries it: a blank line, the `##`
/// heading, and a blank line after it.
pub open spec fn section_text(title: Seq<char>) -> Seq<char> {
    "\n## "@ + title + "\n\n"@
}

/// One two-column table row: the key in bold, then the value.
pub open spec fn row_text(key: Seq<char>, value: Seq<char>) -> Seq<char> {
    "| **"@ + key + "** | "@ + value + " |\n"@
}

/// The header rows of the breakdown table.
pub open spec fn aspect_header_text() -> Seq<char> {
    "| Aspect | Description |\n|---------|-------------|\n"@
}

/// The header rows of the scoring table.
pub open spec fn score_header_text() -> Seq<char> {
    "| Criteria | Score |\n|-----------|--------|\n"@
}

/// Builds a section header.
pub fn section_line(title: &str) -> (r: String)
    ensures
        r@ == section_text(title@),
{
    let mut out = String::new();
    out.append("\n## ");
    out.append(title);
    out.append("\n\n");
    proof {
        assert(out@ =~= section_text(title@));
    }
    out
}

/// Appends one table row pairing `key` with `value`.
pub fn push_row(out: &mut String, key: &str, value: &str)
    ensures
        final(out)@ == old(out)@ + row_text(key@, value@),
{
    out.append("| **");
    out.append(key);
    out.append("** | ");
    out.append(value);
    out.append(" |\n");
    proof {
        assert(final(out)@ =~= old(out)@ + row_text(key@, value@));
    }
}

} // verus!
