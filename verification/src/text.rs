//! Text rules of the store: blank titles, one-line summaries, substring
//! search and the accent derived from a note's tags.

use vstd::prelude::*;
use vstd::std_specs::iter::IteratorSpec;
use vstd::string::StrSliceExecFns;

verus! {

broadcast use vstd::string::group_string_axioms;

/// The longest summary, in characters.
pub const SUMMARY_LIMIT: usize = 120;

/// What `str::trim` leaves of a text: the text without its leading and
/// trailing Unicode white space.
pub uninterp spec fn trimmed(text: Seq<char>) -> Seq<char>;

/// What `str::to_lowercase` makes of a text: its lowercase form under the
/// Unicode case mappings.
pub uninterp spec fn lowercased(text: Seq<char>) -> Seq<char>;

/// `needle` stands in `hay` at position `at`.
pub open spec fn occurs_at(needle: Seq<char>, hay: Seq<char>, at: int) -> bool {
    &&& 0 <= at
    &&& at + needle.len() <= hay.len()
    &&& hay.subrange(at, at + needle.len()) == needle
}

/// `needle` is a contiguous part of `hay`.
pub open spec fn is_substring(needle: Seq<char>, hay: Seq<char>) -> bool {
    exists|at: int| occurs_at(needle, hay, at)
}

/// Some text of `items` has `needle` as a contiguous part.
pub open spec fn any_has_substring(items: Seq<Seq<char>>, needle: Seq<char>) -> bool {
    exists|i: int| 0 <= i < items.len() && is_substring(needle, #[trigger] items[i])
}

/// A text is blank when it is empty, or nothing but white space stands in
/// it.
pub open spec fn is_blank_text(text: Seq<char>) -> bool {
    text.len() == 0 || trimmed(text).len() == 0
}

/// `k` is where the first line of `text` ends: at its first line feed, or at
/// the end of the text when it holds none.
pub open spec fn is_first_break(text: Seq<char>, k: int) -> bool {
    &&& 0 <= k <= text.len()
    &&& forall|i: int| 0 <= i < k ==> text[i] != '\n'
    &&& k < text.len() ==> text[k] == '\n'
}

/// The position at which the first line of `text` ends.
pub open spec fn first_break(text: Seq<char>) -> int {
    choose|k: int| is_first_break(text, k)
}

/// The first line of `text` without its terminator, which is a line feed or
/// a carriage return directly followed by a line feed.
pub open spec fn first_line(text: Seq<char>) -> Seq<char> {
    let k = first_break(text);
    if 0 < k < text.len() && text[k - 1] == '\r' {
        text.subrange(0, k - 1)
    } else {
        text.subrange(0, k)
    }
}

/// The first `limit` characters of `text`, or all of it where it is shorter.
pub open spec fn truncated(text: Seq<char>, limit: int) -> Seq<char> {
    if text.len() <= limit {
        text
    } else {
        text.subrange(0, limit)
    }
}

/// The one-line summary of a text that has no white space at its ends: a
/// fixed placeholder for the empty text, else the first line, cut to the
/// summary limit.
pub open spec fn summary_of_trimmed(text: Seq<char>) -> Seq<char> {
    if text.len() == 0 {
        "No description yet."@
    } else {
        truncated(first_line(text), SUMMARY_LIMIT as int)
    }
}

/// The one-line summary of a text: a fixed placeholder for a blank text,
/// else the first line of the text without the white space at its ends, cut
/// to the summary limit.
pub open spec fn summary_of(text: Seq<char>) -> Seq<char> {
    if is_blank_text(text) {
        "No description yet."@
    } else {
        truncated(first_line(trimmed(text)), SUMMARY_LIMIT as int)
    }
}

/// The accent colour that a note's tags stand for.
pub open spec fn accent_for(tags: Seq<Seq<char>>) -> Seq<char> {
    if any_has_substring(tags, "Focus"@) {
        "#c7d2fe"@
    } else if any_has_substring(tags, "Sprint"@) {
        "#fee2e2"@
    } else {
        "#e0f2fe"@
    }
}

/// Calls `str::trim`: the result is `text` without leading and trailing white
/// space, which the contract names `trimmed`. As it is a part of `text`, it
/// is no longer than `text`.
#[verifier::external_body]
fn trim<'a>(text: &'a str) -> (rest: &'a str)
    ensures
        rest@ == trimmed(text@),
        rest@.len() <= text@.len(),
{
    text.trim()
}

/// Calls `str::to_lowercase`: the result is the lowercase form of `text`,
/// which the contract names `lowercased`.
#[verifier::external_body]
pub(crate) fn to_lowercase(text: &str) -> (lower: String)
    ensures
        lower@ == lowercased(text@),
{
    text.to_lowercase()
}

/// Calls `str::contains` with a string pattern: true exactly when `needle`
/// is a contiguous part of `hay`.
#[verifier::external_body]
pub(crate) fn contains_text(hay: &str, needle: &str) -> (found: bool)
    ensures
        found == is_substring(needle@, hay@),
{
    hay.contains(needle)
}

/// The first line of a text ends in one place only.
pub proof fn lemma_first_break_unique(text: Seq<char>, k: int)
    requires
        is_first_break(text, k),
    ensures
        first_break(text) == k,
{
}

/// Whether nothing but white space stands in `text`.
pub fn is_blank(text: &str) -> (blank: bool)
    ensures
        blank == is_blank_text(text@),
{
    trim(text).is_empty()
}

/// Whether `text` is the one-character wildcard `*`.
pub fn is_wildcard(text: &str) -> (wild: bool)
    ensures
        wild == (text@ == seq!['*']),
{
    if text.unicode_len() == 1 {
        let c = text.get_char(0);
        assert(c == '*' ==> text@ =~= seq!['*']);
        c == '*'
    } else {
        false
    }
}

/// The number of characters of the first line of `text`.
fn first_line_len(text: &str) -> (len: usize)
    ensures
        len <= text@.len(),
        first_line(text@) == text@.subrange(0, len as int),
{
    let total = text.unicode_len();
    let mut chars = text.chars();
    let mut k: usize = 0;
    let mut after_cr = false;
    loop
        invariant
            0 <= k <= total,
            total == text@.len(),
            chars.remaining() == text@.skip(k as int),
            chars.obeys_prophetic_iter_laws(),
            forall|i: int| 0 <= i < k ==> text@[i] != '\n',
            after_cr == (k > 0 && text@[k - 1] == '\r'),
        decreases total - k,
    {
        match chars.next() {
            None => {
                proof {
                    lemma_first_break_unique(text@, k as int);
                }
                return k;
            },
            Some(c) => {
                if c == '\n' {
                    proof {
                        lemma_first_break_unique(text@, k as int);
                    }
                    return if after_cr {
                        k - 1
                    } else {
                        k
                    };
                }
                after_cr = c == '\r';
                k = k + 1;
            },
        }
    }
}

/// A one-line summary of a text that was trimmed: a placeholder when the
/// text is empty, else its first line, cut to 120 characters.
pub fn summarize_trimmed(text: &str) -> (summary: String)
    ensures
        summary@ == summary_of_trimmed(text@),
{
    if text.is_empty() {
        return "No description yet.".to_owned();
    }
    let line = first_line_len(text);
    let cut = if line <= SUMMARY_LIMIT {
        line
    } else {
        SUMMARY_LIMIT
    };
    let snippet = text.substring_char(0, cut);
    snippet.to_owned()
}

/// A one-line summary of `text`: a placeholder when the text is blank, else
/// the first line of the trimmed text, cut to 120 characters.
pub fn summarize_text(text: &str) -> (summary: String)
    ensures
        summary@ == summary_of(text@),
{
    summarize_trimmed(trim(text))
}

/// Whether some text of `items` has `needle` as a contiguous part.
pub fn any_contains(items: &[String], needle: &str) -> (found: bool)
    ensures
        found == any_has_substring(items.deep_view(), needle@),
{
    let mut i: usize = 0;
    while i < items.len()
        invariant
            0 <= i <= items.len(),
            forall|j: int| 0 <= j < i ==> !is_substring(needle@, #[trigger] items.deep_view()[j]),
        decreases items.len() - i,
    {
        if contains_text(items[i].as_str(), needle) {
            assert(is_substring(needle@, items.deep_view()[i as int]));
            return true;
        }
        i = i + 1;
    }
    false
}

/// The accent of a note that names none: one fixed colour for a tag that
/// holds "Focus", another for one that holds "Sprint", else the default.
pub fn random_accent_for(tags: &[String]) -> (accent: String)
    ensures
        accent@ == accent_for(tags.deep_view()),
{
    if any_contains(tags, "Focus") {
        return "#c7d2fe".to_owned();
    }
    if any_contains(tags, "Sprint") {
        return "#fee2e2".to_owned();
    }
    "#e0f2fe".to_owned()
}

} // verus!
