//! Removal of the double quotes that surround a response body.
//!
//! The store answers sometimes with plain text and sometimes with a JSON
//! string. The client takes at most one quote from each end of the body and
//! reads nothing else of it: an escape inside the text stays as it came.

use vstd::prelude::*;

verus! {

/// The double-quote character.
pub open spec fn quote() -> char {
    '"'
}

/// `s` without one leading quote, where it has one.
pub open spec fn without_leading_quote(s: Seq<char>) -> Seq<char> {
    if s.len() > 0 && s.first() == quote() {
        s.drop_first()
    } else {
        s
    }
}

/// `s` without one trailing quote, where it has one.
pub open spec fn without_trailing_quote(s: Seq<char>) -> Seq<char> {
    if s.len() > 0 && s.last() == quote() {
        s.drop_last()
    } else {
        s
    }
}

/// The normal form of a response body: at most one quote is taken from the
/// front, then at most one from the back of what is left.
pub open spec fn strip_quotes(s: Seq<char>) -> Seq<char> {
    without_trailing_quote(without_leading_quote(s))
}

/// `s` between two quotes, as a JSON string without escapes is written.
pub open spec fn quoted(s: Seq<char>) -> Seq<char> {
    seq![quote()] + s + seq![quote()]
}

/// Whether `s` begins or ends with a quote.
pub open spec fn has_outer_quote(s: Seq<char>) -> bool {
    s.len() > 0 && (s.first() == quote() || s.last() == quote())
}

/// Returns `text` without one leading and one trailing double quote, each
/// taken only where it is present.
pub fn strip_json_quotes(text: &str) -> (stripped: String)
    ensures
        stripped@ == strip_quotes(text@),
{
    let len = text.unicode_len();
    let start: usize = if len > 0 && text.get_char(0) == '"' {
        1
    } else {
        0
    };
    let end: usize = if len > start && text.get_char(len - 1) == '"' {
        len - 1
    } else {
        len
    };
    let ghost rest = without_leading_quote(text@);
    assert(rest =~= text@.subrange(start as int, len as int));
    assert(strip_quotes(text@) =~= text@.subrange(start as int, end as int));
    text.substring_char(start, end).to_owned()
}

/// Stripping undoes quoting: whatever `s` holds, the quoted form of `s`
/// strips back to `s`.
pub proof fn lemma_strip_quotes_of_quoted(s: Seq<char>)
    ensures
        strip_quotes(quoted(s)) == s,
{
    let q = quoted(s);
    assert(without_leading_quote(q) =~= s + seq![quote()]);
    assert((s + seq![quote()]).drop_last() =~= s);
}

/// A body without a quote at either end is left as it is.
pub proof fn lemma_strip_quotes_of_plain(s: Seq<char>)
    requires
        !has_outer_quote(s),
    ensures
        strip_quotes(s) == s,
{
}

/// Both ends are treated alike: stripping the mirror image of `s` gives the
/// mirror image of stripping `s`.
pub proof fn lemma_strip_quotes_symmetric(s: Seq<char>)
    ensures
        strip_quotes(s.reverse()) == strip_quotes(s).reverse(),
{
    assert(strip_quotes(s.reverse()) =~= strip_quotes(s).reverse());
}

/// Stripping a second time changes nothing, provided the first pass left no
/// quote at either end. (A body with two quotes at one end loses one in each
/// pass.)
pub proof fn lemma_strip_quotes_idempotent(s: Seq<char>)
    requires
        !has_outer_quote(strip_quotes(s)),
    ensures
        strip_quotes(strip_quotes(s)) == strip_quotes(s),
{
}

/// A second pass changes the text exactly when the first pass left a quote
/// at one of the ends.
pub proof fn lemma_strip_quotes_fixed_point(s: Seq<char>)
    ensures
        strip_quotes(s) == s <==> !has_outer_quote(s),
{
    if has_outer_quote(s) {
        assert(strip_quotes(s).len() < s.len());
    }
}

} // verus!
