//! Text operations on the view of a string as a sequence of characters.
use vstd::prelude::*;

verus! {

/// Whether `p` occurs in `s` as a contiguous run of characters.
pub open spec fn has_infix(s: Seq<char>, p: Seq<char>) -> bool {
    exists|k: int| 0 <= k <= s.len() - p.len() && #[trigger] s.subrange(k, k + p.len()) == p
}

/// What `str::trim` returns: the text without leading and trailing white space.
pub uninterp spec fn trimmed(s: Seq<char>) -> Seq<char>;

/// What `str::replace` returns: `s` with each match of `from` replaced by `to`.
pub uninterp spec fn replaced(s: Seq<char>, from: Seq<char>, to: Seq<char>) -> Seq<char>;

/// Relies on `str::contains` with a `&str` pattern: true exactly when the
/// pattern matches a sub-slice of the text.
#[verifier::external_body]
pub(crate) fn contains_text(s: &str, p: &str) -> (r: bool)
    ensures
        r == has_infix(s@, p@),
{
    s.contains(p)
}

/// Relies on `str::trim`, whose result depends on the text alone.
#[verifier::external_body]
pub(crate) fn trim_text(s: &str) -> (r: String)
    ensures
        r@ == trimmed(s@),
{
    s.trim().to_string()
}

/// Relies on `str::replace` with `&str` patterns, whose result depends on its
/// three arguments alone.
#[verifier::external_body]
pub(crate) fn replace_text(s: &str, from: &str, to: &str) -> (r: String)
    ensures
        r@ == replaced(s@, from@, to@),
{
    s.replace(from, to)
}

/// The text without one leading version marker `v`, if it has one.
pub open spec fn without_marker(s: Seq<char>) -> Seq<char> {
    if s.len() > 0 && s[0] == 'v' {
        s.drop_first()
    } else {
        s
    }
}

/// Drops one leading `v` marker (`v18.2.0` becomes `18.2.0`).
pub fn strip_marker(s: &str) -> (r: String)
    ensures
        r@ == without_marker(s@),
{
    let n = s.unicode_len();
    if n > 0 && s.get_char(0) == 'v' {
        let rest = s.substring_char(1, n);
        assert(rest@ =~= s@.drop_first());
        String::from_str(rest)
    } else {
        String::from_str(s)
    }
}

} // verus!
