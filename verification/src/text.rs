//! Text helpers: case folding, the order of strings, file extensions.

use vstd::prelude::*;
use vstd::string::*;

verus! {

/// The lower-case form of a text, as `str::to_lowercase` computes it from the
/// Unicode tables.
pub uninterp spec fn lowercased(s: Seq<char>) -> Seq<char>;

/// Calls `str::to_lowercase`. Trusted: the result is named `lowercased` of the
/// argument; nothing more is claimed of it.
#[verifier::external_body]
pub(crate) fn lowercase(s: &str) -> (r: String)
    ensures
        r@ == lowercased(s@),
{
    s.to_lowercase()
}

/// Lexicographic order of two texts by code point: a proper prefix comes
/// first, otherwise the first differing position decides.
pub open spec fn lex_le(a: Seq<char>, b: Seq<char>) -> bool
    decreases a.len(),
{
    if a.len() == 0 {
        true
    } else if b.len() == 0 {
        false
    } else if a[0] != b[0] {
        a[0] < b[0]
    } else {
        lex_le(a.drop_first(), b.drop_first())
    }
}

/// Calls `<=` of `str`. Trusted: std documents that strings are ordered
/// lexicographically by their bytes, which for UTF-8 is the order of their
/// code points.
#[verifier::external_body]
pub(crate) fn text_le(a: &str, b: &str) -> (r: bool)
    ensures
        r == lex_le(a@, b@),
{
    a <= b
}

/// Any two texts are ordered one way or the other.
pub proof fn lemma_lex_le_total(a: Seq<char>, b: Seq<char>)
    ensures
        lex_le(a, b) || lex_le(b, a),
    decreases a.len(),
{
    if a.len() > 0 && b.len() > 0 {
        if a[0] == b[0] {
            lemma_lex_le_total(a.drop_first(), b.drop_first());
        }
    }
}

/// Every text is ordered before itself.
pub proof fn lemma_lex_le_reflexive(a: Seq<char>)
    ensures
        lex_le(a, a),
    decreases a.len(),
{
    if a.len() > 0 {
        lemma_lex_le_reflexive(a.drop_first());
    }
}

/// The order of texts is transitive.
pub proof fn lemma_lex_le_transitive(a: Seq<char>, b: Seq<char>, c: Seq<char>)
    requires
        lex_le(a, b),
        lex_le(b, c),
    ensures
        lex_le(a, c),
    decreases a.len(),
{
    if a.len() > 0 && b.len() > 0 && c.len() > 0 && a[0] == b[0] && b[0] == c[0] {
        lemma_lex_le_transitive(a.drop_first(), b.drop_first(), c.drop_first());
    }
}

/// Position of the last `.` among the first `n` characters of `name`, or -1
/// where there is none.
pub open spec fn last_dot(name: Seq<char>, n: int) -> int
    decreases n,
{
    if n <= 0 {
        -1
    } else if name[n - 1] == '.' {
        n - 1
    } else {
        last_dot(name, n - 1)
    }
}

/// The extension of a file name: what follows its last `.`; empty where the
/// name has no `.` or only a leading one.
pub open spec fn extension_of(name: Seq<char>) -> Seq<char> {
    let d = last_dot(name, name.len() as int);
    if d <= 0 {
        Seq::empty()
    } else {
        name.subrange(d + 1, name.len() as int)
    }
}

/// Whether two texts hold the same characters.
pub fn same_text(a: &String, b: &str) -> (r: bool)
    ensures
        r == (a@ == b@),
{
    let other = String::from_str(b);
    *a == other
}

/// The extension of a file name, in the name's own letter case.
pub fn extension(name: &str) -> (r: String)
    ensures
        r@ == extension_of(name@),
{
    let n: usize = name.unicode_len();
    let mut i: usize = n;
    while i > 0 && name.get_char(i - 1) != '.'
        invariant
            i <= n,
            n == name@.len(),
            last_dot(name@, n as int) == last_dot(name@, i as int),
        decreases i,
    {
        i = i - 1;
    }
    if i <= 1 {
        proof {
            reveal_strlit("");
            assert(""@ =~= Seq::<char>::empty());
        }
        String::from_str("")
    } else {
        String::from_str(name.substring_char(i, n))
    }
}

} // verus!
