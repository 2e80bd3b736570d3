//! Text marshaling across the native boundary.
//!
//! A native call takes null-terminated strings, so text holding an embedded
//! null character can never be handed over; every operation that accepts
//! text rejects such input up front with [`CvError::InvalidString`] and
//! issues no native call. [`CText`] is the witness that a piece of text has
//! passed that check.

use vstd::prelude::*;

use crate::CvError;

verus! {

/// True when the text holds the null character, which a null-terminated
/// native string cannot carry.
pub open spec fn has_interior_nul(s: Seq<char>) -> bool {
    exists|i: int| 0 <= i < s.len() && s[i] == '\0'
}

/// Text that has been checked for crossing the native boundary: it holds no
/// embedded null character, so appending one terminator yields a valid
/// native string.
#[derive(Debug, Clone)]
pub struct CText {
    text: String,
}

impl View for CText {
    type V = Seq<char>;

    closed spec fn view(&self) -> Seq<char> {
        self.text@
    }
}

impl DeepView for CText {
    type V = Seq<char>;

    open spec fn deep_view(&self) -> Seq<char> {
        self.view()
    }
}

impl CText {
    /// The invariant every value of this type satisfies.
    pub open spec fn wf(&self) -> bool {
        !has_interior_nul(self@)
    }

    /// Checks the text and wraps it; text with an embedded null character
    /// is rejected with the invalid-string error carrying that text.
    pub fn new(s: &str) -> (r: Result<CText, CvError>)
        ensures
            !has_interior_nul(s@) ==> (r matches Ok(t) && t@ == s@ && t.wf()),
            has_interior_nul(s@) ==> (r matches Err(e) && e matches CvError::InvalidString(orig)
                && orig@ == s@),
    {
        if contains_nul(s) {
            Err(CvError::InvalidString(s.to_owned()))
        } else {
            Ok(CText { text: s.to_owned() })
        }
    }

    /// The checked text, unchanged.
    pub fn as_str(&self) -> (r: &str)
        ensures
            r@ == self@,
    {
        self.text.as_str()
    }
}

/// Whether the text holds the null character anywhere.
pub fn contains_nul(s: &str) -> (b: bool)
    ensures
        b == has_interior_nul(s@),
{
    let n = s.unicode_len();
    let mut i: usize = 0;
    while i < n
        invariant
            n == s@.len(),
            i <= n,
            forall|j: int| 0 <= j < i ==> s@[j] != '\0',
        decreases n - i,
    {
        if s.get_char(i) == '\0' {
            return true;
        }
        i = i + 1;
    }
    false
}

/// Character-for-character equality of two pieces of text.
pub fn str_eq(a: &str, b: &str) -> (r: bool)
    ensures
        r == (a@ == b@),
{
    let na = a.unicode_len();
    let nb = b.unicode_len();
    if na != nb {
        return false;
    }
    let mut i: usize = 0;
    while i < na
        invariant
            na == a@.len(),
            nb == b@.len(),
            na == nb,
            i <= na,
            forall|j: int| 0 <= j < i ==> a@[j] == b@[j],
        decreases na - i,
    {
        if a.get_char(i) != b.get_char(i) {
            return false;
        }
        i = i + 1;
    }
    proof {
        assert(a@ =~= b@);
    }
    true
}

/// True when `p` is a prefix of `s`.
pub open spec fn starts_with_spec(s: Seq<char>, p: Seq<char>) -> bool {
    p.len() <= s.len() && s.subrange(0, p.len() as int) == p
}

/// Strips `prefix` from the front of `s`; yields the rest exactly when the
/// prefix is there.
pub fn strip_prefix(s: &str, prefix: &str) -> (r: Option<String>)
    ensures
        starts_with_spec(s@, prefix@) ==> (r matches Some(rest)
            && rest@ == s@.skip(prefix@.len() as int)),
        !starts_with_spec(s@, prefix@) ==> r is None,
{
    let np = prefix.unicode_len();
    let ns = s.unicode_len();
    if np > ns {
        proof {
            assert(!starts_with_spec(s@, prefix@));
        }
        return None;
    }
    let head = s.substring_char(0, np);
    if str_eq(head, prefix) {
        let tail = s.substring_char(np, ns);
        proof {
            assert(s@.subrange(np as int, ns as int) =~= s@.skip(np as int));
        }
        Some(tail.to_owned())
    } else {
        None
    }
}

/// A concatenation starts with the piece it starts with, and stripping that
/// piece leaves the other.
pub proof fn lemma_concat_starts_with(a: Seq<char>, b: Seq<char>)
    ensures
        starts_with_spec(a + b, a),
        (a + b).skip(a.len() as int) == b,
{
    assert((a + b).subrange(0, a.len() as int) =~= a);
    assert((a + b).skip(a.len() as int) =~= b);
}

/// Whether one concatenation starts with another over a common front piece
/// is decided behind that piece.
pub proof fn lemma_starts_with_concat(a: Seq<char>, b: Seq<char>, c: Seq<char>)
    ensures
        starts_with_spec(a + b, a + c) == starts_with_spec(b, c),
{
    if starts_with_spec(b, c) {
        assert((a + b).subrange(0, (a + c).len() as int) =~= a + c);
    }
    if starts_with_spec(a + b, a + c) {
        assert forall|k: int| 0 <= k < c.len() implies b.subrange(0, c.len() as int)[k]
            == c[k] by {
            assert((a + b).subrange(0, (a + c).len() as int)[a.len() + k] == (a + c)[a.len() + k]);
        }
        assert(b.subrange(0, c.len() as int) =~= c);
    }
}

/// Relies on `String::push_str`: appends the suffix's characters to the
/// string, changing nothing else.
#[verifier::external_body]
fn push_str(s: &mut String, suffix: &str)
    ensures
        final(s)@ == old(s)@ + suffix@,
{
    s.push_str(suffix)
}

/// Appends one owned piece of text to a list.
pub(crate) fn push_owned(out: &mut Vec<String>, s: String)
    ensures
        final(out).deep_view() == old(out).deep_view().push(s@),
{
    let ghost e = s@;
    let ghost pre = out.deep_view();
    out.push(s);
    proof {
        assert(out@.len() == pre.len() + 1);
        assert(out.deep_view().len() == pre.len() + 1);
        assert forall|k: int| 0 <= k < out.deep_view().len() implies out.deep_view()[k] == pre.push(
            e,
        )[k] by {
            if k < pre.len() as int {
                assert(out.deep_view()[k] == pre[k]);
            } else {
                assert(out.deep_view()[k] == e);
            }
        }
        assert(out.deep_view() =~= pre.push(e));
    }
}

/// The concatenation of two pieces of text.
pub fn concat2(a: &str, b: &str) -> (r: String)
    ensures
        r@ == a@ + b@,
{
    let mut s = a.to_owned();
    push_str(&mut s, b);
    s
}

/// The concatenation of three pieces of text.
pub fn concat3(a: &str, b: &str, c: &str) -> (r: String)
    ensures
        r@ == a@ + b@ + c@,
{
    let mut s = a.to_owned();
    push_str(&mut s, b);
    push_str(&mut s, c);
    s
}

} // verus!
