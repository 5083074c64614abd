//! Finding the e-mail address in an Autodiscover request body.
//!
//! The address is the text between the first `<EMailAddress>` that has a
//! matching `</EMailAddress>` after it on the same line, and the nearest such
//! closing tag. Nothing else of the body is parsed.
use vstd::prelude::*;

verus! {

pub open spec fn open_tag() -> Seq<char> {
    "<EMailAddress>"@
}

pub open spec fn close_tag() -> Seq<char> {
    "</EMailAddress>"@
}

/// `t` occurs in `s` at index `i`.
pub open spec fn occurs_at(s: Seq<char>, t: Seq<char>, i: int) -> bool {
    0 <= i && i + t.len() <= s.len() && s.subrange(i, i + t.len()) == t
}

/// `t` occurs somewhere in `s`.
pub open spec fn contains(s: Seq<char>, t: Seq<char>) -> bool {
    exists|i: int| occurs_at(s, t, i)
}

/// An opening tag at `i` and a closing tag at `j` enclose text with no line feed.
pub open spec fn tagged_at(s: Seq<char>, i: int, j: int) -> bool {
    &&& occurs_at(s, open_tag(), i)
    &&& i + open_tag().len() <= j
    &&& occurs_at(s, close_tag(), j)
    &&& forall|k: int| i + open_tag().len() <= k < j ==> s[k] != '\n'
}

/// `s` holds some tagged address.
pub open spec fn has_address(s: Seq<char>) -> bool {
    exists|i: int, j: int| tagged_at(s, i, j)
}

/// `a` is the address of `s`: enclosed by the leftmost opening tag that
/// encloses any, and the nearest closing tag after it.
pub open spec fn first_address_is(s: Seq<char>, a: Seq<char>) -> bool {
    exists|i: int, j: int|
        {
            &&& tagged_at(s, i, j)
            &&& a == s.subrange(i + open_tag().len(), j)
            &&& forall|i2: int, j2: int| tagged_at(s, i2, j2) ==> i <= i2
            &&& forall|j2: int| tagged_at(s, i, j2) ==> j <= j2
        }
}

/// A body has at most one address.
pub proof fn lemma_first_address_unique(s: Seq<char>, a: Seq<char>, b: Seq<char>)
    requires
        first_address_is(s, a),
        first_address_is(s, b),
    ensures
        a == b,
{
    let (i, j) = choose|i: int, j: int|
        {
            &&& tagged_at(s, i, j)
            &&& a == s.subrange(i + open_tag().len(), j)
            &&& forall|i2: int, j2: int| tagged_at(s, i2, j2) ==> i <= i2
            &&& forall|j2: int| tagged_at(s, i, j2) ==> j <= j2
        };
    let (p, q) = choose|p: int, q: int|
        {
            &&& tagged_at(s, p, q)
            &&& b == s.subrange(p + open_tag().len(), q)
            &&& forall|i2: int, j2: int| tagged_at(s, i2, j2) ==> p <= i2
            &&& forall|j2: int| tagged_at(s, p, j2) ==> q <= j2
        };
    assert(i <= p && p <= i);
    assert(j <= q && q <= j);
}

/// Relies on regex's `Regex::new` and `Regex::captures` for the pattern
/// `<EMailAddress>(.*?)</EMailAddress>`: the pattern is valid, so `unwrap`
/// never panics; a match is leftmost-first, `.` excludes the line feed and the
/// lazy group stops at the nearest closing tag, so group 1 is the address above.
#[verifier::external_body]
pub(crate) fn capture_address(data: &str) -> (r: Option<String>)
    ensures
        r is None <==> !has_address(data@),
        r matches Some(a) ==> first_address_is(data@, a@),
{
    let re = regex::Regex::new(r"<EMailAddress>(.*?)</EMailAddress>").unwrap();
    let caps = re.captures(data)?;
    Some(caps.get(1)?.as_str().to_string())
}

/// The address in an Autodiscover request body, if it holds one.
pub fn email_address(data: &str) -> (r: Option<String>)
    ensures
        r is None <==> !has_address(data@),
        r matches Some(a) ==> first_address_is(data@, a@),
{
    capture_address(data)
}

} // verus!
