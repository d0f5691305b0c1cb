use vstd::prelude::*;

verus! {

/// What str::to_uppercase returns for a given character sequence.
pub uninterp spec fn upper_of(s: Seq<char>) -> Seq<char>;

/// Relies on str::to_uppercase: the result depends on the input characters
/// alone (Unicode uppercase mapping).
#[verifier::external_body]
pub(crate) fn to_upper(s: &String) -> (r: String)
    ensures
        r@ == upper_of(s@),
{
    s.to_uppercase()
}

/// Relies on str::chars: it yields exactly the characters of the string, in
/// order.
#[verifier::external_body]
pub(crate) fn chars_vec(s: &str) -> (r: Vec<char>)
    ensures
        r@ == s@,
{
    s.chars().collect()
}

/// One sequence occurs inside another when some offset aligns it with an
/// equal slice.
pub open spec fn is_substring(needle: Seq<char>, hay: Seq<char>) -> bool {
    exists|i: int|
        0 <= i && i + needle.len() <= hay.len() && #[trigger] hay.subrange(i, i + needle.len())
            == needle
}

/// Compares the needle against the slice of the haystack that starts at the
/// given offset.
fn matches_at(hay: &Vec<char>, needle: &Vec<char>, at: usize) -> (r: bool)
    requires
        at + needle@.len() <= hay@.len(),
    ensures
        r == (hay@.subrange(at as int, at as int + needle@.len() as int) == needle@),
{
    let n = needle.len();
    let m = hay.len();
    for j in 0..n
        invariant
            n == needle@.len(),
            m == hay@.len(),
            at + n <= m,
            forall|k: int| 0 <= k < j ==> hay@[at + k] == needle@[k],
    {
        if hay[at + j] != needle[j] {
            proof {
                assert(hay@.subrange(at as int, at as int + n as int)[j as int] == hay@[
                    at as int + j as int
                ]);
            }
            return false;
        }
    }
    proof {
        assert(hay@.subrange(at as int, at as int + n as int) =~= needle@);
    }
    true
}

/// Decides whether the needle occurs anywhere inside the haystack.
pub fn contains_chars(hay: &Vec<char>, needle: &Vec<char>) -> (r: bool)
    ensures
        r == is_substring(needle@, hay@),
{
    let n = needle.len();
    let m = hay.len();
    if n == 0 {
        proof {
            assert(hay@.subrange(0, 0 + needle@.len() as int) =~= needle@);
        }
        return true;
    }
    if n > m {
        return false;
    }
    let last = m - n;
    for i in 0..last + 1
        invariant
            n == needle@.len(),
            m == hay@.len(),
            1 <= n <= m,
            last == m - n,
            forall|k: int|
                0 <= k < i ==> #[trigger] hay@.subrange(k, k + needle@.len() as int) != needle@,
    {
        if matches_at(hay, needle, i) {
            proof {
                assert(0 <= i as int && i as int + needle@.len() <= hay@.len()
                    && hay@.subrange(i as int, i as int + needle@.len() as int) == needle@);
            }
            return true;
        }
    }
    false
}

} // verus!
