use vstd::prelude::*;
use crate::model::Company;
use crate::text::{chars_vec, contains_chars, is_substring, to_upper, upper_of};

verus! {

/// A company matches an uppercased customer name when its configured name,
/// exactly as configured, occurs inside that name.
pub open spec fn company_matches(c: Company, upper: Seq<char>) -> bool {
    is_substring(c.name@, upper)
}

/// The index of the first configured company that matches the uppercased
/// customer name, if any: ambiguity resolves to the earliest in the list.
pub open spec fn first_match(cs: Seq<Company>, upper: Seq<char>) -> Option<int>
    decreases cs.len(),
{
    if cs.len() == 0 {
        None
    } else if company_matches(cs[0], upper) {
        Some(0 as int)
    } else {
        match first_match(cs.drop_first(), upper) {
            None => None,
            Some(i) => Some(i + 1),
        }
    }
}

/// The first match is a match, nothing before it matches, and when there is
/// none, nothing matches at all.
pub proof fn lemma_first_match_characterization(cs: Seq<Company>, upper: Seq<char>)
    ensures
        match first_match(cs, upper) {
            Some(i) => 0 <= i < cs.len() && company_matches(cs[i], upper) && forall|j: int|
                0 <= j < i ==> !company_matches(#[trigger] cs[j], upper),
            None => forall|j: int|
                0 <= j < cs.len() ==> !company_matches(#[trigger] cs[j], upper),
        },
    decreases cs.len(),
{
    if cs.len() > 0 && !company_matches(cs[0], upper) {
        lemma_first_match_characterization(cs.drop_first(), upper);
        assert forall|j: int| 1 <= j < cs.len() implies cs.drop_first()[j - 1] == cs[j] by {}
    }
}

/// Finds the first configured company whose name occurs inside the already
/// uppercased customer name.
pub fn match_in_upper(companies: &Vec<Company>, upper: &String) -> (r: Option<usize>)
    ensures
        r matches Some(u) ==> first_match(companies@, upper@) == Some(u as int),
        r matches Some(u) ==> u < companies@.len() && company_matches(
            companies@[u as int],
            upper@,
        ) && forall|j: int| 0 <= j < u ==> !company_matches(#[trigger] companies@[j], upper@),
        r is None ==> forall|j: int|
            0 <= j < companies@.len() ==> !company_matches(#[trigger] companies@[j], upper@),
        r is None ==> first_match(companies@, upper@) is None,
{
    let hay = chars_vec(upper.as_str());
    let n = companies.len();
    for i in 0..n
        invariant
            n == companies@.len(),
            hay@ == upper@,
            forall|j: int| 0 <= j < i ==> !company_matches(#[trigger] companies@[j], upper@),
    {
        let needle = chars_vec(companies[i].name.as_str());
        if contains_chars(&hay, &needle) {
            proof {
                lemma_first_match_characterization(companies@, upper@);
            }
            return Some(i);
        }
    }
    proof {
        lemma_first_match_characterization(companies@, upper@);
    }
    None
}

/// Uppercases the returned customer name and finds the first configured
/// company whose name occurs inside it.
pub fn match_company(companies: &Vec<Company>, customer_name: &String) -> (r: Option<usize>)
    ensures
        r matches Some(u) ==> first_match(companies@, upper_of(customer_name@)) == Some(u as int),
        r matches Some(u) ==> u < companies@.len() && company_matches(
            companies@[u as int],
            upper_of(customer_name@),
        ) && forall|j: int|
            0 <= j < u ==> !company_matches(#[trigger] companies@[j], upper_of(customer_name@)),
        r is None ==> forall|j: int|
            0 <= j < companies@.len() ==> !company_matches(
                #[trigger] companies@[j],
                upper_of(customer_name@),
            ),
        r is None ==> first_match(companies@, upper_of(customer_name@)) is None,
{
    let upper = to_upper(customer_name);
    match_in_upper(companies, &upper)
}

} // verus!
