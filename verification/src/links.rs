//! Finding the links in a generated response, and the references that
//! record them.
use crate::models::Reference;
use vstd::prelude::*;

verus! {

/// The pattern of a link in a generated response.
pub const LINK_PATTERN: &'static str = r"/(?:(?:https?|ftp|file):\\|www\\.|ftp\\.)(?:\\([-A-Z0-9+&@#\\%=~_|$?!:,.]*\\)|[-A-Z0-9+&@#\\%=~_|$?!:,.])*(?:\\([-A-Z0-9+&@#\\%=~_|$?!:,.]*\\)|[A-Z0-9+&@#\\%=~_|$])/igm";

/// The texts of a list of strings, when there is a list.
pub open spec fn texts_view(found: Option<Vec<String>>) -> Option<Seq<Seq<char>>> {
    match found {
        Some(v) => Some(v@.map_values(|s: String| s@)),
        None => None,
    }
}

/// What the `regex` crate finds for `pattern` in `haystack`: `None` when
/// `Regex::new` refuses the pattern, else the texts of the successive
/// non-overlapping matches that `Regex::find_iter` yields, in order.
pub uninterp spec fn regex_find_all(pattern: Seq<char>, haystack: Seq<char>) -> Option<
    Seq<Seq<char>>,
>;

/// Compiles `pattern` with `regex::Regex::new` and, when that succeeds,
/// collects the text of each match that `Regex::find_iter` yields on
/// `haystack`. The contract claims only that the result is a function of the
/// two texts, named `regex_find_all`; which texts match is left to the crate.
#[verifier::external_body]
fn regex_matches(pattern: &str, haystack: &str) -> (found: Option<Vec<String>>)
    ensures
        texts_view(found) == regex_find_all(pattern@, haystack@),
{
    match regex::Regex::new(pattern) {
        Ok(re) => Some(re.find_iter(haystack).map(|m| m.as_str().to_string()).collect()),
        Err(_) => None,
    }
}

/// The links of a generated response: `None` when the link pattern does not
/// compile.
pub fn find_links(content: &str) -> (links: Option<Vec<String>>)
    ensures
        texts_view(links) == regex_find_all(LINK_PATTERN@, content@),
{
    regex_matches(LINK_PATTERN, content)
}

/// Whether `r` is a fresh external reference whose content is `link`.
pub open spec fn link_reference(r: Reference, link: Seq<char>) -> bool {
    &&& r.id@ == Seq::<char>::empty()
    &&& !r.internal
    &&& r.trust == 0
    &&& r.distrust == 0
    &&& r.content@ == link
}

/// One fresh reference for each link, in the order of the links.
pub fn link_references(links: &Vec<String>) -> (refs: Vec<Reference>)
    ensures
        refs@.len() == links@.len(),
        forall|i: int| 0 <= i < refs@.len() ==> link_reference(#[trigger] refs@[i], links@[i]@),
{
    let mut refs: Vec<Reference> = Vec::new();
    let mut i: usize = 0;
    while i < links.len()
        invariant
            i <= links@.len(),
            refs@.len() == i,
            forall|j: int| 0 <= j < i ==> link_reference(#[trigger] refs@[j], links@[j]@),
        decreases links@.len() - i,
    {
        let mut r = Reference::default();
        r.content = links[i].clone();
        refs.push(r);
        i = i + 1;
    }
    refs
}

} // verus!
