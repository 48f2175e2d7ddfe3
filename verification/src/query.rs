use vstd::prelude::*;

verus! {

/// The words that a search runs with: the `keywords` parameter of the request, or the empty
/// text when the request has none, which matches every document.
pub fn search_keywords(keywords: Option<String>) -> (r: String)
    ensures
        keywords matches Some(k) ==> r@ == k@,
        keywords is None ==> r@ == Seq::<char>::empty(),
{
    match keywords {
        Some(k) => k,
        None => String::new(),
    }
}

} // verus!
