//! The structured search result, its spec-level view, and helpers over
//! sequences of results.

use vstd::prelude::*;

verus! {

/// One structured search result. The `url` is the identity of a result:
/// a session never holds two results with the same `url`.
#[derive(Debug, Clone)]
pub struct SearchResult {
    pub title: String,
    pub url: String,
    pub description: String,
}

/// A search result as mathematics: three character sequences.
#[verifier::ext_equal]
pub ghost struct ResultView {
    pub title: Seq<char>,
    pub url: Seq<char>,
    pub description: Seq<char>,
}

impl SearchResult {
    /// An identical copy of the result.
    pub fn duplicate(&self) -> (r: Self)
        ensures
            r == *self,
    {
        SearchResult {
            title: self.title.clone(),
            url: self.url.clone(),
            description: self.description.clone(),
        }
    }
}

impl View for SearchResult {
    type V = ResultView;

    open spec fn view(&self) -> ResultView {
        ResultView { title: self.title@, url: self.url@, description: self.description@ }
    }
}

/// The views of a sequence of results.
pub open spec fn results_view(rs: Seq<SearchResult>) -> Seq<ResultView> {
    rs.map_values(|r: SearchResult| r@)
}

/// No two results in the sequence share a url.
pub open spec fn unique_urls(rs: Seq<SearchResult>) -> bool {
    forall|i: int, j: int| 0 <= i < j < rs.len() ==> rs[i].url@ != rs[j].url@
}

/// Some result in the sequence has this url.
pub open spec fn contains_url(rs: Seq<SearchResult>, u: Seq<char>) -> bool {
    exists|i: int| 0 <= i < rs.len() && rs[i].url@ == u
}

/// The set of urls the sequence holds.
pub open spec fn url_set(rs: Seq<SearchResult>) -> Set<Seq<char>> {
    Set::new(|u: Seq<char>| contains_url(rs, u))
}

/// Appending a result adds exactly its url to the url set.
pub proof fn lemma_url_set_push(rs: Seq<SearchResult>, x: SearchResult)
    ensures
        url_set(rs.push(x)) == url_set(rs).insert(x.url@),
{
    assert forall|u: Seq<char>| #[trigger] url_set(rs.push(x)).contains(u) implies url_set(
        rs,
    ).insert(x.url@).contains(u) by {
        let i = choose|i: int| 0 <= i < rs.push(x).len() && rs.push(x)[i].url@ == u;
        if i < rs.len() {
            assert(rs[i].url@ == u);
        }
    }
    assert forall|u: Seq<char>| #[trigger]
        url_set(rs).insert(x.url@).contains(u) implies url_set(rs.push(x)).contains(u) by {
        if u == x.url@ {
            assert(rs.push(x)[rs.len() as int].url@ == u);
        } else {
            let i = choose|i: int| 0 <= i < rs.len() && rs[i].url@ == u;
            assert(rs.push(x)[i].url@ == u);
        }
    }
    assert(url_set(rs.push(x)) =~= url_set(rs).insert(x.url@));
}

/// Appending a result appends its view.
pub proof fn lemma_results_view_push(rs: Seq<SearchResult>, x: SearchResult)
    ensures
        results_view(rs.push(x)) == results_view(rs).push(x@),
{
    assert(results_view(rs.push(x)) =~= results_view(rs).push(x@));
}

} // verus!
