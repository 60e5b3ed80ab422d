//! Search results: the shapes the search provider returns and the
//! formatter that renders them for the model.

use vstd::prelude::*;
use vstd::string::StringExecFns;
use crate::text::{dec_str, push_dec};

verus! {

/// One search hit as the rest of the system consumes it.
pub struct SearchResult {
    pub title: String,
    pub link: String,
    pub snippet: String,
}

pub struct SearchResultV {
    pub title: Seq<char>,
    pub link: Seq<char>,
    pub snippet: Seq<char>,
}

impl View for SearchResult {
    type V = SearchResultV;

    open spec fn view(&self) -> SearchResultV {
        SearchResultV { title: self.title@, link: self.link@, snippet: self.snippet@ }
    }
}

/// The query echo inside a provider response.
pub struct SearchParameters {
    pub q: String,
    pub search_type: String,
}

/// One ranked hit inside a provider response.
pub struct OrganicResult {
    pub title: String,
    pub link: String,
    pub snippet: String,
    pub position: i32,
}

/// A whole provider response.
pub struct SearchResponse {
    pub search_parameters: SearchParameters,
    pub organic: Vec<OrganicResult>,
}

/// The hit an organic provider entry stands for, its rank dropped.
pub open spec fn organic_result_v(o: OrganicResult) -> SearchResultV {
    SearchResultV { title: o.title@, link: o.link@, snippet: o.snippet@ }
}

/// Keeps title, link and snippet of every organic entry, in order.
pub fn organic_to_results(resp: &SearchResponse) -> (r: Vec<SearchResult>)
    ensures
        r@.len() == resp.organic@.len(),
        forall|j: int| 0 <= j < r@.len() ==> r@[j]@ == organic_result_v(resp.organic@[j]),
{
    let mut r: Vec<SearchResult> = Vec::new();
    let n = resp.organic.len();
    let mut i: usize = 0;
    while i < n
        invariant
            n == resp.organic@.len(),
            i <= n,
            r@.len() == i,
            forall|j: int| 0 <= j < i ==> r@[j]@ == organic_result_v(resp.organic@[j]),
        decreases n - i,
    {
        let o = &resp.organic[i];
        r.push(
            SearchResult {
                title: o.title.clone(),
                link: o.link.clone(),
                snippet: o.snippet.clone(),
            },
        );
        i += 1;
    }
    r
}

/// The rendering of one numbered search hit.
pub open spec fn entry_v(i: nat, r: SearchResultV) -> Seq<char> {
    dec_str(i + 1) + ". "@ + r.title + "\n   链接: "@ + r.link + "\n   摘要: "@ + r.snippet
        + "\n"@
}

/// The renderings of all hits, numbered from one, separated by blank lines.
pub open spec fn entries_v(rs: Seq<SearchResultV>) -> Seq<char>
    decreases rs.len(),
{
    if rs.len() == 0 {
        Seq::empty()
    } else if rs.len() == 1 {
        entry_v(0, rs[0])
    } else {
        entries_v(rs.drop_last()) + "\n"@ + entry_v((rs.len() - 1) as nat, rs.last())
    }
}

/// The sentence returned when there is nothing to show.
pub open spec fn no_results_v() -> Seq<char> {
    "没有找到相关结果。"@
}

/// What `format_results` returns: the first `max` hits rendered, or the
/// no-results sentence when that selection is empty.
pub open spec fn format_results_v(rs: Seq<SearchResultV>, max: nat) -> Seq<char> {
    let taken = if rs.len() <= max {
        rs
    } else {
        rs.take(max as int)
    };
    if taken.len() == 0 {
        no_results_v()
    } else {
        entries_v(taken)
    }
}

/// The views of a slice of search results.
pub open spec fn results_view(results: &[SearchResult]) -> Seq<SearchResultV> {
    results@.map_values(|r: SearchResult| r@)
}

/// Renders at most `max_results` hits as numbered text.
pub fn format_results(results: &[SearchResult], max_results: usize) -> (r: String)
    ensures
        r@ == format_results_v(results_view(results), max_results as nat),
{
    let len = results.len();
    let n = if len <= max_results {
        len
    } else {
        max_results
    };
    proof {
        assert(results_view(results).len() == len);
        if len <= max_results {
            assert(results_view(results).take(n as int) =~= results_view(results));
        }
    }
    if n == 0 {
        return "没有找到相关结果。".to_owned();
    }
    let ghost vs = results_view(results).take(n as int);
    let mut s = String::new();
    let mut i: usize = 0;
    while i < n
        invariant
            n <= results@.len(),
            n == vs.len(),
            vs == results_view(results).take(n as int),
            i <= n,
            s@ == entries_v(vs.take(i as int)),
        decreases n - i,
    {
        proof {
            assert(vs.take(i + 1 as int).drop_last() =~= vs.take(i as int));
            assert(vs.take(i + 1 as int).last() == vs[i as int]);
            if i == 0 {
                assert(entries_v(vs.take(1)) == entry_v(0, vs[0]));
            }
            assert(vs[i as int] == results@.map_values(|r: SearchResult| r@)[i as int]);
        }
        if i > 0 {
            s.append("\n");
        }
        push_dec(&mut s, (i + 1) as u64);
        s.append(". ");
        s.append(results[i].title.as_str());
        s.append("\n   链接: ");
        s.append(results[i].link.as_str());
        s.append("\n   摘要: ");
        s.append(results[i].snippet.as_str());
        s.append("\n");
        proof {
            assert(s@ =~= entries_v(vs.take(i + 1 as int)));
        }
        i += 1;
    }
    proof {
        assert(vs.take(n as int) =~= vs);
    }
    s
}

} // verus!
