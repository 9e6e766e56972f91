use vstd::prelude::*;

use crate::strutil::{i64_to_string, spec_i64_string};

verus! {

/// Parameters identifying a repository, shared by most tools.
/// Either provide `owner` + `repo`, or `directory` to auto-detect from the
/// local git configuration.
#[derive(Debug, Clone)]
pub struct RepoParams {
    /// Repository owner (user or organization). Optional if `directory` is provided.
    pub owner: Option<String>,
    /// Repository name. Optional if `directory` is provided.
    pub repo: Option<String>,
    /// Local directory whose git configuration names the repository.
    pub directory: Option<String>,
}

/// Pagination parameters.
#[derive(Debug, Clone)]
pub struct PaginationParams {
    /// Page number (1-based). Defaults to 1.
    pub page: Option<i64>,
    /// Number of items per page. Defaults to 20, max 50.
    pub limit: Option<i64>,
}

/// The page number a listing call sends: the given page, defaulting to 1.
pub open spec fn spec_page_value(page: Option<i64>) -> int {
    match page {
        Some(p) => p as int,
        None => 1,
    }
}

/// The page size a listing call sends: the given limit capped at 50,
/// defaulting to 20.
pub open spec fn spec_limit_value(limit: Option<i64>) -> int {
    let l: int = match limit {
        Some(l) => l as int,
        None => 20,
    };
    if l < 50 {
        l
    } else {
        50
    }
}

/// The page number a listing call sends.
pub fn page_value(page: &Option<i64>) -> (r: i64)
    ensures
        r as int == spec_page_value(*page),
{
    match page {
        Some(p) => *p,
        None => 1,
    }
}

/// The page size a listing call sends.
pub fn limit_value(limit: &Option<i64>) -> (r: i64)
    ensures
        r as int == spec_limit_value(*limit),
{
    let l: i64 = match limit {
        Some(l) => *l,
        None => 20,
    };
    if l < 50 {
        l
    } else {
        50
    }
}

impl PaginationParams {
    /// The query parameters this pagination carries: the page when given,
    /// and always the capped limit.
    pub fn to_query(&self) -> (r: Vec<(&str, String)>)
        ensures
            r.deep_view() == (match self.page {
                Some(p) => seq![("page"@, spec_i64_string(p as int))],
                None => Seq::<(Seq<char>, Seq<char>)>::empty(),
            }) + seq![("limit"@, spec_i64_string(spec_limit_value(self.limit)))],
    {
        let mut q: Vec<(&str, String)> = Vec::new();
        if let Some(page) = &self.page {
            q.push(("page", i64_to_string(*page)));
            proof {
                assert(q.deep_view() =~= seq![("page"@, spec_i64_string(self.page->Some_0 as int))]);
            }
        }
        let ghost pre = q.deep_view();
        let limit = limit_value(&self.limit);
        q.push(("limit", i64_to_string(limit)));
        proof {
            assert(q.deep_view() =~= pre.push(("limit"@, spec_i64_string(spec_limit_value(self.limit)))));
            assert(q.deep_view() =~= (match self.page {
                Some(p) => seq![("page"@, spec_i64_string(p as int))],
                None => Seq::<(Seq<char>, Seq<char>)>::empty(),
            }) + seq![("limit"@, spec_i64_string(spec_limit_value(self.limit)))]);
        }
        q
    }
}

} // verus!
