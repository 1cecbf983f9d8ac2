//! The Apps page's search over a container's applications.
use vstd::prelude::*;
use crate::model::AppInfo;
use crate::text::{is_substring, lowercase, to_lowercase, contains_folded};

verus! {

/// Apps page state: the search field.
#[derive(Clone, Debug, PartialEq, Eq)]
pub struct AppsViewState {
    pub search: String,
}

impl Default for AppsViewState {
    fn default() -> (r: Self)
        ensures
            r.search@.len() == 0,
    {
        AppsViewState { search: String::new() }
    }
}

/// Whether the app matches the query: its lowercased name or command holds
/// the lowercased query.
pub open spec fn app_matches(app: AppInfo, query: Seq<char>) -> bool {
    is_substring(lowercase(query), lowercase(app.name@)) || is_substring(
        lowercase(query),
        lowercase(app.command@),
    )
}

/// The apps the search shows, in order: all of them for an empty query.
pub open spec fn apps_matching(apps: Seq<AppInfo>, query: Seq<char>) -> Seq<AppInfo>
    decreases apps.len(),
{
    if apps.len() == 0 {
        apps
    } else if query.len() == 0 || app_matches(apps.last(), query) {
        apps_matching(apps.drop_last(), query).push(apps.last())
    } else {
        apps_matching(apps.drop_last(), query)
    }
}

impl AppsViewState {
    /// The apps whose name or command contains the query, ignoring case.
    pub fn filter<'a>(apps: &'a [AppInfo], query: &str) -> (r: Vec<&'a AppInfo>)
        ensures
            Seq::new(r@.len(), |i: int| *r@[i]) == apps_matching(apps@, query@),
    {
        let q = to_lowercase(query);
        let all = query.is_empty();
        let mut out: Vec<&'a AppInfo> = Vec::new();
        let mut i: usize = 0;
        while i < apps.len()
            invariant
                i <= apps@.len(),
                q@ == lowercase(query@),
                all == (query@.len() == 0),
                Seq::new(out@.len(), |k: int| *out@[k]) == apps_matching(apps@.take(i as int), query@),
            decreases apps@.len() - i,
        {
            assert(apps@.take(i + 1).drop_last() =~= apps@.take(i as int));
            if all || contains_folded(apps[i].name.as_str(), q.as_str()) || contains_folded(
                apps[i].command.as_str(),
                q.as_str(),
            ) {
                out.push(&apps[i]);
            }
            assert(Seq::new(out@.len(), |k: int| *out@[k]) =~= apps_matching(apps@.take(i + 1), query@));
            i += 1;
        }
        assert(apps@.take(apps@.len() as int) =~= apps@);
        out
    }
}

} // verus!
