//! Reading one page of the GitHub repository listing.
use vstd::prelude::*;
use crate::clock::{now_millis, parse_rfc3339_millis, rfc3339_millis};

verus! {

/// A single repository item returned by the GitHub search API.
pub struct GHApiRepoSearchItem {
    pub full_name: String,
}

/// Rate-limit counters that GitHub returns beside each page.
pub struct RateLimit {
    /// Points left in the current window
    pub remaining: i64,
    /// Points that the query cost
    pub cost: i64,
    /// When the window resets, as an RFC 3339 date-time
    pub reset_at: String,
}

/// The data of one response of the paged repository query, as decoded from
/// the wire: every part that GitHub may leave out is optional.
pub struct RepoPageData {
    /// `nameWithOwner` of each repository node
    pub nodes: Option<Vec<Option<String>>>,
    /// cursor of the next page, `None` on the last page
    pub end_cursor: Option<String>,
    pub rate_limit: Option<RateLimit>,
}

/// One page of repositories, ready for the sync run.
pub struct RepoPageRead {
    /// list of repositories fetched from the API
    pub repos: Vec<String>,
    /// cursor used to query the next page
    pub end_cursor: Option<String>,
    /// milliseconds to wait, under the rate limit, before the next page read
    pub delay: Option<u64>,
}

/// Why a page could not be read.
#[derive(PartialEq, Eq, Structural, Clone, Copy, Debug)]
pub enum FetchError {
    /// the request itself failed (network, status, body)
    Request,
    /// the response has no data
    MissingData,
    /// the repository list is absent
    MissingNodes,
    /// a repository node has no name
    MissingName,
    /// the rate-limit counters are absent
    MissingRateLimit,
    /// the reset time is not an RFC 3339 date-time
    BadResetTime,
}

/// Whether the next request would exhaust the budget, so that the fetcher
/// must wait for the window to reset.
pub open spec fn budget_exhausted(remaining: int, cost: int) -> bool {
    remaining - cost <= 0
}

/// The wait before the next request when the window resets at `reset_at`
/// and the time is `now`: none unless the reset lies in the future.
pub open spec fn wait_until(reset_at: int, now: int) -> Option<u64> {
    if reset_at - now > 0 {
        Some((reset_at - now) as u64)
    } else {
        None
    }
}

/// The names of a node list in which every node is named.
pub open spec fn all_named(nodes: Seq<Option<String>>) -> bool {
    forall|i: int| 0 <= i < nodes.len() ==> (#[trigger] nodes[i]) is Some
}

pub open spec fn names_of(nodes: Seq<Option<String>>) -> Seq<String> {
    nodes.map_values(|n: Option<String>| n->Some_0)
}

/// What reading a page gives: the first missing part in the order data,
/// nodes, names, rate limit, reset time; else the names, the cursor and
/// the wait that the rate limit asks for.
pub open spec fn page_outcome(data: Option<RepoPageData>, now: int) -> Result<
    (Seq<String>, Option<String>, Option<u64>),
    FetchError,
> {
    match data {
        None => Err(FetchError::MissingData),
        Some(d) => match d.nodes {
            None => Err(FetchError::MissingNodes),
            Some(nodes) => if !all_named(nodes@) {
                Err(FetchError::MissingName)
            } else {
                match d.rate_limit {
                    None => Err(FetchError::MissingRateLimit),
                    Some(rl) => if !budget_exhausted(rl.remaining as int, rl.cost as int) {
                        Ok((names_of(nodes@), d.end_cursor, None))
                    } else {
                        match rfc3339_millis(rl.reset_at@) {
                            None => Err(FetchError::BadResetTime),
                            Some(reset) => Ok(
                                (names_of(nodes@), d.end_cursor, wait_until(reset as int, now)),
                            ),
                        }
                    }
                }
            }
        },
    }
}

/// The wait, in milliseconds, that the rate limit imposes before the next
/// request: none while the budget covers the next request's cost, else the
/// time left until `reset_at`, and none when that is not positive.
pub fn rate_limit_delay(remaining: i64, cost: i64, reset_at: i64, now: i64) -> (r: Option<u64>)
    ensures
        r == (if budget_exhausted(remaining as int, cost as int) {
            wait_until(reset_at as int, now as int)
        } else {
            None
        }),
{
    if (remaining as i128) - (cost as i128) > 0 {
        None
    } else {
        let left: i128 = (reset_at as i128) - (now as i128);
        if left > 0 {
            Some(left as u64)
        } else {
            None
        }
    }
}

/// The names of the nodes, or `None` when one of them has none.
fn collect_names(nodes: &Vec<Option<String>>) -> (r: Option<Vec<String>>)
    ensures
        r is Some <==> all_named(nodes@),
        r matches Some(v) ==> v@ == names_of(nodes@),
{
    let mut out: Vec<String> = Vec::new();
    let mut i: usize = 0;
    while i < nodes.len()
        invariant
            i <= nodes@.len(),
            all_named(nodes@.subrange(0, i as int)),
            out@ == names_of(nodes@.subrange(0, i as int)),
        decreases nodes@.len() - i,
    {
        match &nodes[i] {
            None => {
                assert(!all_named(nodes@));
                return None;
            },
            Some(n) => {
                out.push(n.clone());
            },
        }
        proof {
            assert(nodes@.subrange(0, i + 1) == nodes@.subrange(0, i as int).push(nodes@[i as int]));
        }
        i = i + 1;
    }
    assert(nodes@.subrange(0, i as int) == nodes@);
    Some(out)
}

pub(crate) fn copy_cursor(c: &Option<String>) -> (r: Option<String>)
    ensures
        r == *c,
{
    match c {
        None => None,
        Some(s) => Some(s.clone()),
    }
}

/// Reads a decoded response at the instant `now`: the repository names in
/// the order given, the next cursor, and the wait that the rate limit asks
/// for; or the first part that is missing or malformed.
pub fn read_page_at(data: &Option<RepoPageData>, now: i64) -> (r: Result<RepoPageRead, FetchError>)
    ensures
        r matches Ok(p) ==> page_outcome(*data, now as int) == Ok::<
            (Seq<String>, Option<String>, Option<u64>),
            FetchError,
        >((p.repos@, p.end_cursor, p.delay)),
        r matches Err(e) ==> page_outcome(*data, now as int) == Err::<
            (Seq<String>, Option<String>, Option<u64>),
            FetchError,
        >(e),
{
    let d = match data {
        None => return Err(FetchError::MissingData),
        Some(d) => d,
    };
    let nodes = match &d.nodes {
        None => return Err(FetchError::MissingNodes),
        Some(n) => n,
    };
    let repos = match collect_names(nodes) {
        None => return Err(FetchError::MissingName),
        Some(v) => v,
    };
    let rl = match &d.rate_limit {
        None => return Err(FetchError::MissingRateLimit),
        Some(rl) => rl,
    };
    let end_cursor = copy_cursor(&d.end_cursor);
    let delay = if (rl.remaining as i128) - (rl.cost as i128) > 0 {
        None
    } else {
        match parse_rfc3339_millis(rl.reset_at.as_str()) {
            None => return Err(FetchError::BadResetTime),
            Some(reset) => rate_limit_delay(rl.remaining, rl.cost, reset, now),
        }
    };
    Ok(RepoPageRead { repos, end_cursor, delay })
}

/// Reads a decoded response now; see `read_page_at`.
pub fn read_page(data: &Option<RepoPageData>) -> (r: Result<RepoPageRead, FetchError>)
    ensures
        data is None ==> r == Err::<RepoPageRead, FetchError>(FetchError::MissingData),
        r matches Ok(p) ==> exists|now: i64|
            page_outcome(*data, now as int) == Ok::<
                (Seq<String>, Option<String>, Option<u64>),
                FetchError,
            >((p.repos@, p.end_cursor, p.delay)),
        r matches Err(e) ==> exists|now: i64|
            page_outcome(*data, now as int) == Err::<
                (Seq<String>, Option<String>, Option<u64>),
                FetchError,
            >(e),
{
    let now = now_millis();
    read_page_at(data, now)
}

} // verus!
