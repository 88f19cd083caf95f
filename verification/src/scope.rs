//! A model of the host's filesystem scope, as the reader's requests act on
//! it.
//!
//! The allow-list itself lives inside the host; this module only states what
//! the reader's requests do to it: an allow request adds its path, a read
//! request changes nothing, and nothing is ever removed — the list grows
//! monotonically, one path per read command.

use vstd::prelude::*;

verus! {

use crate::reader::{HostRequestModel, session_requests};

/// The allow-list after the host handles one request: an allow request adds
/// its path, a read request leaves the list unchanged.
pub open spec fn scope_after(allowed: Set<Seq<char>>, request: HostRequestModel) -> Set<Seq<char>> {
    match request {
        HostRequestModel::AllowFile { path } => allowed.insert(path),
        HostRequestModel::ReadTextFile { .. } => allowed,
    }
}

/// The allow-list after the host handles a run of requests, in order.
pub open spec fn scope_after_all(
    allowed: Set<Seq<char>>,
    requests: Seq<HostRequestModel>,
) -> Set<Seq<char>>
    decreases requests.len(),
{
    if requests.len() == 0 {
        allowed
    } else {
        scope_after_all(scope_after(allowed, requests[0]), requests.skip(1))
    }
}

/// No request of the reader ever shrinks the host's scope: handling any one
/// request keeps every previously allowed path allowed.
pub proof fn lemma_scope_monotone(allowed: Set<Seq<char>>, request: HostRequestModel)
    ensures
        allowed.subset_of(scope_after(allowed, request)),
{
}

/// The host's scope grows monotonically over any run of the reader's
/// requests: no path allowed before the run is missing after it.
pub proof fn lemma_scope_monotone_all(allowed: Set<Seq<char>>, requests: Seq<HostRequestModel>)
    ensures
        allowed.subset_of(scope_after_all(allowed, requests)),
    decreases requests.len(),
{
    if requests.len() != 0 {
        lemma_scope_monotone(allowed, requests[0]);
        lemma_scope_monotone_all(scope_after(allowed, requests[0]), requests.skip(1));
    }
}

/// One whole read command grows the host's scope by exactly the path it
/// reads: afterwards that path is allowed, every path allowed before stays
/// allowed, and no other path has appeared.
pub proof fn lemma_session_grows_scope(allowed: Set<Seq<char>>, path: Seq<char>)
    ensures
        scope_after_all(allowed, session_requests(path)) == allowed.insert(path),
        allowed.subset_of(scope_after_all(allowed, session_requests(path))),
        scope_after_all(allowed, session_requests(path)).contains(path),
{
    let requests = session_requests(path);
    let tail = seq![HostRequestModel::ReadTextFile { path }];
    let after_allow = allowed.insert(path);
    assert(requests.len() == 2);
    assert(requests.skip(1) =~= tail);
    assert(tail.skip(1) =~= Seq::<HostRequestModel>::empty());
    assert(scope_after(allowed, requests[0]) == after_allow);
    assert(scope_after(after_allow, tail[0]) == after_allow);
    assert(scope_after_all(after_allow, Seq::<HostRequestModel>::empty()) == after_allow);
    assert(scope_after_all(after_allow, tail) == after_allow);
    assert(scope_after_all(allowed, requests) == after_allow);
    lemma_scope_monotone_all(allowed, requests);
}

} // verus!
