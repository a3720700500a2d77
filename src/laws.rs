//! Properties of the transition protocol as a whole.
use vstd::prelude::*;
use crate::bus::Listener;
use crate::coordinator::{
    Request,
    Snapshot,
    after_acquire,
    after_request,
    after_requests,
    fold_requests,
    needs_grant,
};
use crate::state::State;

verus! {

/// Applying one more request after a sequence gives the fold of the longer
/// sequence.
pub proof fn lemma_fold_push(start: State, requests: Seq<Request>, request: Request)
    ensures
        fold_requests(start, requests.push(request)) == request.apply(
            fold_requests(start, requests),
        ),
    decreases requests.len(),
{
    if requests.len() == 0 {
        let single = requests.push(request);
        assert(single.drop_first() =~= Seq::<Request>::empty());
        assert(fold_requests(request.apply(start), single.drop_first()) == request.apply(start));
        assert(fold_requests(start, requests) == start);
    } else {
        lemma_fold_push(requests[0].apply(start), requests.drop_first(), request);
        assert(requests.push(request).drop_first() =~= requests.drop_first().push(request));
        assert(requests.push(request)[0] == requests[0]);
    }
}

/// Requests committed one at a time through the protocol leave the state
/// that the fold of the sequence over the starting state gives.
pub proof fn lemma_one_at_a_time_is_fold(v: Snapshot, requests: Seq<Request>)
    ensures
        after_requests(v, requests).state == fold_requests(v.state, requests),
    decreases requests.len(),
{
    if requests.len() > 0 {
        let init = requests.drop_last();
        lemma_one_at_a_time_is_fold(v, init);
        lemma_fold_push(v.state, init, requests.last());
        assert(init.push(requests.last()) =~= requests);
    }
}

/// After a transition to enabled a grant is held once acquisition succeeds
/// (or is not needed); after a transition to disabled none is held,
/// whatever was held before.
pub proof fn lemma_grant_follows_state(v: Snapshot, request: Request)
    ensures
        request.apply(v.state) == State::Enabled ==> after_acquire(
            after_request(v, request),
            true,
        ).holding,
        request.apply(v.state) == State::Enabled && !needs_grant(after_request(v, request))
            ==> after_request(v, request).holding,
        request.apply(v.state) == State::Disabled ==> !after_request(v, request).holding,
{
}

/// A failed acquisition still commits the enabled state with no grant held,
/// and a later request to enable asks for a grant again and keeps it when
/// it comes, with no disable in between.
pub proof fn lemma_failed_grant_recovers(v: Snapshot, request: Request)
    requires
        needs_grant(after_request(v, request)),
    ensures
        after_acquire(after_request(v, request), false) == (Snapshot {
            state: State::Enabled,
            holding: false,
        }),
        needs_grant(after_request(after_acquire(after_request(v, request), false), Request::Enable)),
        after_acquire(
            after_request(after_acquire(after_request(v, request), false), Request::Enable),
            true,
        ) == (Snapshot { state: State::Enabled, holding: true }),
{
}

/// Every event of the lock listener requests a disable, which leaves the
/// state disabled with no grant held and none to acquire, from any state.
pub proof fn lemma_lock_disables(v: Snapshot, member: Seq<char>)
    ensures
        Listener::Lock.request_spec(member) == Some(Request::Disable),
        after_request(v, Request::Disable) == (Snapshot {
            state: State::Disabled,
            holding: false,
        }),
        !needs_grant(after_request(v, Request::Disable)),
{
}

/// Toggling twice returns to the starting state.
pub proof fn lemma_toggle_twice(v: Snapshot)
    ensures
        Request::Toggle.apply(Request::Toggle.apply(v.state)) == v.state,
        after_request(after_request(v, Request::Toggle), Request::Toggle).state == v.state,
{
}

/// Serialized toggles are each applied once to the state the previous one
/// committed: the first commits the complement, the second the start, and
/// `n` of them leave the start toggled `n` times.
pub proof fn lemma_toggles_serialize(v: Snapshot, n: nat)
    ensures
        after_request(v, Request::Toggle).state == v.state.complement(),
        after_request(after_request(v, Request::Toggle), Request::Toggle).state == v.state,
        after_requests(v, Seq::new(n, |i: int| Request::Toggle)).state == if n % 2 == 0 {
            v.state
        } else {
            v.state.complement()
        },
    decreases n,
{
    if n > 0 {
        let toggles = Seq::new(n, |i: int| Request::Toggle);
        lemma_toggles_serialize(v, (n - 1) as nat);
        assert(toggles.drop_last() =~= Seq::new((n - 1) as nat, |i: int| Request::Toggle));
    }
}

} // verus!
