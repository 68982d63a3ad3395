use vstd::prelude::*;
use crate::model::PeerInfo;

verus! {

/// Fixed pause between two peer-list polls, in seconds.
pub const PEER_POLL_INTERVAL_SECS: u64 = 5;

/// What one peer-list query produced.
pub enum PeerPoll {
    /// The query failed; this counts as "not yet".
    Failed,
    /// The node listed these peers.
    Listed(Vec<PeerInfo>),
}

/// Some listed peer is connected.
pub open spec fn has_connected(peers: Seq<PeerInfo>) -> bool {
    exists|i: int| 0 <= i < peers.len() && #[trigger] peers[i].connected
}

/// A poll that shows convergence.
pub open spec fn converged(p: PeerPoll) -> bool {
    match p {
        PeerPoll::Listed(v) => has_connected(v@),
        PeerPoll::Failed => false,
    }
}

/// Poll number `i` (from zero) starts `5 * i` seconds in, and is made only
/// while that is before the deadline.
pub open spec fn poll_in_time(i: int, timeout_secs: u64) -> bool {
    PEER_POLL_INTERVAL_SECS * i < timeout_secs
}

/// Whether any peer in the list is connected.
pub fn any_connected(peers: &Vec<PeerInfo>) -> (r: bool)
    ensures
        r == has_connected(peers@),
{
    let mut i: usize = 0;
    while i < peers.len()
        invariant
            i <= peers@.len(),
            forall|j: int| 0 <= j < i ==> !(#[trigger] peers@[j]).connected,
        decreases peers@.len() - i,
    {
        if peers[i].connected {
            return true;
        }
        i = i + 1;
    }
    false
}

/// Whether a poll shows convergence; a failed query does not.
pub fn poll_converged(poll: &PeerPoll) -> (r: bool)
    ensures
        r == converged(*poll),
{
    match poll {
        PeerPoll::Listed(peers) => !peers.is_empty() && any_connected(peers),
        PeerPoll::Failed => false,
    }
}

/// Whether another poll is due after `elapsed_secs` of waiting.
pub fn poll_due(elapsed_secs: u64, timeout_secs: u64) -> (r: bool)
    ensures
        r == (elapsed_secs < timeout_secs),
{
    elapsed_secs < timeout_secs
}

proof fn lemma_poll_limit(i: int, t: int, limit: int)
    requires
        0 <= i,
        0 <= t,
        limit == t / 5 + if t % 5 == 0 { 0int } else { 1int },
    ensures
        (5 * i < t) <==> (i < limit),
{
    assert((5 * i < t) <==> (i < limit)) by (nonlinear_arith)
        requires
            0 <= i,
            0 <= t,
            limit == t / 5 + if t % 5 == 0 { 0int } else { 1int },
    ;
}

/// Waits for convergence against scripted polls and a clock that advances
/// one poll interval per poll: `polls[i]` answers the poll made `5 * i`
/// seconds in. Returns the number of the poll that saw a connected peer,
/// or `None` when the deadline passed first.
pub fn wait_for_peer_scripted(polls: &Vec<PeerPoll>, timeout_secs: u64) -> (r: Option<usize>)
    ensures
        match r {
            Some(i) => {
                &&& i < polls@.len()
                &&& poll_in_time(i as int, timeout_secs)
                &&& converged(polls@[i as int])
                &&& forall|j: int| 0 <= j < i ==> !converged(#[trigger] polls@[j])
            },
            None => forall|j: int|
                0 <= j < polls@.len() && poll_in_time(j, timeout_secs) ==> !converged(
                    #[trigger] polls@[j],
                ),
        },
{
    let limit: u64 = timeout_secs / PEER_POLL_INTERVAL_SECS + if timeout_secs % PEER_POLL_INTERVAL_SECS
        == 0 {
        0
    } else {
        1
    };
    let mut i: usize = 0;
    while i < polls.len() && (i as u64) < limit
        invariant
            i <= polls@.len(),
            limit == timeout_secs / 5 + if timeout_secs % 5 == 0 { 0int } else { 1int },
            forall|j: int| 0 <= j < i ==> !converged(#[trigger] polls@[j]),
        decreases polls@.len() - i,
    {
        if poll_converged(&polls[i]) {
            proof {
                lemma_poll_limit(i as int, timeout_secs as int, limit as int);
            }
            return Some(i);
        }
        i = i + 1;
    }
    proof {
        assert forall|j: int|
            0 <= j < polls@.len() && poll_in_time(j, timeout_secs) implies !converged(
                #[trigger] polls@[j],
            ) by {
            lemma_poll_limit(j, timeout_secs as int, limit as int);
        }
    }
    None
}

} // verus!
