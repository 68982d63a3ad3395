use vstd::prelude::*;
use crate::model::{ApiResponse, NodeInfo};

verus! {

/// Attempts made to fetch a node's info before giving up.
pub const MAX_INFO_ATTEMPTS: u32 = 5;

/// Fixed pause between two attempts, in seconds.
pub const INFO_RETRY_DELAY_SECS: u64 = 2;

/// What one request to a node's info endpoint produced.
pub enum InfoReply {
    /// The request did not reach the node.
    Unreachable,
    /// The node answered with this non-success status.
    Status(u16),
    /// The node answered with success but the body could not be read.
    Unreadable,
    /// The body of a success answer, decoded as a bare record and as an
    /// enveloped one (`None` where that shape did not match).
    Body { bare: Option<NodeInfo>, wrapped: Option<ApiResponse<NodeInfo>> },
}

/// Why a node's info could not be resolved.
#[derive(Debug, PartialEq, Eq, Structural)]
pub enum InfoError {
    /// A success answer matched neither document shape.
    Malformed,
    /// A success answer's body could not be read.
    Unreadable,
    /// Every attempt of the budget failed transiently.
    Exhausted { attempts: u32 },
}

/// What the resolver does after an attempt.
pub enum InfoStep {
    RetryAfter { delay_secs: u64, next_attempt: u32 },
    Resolved(NodeInfo),
    Failed(InfoError),
}

/// Transport failures and non-success statuses are worth another attempt.
pub open spec fn transient(r: InfoReply) -> bool {
    r is Unreachable || r is Status
}

/// The bare shape first, then the envelope; neither is a parse error.
pub open spec fn decoded(bare: Option<NodeInfo>, wrapped: Option<ApiResponse<NodeInfo>>) -> Result<
    NodeInfo,
    InfoError,
> {
    match bare {
        Some(info) => Ok(info),
        None => match wrapped {
            Some(env) => Ok(env.data),
            None => Err(InfoError::Malformed),
        },
    }
}

/// The outcome of a reply that ends the resolution.
pub open spec fn final_outcome(r: InfoReply) -> Result<NodeInfo, InfoError> {
    match r {
        InfoReply::Body { bare, wrapped } => decoded(bare, wrapped),
        InfoReply::Unreadable => Err(InfoError::Unreadable),
        _ => Err(InfoError::Exhausted { attempts: MAX_INFO_ATTEMPTS }),
    }
}

/// The resolver's decision after attempt number `attempt` produced `r`.
pub open spec fn info_step_spec(attempt: u32, r: InfoReply) -> InfoStep {
    if transient(r) {
        if attempt < MAX_INFO_ATTEMPTS {
            InfoStep::RetryAfter { delay_secs: INFO_RETRY_DELAY_SECS, next_attempt: (attempt + 1) as u32 }
        } else {
            InfoStep::Failed(InfoError::Exhausted { attempts: MAX_INFO_ATTEMPTS })
        }
    } else {
        match final_outcome(r) {
            Ok(info) => InfoStep::Resolved(info),
            Err(e) => InfoStep::Failed(e),
        }
    }
}

/// Picks the first document shape that matched.
pub fn decode_node_info(bare: Option<NodeInfo>, wrapped: Option<ApiResponse<NodeInfo>>) -> (r: Result<
    NodeInfo,
    InfoError,
>)
    ensures
        r == decoded(bare, wrapped),
{
    match bare {
        Some(info) => Ok(info),
        None => match wrapped {
            Some(env) => Ok(env.data),
            None => Err(InfoError::Malformed),
        },
    }
}

/// Decides what follows attempt number `attempt`.
pub fn info_step(attempt: u32, reply: InfoReply) -> (r: InfoStep)
    requires
        1 <= attempt <= MAX_INFO_ATTEMPTS,
    ensures
        r == info_step_spec(attempt, reply),
{
    match reply {
        InfoReply::Unreachable | InfoReply::Status(_) => {
            if attempt < MAX_INFO_ATTEMPTS {
                InfoStep::RetryAfter { delay_secs: INFO_RETRY_DELAY_SECS, next_attempt: attempt + 1 }
            } else {
                InfoStep::Failed(InfoError::Exhausted { attempts: MAX_INFO_ATTEMPTS })
            }
        },
        InfoReply::Unreadable => InfoStep::Failed(InfoError::Unreadable),
        InfoReply::Body { bare, wrapped } => match decode_node_info(bare, wrapped) {
            Ok(info) => InfoStep::Resolved(info),
            Err(e) => InfoStep::Failed(e),
        },
    }
}

/// The reply to attempt `i + 1` of a scripted transport; past the end of
/// the script the node is unreachable.
pub open spec fn reply_at(s: Seq<InfoReply>, i: int) -> InfoReply {
    if 0 <= i < s.len() {
        s[i]
    } else {
        InfoReply::Unreachable
    }
}

/// The outcome of resolving against the script `s` from attempt `attempt`
/// on, and the number of the last attempt made.
pub open spec fn run_from(s: Seq<InfoReply>, attempt: nat) -> (Result<NodeInfo, InfoError>, nat)
    decreases 6 - attempt,
{
    if attempt < 1 || attempt > 5 {
        (Err(InfoError::Exhausted { attempts: MAX_INFO_ATTEMPTS }), 5)
    } else {
        match info_step_spec(attempt as u32, reply_at(s, attempt - 1)) {
            InfoStep::RetryAfter { .. } => run_from(s, attempt + 1),
            InfoStep::Resolved(info) => (Ok(info), attempt),
            InfoStep::Failed(e) => (Err(e), attempt),
        }
    }
}

/// Runs the resolver against a scripted transport: `replies[i]` answers
/// attempt `i + 1`. Returns the outcome and the number of attempts made.
pub fn resolve_from_replies(replies: Vec<InfoReply>) -> (r: (Result<NodeInfo, InfoError>, u32))
    ensures
        r.0 == run_from(replies@, 1).0,
        r.1 as nat == run_from(replies@, 1).1,
{
    let ghost s = replies@;
    let mut rest = replies;
    let mut attempt: u32 = 1;
    loop
        invariant
            1 <= attempt <= MAX_INFO_ATTEMPTS,
            s == replies@,
            attempt - 1 <= s.len() ==> rest@ == s.subrange(attempt - 1, s.len() as int),
            attempt - 1 > s.len() ==> rest@.len() == 0,
            run_from(s, attempt as nat) == run_from(s, 1),
        decreases MAX_INFO_ATTEMPTS - attempt,
    {
        let reply = if rest.len() > 0 {
            rest.remove(0)
        } else {
            InfoReply::Unreachable
        };
        assert(reply == reply_at(s, attempt - 1));
        let step = info_step(attempt, reply);
        proof {
            let n = attempt as nat;
            assert(run_from(s, n) == match info_step_spec(n as u32, reply_at(s, n - 1)) {
                InfoStep::RetryAfter { .. } => run_from(s, n + 1),
                InfoStep::Resolved(info) => (Ok(info), n),
                InfoStep::Failed(e) => (Err(e), n),
            });
        }
        match step {
            InfoStep::RetryAfter { next_attempt, .. } => {
                attempt = next_attempt;
            },
            InfoStep::Resolved(info) => {
                return (Ok(info), attempt);
            },
            InfoStep::Failed(e) => {
                return (Err(e), attempt);
            },
        }
    }
}

proof fn lemma_transient_prefix(s: Seq<InfoReply>, a: nat, k: nat)
    requires
        1 <= a <= k + 1,
        k < 5,
        forall|i: int| 0 <= i < k ==> transient(#[trigger] reply_at(s, i)),
    ensures
        run_from(s, a) == run_from(s, k + 1),
    decreases k + 1 - a,
{
    if a < k + 1 {
        assert(transient(reply_at(s, a - 1)));
        lemma_transient_prefix(s, a + 1, k);
    }
}

/// Resolution retries exactly as long as attempts fail transiently: when
/// the first `k` attempts fail that way and attempt `k + 1` (within the
/// budget) gets an answer, the outcome is that answer's, after `k + 1`
/// attempts. In particular four failures and then a good body resolve on
/// the fifth attempt.
pub proof fn resolves_at_first_answer(s: Seq<InfoReply>, k: nat)
    requires
        k < MAX_INFO_ATTEMPTS,
        forall|i: int| 0 <= i < k ==> transient(#[trigger] reply_at(s, i)),
        !transient(reply_at(s, k as int)),
    ensures
        run_from(s, 1) == (final_outcome(reply_at(s, k as int)), k + 1),
{
    lemma_transient_prefix(s, 1, k);
}

/// A transport that fails on every attempt is asked exactly the budget of
/// five times, and the resolution then fails as exhausted.
pub proof fn exhausts_budget_when_always_failing(s: Seq<InfoReply>)
    requires
        forall|i: int| 0 <= i < MAX_INFO_ATTEMPTS ==> transient(#[trigger] reply_at(s, i)),
    ensures
        run_from(s, 1) == (Err::<NodeInfo, InfoError>(InfoError::Exhausted { attempts: 5 }), 5nat),
{
    lemma_transient_prefix(s, 1, 4);
    assert(transient(reply_at(s, 4)));
}

/// A bare record and the same record in an envelope resolve alike, on any
/// attempt.
pub proof fn both_shapes_resolve_alike(info: NodeInfo, attempt: u32)
    ensures
        decoded(Some(info), None) == Ok::<NodeInfo, InfoError>(info),
        decoded(None, Some(ApiResponse { data: info })) == Ok::<NodeInfo, InfoError>(info),
        info_step_spec(attempt, InfoReply::Body { bare: Some(info), wrapped: None })
            == InfoStep::Resolved(info),
        info_step_spec(attempt, InfoReply::Body { bare: None, wrapped: Some(ApiResponse { data: info }) })
            == InfoStep::Resolved(info),
{
}

} // verus!
