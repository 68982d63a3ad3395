use vstd::prelude::*;
use crate::text::{occurs_in, text_contains};

verus! {

/// Name of the isolated network the nodes share.
pub const NETWORK_NAME: &'static str = "waku";

/// Driver of that network.
pub const NETWORK_DRIVER: &'static str = "bridge";

/// Its fixed address range.
pub const NETWORK_SUBNET: &'static str = "172.18.0.0/16";

/// Its gateway address.
pub const NETWORK_GATEWAY: &'static str = "172.18.0.1";

/// Name filter that finds the node containers of earlier runs.
pub const NODE_NAME_PREFIX: &'static str = "waku-node";

/// A network creation that the runtime refused.
#[derive(Debug)]
pub enum NetworkError {
    Runtime { message: String },
}

/// The runtime's refusal says the network exists already.
pub open spec fn reports_existing(message: Seq<char>) -> bool {
    occurs_in(message, "already exists"@)
}

/// Whether a network creation that ended with `error` counts as success.
pub open spec fn network_ready(error: Option<String>) -> bool {
    match error {
        None => true,
        Some(m) => reports_existing(m@),
    }
}

/// The outcome of creating the network, given the runtime's error if any:
/// success, also when the network exists already; any other refusal is
/// an error carrying the runtime's message.
pub fn network_outcome(error: Option<String>) -> (r: Result<(), NetworkError>)
    ensures
        r is Ok <==> network_ready(error),
        !network_ready(error) ==> r == Err::<(), NetworkError>(
            NetworkError::Runtime { message: error->0 },
        ),
{
    match error {
        None => Ok(()),
        Some(message) => {
            if text_contains(message.as_str(), "already exists") {
                Ok(())
            } else {
                Err(NetworkError::Runtime { message })
            }
        },
    }
}

/// Creating the network a second time under the same name succeeds: the
/// runtime's "already exists" refusal is taken as success.
pub proof fn network_creation_idempotent(message: String)
    requires
        reports_existing(message@),
    ensures
        network_ready(Some(message)),
{
}

/// A teardown step.
#[derive(Debug, Clone, Copy, PartialEq, Eq, Structural)]
pub enum CleanupAction {
    StopContainer,
    RemoveContainer,
    RemoveNetwork,
}

/// A teardown step that failed; reported, never raised.
#[derive(Debug)]
pub struct CleanupFailure {
    pub action: CleanupAction,
    pub target: String,
    pub message: String,
}

/// The report entry of one step: one failure if the step ended with an error.
pub open spec fn report_entry(action: CleanupAction, target: String, error: Option<String>) -> Seq<
    CleanupFailure,
> {
    match error {
        Some(m) => seq![CleanupFailure { action, target, message: m }],
        None => Seq::empty(),
    }
}

fn push_entry(
    report: &mut Vec<CleanupFailure>,
    action: CleanupAction,
    target: &String,
    error: Option<String>,
)
    ensures
        final(report)@ == old(report)@ + report_entry(action, *target, error),
{
    match error {
        Some(message) => {
            report.push(CleanupFailure { action, target: target.clone(), message });
            assert(final(report)@ =~= old(report)@ + report_entry(action, *target, error));
        },
        None => {
            assert(final(report)@ =~= old(report)@ + report_entry(action, *target, error));
        },
    }
}

/// The failures of tearing a node's container down, in order: stopping,
/// then removing. A container that is already gone fails both steps and
/// yields two entries; nothing is ever raised.
pub fn node_cleanup_failures(
    container_id: &String,
    stop_error: Option<String>,
    remove_error: Option<String>,
) -> (r: Vec<CleanupFailure>)
    ensures
        r@ == report_entry(CleanupAction::StopContainer, *container_id, stop_error) + report_entry(
            CleanupAction::RemoveContainer,
            *container_id,
            remove_error,
        ),
{
    let mut report: Vec<CleanupFailure> = Vec::new();
    push_entry(&mut report, CleanupAction::StopContainer, container_id, stop_error);
    push_entry(&mut report, CleanupAction::RemoveContainer, container_id, remove_error);
    assert(report@ =~= report_entry(CleanupAction::StopContainer, *container_id, stop_error)
        + report_entry(CleanupAction::RemoveContainer, *container_id, remove_error));
    report
}

/// Tearing down a container that is already gone raises nothing: both
/// failed steps are reported, stopping first, for that container.
pub proof fn removed_container_is_reported(container_id: String, stop_message: String, remove_message: String)
    ensures
        ({
            let report = report_entry(CleanupAction::StopContainer, container_id, Some(stop_message))
                + report_entry(CleanupAction::RemoveContainer, container_id, Some(remove_message));
            &&& report.len() == 2
            &&& report[0].action == CleanupAction::StopContainer
            &&& report[1].action == CleanupAction::RemoveContainer
            &&& report[0].target == container_id
            &&& report[1].target == container_id
        }),
{
}

/// The failures of removing the network.
pub fn network_cleanup_failures(name: &String, remove_error: Option<String>) -> (r: Vec<
    CleanupFailure,
>)
    ensures
        r@ == report_entry(CleanupAction::RemoveNetwork, *name, remove_error),
{
    let mut report: Vec<CleanupFailure> = Vec::new();
    push_entry(&mut report, CleanupAction::RemoveNetwork, name, remove_error);
    assert(report@ =~= report_entry(CleanupAction::RemoveNetwork, *name, remove_error));
    report
}

/// The identifiers present in a container listing, in order.
pub open spec fn present_ids(s: Seq<Option<String>>) -> Seq<String>
    decreases s.len(),
{
    if s.len() == 0 {
        Seq::empty()
    } else {
        let rest = present_ids(s.drop_last());
        match s.last() {
            Some(id) => rest.push(id),
            None => rest,
        }
    }
}

/// The containers of a listing to stop and remove: those with an identifier.
pub fn containers_to_clean(ids: &Vec<Option<String>>) -> (r: Vec<String>)
    ensures
        r@ == present_ids(ids@),
{
    let mut r: Vec<String> = Vec::new();
    let mut i: usize = 0;
    while i < ids.len()
        invariant
            i <= ids@.len(),
            r@ == present_ids(ids@.subrange(0, i as int)),
        decreases ids@.len() - i,
    {
        proof {
            assert(ids@.subrange(0, i + 1).drop_last() =~= ids@.subrange(0, i as int));
        }
        match &ids[i] {
            Some(id) => {
                r.push(id.clone());
            },
            None => {},
        }
        i = i + 1;
    }
    assert(ids@.subrange(0, ids@.len() as int) =~= ids@);
    r
}

} // verus!
