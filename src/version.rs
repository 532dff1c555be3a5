//! Version comparison: the minimum-version gate at boot and the comparison
//! of a node's versions against a remote node's.

use vstd::prelude::*;

verus! {

/// How one version number orders against another.
#[derive(Clone, Copy, Debug, PartialEq, Eq, Structural)]
pub enum VersionOrder {
    Older,
    Same,
    Newer,
}

/// How version `a` orders against version `b`; `None` where either is not a
/// valid version number.
pub uninterp spec fn version_order(a: Seq<char>, b: Seq<char>) -> Option<VersionOrder>;

/// Relies on version_compare's `compare`: `Ok(Lt)`, `Ok(Eq)` or `Ok(Gt)` as
/// `a` is older than, equal to or newer than `b`, and `Err` where either
/// string is not a version number.
#[verifier::external_body]
pub(crate) fn compare_versions(a: &str, b: &str) -> (r: Option<VersionOrder>)
    ensures
        r == version_order(a@, b@),
{
    match version_compare::compare(a, b) {
        Ok(version_compare::Cmp::Lt) => Some(VersionOrder::Older),
        Ok(version_compare::Cmp::Gt) => Some(VersionOrder::Newer),
        Ok(_) => Some(VersionOrder::Same),
        Err(_) => None,
    }
}

/// Why the running software may not join a network.
#[derive(Clone, Copy, Debug, PartialEq, Eq, Structural)]
pub enum VersionRefusal {
    /// The running core is older than the network's minimum.
    TooOld,
    /// One of the two version strings is not a version number.
    Unparsable,
}

/// The verdict of the minimum-version gate on the comparison of the running
/// core version against the network's minimum.
pub open spec fn gate_verdict(order: Option<VersionOrder>) -> Result<(), VersionRefusal> {
    match order {
        None => Err(VersionRefusal::Unparsable),
        Some(VersionOrder::Older) => Err(VersionRefusal::TooOld),
        Some(_) => Ok(()),
    }
}

/// Admits the running core version `core` on a network whose minimum is
/// `minimum` when it is not older.
pub fn min_version_gate(core: &str, minimum: &str) -> (r: Result<(), VersionRefusal>)
    ensures
        r == gate_verdict(version_order(core@, minimum@)),
{
    gate_from_order(compare_versions(core, minimum))
}

/// The minimum-version gate on an already computed comparison.
pub fn gate_from_order(order: Option<VersionOrder>) -> (r: Result<(), VersionRefusal>)
    ensures
        r == gate_verdict(order),
{
    match order {
        None => Err(VersionRefusal::Unparsable),
        Some(VersionOrder::Older) => Err(VersionRefusal::TooOld),
        Some(_) => Ok(()),
    }
}

/// What a comparison with a remote node's versions tells the operator.
#[derive(Clone, Copy, Debug, PartialEq, Eq, Structural)]
pub enum VersionNotice {
    /// The local node version is older than the remote one.
    NodeOutdated,
    /// The local node version is newer than the remote one.
    NodeNewer,
    /// The remote core version orders before the local one.
    CoreOutdated,
    /// The remote core version orders after the local one.
    CoreNewer,
    /// Both versions agree.
    UpToDate,
    /// A version string is not a version number.
    Unparsable,
}

/// The notice for a node-version comparison `node` (local against remote)
/// and a core-version comparison `core` (remote against local). The node
/// version decides first.
pub open spec fn notice_of(node: Option<VersionOrder>, core: Option<VersionOrder>) -> VersionNotice {
    if node is None || core is None {
        VersionNotice::Unparsable
    } else if node == Some(VersionOrder::Older) {
        VersionNotice::NodeOutdated
    } else if node == Some(VersionOrder::Newer) {
        VersionNotice::NodeNewer
    } else if core == Some(VersionOrder::Older) {
        VersionNotice::CoreOutdated
    } else if core == Some(VersionOrder::Newer) {
        VersionNotice::CoreNewer
    } else {
        VersionNotice::UpToDate
    }
}

/// The notice on a pair of comparisons already computed.
pub fn notice_from_orders(node: Option<VersionOrder>, core: Option<VersionOrder>) -> (r: VersionNotice)
    ensures
        r == notice_of(node, core),
{
    match (node, core) {
        (None, _) | (_, None) => VersionNotice::Unparsable,
        (Some(VersionOrder::Older), _) => VersionNotice::NodeOutdated,
        (Some(VersionOrder::Newer), _) => VersionNotice::NodeNewer,
        (_, Some(VersionOrder::Older)) => VersionNotice::CoreOutdated,
        (_, Some(VersionOrder::Newer)) => VersionNotice::CoreNewer,
        _ => VersionNotice::UpToDate,
    }
}

/// Compares the local `(node, core)` versions with a remote node's: the
/// node versions local against remote, the core versions remote against
/// local.
pub fn check_version(local_version: (String, String), remote_version: (String, String)) -> (r:
    VersionNotice)
    ensures
        r == notice_of(
            version_order(local_version.0@, remote_version.0@),
            version_order(remote_version.1@, local_version.1@),
        ),
{
    let node = compare_versions(local_version.0.as_str(), remote_version.0.as_str());
    let core = compare_versions(remote_version.1.as_str(), local_version.1.as_str());
    notice_from_orders(node, core)
}

} // verus!
