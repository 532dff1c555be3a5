//! The liveness supervisor's decision: once per tick it sees which owned
//! services run, and the moment one does not it stops them all, in a fixed
//! order, once each.

use vstd::prelude::*;

verus! {

/// A service that the node owns.
#[derive(Clone, Copy, Debug, PartialEq, Eq, Structural)]
pub enum Service {
    Block,
    Rest,
    Peer,
    Bridge,
    Monitor,
}

/// Which owned services report running at one tick. `monitor` is `None`
/// where the node has no monitor service.
#[derive(Clone, Copy, Debug, PartialEq, Eq, Structural)]
pub struct Liveness {
    pub block: bool,
    pub rest: bool,
    pub peer: bool,
    pub bridge: bool,
    pub monitor: Option<bool>,
}

/// Whether every owned service runs.
pub open spec fn all_running(l: Liveness) -> bool {
    l.block && l.rest && l.peer && l.bridge && (l.monitor matches Some(m) ==> m)
}

/// The order in which the services are stopped.
pub open spec fn stop_order(with_monitor: bool) -> Seq<Service> {
    if with_monitor {
        seq![Service::Block, Service::Rest, Service::Peer, Service::Bridge, Service::Monitor]
    } else {
        seq![Service::Block, Service::Rest, Service::Peer, Service::Bridge]
    }
}

/// The services to stop after a tick: none while all run, else every owned
/// service in the fixed order.
pub fn shutdown_plan(l: Liveness) -> (r: Option<Vec<Service>>)
    ensures
        r is None <==> all_running(l),
        r matches Some(v) ==> v@ == stop_order(l.monitor is Some),
{
    let monitor_running = match l.monitor {
        Some(m) => m,
        None => true,
    };
    if l.block && l.rest && l.peer && l.bridge && monitor_running {
        return None;
    }
    let mut v: Vec<Service> = Vec::new();
    v.push(Service::Block);
    v.push(Service::Rest);
    v.push(Service::Peer);
    v.push(Service::Bridge);
    if l.monitor.is_some() {
        v.push(Service::Monitor);
    }
    Some(v)
}

/// A shutdown stops each owned service exactly once: the monitor where the
/// node has one, and every other service always.
pub proof fn lemma_shutdown_stops_each_once(with_monitor: bool)
    ensures
        stop_order(with_monitor).no_duplicates(),
        forall|s: Service| s != Service::Monitor ==> stop_order(with_monitor).contains(s),
        stop_order(with_monitor).contains(Service::Monitor) == with_monitor,
{
    let o = stop_order(with_monitor);
    assert(o[0] == Service::Block);
    assert(o[1] == Service::Rest);
    assert(o[2] == Service::Peer);
    assert(o[3] == Service::Bridge);
    if with_monitor {
        assert(o[4] == Service::Monitor);
    } else {
        assert forall|i: int| 0 <= i < o.len() implies o[i] != Service::Monitor by {}
    }
    assert forall|s: Service| s != Service::Monitor implies o.contains(s) by {
        match s {
            Service::Block => assert(o[0] == s),
            Service::Rest => assert(o[1] == s),
            Service::Peer => assert(o[2] == s),
            Service::Bridge => assert(o[3] == s),
            Service::Monitor => {},
        }
    }
}

} // verus!
