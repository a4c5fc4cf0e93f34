//! The port resolver: the scan for a free port for the control endpoint.
//!
//! Whether a port is free only the operating system can tell, so the scan
//! takes the probe from its host. A port found free can be taken by
//! another process before the worker binds it; that shows as a failed
//! start, not here.

use vstd::prelude::*;

verus! {

/// The highest port number.
pub const MAX_PORT: u16 = 65535;

/// Milliseconds that a connection to a port may take to be answered.
pub const CONNECT_TIMEOUT_MILLIS: u64 = 100;

/// What came of the attempt to connect to a port of this machine.
#[derive(Debug, Clone, Copy, PartialEq, Eq)]
pub enum ConnectOutcome {
    /// Something accepted the connection.
    Connected,
    /// The connection failed.
    Refused,
    /// No answer came within [`CONNECT_TIMEOUT_MILLIS`].
    TimedOut,
}

/// Says whether a port is in use, given what came of a short attempt to
/// connect to it: it is in use exactly if something accepted the
/// connection. A failure and a timeout both count as not in use; a
/// listener that is slow to accept is missed.
pub fn is_port_in_use(connect: ConnectOutcome) -> (in_use: bool)
    ensures
        in_use == (connect == ConnectOutcome::Connected),
{
    match connect {
        ConnectOutcome::Connected => true,
        ConnectOutcome::Refused => false,
        ConnectOutcome::TimedOut => false,
    }
}

/// How the scan goes on after a candidate has been probed.
#[derive(Debug, Clone, Copy, PartialEq, Eq)]
pub enum ScanStep {
    /// The candidate is the result.
    Found(u16),
    /// The candidate is taken; this one is next.
    Try(u16),
    /// The candidate is taken and was the last.
    Exhausted,
}

/// A candidate is accepted when a listener could be bound to it and no
/// connection to it was answered.
pub open spec fn port_accepted(bound: bool, in_use: bool) -> bool {
    bound && !in_use
}

/// The scan is linear: an accepted candidate ends it, a taken one is
/// followed by the next higher port as long as there is one.
pub open spec fn scan_next(port: u16, accepted: bool) -> ScanStep {
    if accepted {
        ScanStep::Found(port)
    } else if port == MAX_PORT {
        ScanStep::Exhausted
    } else {
        ScanStep::Try((port + 1) as u16)
    }
}

/// Says how the scan goes on after `port` has been probed: `bound` tells
/// whether a listener could be bound to it, `in_use` whether a connection to
/// it was answered. A host that does not try to connect passes `false`.
pub fn scan_step(port: u16, bound: bool, in_use: bool) -> (step: ScanStep)
    ensures
        step == scan_next(port, port_accepted(bound, in_use)),
{
    if bound && !in_use {
        ScanStep::Found(port)
    } else if port == MAX_PORT {
        ScanStep::Exhausted
    } else {
        ScanStep::Try(port + 1)
    }
}

/// Finds the first port from `start_port` upwards that `probe` reports as
/// free, asking about each candidate once and in ascending order.
///
/// The result is never below `start_port`, the probe said yes to it, and it
/// said no to every port between `start_port` and the result. Without a
/// result the probe said no to every port from `start_port` to the highest.
pub fn find_available_port<F: Fn(u16) -> bool>(start_port: u16, probe: F) -> (found: Option<u16>)
    requires
        forall|port: u16| start_port <= port ==> #[trigger] probe.requires((port,)),
    ensures
        match found {
            Some(port) => start_port <= port && probe.ensures((port,), true) && forall|
                earlier: u16,
            |
                start_port <= earlier < port ==> probe.ensures((earlier,), false),
            None => forall|port: u16| start_port <= port ==> probe.ensures((port,), false),
        },
{
    let mut port: u16 = start_port;
    loop
        invariant
            start_port <= port,
            forall|port: u16| start_port <= port ==> #[trigger] probe.requires((port,)),
            forall|earlier: u16| start_port <= earlier < port ==> probe.ensures((earlier,), false),
        decreases MAX_PORT - port,
    {
        let bound = probe(port);
        match scan_step(port, bound, false) {
            ScanStep::Found(found) => {
                return Some(found);
            },
            ScanStep::Try(next) => {
                port = next;
            },
            ScanStep::Exhausted => {
                return None;
            },
        }
    }
}

/// Finds the first port from `start_port` upwards that passes both probes:
/// a listener can be bound to it, and a connection to it is not answered.
/// The second probe, which a host makes without blocking, is made only of
/// ports that passed the first.
///
/// The result is never below `start_port`, it passed both probes, and every
/// port between `start_port` and the result failed one of them. Without a
/// result every port from `start_port` to the highest failed one of them.
pub fn find_available_port_async<B: Fn(u16) -> bool, C: Fn(u16) -> bool>(
    start_port: u16,
    can_bind: B,
    is_in_use: C,
) -> (found: Option<u16>)
    requires
        forall|port: u16| start_port <= port ==> #[trigger] can_bind.requires((port,)),
        forall|port: u16| start_port <= port ==> #[trigger] is_in_use.requires((port,)),
    ensures
        match found {
            Some(port) => start_port <= port && can_bind.ensures((port,), true)
                && is_in_use.ensures((port,), false) && forall|earlier: u16|
                start_port <= earlier < port ==> can_bind.ensures((earlier,), false)
                    || is_in_use.ensures((earlier,), true),
            None => forall|port: u16|
                start_port <= port ==> can_bind.ensures((port,), false) || is_in_use.ensures(
                    (port,),
                    true,
                ),
        },
{
    let mut port: u16 = start_port;
    loop
        invariant
            start_port <= port,
            forall|port: u16| start_port <= port ==> #[trigger] can_bind.requires((port,)),
            forall|port: u16| start_port <= port ==> #[trigger] is_in_use.requires((port,)),
            forall|earlier: u16|
                start_port <= earlier < port ==> can_bind.ensures((earlier,), false)
                    || is_in_use.ensures((earlier,), true),
        decreases MAX_PORT - port,
    {
        let bound = can_bind(port);
        let in_use = bound && is_in_use(port);
        match scan_step(port, bound, in_use) {
            ScanStep::Found(found) => {
                return Some(found);
            },
            ScanStep::Try(next) => {
                port = next;
            },
            ScanStep::Exhausted => {
                return None;
            },
        }
    }
}

} // verus!
