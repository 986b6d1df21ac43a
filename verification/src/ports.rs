//! Choosing the port that the backend listens on.
//!
//! The preferred ports are tried in order (5000, 5001, 5002, 5003, 5004,
//! 8080, 3000), then every port of 8000..9000; the first one that can be
//! bound wins.
use vstd::prelude::*;

verus! {

/// The preferred ports, in the order they are tried.
pub const DEFAULT_PORTS: [u16; 7] = [5000, 5001, 5002, 5003, 5004, 8080, 3000];

/// First port of the fallback range.
pub const FALLBACK_PORT_START: u16 = 8000;

/// End (exclusive) of the fallback range.
pub const FALLBACK_PORT_END: u16 = 9000;

/// The port that a health check probes when the caller names none and no
/// backend is registered.
pub const FALLBACK_HEALTH_PORT: u16 = 5000;

/// The preferred ports, in order.
pub open spec fn default_ports() -> Seq<u16> {
    seq![5000u16, 5001u16, 5002u16, 5003u16, 5004u16, 8080u16, 3000u16]
}

/// How many ports are tried in all.
pub open spec fn candidate_count() -> int {
    7 + (FALLBACK_PORT_END - FALLBACK_PORT_START)
}

/// The `i`-th port tried: the preferred ports, then the fallback range in
/// increasing order.
pub open spec fn candidate_port(i: int) -> u16 {
    if i < 7 {
        default_ports()[i]
    } else {
        (FALLBACK_PORT_START + (i - 7)) as u16
    }
}

/// The `i`-th port tried.
pub fn candidate_port_at(i: usize) -> (p: u16)
    requires
        i < candidate_count(),
    ensures
        p == candidate_port(i as int),
{
    if i < 7 {
        let ports = DEFAULT_PORTS;
        assert(ports@ == default_ports());
        ports[i]
    } else {
        FALLBACK_PORT_START + (i - 7) as u16
    }
}

/// Picks the backend's port: the first candidate that `is_port_available`
/// reports free, trying them in order and stopping at the first success.
///
/// `Some(p)`: `p` is the `k`-th candidate, the probe answered `true` for it
/// and `false` for every candidate before it. `None`: the probe answered
/// `false` for every candidate.
pub fn pick_available_port<F: Fn(u16) -> bool>(is_port_available: F) -> (port: Option<u16>)
    requires
        forall|p: u16| is_port_available.requires((p,)),
    ensures
        match port {
            Some(p) => exists|k: int|
                0 <= k < candidate_count() && p == candidate_port(k)
                    && is_port_available.ensures((p,), true) && forall|j: int|
                    0 <= j < k ==> is_port_available.ensures(
                        (#[trigger] candidate_port(j),),
                        false,
                    ),
            None => forall|j: int|
                0 <= j < candidate_count() ==> is_port_available.ensures(
                    (#[trigger] candidate_port(j),),
                    false,
                ),
        },
{
    let n: usize = 7 + (FALLBACK_PORT_END - FALLBACK_PORT_START) as usize;
    let mut i: usize = 0;
    while i < n
        invariant
            n == candidate_count(),
            i <= n,
            forall|p: u16| is_port_available.requires((p,)),
            forall|j: int|
                0 <= j < i ==> is_port_available.ensures((#[trigger] candidate_port(j),), false),
        decreases n - i,
    {
        let p = candidate_port_at(i);
        if is_port_available(p) {
            return Some(p);
        }
        i = i + 1;
    }
    None
}

/// The port that a health check probes: the one asked for, else the port of
/// the registered backend, else [`FALLBACK_HEALTH_PORT`].
pub fn health_check_port(requested: Option<u16>, registered: Option<u16>) -> (port: u16)
    ensures
        port == match requested {
            Some(p) => p,
            None => match registered {
                Some(r) => r,
                None => FALLBACK_HEALTH_PORT,
            },
        },
{
    match requested {
        Some(p) => p,
        None => match registered {
            Some(r) => r,
            None => FALLBACK_HEALTH_PORT,
        },
    }
}

} // verus!
