use vstd::prelude::*;

verus! {

/// The first port that is probed for a free local port.
pub const FIRST_CANDIDATE_PORT: u16 = 8000;

/// The port just past the last one probed.
pub const END_CANDIDATE_PORT: u16 = 9000;

/// Finds a free port on `ip`: probes 8000, 8001, ... up to 8999 in order with
/// `port_is_available` and returns the first port the probe accepts, or `None`
/// when it accepts none. Each probe may answer differently on each call (it
/// tries to bind a socket), so the contract speaks of the answers given.
pub fn get_available_port<F: Fn(&str, u16) -> bool>(ip: &str, port_is_available: F) -> (r: Option<u16>)
    requires
        forall|p: u16|
            FIRST_CANDIDATE_PORT <= p < END_CANDIDATE_PORT ==> #[trigger] port_is_available.requires((ip, p)),
    ensures
        r matches Some(p) ==> {
            &&& FIRST_CANDIDATE_PORT <= p < END_CANDIDATE_PORT
            &&& port_is_available.ensures((ip, p), true)
            &&& forall|q: u16|
                FIRST_CANDIDATE_PORT <= q < p ==> #[trigger] port_is_available.ensures((ip, q), false)
        },
        r is None ==> forall|q: u16|
            FIRST_CANDIDATE_PORT <= q < END_CANDIDATE_PORT ==> #[trigger] port_is_available.ensures(
                (ip, q),
                false,
            ),
{
    let mut port: u16 = FIRST_CANDIDATE_PORT;
    while port < END_CANDIDATE_PORT
        invariant
            FIRST_CANDIDATE_PORT <= port <= END_CANDIDATE_PORT,
            forall|p: u16|
                FIRST_CANDIDATE_PORT <= p < END_CANDIDATE_PORT ==> #[trigger] port_is_available.requires((ip, p)),
            forall|q: u16|
                FIRST_CANDIDATE_PORT <= q < port ==> #[trigger] port_is_available.ensures((ip, q), false),
        decreases END_CANDIDATE_PORT - port,
    {
        let free = port_is_available(ip, port);
        if free {
            return Some(port);
        }
        port = port + 1;
    }
    None
}

} // verus!
