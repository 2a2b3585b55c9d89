//! The periodic tasks' per-tick decisions. The announcer and the prober each
//! wake on their own cadence, read the ownership flag, and either produce the
//! bytes to transmit or stay silent; the surrounding loops only sleep, read
//! the flag, and send what these functions hand them.

use vstd::prelude::*;
use crate::frame::announcement_frame;
use crate::frame::build_announcement;

verus! {

/// One announcer tick. While the flag is up it yields the gratuitous ARP
/// announcement to broadcast; the first tick that reads the flag down yields
/// nothing, and the announcer loop stops. The flag is re-read before every
/// send, so the announcer outlives the turn by at most one interval.
pub fn announcer_step(holding: bool, mac: &[u8; 6], ip: &[u8; 4]) -> (r: Option<Vec<u8>>)
    ensures
        holding <==> r is Some,
        r matches Some(f) ==> f@ == announcement_frame(mac@, ip@),
{
    if holding {
        Some(build_announcement(mac, ip))
    } else {
        None
    }
}

/// The fixed diagnostic payload of a heartbeat probe: the ASCII bytes of
/// the word `hello`.
pub open spec fn probe_payload() -> Seq<u8> {
    seq![104u8, 101u8, 108u8, 108u8, 111u8]
}

/// One prober tick. While the flag is down it yields the heartbeat payload
/// to send to the shared address at the probe port; while this host itself
/// holds the address the tick is skipped.
pub fn prober_step(holding: bool) -> (r: Option<Vec<u8>>)
    ensures
        !holding <==> r is Some,
        r matches Some(p) ==> p@ == probe_payload(),
{
    if holding {
        None
    } else {
        let p: Vec<u8> = vec![104u8, 101u8, 108u8, 108u8, 111u8];
        proof {
            assert(p@ =~= probe_payload());
        }
        Some(p)
    }
}

} // verus!
