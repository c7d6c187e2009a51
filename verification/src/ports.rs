//! Allocation of the two control-socket ports.
//!
//! The launcher needs two distinct unused network ports: one for the admin
//! interface and one for the data-plane interface. Which port is free depends
//! on the machine's state at the moment of the call, so nothing can be
//! promised about the picked value; the pair-allocation logic around the call
//! is verified to hand back two distinct ports or nothing.

use vstd::prelude::*;

verus! {

/// How often the pair allocation retries the second pick before giving up.
pub const PORT_PICK_ATTEMPTS: usize = 16;

/// Relies on portpicker::pick_unused_port: returns a port that was free on
/// both TCP and UDP when probed, or `None` when none was found. The result
/// depends on the machine's state, so nothing is promised about it.
#[verifier::external_body]
fn pick_unused_port() -> Option<u16> {
    portpicker::pick_unused_port()
}

/// Allocates two distinct unused ports: the admin port and the data-plane
/// port. Returns `None` when no port is free, or when every retry for the
/// second port returned the same port as the first.
pub fn allocate_port_pair() -> (r: Option<(u16, u16)>)
    ensures
        r matches Some(pair) ==> pair.0 != pair.1,
{
    let first = match pick_unused_port() {
        Some(p) => p,
        None => {
            return None;
        },
    };
    let mut attempt: usize = 0;
    while attempt < PORT_PICK_ATTEMPTS
        invariant
            attempt <= PORT_PICK_ATTEMPTS,
        decreases PORT_PICK_ATTEMPTS - attempt,
    {
        match pick_unused_port() {
            Some(second) => {
                if second != first {
                    return Some((first, second));
                }
            },
            None => {
                return None;
            },
        }
        attempt = attempt + 1;
    }
    None
}

} // verus!
