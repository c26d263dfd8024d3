//! What one pass remembers for the next.

use vstd::prelude::*;
use crate::address::Ipv4;

verus! {

/// The persisted cache: the address most recently written to the DNS record.
#[derive(Clone, Copy, Debug, PartialEq, Eq, Structural)]
pub struct State {
    pub last_sent_ip: Option<Ipv4>,
}

} // verus!
