//! The public address that a port mapping on the gateway yields.

use vstd::prelude::*;

verus! {

/// The node's public address: IP and port, as text.
#[derive(Debug)]
pub struct Address {
    pub ip: String,
    pub port: String,
}

} // verus!
