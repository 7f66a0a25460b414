//! Listening without encryption.
use vstd::prelude::*;

use crate::network::{IpAddr, NetworkAddr, LOOPBACK};

verus! {

/// Where to listen for plain HTTP.
#[derive(Clone, Copy, Debug, PartialEq, Eq, Structural)]
pub struct NetworkConfig {
    pub address: NetworkAddr,
}

impl Default for NetworkConfig {
    fn default() -> (r: NetworkConfig)
        ensures
            r.address == (NetworkAddr { ip: IpAddr::V4(0x7f00_0001), port: 80 }),
    {
        NetworkConfig { address: NetworkAddr { ip: IpAddr::V4(LOOPBACK), port: 80 } }
    }
}

} // verus!
