//! Ceilings on proof-of-work targets.

use crate::network::Network;
use vstd::prelude::*;

verus! {

/// The loosest proof-of-work target that the block headers of a network can
/// carry.
///
/// Headers store a target in a compact form that cannot express every
/// number, so the ceiling of a network is the largest target the compact
/// form reaches, not the limit the network was configured with. Networks
/// fall into four families that share a ceiling, and a value of this type
/// says which family's ceiling is meant. The 256-bit number behind each of
/// them is a matter of target arithmetic, which is not part of this
/// library: here a ceiling is selected, stored and compared for equality.
#[derive(Clone, Copy, Debug, PartialEq, Eq, Structural, Hash)]
pub enum Target {
    /// The ceiling of the main network.
    MaxAttainableMainnet,
    /// The ceiling of the public test networks.
    MaxAttainableTestnet,
    /// The ceiling of the signed test network.
    MaxAttainableSignet,
    /// The ceiling of local regression-test networks.
    MaxAttainableRegtest,
}

impl Target {
    /// The ceiling that applies on `network`. Both public test networks
    /// share one.
    pub open spec fn max_attainable(network: Network) -> Target {
        match network {
            Network::Bitcoin => Target::MaxAttainableMainnet,
            Network::Testnet => Target::MaxAttainableTestnet,
            Network::Testnet4 => Target::MaxAttainableTestnet,
            Network::Signet => Target::MaxAttainableSignet,
            Network::Regtest => Target::MaxAttainableRegtest,
        }
    }
}

} // verus!
