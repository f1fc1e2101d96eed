//! The networks whose consensus rules this library knows.

use crate::params::Params;
use crate::params::{mainnet, regtest, signet, testnet3, testnet4};
use crate::pow::Target;
use vstd::prelude::*;

verus! {

/// A network that has consensus parameters of its own.
///
/// The set is closed: every function that selects by network handles each
/// of the five, so none of them can fail.
#[derive(Clone, Copy, Debug, PartialEq, Eq, Structural, Hash)]
pub enum Network {
    /// The main network.
    Bitcoin,
    /// The public test network, in its third version.
    Testnet,
    /// The public test network, in its fourth version.
    Testnet4,
    /// The signed test network.
    Signet,
    /// A local regression-test network.
    Regtest,
}

impl Network {
    /// The consensus parameters of this network, shared and read-only for
    /// the life of the process.
    pub fn params(self) -> (params: &'static Params)
        ensures
            *params == Params::spec_new(self),
            params.network == self,
            params.max_attainable_target == Target::max_attainable(self),
            params.well_formed(),
    {
        match self {
            Network::Bitcoin => mainnet(),
            Network::Testnet => testnet3(),
            Network::Testnet4 => testnet4(),
            Network::Signet => signet(),
            Network::Regtest => regtest(),
        }
    }
}

impl AsRef<Params> for Network {
    /// A network stands for its own parameters.
    fn as_ref(&self) -> (params: &Params)
        ensures
            *params == Params::spec_new(*self),
    {
        self.params()
    }
}

} // verus!
