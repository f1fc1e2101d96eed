//! The consensus parameters of each network.
//!
//! A [`Params`] record holds the constants that decide which rules apply at
//! which height or time and how often the difficulty is recomputed. The
//! records of the supported networks are fixed tables; [`Params::new`]
//! selects one by network.

use crate::network::Network;
use crate::pow::Target;
use vstd::prelude::*;
use vstd::std_specs::convert::FromSpecImpl;

verus! {

/// Parameters that influence chain consensus.
#[non_exhaustive]
#[derive(Debug, PartialEq, Eq, Structural)]
pub struct Params {
    /// Network for which the parameters are valid.
    pub network: Network,
    /// Time, in seconds since the Unix epoch, at which BIP16 becomes active.
    pub bip16_time: u32,
    /// Block height at which BIP34 becomes active. A height that no chain
    /// will reach says that the rule is never active.
    pub bip34_height: u32,
    /// Block height at which BIP65 becomes active.
    pub bip65_height: u32,
    /// Block height at which BIP66 becomes active.
    pub bip66_height: u32,
    /// Number of blocks of a confirmation window that must signal for a
    /// rule change to lock in. Zero means that every window qualifies.
    pub rule_change_activation_threshold: u32,
    /// Number of consecutive blocks over which signalling is counted.
    pub miner_confirmation_window: u32,
    /// The maximum attainable target value for these parameters: the
    /// loosest target that the compact header form can express on the
    /// network.
    pub max_attainable_target: Target,
    /// Expected number of seconds between two blocks.
    pub pow_target_spacing: u64,
    /// Number of seconds that one difficulty period is meant to last.
    pub pow_target_timespan: u64,
    /// Whether blocks of minimal difficulty may be mined when no block has
    /// been found for a while. Only test networks allow it.
    pub allow_min_difficulty_blocks: bool,
    /// Whether the difficulty is fixed for good. Only the local
    /// regression-test network fixes it.
    pub no_pow_retargeting: bool,
}

impl Params {
    /// What every record must satisfy, whichever network it describes.
    pub open spec fn well_formed(&self) -> bool {
        &&& self.rule_change_activation_threshold <= self.miner_confirmation_window
        &&& self.miner_confirmation_window > 0
        &&& self.pow_target_spacing > 0
        &&& self.pow_target_timespan > 0
        &&& self.max_attainable_target == Target::max_attainable(self.network)
        &&& self.allow_min_difficulty_blocks ==> self.network != Network::Bitcoin
        &&& self.no_pow_retargeting ==> self.network == Network::Regtest
    }

    /// The record of the main network: one-minute blocks, the difficulty
    /// recomputed at every block, 95% of 7,200 blocks to change a rule.
    pub open spec fn spec_mainnet() -> Params {
        Params {
            network: Network::Bitcoin,
            bip16_time: 1_631_485_359,
            bip34_height: 1,
            bip65_height: 1,
            bip66_height: 1,
            rule_change_activation_threshold: 6_840,
            miner_confirmation_window: 7_200,
            max_attainable_target: Target::MaxAttainableMainnet,
            pow_target_spacing: 60,
            pow_target_timespan: 60,
            allow_min_difficulty_blocks: false,
            no_pow_retargeting: false,
        }
    }

    /// The record of the main network under its other name.
    pub open spec fn spec_bitcoin() -> Params {
        Params::spec_mainnet()
    }

    /// The record that older callers use for the third test network. It is
    /// a table of its own, kept as it was first written.
    pub open spec fn spec_testnet() -> Params {
        Params {
            network: Network::Testnet,
            bip16_time: 1_735_376_054,
            bip34_height: 1,
            bip65_height: 1,
            bip66_height: 1,
            rule_change_activation_threshold: 0,
            miner_confirmation_window: 1,
            max_attainable_target: Target::MaxAttainableTestnet,
            pow_target_spacing: 60,
            pow_target_timespan: 60,
            allow_min_difficulty_blocks: true,
            no_pow_retargeting: false,
        }
    }

    /// The record of the third test network. A window of one block with a
    /// threshold of zero lets every block count as full signalling.
    pub open spec fn spec_testnet3() -> Params {
        Params {
            network: Network::Testnet,
            bip16_time: 1_735_376_054,
            bip34_height: 1,
            bip65_height: 1,
            bip66_height: 1,
            rule_change_activation_threshold: 0,
            miner_confirmation_window: 1,
            max_attainable_target: Target::MaxAttainableTestnet,
            pow_target_spacing: 60,
            pow_target_timespan: 60,
            allow_min_difficulty_blocks: true,
            no_pow_retargeting: false,
        }
    }

    /// The record of the fourth test network: ten-minute blocks, the
    /// difficulty recomputed every two weeks, 75% of 2,016 blocks to change
    /// a rule.
    pub open spec fn spec_testnet4() -> Params {
        Params {
            network: Network::Testnet4,
            bip16_time: 1_735_376_054,
            bip34_height: 1,
            bip65_height: 1,
            bip66_height: 1,
            rule_change_activation_threshold: 1_512,
            miner_confirmation_window: 2_016,
            max_attainable_target: Target::MaxAttainableTestnet,
            pow_target_spacing: 600,
            pow_target_timespan: 1_209_600,
            allow_min_difficulty_blocks: true,
            no_pow_retargeting: false,
        }
    }

    /// The record of the signed test network: 95% of 2,016 blocks to change
    /// a rule.
    pub open spec fn spec_signet() -> Params {
        Params {
            network: Network::Signet,
            bip16_time: 1_735_376_054,
            bip34_height: 1,
            bip65_height: 1,
            bip66_height: 1,
            rule_change_activation_threshold: 1_916,
            miner_confirmation_window: 2_016,
            max_attainable_target: Target::MaxAttainableSignet,
            pow_target_spacing: 60,
            pow_target_timespan: 60,
            allow_min_difficulty_blocks: false,
            no_pow_retargeting: false,
        }
    }

    /// The record of the local regression-test network. BIP34 is set to a
    /// height that is never reached, and the difficulty never changes.
    pub open spec fn spec_regtest() -> Params {
        Params {
            network: Network::Regtest,
            bip16_time: 1_735_376_054,
            bip34_height: 100_000_000,
            bip65_height: 1_351,
            bip66_height: 1_251,
            rule_change_activation_threshold: 1,
            miner_confirmation_window: 3,
            max_attainable_target: Target::MaxAttainableRegtest,
            pow_target_spacing: 60,
            pow_target_timespan: 60,
            allow_min_difficulty_blocks: true,
            no_pow_retargeting: true,
        }
    }

    /// The record that `network` resolves to. The third test network
    /// resolves to its current table.
    pub open spec fn spec_new(network: Network) -> Params {
        match network {
            Network::Bitcoin => Params::spec_mainnet(),
            Network::Testnet => Params::spec_testnet3(),
            Network::Testnet4 => Params::spec_testnet4(),
            Network::Signet => Params::spec_signet(),
            Network::Regtest => Params::spec_regtest(),
        }
    }

    /// Whether this record is one of the fixed tables, under any of their
    /// names.
    pub open spec fn is_predefined(&self) -> bool {
        ||| *self == Params::spec_mainnet()
        ||| *self == Params::spec_bitcoin()
        ||| *self == Params::spec_testnet()
        ||| *self == Params::spec_testnet3()
        ||| *self == Params::spec_testnet4()
        ||| *self == Params::spec_signet()
        ||| *self == Params::spec_regtest()
    }

    /// The number of blocks that one difficulty period covers: the whole
    /// part of timespan over spacing.
    pub open spec fn spec_difficulty_adjustment_interval(&self) -> u64 {
        self.pow_target_timespan / self.pow_target_spacing
    }

    /// The main network parameters.
    #[verifier::when_used_as_spec(spec_mainnet)]
    pub fn mainnet() -> (params: Params)
        ensures
            params == Params::spec_mainnet(),
            params.well_formed(),
    {
        self::mainnet().clone()
    }

    /// The main network parameters, under their other name.
    #[verifier::when_used_as_spec(spec_bitcoin)]
    pub fn bitcoin() -> (params: Params)
        ensures
            params == Params::spec_bitcoin(),
            params == Params::spec_mainnet(),
            params.well_formed(),
    {
        Params::mainnet()
    }

    /// The parameters of the third test network as older callers know them.
    /// New callers use [`Params::testnet3`].
    #[verifier::when_used_as_spec(spec_testnet)]
    pub fn testnet() -> (params: Params)
        ensures
            params == Params::spec_testnet(),
            params.well_formed(),
    {
        Params {
            network: Network::Testnet,
            bip16_time: 1_735_376_054,  // 2024-12-28 08:54:14 UTC
            bip34_height: 1,
            bip65_height: 1,
            bip66_height: 1,
            rule_change_activation_threshold: 0,
            miner_confirmation_window: 1,
            max_attainable_target: Target::MaxAttainableTestnet,
            pow_target_spacing: 60,  // 1 minute.
            pow_target_timespan: 60,  // 1 minute.
            allow_min_difficulty_blocks: true,
            no_pow_retargeting: false,
        }
    }

    /// The parameters of the third test network.
    #[verifier::when_used_as_spec(spec_testnet3)]
    pub fn testnet3() -> (params: Params)
        ensures
            params == Params::spec_testnet3(),
            params.well_formed(),
    {
        self::testnet3().clone()
    }

    /// The parameters of the fourth test network.
    #[verifier::when_used_as_spec(spec_testnet4)]
    pub fn testnet4() -> (params: Params)
        ensures
            params == Params::spec_testnet4(),
            params.well_formed(),
    {
        self::testnet4().clone()
    }

    /// The parameters of the signed test network.
    #[verifier::when_used_as_spec(spec_signet)]
    pub fn signet() -> (params: Params)
        ensures
            params == Params::spec_signet(),
            params.well_formed(),
    {
        self::signet().clone()
    }

    /// The parameters of the local regression-test network.
    #[verifier::when_used_as_spec(spec_regtest)]
    pub fn regtest() -> (params: Params)
        ensures
            params == Params::spec_regtest(),
            params.well_formed(),
    {
        self::regtest().clone()
    }

    /// The ceiling on targets under the name it had before it was called
    /// `max_attainable_target`. There is one value behind both names.
    pub fn pow_limit(&self) -> (limit: Target)
        ensures
            limit == self.max_attainable_target,
    {
        self.max_attainable_target
    }

    /// Creates the parameter set of the given network.
    #[verifier::when_used_as_spec(spec_new)]
    pub fn new(network: Network) -> (params: Params)
        ensures
            params == Params::spec_new(network),
            params.network == network,
            params.max_attainable_target == Target::max_attainable(network),
            params.well_formed(),
    {
        match network {
            Network::Bitcoin => Params::mainnet(),
            Network::Testnet => Params::testnet3(),
            Network::Testnet4 => Params::testnet4(),
            Network::Signet => Params::signet(),
            Network::Regtest => Params::regtest(),
        }
    }

    /// Calculates the number of blocks between difficulty adjustments.
    ///
    /// No flag of the record is consulted: a network that never retargets
    /// still has an interval.
    #[verifier::when_used_as_spec(spec_difficulty_adjustment_interval)]
    pub fn difficulty_adjustment_interval(&self) -> (interval: u64)
        requires
            self.pow_target_spacing > 0,
        ensures
            interval == self.pow_target_timespan / self.pow_target_spacing,
            interval == self.spec_difficulty_adjustment_interval(),
            interval * self.pow_target_spacing <= self.pow_target_timespan,
            self.pow_target_timespan < (interval + 1) * self.pow_target_spacing,
    {
        proof {
            lemma_whole_part(self.pow_target_timespan as int, self.pow_target_spacing as int);
        }
        self.pow_target_timespan / self.pow_target_spacing
    }
}

/// The main network parameters, by reference for the life of the process.
pub fn mainnet() -> (params: &'static Params)
    ensures
        *params == Params::spec_mainnet(),
        params.well_formed(),
{
    &Params {
        network: Network::Bitcoin,
        bip16_time: 1_631_485_359,  // 2021-09-12 22:22:39 UTC
        bip34_height: 1,
        bip65_height: 1,
        bip66_height: 1,
        rule_change_activation_threshold: 6_840,  // 95% of 7,200
        miner_confirmation_window: 7_200,
        max_attainable_target: Target::MaxAttainableMainnet,
        pow_target_spacing: 60,  // 1 minute.
        pow_target_timespan: 60,  // 1 minute.
        allow_min_difficulty_blocks: false,
        no_pow_retargeting: false,
    }
}

/// The parameters of the third test network, by reference. This older name
/// gives the current table, as [`testnet3`] does.
pub fn testnet() -> (params: &'static Params)
    ensures
        *params == Params::spec_testnet3(),
        params.well_formed(),
{
    testnet3()
}

/// The parameters of the third test network, by reference.
pub fn testnet3() -> (params: &'static Params)
    ensures
        *params == Params::spec_testnet3(),
        params.well_formed(),
{
    &Params {
        network: Network::Testnet,
        bip16_time: 1_735_376_054,  // 2024-12-28 08:54:14 UTC
        bip34_height: 1,
        bip65_height: 1,
        bip66_height: 1,
        rule_change_activation_threshold: 0,
        miner_confirmation_window: 1,
        max_attainable_target: Target::MaxAttainableTestnet,
        pow_target_spacing: 60,  // 1 minute.
        pow_target_timespan: 60,  // 1 minute.
        allow_min_difficulty_blocks: true,
        no_pow_retargeting: false,
    }
}

/// The parameters of the fourth test network, by reference.
pub fn testnet4() -> (params: &'static Params)
    ensures
        *params == Params::spec_testnet4(),
        params.well_formed(),
{
    &Params {
        network: Network::Testnet4,
        bip16_time: 1_735_376_054,  // 2024-12-28 08:54:14 UTC
        bip34_height: 1,
        bip65_height: 1,
        bip66_height: 1,
        rule_change_activation_threshold: 1_512,  // 75% of 2,016
        miner_confirmation_window: 2_016,
        max_attainable_target: Target::MaxAttainableTestnet,
        pow_target_spacing: 600,  // 10 minutes.
        pow_target_timespan: 1_209_600,  // 2 weeks.
        allow_min_difficulty_blocks: true,
        no_pow_retargeting: false,
    }
}

/// The parameters of the signed test network, by reference.
pub fn signet() -> (params: &'static Params)
    ensures
        *params == Params::spec_signet(),
        params.well_formed(),
{
    &Params {
        network: Network::Signet,
        bip16_time: 1_735_376_054,  // 2024-12-28 08:54:14 UTC
        bip34_height: 1,
        bip65_height: 1,
        bip66_height: 1,
        rule_change_activation_threshold: 1_916,  // 95% of 2,016
        miner_confirmation_window: 2_016,
        max_attainable_target: Target::MaxAttainableSignet,
        pow_target_spacing: 60,  // 1 minute.
        pow_target_timespan: 60,  // 1 minute.
        allow_min_difficulty_blocks: false,
        no_pow_retargeting: false,
    }
}

/// The parameters of the local regression-test network, by reference.
pub fn regtest() -> (params: &'static Params)
    ensures
        *params == Params::spec_regtest(),
        params.well_formed(),
{
    &Params {
        network: Network::Regtest,
        bip16_time: 1_735_376_054,  // 2024-12-28 08:54:14 UTC
        bip34_height: 100_000_000,  // Never reached.
        bip65_height: 1_351,
        bip66_height: 1_251,
        rule_change_activation_threshold: 1,
        miner_confirmation_window: 3,
        max_attainable_target: Target::MaxAttainableRegtest,
        pow_target_spacing: 60,  // 1 minute.
        pow_target_timespan: 60,  // 1 minute.
        allow_min_difficulty_blocks: true,
        no_pow_retargeting: true,
    }
}

impl Clone for Params {
    /// A copy that agrees with this record in every field.
    fn clone(&self) -> (copy: Self)
        ensures
            copy == *self,
    {
        Params {
            network: self.network,
            bip16_time: self.bip16_time,
            bip34_height: self.bip34_height,
            bip65_height: self.bip65_height,
            bip66_height: self.bip66_height,
            rule_change_activation_threshold: self.rule_change_activation_threshold,
            miner_confirmation_window: self.miner_confirmation_window,
            max_attainable_target: self.max_attainable_target,
            pow_target_spacing: self.pow_target_spacing,
            pow_target_timespan: self.pow_target_timespan,
            allow_min_difficulty_blocks: self.allow_min_difficulty_blocks,
            no_pow_retargeting: self.no_pow_retargeting,
        }
    }
}

impl AsRef<Params> for Params {
    /// A record stands for itself.
    fn as_ref(&self) -> (params: &Params)
        ensures
            *params == *self,
    {
        self
    }
}

impl From<Network> for Params {
    /// The record of `value`, as [`Params::new`] gives it.
    fn from(value: Network) -> (params: Self)
        ensures
            params.network == value,
            params.well_formed(),
    {
        Self::new(value)
    }
}

impl FromSpecImpl<Network> for Params {
    open spec fn obeys_from_spec() -> bool {
        true
    }

    open spec fn from_spec(value: Network) -> Self {
        Params::spec_new(value)
    }
}

impl From<&Network> for Params {
    /// The record of `value`, as [`Params::new`] gives it.
    fn from(value: &Network) -> (params: Self)
        ensures
            params.network == *value,
            params.well_formed(),
    {
        Self::new(*value)
    }
}

impl FromSpecImpl<&Network> for Params {
    open spec fn obeys_from_spec() -> bool {
        true
    }

    open spec fn from_spec(value: &Network) -> Self {
        Params::spec_new(*value)
    }
}

impl From<Network> for &'static Params {
    /// The shared record of `value`, as [`Network::params`] gives it.
    fn from(value: Network) -> (params: Self)
        ensures
            params.network == value,
            params.well_formed(),
    {
        value.params()
    }
}

impl FromSpecImpl<Network> for &'static Params {
    open spec fn obeys_from_spec() -> bool {
        true
    }

    open spec fn from_spec(value: Network) -> Self {
        &Params::spec_new(value)
    }
}

impl From<&Network> for &'static Params {
    /// The shared record of `value`, as [`Network::params`] gives it.
    fn from(value: &Network) -> (params: Self)
        ensures
            params.network == *value,
            params.well_formed(),
    {
        value.params()
    }
}

impl FromSpecImpl<&Network> for &'static Params {
    open spec fn obeys_from_spec() -> bool {
        true
    }

    open spec fn from_spec(value: &Network) -> Self {
        &Params::spec_new(*value)
    }
}

/// The quotient of a division by a positive number is the largest multiple
/// count that fits.
pub proof fn lemma_whole_part(a: int, b: int)
    requires
        0 <= a,
        0 < b,
    ensures
        (a / b) * b <= a < (a / b + 1) * b,
{
    assert((a / b) * b <= a < (a / b + 1) * b) by (nonlinear_arith)
        requires
            0 <= a,
            0 < b,
    ;
}

} // verus!
