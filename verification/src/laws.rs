//! What holds of the records and of the functions that select them.

use crate::network::Network;
use crate::params::Params;
use vstd::prelude::*;

verus! {

/// Selecting by network round-trips: the record that a network resolves to
/// names that network.
pub proof fn lemma_new_names_its_network(network: Network)
    ensures
        Params::new(network).network == network,
{
}

/// No two networks share a record: networks that resolve to equal records
/// are the same network.
pub proof fn lemma_new_is_one_to_one(a: Network, b: Network)
    requires
        Params::new(a) == Params::new(b),
    ensures
        a == b,
{
    lemma_new_names_its_network(a);
    lemma_new_names_its_network(b);
}

/// Every network resolves to one of the fixed tables.
pub proof fn lemma_new_is_predefined(network: Network)
    ensures
        Params::new(network).is_predefined(),
{
}

/// In every fixed table the activation threshold is no larger than the
/// confirmation window, so that a window can always reach it.
pub proof fn lemma_predefined_threshold_within_window(params: Params)
    requires
        params.is_predefined(),
    ensures
        params.rule_change_activation_threshold <= params.miner_confirmation_window,
{
}

/// In every fixed table the block spacing and the difficulty timespan are
/// positive.
pub proof fn lemma_predefined_timing_positive(params: Params)
    requires
        params.is_predefined(),
    ensures
        params.pow_target_spacing > 0,
        params.pow_target_timespan > 0,
{
}

/// Every fixed table meets all that is asked of a record.
pub proof fn lemma_predefined_well_formed(params: Params)
    requires
        params.is_predefined(),
    ensures
        params.well_formed(),
{
}

/// The retargeting interval is a function of the two timing fields alone:
/// records that agree on spacing and timespan have the same interval,
/// however their other fields differ.
pub proof fn lemma_interval_reads_timing_only(a: Params, b: Params)
    requires
        a.pow_target_spacing == b.pow_target_spacing,
        a.pow_target_timespan == b.pow_target_timespan,
    ensures
        a.difficulty_adjustment_interval() == b.difficulty_adjustment_interval(),
{
}

/// Switching retargeting off or on leaves the interval as it is: the
/// formula has no special case for a network of fixed difficulty.
pub proof fn lemma_interval_ignores_retargeting_flag(params: Params, flag: bool)
    ensures
        (Params { no_pow_retargeting: flag, ..params }).difficulty_adjustment_interval()
            == params.difficulty_adjustment_interval(),
{
}

/// A well-formed record always has an interval, whether or not its network
/// retargets: its spacing is positive, which is all that the division asks,
/// and the interval is the largest number of spacings that fit into the
/// timespan.
pub proof fn lemma_well_formed_has_interval(params: Params)
    requires
        params.well_formed(),
    ensures
        params.pow_target_spacing > 0,
        params.difficulty_adjustment_interval() * params.pow_target_spacing
            <= params.pow_target_timespan,
        params.pow_target_timespan < (params.difficulty_adjustment_interval() + 1)
            * params.pow_target_spacing,
{
    crate::params::lemma_whole_part(
        params.pow_target_timespan as int,
        params.pow_target_spacing as int,
    );
}

/// The interval of each network: the fourth test network recomputes its
/// difficulty every 2,016 blocks, every other network at every block. The
/// regression-test network has the interval 1 like the others, though it
/// never retargets.
pub proof fn lemma_interval_of_each_network(network: Network)
    ensures
        network == Network::Testnet4 ==> Params::new(network).difficulty_adjustment_interval()
            == 2016,
        network != Network::Testnet4 ==> Params::new(network).difficulty_adjustment_interval()
            == 1,
{
    crate::params::lemma_whole_part(1_209_600, 600);
    crate::params::lemma_whole_part(60, 60);
}

/// The two tables of the third test network, the older one and the current
/// one, hold the same values field by field.
pub proof fn lemma_testnet_tables_agree()
    ensures
        Params::testnet() == Params::testnet3(),
{
}

} // verus!
