//! The fixed tables, value by value.

use consensus_params::network::Network;
use consensus_params::params;
use consensus_params::params::Params;
use consensus_params::pow::Target;

const NETWORKS: [Network; 5] = [
    Network::Bitcoin,
    Network::Testnet,
    Network::Testnet4,
    Network::Signet,
    Network::Regtest,
];

fn predefined() -> Vec<Params> {
    vec![
        Params::mainnet(),
        Params::bitcoin(),
        Params::testnet(),
        Params::testnet3(),
        Params::testnet4(),
        Params::signet(),
        Params::regtest(),
    ]
}

#[test]
fn new_names_the_network_it_was_given() {
    for network in NETWORKS {
        assert_eq!(Params::new(network).network, network);
        assert_eq!(network.params().network, network);
    }
}

#[test]
fn new_selects_the_table_of_each_network() {
    assert_eq!(Params::new(Network::Bitcoin), Params::mainnet());
    assert_eq!(Params::new(Network::Testnet), Params::testnet3());
    assert_eq!(Params::new(Network::Testnet4), Params::testnet4());
    assert_eq!(Params::new(Network::Signet), Params::signet());
    assert_eq!(Params::new(Network::Regtest), Params::regtest());
}

#[test]
fn networks_resolve_to_distinct_records() {
    for (i, a) in NETWORKS.iter().enumerate() {
        for (j, b) in NETWORKS.iter().enumerate() {
            assert_eq!(Params::new(*a) == Params::new(*b), i == j);
        }
    }
}

#[test]
fn threshold_never_exceeds_window() {
    for record in predefined() {
        assert!(record.rule_change_activation_threshold <= record.miner_confirmation_window);
        assert!(record.miner_confirmation_window > 0);
    }
}

#[test]
fn spacing_and_timespan_are_positive() {
    for record in predefined() {
        assert!(record.pow_target_spacing > 0);
        assert!(record.pow_target_timespan > 0);
    }
}

#[test]
fn only_test_networks_allow_min_difficulty_blocks() {
    for record in predefined() {
        if record.allow_min_difficulty_blocks {
            assert_ne!(record.network, Network::Bitcoin);
        }
    }
    assert!(!Params::mainnet().allow_min_difficulty_blocks);
    assert!(!Params::signet().allow_min_difficulty_blocks);
}

#[test]
fn only_regtest_fixes_its_difficulty() {
    for record in predefined() {
        assert_eq!(record.no_pow_retargeting, record.network == Network::Regtest);
    }
}

#[test]
fn mainnet_values() {
    let p: Params = Params::mainnet();
    assert_eq!(p.network, Network::Bitcoin);
    assert_eq!(p.bip16_time, 1_631_485_359_u32);
    assert_eq!(p.bip34_height, 1_u32);
    assert_eq!(p.bip65_height, 1_u32);
    assert_eq!(p.bip66_height, 1_u32);
    assert_eq!(p.rule_change_activation_threshold, 6_840_u32);
    assert_eq!(p.miner_confirmation_window, 7_200_u32);
    assert_eq!(p.max_attainable_target, Target::MaxAttainableMainnet);
    assert_eq!(p.pow_target_spacing, 60_u64);
    assert_eq!(p.pow_target_timespan, 60_u64);
    assert!(!p.allow_min_difficulty_blocks);
    assert!(!p.no_pow_retargeting);
}

#[test]
fn mainnet_threshold_is_95_percent_of_window() {
    let p: Params = Params::mainnet();
    assert_eq!(
        u64::from(p.rule_change_activation_threshold) * 100,
        u64::from(p.miner_confirmation_window) * 95
    );
}

#[test]
fn bitcoin_is_another_name_for_mainnet() {
    assert_eq!(Params::bitcoin(), Params::mainnet());
}

#[test]
fn legacy_testnet_values() {
    let p: Params = Params::testnet();
    assert_eq!(p.network, Network::Testnet);
    assert_eq!(p.bip16_time, 1_735_376_054_u32);
    assert_eq!(p.bip34_height, 1_u32);
    assert_eq!(p.bip65_height, 1_u32);
    assert_eq!(p.bip66_height, 1_u32);
    assert_eq!(p.rule_change_activation_threshold, 0_u32);
    assert_eq!(p.miner_confirmation_window, 1_u32);
    assert_eq!(p.max_attainable_target, Target::MaxAttainableTestnet);
    assert_eq!(p.pow_target_spacing, 60_u64);
    assert_eq!(p.pow_target_timespan, 60_u64);
    assert!(p.allow_min_difficulty_blocks);
    assert!(!p.no_pow_retargeting);
}

#[test]
fn testnet3_values() {
    let p: Params = Params::testnet3();
    assert_eq!(p.network, Network::Testnet);
    assert_eq!(p.bip16_time, 1_735_376_054_u32);
    assert_eq!(p.bip34_height, 1_u32);
    assert_eq!(p.bip65_height, 1_u32);
    assert_eq!(p.bip66_height, 1_u32);
    assert_eq!(p.rule_change_activation_threshold, 0_u32);
    assert_eq!(p.miner_confirmation_window, 1_u32);
    assert_eq!(p.max_attainable_target, Target::MaxAttainableTestnet);
    assert_eq!(p.pow_target_spacing, 60_u64);
    assert_eq!(p.pow_target_timespan, 60_u64);
    assert!(p.allow_min_difficulty_blocks);
    assert!(!p.no_pow_retargeting);
}

#[test]
fn testnet_tables_agree() {
    assert_eq!(Params::testnet(), Params::testnet3());
}

#[test]
fn testnet4_values() {
    let p: Params = Params::testnet4();
    assert_eq!(p.network, Network::Testnet4);
    assert_eq!(p.bip16_time, 1_735_376_054_u32);
    assert_eq!(p.bip34_height, 1_u32);
    assert_eq!(p.bip65_height, 1_u32);
    assert_eq!(p.bip66_height, 1_u32);
    assert_eq!(p.rule_change_activation_threshold, 1_512_u32);
    assert_eq!(p.miner_confirmation_window, 2_016_u32);
    assert_eq!(p.max_attainable_target, Target::MaxAttainableTestnet);
    assert_eq!(p.pow_target_spacing, 10 * 60_u64);
    assert_eq!(p.pow_target_timespan, 14 * 24 * 60 * 60_u64);
    assert_eq!(p.pow_target_timespan, 1_209_600_u64);
    assert!(p.allow_min_difficulty_blocks);
    assert!(!p.no_pow_retargeting);
}

#[test]
fn signet_values() {
    let p: Params = Params::signet();
    assert_eq!(p.network, Network::Signet);
    assert_eq!(p.bip16_time, 1_735_376_054_u32);
    assert_eq!(p.bip34_height, 1_u32);
    assert_eq!(p.bip65_height, 1_u32);
    assert_eq!(p.bip66_height, 1_u32);
    assert_eq!(p.rule_change_activation_threshold, 1_916_u32);
    assert_eq!(p.miner_confirmation_window, 2_016_u32);
    assert_eq!(p.max_attainable_target, Target::MaxAttainableSignet);
    assert_eq!(p.pow_target_spacing, 60_u64);
    assert_eq!(p.pow_target_timespan, 60_u64);
    assert!(!p.allow_min_difficulty_blocks);
    assert!(!p.no_pow_retargeting);
}

#[test]
fn regtest_values() {
    let p: Params = Params::regtest();
    assert_eq!(p.network, Network::Regtest);
    assert_eq!(p.bip16_time, 1_735_376_054_u32);
    assert_eq!(p.bip34_height, 100_000_000_u32);
    assert_eq!(p.bip65_height, 1_351_u32);
    assert_eq!(p.bip66_height, 1_251_u32);
    assert_eq!(p.rule_change_activation_threshold, 1_u32);
    assert_eq!(p.miner_confirmation_window, 3_u32);
    assert_eq!(p.max_attainable_target, Target::MaxAttainableRegtest);
    assert_eq!(p.pow_target_spacing, 60_u64);
    assert_eq!(p.pow_target_timespan, 60_u64);
    assert!(p.allow_min_difficulty_blocks);
    assert!(p.no_pow_retargeting);
}

#[test]
fn both_public_test_networks_share_a_ceiling() {
    assert_eq!(
        Params::testnet3().max_attainable_target,
        Params::testnet4().max_attainable_target
    );
    assert_ne!(
        Params::mainnet().max_attainable_target,
        Params::testnet3().max_attainable_target
    );
    assert_ne!(
        Params::signet().max_attainable_target,
        Params::regtest().max_attainable_target
    );
}

#[test]
fn pow_limit_is_the_max_attainable_target() {
    for record in predefined() {
        assert_eq!(record.pow_limit(), record.max_attainable_target);
    }
    assert_eq!(Params::regtest().pow_limit(), Target::MaxAttainableRegtest);
}

#[test]
fn shared_records_equal_the_owned_ones() {
    assert_eq!(*params::mainnet(), Params::mainnet());
    assert_eq!(*params::testnet(), Params::testnet3());
    assert_eq!(*params::testnet3(), Params::testnet3());
    assert_eq!(*params::testnet4(), Params::testnet4());
    assert_eq!(*params::signet(), Params::signet());
    assert_eq!(*params::regtest(), Params::regtest());
}

#[test]
fn clone_keeps_every_field() {
    for record in predefined() {
        let copy: Params = record.clone();
        assert_eq!(copy, record);
    }
    let mut changed: Params = Params::signet();
    changed.bip34_height = 227_931;
    changed.no_pow_retargeting = true;
    let copy: Params = changed.clone();
    assert_eq!(copy.bip34_height, 227_931_u32);
    assert!(copy.no_pow_retargeting);
    assert_eq!(copy, changed);
    assert_ne!(copy, Params::signet());
}

#[test]
fn repeated_lookups_give_the_same_record() {
    for network in NETWORKS {
        let first: Params = Params::new(network);
        for _ in 0..100 {
            assert_eq!(Params::new(network), first);
            assert_eq!(*network.params(), first);
        }
    }
}

#[test]
fn a_window_of_one_block_with_no_threshold_is_a_valid_record() {
    for record in [Params::testnet(), Params::testnet3()] {
        assert_eq!(record.rule_change_activation_threshold, 0_u32);
        assert_eq!(record.miner_confirmation_window, 1_u32);
        assert!(record.rule_change_activation_threshold <= record.miner_confirmation_window);
    }
}

#[test]
fn regtest_puts_bip34_out_of_reach() {
    let p: Params = Params::regtest();
    assert_eq!(p.bip34_height, 100_000_000_u32);
    assert!(p.bip34_height > p.bip65_height);
    assert!(p.bip34_height > p.bip66_height);
    for network in [Network::Bitcoin, Network::Testnet, Network::Testnet4, Network::Signet] {
        assert_eq!(Params::new(network).bip34_height, 1_u32);
    }
}

#[test]
fn each_record_carries_the_ceiling_of_its_network() {
    assert_eq!(Params::new(Network::Bitcoin).max_attainable_target, Target::MaxAttainableMainnet);
    assert_eq!(Params::new(Network::Testnet).max_attainable_target, Target::MaxAttainableTestnet);
    assert_eq!(Params::new(Network::Testnet4).max_attainable_target, Target::MaxAttainableTestnet);
    assert_eq!(Params::new(Network::Signet).max_attainable_target, Target::MaxAttainableSignet);
    assert_eq!(Params::new(Network::Regtest).max_attainable_target, Target::MaxAttainableRegtest);
}
