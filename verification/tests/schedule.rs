//! Tests of the inflation schedule and the activation table.

use std::collections::HashSet;

use genesis_programs::get_inflation;
use genesis_programs::get_native_programs_for_genesis;
use genesis_programs::get_programs;
use genesis_programs::ClusterType;
use genesis_programs::Epoch;
use genesis_programs::Inflation;
use genesis_programs::Program;
use genesis_programs::GENESIS_EPOCH;

fn do_test_uniqueness(programs: Vec<(Program, Epoch)>) {
    let mut unique_ids = HashSet::new();
    let mut unique_names = HashSet::new();
    let mut prev_start_epoch = GENESIS_EPOCH;
    for (program, next_start_epoch) in programs {
        assert!(next_start_epoch >= prev_start_epoch);
        match program {
            Program::Native { name, id } => {
                assert!(unique_ids.insert(id));
                assert!(unique_names.insert(name));
            }
            Program::BuiltinLoader { name, id, .. } => {
                assert!(unique_ids.insert(id));
                assert!(unique_names.insert(name));
            }
        }
        prev_start_epoch = next_start_epoch;
    }
}

#[test]
fn test_uniqueness() {
    do_test_uniqueness(get_programs(ClusterType::Development));
    do_test_uniqueness(get_programs(ClusterType::Devnet));
    do_test_uniqueness(get_programs(ClusterType::Testnet));
    do_test_uniqueness(get_programs(ClusterType::MainnetBeta));
}

#[test]
fn test_development_inflation() {
    assert_eq!(
        get_inflation(ClusterType::Development, 0).unwrap(),
        Inflation::default()
    );
    assert_eq!(get_inflation(ClusterType::Development, 1), None);
}

#[test]
fn test_development_programs() {
    assert_eq!(get_programs(ClusterType::Development).len(), 5);
}

#[test]
fn test_native_development_programs() {
    assert_eq!(
        get_native_programs_for_genesis(ClusterType::Development).len(),
        3
    );
}

#[test]
fn test_softlaunch_inflation() {
    assert_eq!(
        get_inflation(ClusterType::MainnetBeta, 0).unwrap(),
        Inflation::new_disabled()
    );
    assert_eq!(get_inflation(ClusterType::MainnetBeta, 1), None);
    assert_eq!(
        get_inflation(ClusterType::MainnetBeta, u64::MAX).unwrap(),
        Inflation::default()
    );
}

#[test]
fn test_softlaunch_programs() {
    assert!(!get_programs(ClusterType::MainnetBeta).is_empty());
}

#[test]
fn test_debug() {
    assert!(!format!("{:?}", get_programs(ClusterType::Development)).is_empty());
}

#[test]
fn test_inflation_deterministic() {
    let clusters = [
        ClusterType::Development,
        ClusterType::Devnet,
        ClusterType::Testnet,
        ClusterType::MainnetBeta,
    ];
    let epochs = [0, 1, 34, 44, 68, 74, 89, 400, u64::MAX];
    for cluster_type in clusters {
        for epoch in epochs {
            assert_eq!(
                get_inflation(cluster_type, epoch),
                get_inflation(cluster_type, epoch)
            );
        }
    }
}

#[test]
fn test_testnet_inflation_breakpoints() {
    assert_eq!(
        get_inflation(ClusterType::Testnet, 0).unwrap(),
        Inflation::new_disabled()
    );
    assert_eq!(
        get_inflation(ClusterType::Testnet, 44).unwrap(),
        Inflation::default()
    );
    assert_eq!(
        get_inflation(ClusterType::Testnet, 68).unwrap(),
        Inflation::new_disabled()
    );
    assert_eq!(
        get_inflation(ClusterType::Testnet, 74).unwrap(),
        Inflation::default()
    );
    assert_eq!(get_inflation(ClusterType::Testnet, 45), None);
}

#[test]
fn test_native_genesis_names() {
    let natives = get_native_programs_for_genesis(ClusterType::Development);
    let names: Vec<&str> = natives.iter().map(|(name, _)| name.as_str()).collect();
    assert_eq!(
        names,
        vec![
            "solana_vest_program",
            "solana_budget_program",
            "solana_exchange_program"
        ]
    );
}

#[test]
fn test_native_genesis_excludes_late_natives() {
    // Deployments whose only genesis-epoch programs are loaders contribute
    // no native genesis programs.
    assert!(get_native_programs_for_genesis(ClusterType::Testnet).is_empty());
    assert!(get_native_programs_for_genesis(ClusterType::MainnetBeta).is_empty());
    assert_eq!(get_native_programs_for_genesis(ClusterType::Devnet).len(), 3);
}
