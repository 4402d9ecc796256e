//! Tests of the epoch synchronizer: cold-start catch-up, live-transition
//! precision, idempotence, and the concrete per-deployment scenarios.

use genesis_programs::get_entered_epoch_callback;
use genesis_programs::Bank;
use genesis_programs::ClusterType;
use genesis_programs::Inflation;
use genesis_programs::Program;
use genesis_programs::ProgramId;

fn native_count(bank: &Bank) -> usize {
    bank.programs
        .iter()
        .filter(|program| matches!(program, Program::Native { .. }))
        .count()
}

fn loader_count(bank: &Bank) -> usize {
    bank.programs
        .iter()
        .filter(|program| matches!(program, Program::BuiltinLoader { .. }))
        .count()
}

#[test]
fn test_development_cold_start() {
    let mut bank = Bank::new(0, Inflation::new_disabled());
    let callback = get_entered_epoch_callback(ClusterType::Development);
    callback.call(&mut bank, true);
    assert_eq!(bank.inflation, Inflation::default());
    assert_eq!(native_count(&bank), 3);
    assert_eq!(loader_count(&bank), 2);
    assert_eq!(bank.programs.len(), 5);
}

#[test]
fn test_testnet_genesis_inflation_disabled() {
    let mut bank = Bank::new(0, Inflation::default());
    let callback = get_entered_epoch_callback(ClusterType::Testnet);
    callback.call(&mut bank, true);
    assert_eq!(bank.inflation, Inflation::new_disabled());
}

#[test]
fn test_testnet_live_inflation_toggle() {
    let mut bank = Bank::new(44, Inflation::new_disabled());
    let callback = get_entered_epoch_callback(ClusterType::Testnet);
    callback.call(&mut bank, false);
    assert_eq!(bank.inflation, Inflation::default());
    // The next epoch defines no breakpoint: the policy is left untouched.
    bank.epoch = 45;
    callback.call(&mut bank, false);
    assert_eq!(bank.inflation, Inflation::default());
}

#[test]
fn test_mainnet_genesis() {
    let mut bank = Bank::new(0, Inflation::default());
    let callback = get_entered_epoch_callback(ClusterType::MainnetBeta);
    callback.call(&mut bank, true);
    assert_eq!(bank.inflation, Inflation::new_disabled());
    // Both loaders activate later (epoch 34 and the placeholder maximum
    // epoch), so nothing is registered yet.
    assert_eq!(bank.programs.len(), 0);
}

#[test]
fn test_mainnet_partial_catch_up() {
    // Between the two activation epochs, exactly the earlier loader is
    // caught up; the placeholder-scheduled one remains unregistered.
    let mut bank = Bank::new(40, Inflation::default());
    let callback = get_entered_epoch_callback(ClusterType::MainnetBeta);
    callback.call(&mut bank, true);
    assert_eq!(bank.programs.len(), 1);
    assert!(matches!(
        &bank.programs[0],
        Program::BuiltinLoader { name, .. } if name == "solana_bpf_loader_deprecated_program"
    ));
}

#[test]
fn test_mainnet_max_epoch_catch_up() {
    // Catch-up semantics apply even to the placeholder maximum epoch.
    let mut bank = Bank::new(u64::MAX, Inflation::new_disabled());
    let callback = get_entered_epoch_callback(ClusterType::MainnetBeta);
    callback.call(&mut bank, true);
    assert_eq!(bank.inflation, Inflation::default());
    assert_eq!(bank.programs.len(), 2);
}

#[test]
fn test_devnet_live_transition() {
    // Cold start at genesis registers the four genesis programs.
    let mut bank = Bank::new(0, Inflation::new_disabled());
    let callback = get_entered_epoch_callback(ClusterType::Devnet);
    callback.call(&mut bank, true);
    assert_eq!(bank.programs.len(), 4);
    let registered_at_genesis = bank.programs.clone();
    // A live transition into epoch 400 registers exactly the loader newly
    // due there and keeps everything already registered.
    bank.epoch = 400;
    callback.call(&mut bank, false);
    assert_eq!(bank.programs.len(), 5);
    assert_eq!(&bank.programs[..4], &registered_at_genesis[..]);
    assert!(matches!(
        &bank.programs[4],
        Program::BuiltinLoader { name, .. } if name == "solana_bpf_loader_program"
    ));
}

#[test]
fn test_live_transition_skips_past_epochs() {
    // On a non-initial call, programs from earlier epochs are not caught
    // up: only those due exactly this epoch activate.
    let mut bank = Bank::new(400, Inflation::new_disabled());
    let callback = get_entered_epoch_callback(ClusterType::Devnet);
    callback.call(&mut bank, false);
    assert_eq!(bank.programs.len(), 1);
    assert!(matches!(
        &bank.programs[0],
        Program::BuiltinLoader { name, .. } if name == "solana_bpf_loader_program"
    ));
}

#[test]
fn test_sync_idempotent() {
    let clusters = [
        ClusterType::Development,
        ClusterType::Devnet,
        ClusterType::Testnet,
        ClusterType::MainnetBeta,
    ];
    for cluster_type in clusters {
        for initial in [true, false] {
            for epoch in [0, 34, 44, 89, 400, u64::MAX] {
                let mut bank = Bank::new(epoch, Inflation::new_disabled());
                let callback = get_entered_epoch_callback(cluster_type);
                callback.call(&mut bank, initial);
                let once = bank.clone();
                callback.call(&mut bank, initial);
                assert_eq!(bank, once);
            }
        }
    }
}

#[test]
fn test_registration_idempotent() {
    let mut bank = Bank::new(7, Inflation::default());
    bank.add_native_program("solana_vest_program", ProgramId(3));
    bank.add_native_program("solana_vest_program", ProgramId(3));
    assert_eq!(bank.programs.len(), 1);
    assert_eq!(bank.epoch, 7);
}
