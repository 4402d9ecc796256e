//! The activation table: per deployment, the ordered list of built-in
//! programs together with the epoch at which each one becomes active.
//!
//! The table is data, not computation. Its two invariants — activation
//! epochs non-decreasing in table order, names and identifiers pairwise
//! unique — are stated here and proved for every deployment.

use vstd::prelude::*;

use crate::types::ClusterType;
use crate::types::EntryPoint;
use crate::types::Epoch;
use crate::types::Program;
use crate::types::ProgramId;
use crate::types::ProgramView;
use crate::types::GENESIS_EPOCH;

verus! {

/// Address-space identifier of the loader program.
pub const BPF_LOADER_ID: u64 = 2;

/// Address-space identifier of the deprecated loader program.
pub const BPF_LOADER_DEPRECATED_ID: u64 = 1;

/// Address-space identifier of the vesting program.
pub const VEST_PROGRAM_ID: u64 = 3;

/// Address-space identifier of the budget program.
pub const BUDGET_PROGRAM_ID: u64 = 4;

/// Address-space identifier of the exchange program.
pub const EXCHANGE_PROGRAM_ID: u64 = 5;

/// Entry-point handle of the loader program.
pub const BPF_LOADER_ENTRY: u64 = 2;

/// Entry-point handle of the deprecated loader program.
pub const BPF_LOADER_DEPRECATED_ENTRY: u64 = 1;

/// The loader program, as the schedule describes it.
pub open spec fn spec_bpf_loader_program() -> ProgramView {
    ProgramView::BuiltinLoader {
        name: "solana_bpf_loader_program"@,
        id: ProgramId(BPF_LOADER_ID),
        entry_point: EntryPoint(BPF_LOADER_ENTRY),
    }
}

/// The deprecated loader program, as the schedule describes it.
pub open spec fn spec_bpf_loader_deprecated_program() -> ProgramView {
    ProgramView::BuiltinLoader {
        name: "solana_bpf_loader_deprecated_program"@,
        id: ProgramId(BPF_LOADER_DEPRECATED_ID),
        entry_point: EntryPoint(BPF_LOADER_DEPRECATED_ENTRY),
    }
}

/// The vesting program, as the schedule describes it.
pub open spec fn spec_vest_program() -> ProgramView {
    ProgramView::Native { name: "solana_vest_program"@, id: ProgramId(VEST_PROGRAM_ID) }
}

/// The budget program, as the schedule describes it.
pub open spec fn spec_budget_program() -> ProgramView {
    ProgramView::Native { name: "solana_budget_program"@, id: ProgramId(BUDGET_PROGRAM_ID) }
}

/// The exchange program, as the schedule describes it.
pub open spec fn spec_exchange_program() -> ProgramView {
    ProgramView::Native { name: "solana_exchange_program"@, id: ProgramId(EXCHANGE_PROGRAM_ID) }
}

fn bpf_loader_program() -> (r: Program)
    ensures
        r@ == spec_bpf_loader_program(),
{
    Program::BuiltinLoader {
        name: String::from_str("solana_bpf_loader_program"),
        id: ProgramId(BPF_LOADER_ID),
        entry_point: EntryPoint(BPF_LOADER_ENTRY),
    }
}

fn bpf_loader_deprecated_program() -> (r: Program)
    ensures
        r@ == spec_bpf_loader_deprecated_program(),
{
    Program::BuiltinLoader {
        name: String::from_str("solana_bpf_loader_deprecated_program"),
        id: ProgramId(BPF_LOADER_DEPRECATED_ID),
        entry_point: EntryPoint(BPF_LOADER_DEPRECATED_ENTRY),
    }
}

fn vest_program() -> (r: Program)
    ensures
        r@ == spec_vest_program(),
{
    Program::Native {
        name: String::from_str("solana_vest_program"),
        id: ProgramId(VEST_PROGRAM_ID),
    }
}

fn budget_program() -> (r: Program)
    ensures
        r@ == spec_budget_program(),
{
    Program::Native {
        name: String::from_str("solana_budget_program"),
        id: ProgramId(BUDGET_PROGRAM_ID),
    }
}

fn exchange_program() -> (r: Program)
    ensures
        r@ == spec_exchange_program(),
{
    Program::Native {
        name: String::from_str("solana_exchange_program"),
        id: ProgramId(EXCHANGE_PROGRAM_ID),
    }
}

/// The model of a table returned by `get_programs`: each entry reduced to
/// its descriptor's view and its activation epoch.
pub open spec fn entries_view(entries: Seq<(Program, Epoch)>) -> Seq<(ProgramView, Epoch)> {
    entries.map(|i: int, entry: (Program, Epoch)| (entry.0@, entry.1))
}

/// The full activation table of a deployment, in its defined order.
pub open spec fn spec_get_programs(cluster_type: ClusterType) -> Seq<(ProgramView, Epoch)> {
    match cluster_type {
        ClusterType::Development => seq![
            (spec_bpf_loader_program(), GENESIS_EPOCH),
            (spec_bpf_loader_deprecated_program(), GENESIS_EPOCH),
            (spec_vest_program(), GENESIS_EPOCH),
            (spec_budget_program(), GENESIS_EPOCH),
            (spec_exchange_program(), GENESIS_EPOCH),
        ],
        ClusterType::Devnet => seq![
            (spec_bpf_loader_deprecated_program(), GENESIS_EPOCH),
            (spec_vest_program(), GENESIS_EPOCH),
            (spec_budget_program(), GENESIS_EPOCH),
            (spec_exchange_program(), GENESIS_EPOCH),
            (spec_bpf_loader_program(), 400),
        ],
        ClusterType::Testnet => seq![
            (spec_bpf_loader_deprecated_program(), GENESIS_EPOCH),
            (spec_bpf_loader_program(), 89),
        ],
        ClusterType::MainnetBeta => seq![
            (spec_bpf_loader_deprecated_program(), 34),
            // The maximum epoch is a placeholder; a future update is
            // expected to replace it with a concrete epoch.
            (spec_bpf_loader_program(), u64::MAX),
        ],
    }
}

/// Given a deployment, return its entire activation table: every enabled
/// program paired with the epoch at which it becomes active.
pub fn get_programs(cluster_type: ClusterType) -> (r: Vec<(Program, Epoch)>)
    ensures
        entries_view(r@) == spec_get_programs(cluster_type),
{
    let mut v: Vec<(Program, Epoch)> = Vec::new();
    match cluster_type {
        ClusterType::Development => {
            // Programs used for testing, all present from genesis.
            v.push((bpf_loader_program(), GENESIS_EPOCH));
            v.push((bpf_loader_deprecated_program(), GENESIS_EPOCH));
            v.push((vest_program(), GENESIS_EPOCH));
            v.push((budget_program(), GENESIS_EPOCH));
            v.push((exchange_program(), GENESIS_EPOCH));
        },
        ClusterType::Devnet => {
            v.push((bpf_loader_deprecated_program(), GENESIS_EPOCH));
            v.push((vest_program(), GENESIS_EPOCH));
            v.push((budget_program(), GENESIS_EPOCH));
            v.push((exchange_program(), GENESIS_EPOCH));
            v.push((bpf_loader_program(), 400));
        },
        ClusterType::Testnet => {
            v.push((bpf_loader_deprecated_program(), GENESIS_EPOCH));
            v.push((bpf_loader_program(), 89));
        },
        ClusterType::MainnetBeta => {
            v.push((bpf_loader_deprecated_program(), 34));
            v.push((bpf_loader_program(), u64::MAX));
        },
    }
    proof {
        assert(entries_view(v@) =~= spec_get_programs(cluster_type));
    }
    v
}

/// The model of the list returned by `get_native_programs_for_genesis`.
pub open spec fn native_list_view(list: Seq<(String, ProgramId)>) -> Seq<(Seq<char>, ProgramId)> {
    list.map(|i: int, entry: (String, ProgramId)| (entry.0@, entry.1))
}

/// The (name, identifier) pairs of the native programs among `entries`
/// whose activation epoch is genesis, kept in table order.
pub open spec fn native_genesis_entries(entries: Seq<(ProgramView, Epoch)>) -> Seq<
    (Seq<char>, ProgramId),
>
    decreases entries.len(),
{
    if entries.len() == 0 {
        Seq::empty()
    } else {
        let init = native_genesis_entries(entries.drop_last());
        let last = entries.last();
        if last.0 is Native && last.1 == GENESIS_EPOCH {
            init.push((last.0.name(), last.0.id()))
        } else {
            init
        }
    }
}

/// Given a deployment, return the (name, identifier) pairs of the native
/// programs that are present from the very first block: the full table
/// filtered to native programs whose activation epoch is genesis. This is
/// the read used when materializing a brand-new ledger's initial state.
pub fn get_native_programs_for_genesis(cluster_type: ClusterType) -> (r: Vec<(String, ProgramId)>)
    ensures
        native_list_view(r@) == native_genesis_entries(spec_get_programs(cluster_type)),
{
    let mut native_programs: Vec<(String, ProgramId)> = Vec::new();
    let programs = get_programs(cluster_type);
    let ghost table = spec_get_programs(cluster_type);
    let n = programs.len();
    let mut i: usize = 0;
    while i < n
        invariant
            i <= n,
            n == programs.len(),
            entries_view(programs@) == table,
            native_list_view(native_programs@) == native_genesis_entries(table.take(i as int)),
        decreases n - i,
    {
        proof {
            assert(entries_view(programs@)[i as int] == table[i as int]);
            assert(table.take(i as int + 1).drop_last() =~= table.take(i as int));
            assert(table.take(i as int + 1).last() == table[i as int]);
        }
        let entry = &programs[i];
        match &entry.0 {
            Program::Native { name, id } => {
                if entry.1 == GENESIS_EPOCH {
                    native_programs.push((name.clone(), *id));
                }
            },
            Program::BuiltinLoader { .. } => {},
        }
        proof {
            assert(native_list_view(native_programs@) =~= native_genesis_entries(
                table.take(i as int + 1),
            ));
        }
        i = i + 1;
    }
    proof {
        assert(table.take(n as int) =~= table);
    }
    native_programs
}

/// No two entries of the table share a program name.
pub open spec fn unique_names(entries: Seq<(ProgramView, Epoch)>) -> bool {
    forall|i: int, j: int|
        0 <= i < j < entries.len() ==> entries[i].0.name() != entries[j].0.name()
}

/// No two entries of the table share an address-space identifier.
pub open spec fn unique_ids(entries: Seq<(ProgramView, Epoch)>) -> bool {
    forall|i: int, j: int| 0 <= i < j < entries.len() ==> entries[i].0.id() != entries[j].0.id()
}

/// Read in table order, activation epochs never decrease.
pub open spec fn epochs_non_decreasing(entries: Seq<(ProgramView, Epoch)>) -> bool {
    forall|i: int, j: int| 0 <= i <= j < entries.len() ==> entries[i].1 <= entries[j].1
}

/// Uniqueness law: for every deployment, the activation table assigns no
/// name and no address-space identifier to more than one program.
pub proof fn lemma_programs_unique(cluster_type: ClusterType)
    ensures
        unique_names(spec_get_programs(cluster_type)),
        unique_ids(spec_get_programs(cluster_type)),
{
    reveal_strlit("solana_bpf_loader_program");
    reveal_strlit("solana_bpf_loader_deprecated_program");
    reveal_strlit("solana_vest_program");
    reveal_strlit("solana_budget_program");
    reveal_strlit("solana_exchange_program");
    // The five names have pairwise distinct lengths, so no two are equal.
    assert(spec_bpf_loader_program().name().len() == 25);
    assert(spec_bpf_loader_deprecated_program().name().len() == 36);
    assert(spec_vest_program().name().len() == 19);
    assert(spec_budget_program().name().len() == 21);
    assert(spec_exchange_program().name().len() == 23);
}

/// Monotonicity law: for every deployment, iterating the activation table
/// in its defined order yields non-decreasing activation epochs.
pub proof fn lemma_programs_monotonic(cluster_type: ClusterType)
    ensures
        epochs_non_decreasing(spec_get_programs(cluster_type)),
{
}

} // verus!
