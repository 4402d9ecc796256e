//! The epoch synchronizer: the idempotent callback the runtime invokes on
//! entering (or re-entering) an epoch context. It consults the inflation
//! schedule and the activation table and applies their effects to the
//! caller-owned bank: set the policy defined for exactly this epoch, if
//! any, and register every program whose activation condition holds.

use vstd::prelude::*;

use crate::bank::has_id;
use crate::bank::register_program;
use crate::bank::Bank;
use crate::bank::BankView;
use crate::inflation::get_inflation;
use crate::inflation::spec_get_inflation;
use crate::programs::entries_view;
use crate::programs::get_programs;
use crate::programs::lemma_programs_unique;
use crate::programs::spec_get_programs;
use crate::programs::unique_ids;
use crate::types::ClusterType;
use crate::types::Epoch;
use crate::types::Program;
use crate::types::ProgramId;
use crate::types::ProgramView;

verus! {

/// The activation condition of a table entry. On an initial (cold-start or
/// restore) invocation every program already due by the current epoch must
/// be caught up; on a live transition only programs newly due exactly this
/// epoch activate.
pub open spec fn due(start_epoch: Epoch, current_epoch: Epoch, initial: bool) -> bool {
    if initial {
        current_epoch >= start_epoch
    } else {
        current_epoch == start_epoch
    }
}

/// What one table entry does to the registered set.
pub open spec fn apply_entry(
    programs: Seq<ProgramView>,
    entry: (ProgramView, Epoch),
    current_epoch: Epoch,
    initial: bool,
) -> Seq<ProgramView> {
    if due(entry.1, current_epoch, initial) {
        register_program(programs, entry.0)
    } else {
        programs
    }
}

/// What walking the whole table in order does to the registered set.
pub open spec fn apply_entries(
    programs: Seq<ProgramView>,
    entries: Seq<(ProgramView, Epoch)>,
    current_epoch: Epoch,
    initial: bool,
) -> Seq<ProgramView>
    decreases entries.len(),
{
    if entries.len() == 0 {
        programs
    } else {
        apply_entry(
            apply_entries(programs, entries.drop_last(), current_epoch, initial),
            entries.last(),
            current_epoch,
            initial,
        )
    }
}

/// The bank after the inflation step: the policy defined for exactly the
/// bank's epoch if the schedule defines one, the existing policy otherwise.
pub open spec fn with_inflation(bank: BankView, cluster_type: ClusterType) -> BankView {
    match spec_get_inflation(cluster_type, bank.epoch) {
        Some(inflation) => BankView { inflation, ..bank },
        None => bank,
    }
}

/// The bank after one synchronizer invocation: the inflation step followed
/// by the module-activation step. The epoch is never touched.
pub open spec fn spec_entered_epoch(
    bank: BankView,
    cluster_type: ClusterType,
    initial: bool,
) -> BankView {
    let after_inflation = with_inflation(bank, cluster_type);
    BankView {
        programs: apply_entries(
            after_inflation.programs,
            spec_get_programs(cluster_type),
            after_inflation.epoch,
            initial,
        ),
        ..after_inflation
    }
}

/// The synchronization callback for one deployment, handed to the runtime
/// once at process start and invoked on every epoch entry.
pub struct EnteredEpochCallback {
    pub cluster_type: ClusterType,
}

/// Build the callback that synchronizes a bank with the schedules of this
/// deployment.
pub fn get_entered_epoch_callback(cluster_type: ClusterType) -> (r: EnteredEpochCallback)
    ensures
        r.cluster_type == cluster_type,
{
    EnteredEpochCallback { cluster_type }
}

impl EnteredEpochCallback {
    /// Synchronize the bank with what the schedules say should be active
    /// at its current epoch. Safe to call at arbitrary points within an
    /// epoch, not only at epoch boundaries, and idempotent: a repeated call
    /// with the same arguments leaves the bank unchanged.
    pub fn call(&self, bank: &mut Bank, initial: bool)
        ensures
            final(bank)@ == spec_entered_epoch(old(bank)@, self.cluster_type, initial),
    {
        let current_epoch = bank.epoch();
        if let Some(inflation) = get_inflation(self.cluster_type, current_epoch) {
            bank.set_inflation(inflation);
        }
        let ghost after_inflation = with_inflation(old(bank)@, self.cluster_type);
        let entries = get_programs(self.cluster_type);
        let ghost table = spec_get_programs(self.cluster_type);
        let n = entries.len();
        let mut i: usize = 0;
        while i < n
            invariant
                i <= n,
                n == entries.len(),
                entries_view(entries@) == table,
                bank@.epoch == after_inflation.epoch,
                bank@.inflation == after_inflation.inflation,
                current_epoch == after_inflation.epoch,
                bank@.programs == apply_entries(
                    after_inflation.programs,
                    table.take(i as int),
                    current_epoch,
                    initial,
                ),
            decreases n - i,
        {
            proof {
                assert(entries_view(entries@)[i as int] == table[i as int]);
                assert(table.take(i as int + 1).drop_last() =~= table.take(i as int));
                assert(table.take(i as int + 1).last() == table[i as int]);
            }
            let entry = &entries[i];
            let start_epoch = entry.1;
            let should_populate = initial && current_epoch >= start_epoch || !initial
                && current_epoch == start_epoch;
            if should_populate {
                match &entry.0 {
                    Program::Native { name, id } => {
                        bank.add_native_program(name.as_str(), *id);
                    },
                    Program::BuiltinLoader { name, id, entry_point } => {
                        bank.add_builtin_loader(name.as_str(), *id, *entry_point);
                    },
                }
            }
            i = i + 1;
        }
        proof {
            assert(table.take(n as int) =~= table);
        }
    }
}

proof fn lemma_register_has_id(programs: Seq<ProgramView>, program: ProgramView, id: ProgramId)
    ensures
        has_id(register_program(programs, program), id) == (has_id(programs, id) || program.id()
            == id),
{
    if has_id(programs, program.id()) {
        if program.id() == id {
            let k = choose|k: int|
                0 <= k < programs.len() && programs[k].id() == program.id();
            assert(programs[k].id() == id);
        }
    } else {
        let pushed = programs.push(program);
        if has_id(programs, id) {
            let k = choose|k: int| 0 <= k < programs.len() && programs[k].id() == id;
            assert(pushed[k].id() == id);
        }
        if program.id() == id {
            assert(pushed[programs.len() as int].id() == id);
        }
        if has_id(pushed, id) && !has_id(programs, id) && program.id() != id {
            let k = choose|k: int| 0 <= k < pushed.len() && pushed[k].id() == id;
            if k < programs.len() {
                assert(programs[k].id() == id);
            }
            assert(false);
        }
    }
}

/// An identifier is registered after the walk exactly when it was
/// registered before, or some entry due at this epoch carries it.
proof fn lemma_apply_entries_has_id(
    programs: Seq<ProgramView>,
    entries: Seq<(ProgramView, Epoch)>,
    current_epoch: Epoch,
    initial: bool,
    id: ProgramId,
)
    ensures
        has_id(apply_entries(programs, entries, current_epoch, initial), id) == (has_id(
            programs,
            id,
        ) || exists|k: int|
            0 <= k < entries.len() && due(entries[k].1, current_epoch, initial) && entries[k].0.id()
                == id),
    decreases entries.len(),
{
    if entries.len() == 0 {
    } else {
        let init = entries.drop_last();
        let last = entries.last();
        let mid = apply_entries(programs, init, current_epoch, initial);
        lemma_apply_entries_has_id(programs, init, current_epoch, initial, id);
        if due(last.1, current_epoch, initial) {
            lemma_register_has_id(mid, last.0, id);
        }
        assert(last == entries[entries.len() - 1]);
        if exists|k: int|
            0 <= k < init.len() && due(init[k].1, current_epoch, initial) && init[k].0.id() == id {
            let k = choose|k: int|
                0 <= k < init.len() && due(init[k].1, current_epoch, initial) && init[k].0.id()
                    == id;
            assert(entries[k] == init[k]);
            assert(due(entries[k].1, current_epoch, initial) && entries[k].0.id() == id);
        }
        if exists|k: int|
            0 <= k < entries.len() && due(entries[k].1, current_epoch, initial)
                && entries[k].0.id() == id {
            let k = choose|k: int|
                0 <= k < entries.len() && due(entries[k].1, current_epoch, initial)
                    && entries[k].0.id() == id;
            if k < entries.len() - 1 {
                assert(init[k] == entries[k]);
                assert(due(init[k].1, current_epoch, initial) && init[k].0.id() == id);
            }
        }
    }
}

/// The walk only appends: every program registered before keeps its
/// position, and nothing is ever unregistered.
proof fn lemma_apply_entries_extends(
    programs: Seq<ProgramView>,
    entries: Seq<(ProgramView, Epoch)>,
    current_epoch: Epoch,
    initial: bool,
)
    ensures
        apply_entries(programs, entries, current_epoch, initial).len() >= programs.len(),
        forall|i: int|
            0 <= i < programs.len() ==> apply_entries(programs, entries, current_epoch, initial)[i]
                == programs[i],
    decreases entries.len(),
{
    if entries.len() == 0 {
    } else {
        lemma_apply_entries_extends(programs, entries.drop_last(), current_epoch, initial);
    }
}

/// When every entry due at this epoch is already registered, the walk is
/// a no-op.
proof fn lemma_apply_entries_noop(
    programs: Seq<ProgramView>,
    entries: Seq<(ProgramView, Epoch)>,
    current_epoch: Epoch,
    initial: bool,
)
    requires
        forall|k: int|
            0 <= k < entries.len() && due(entries[k].1, current_epoch, initial) ==> has_id(
                programs,
                entries[k].0.id(),
            ),
    ensures
        apply_entries(programs, entries, current_epoch, initial) == programs,
    decreases entries.len(),
{
    if entries.len() == 0 {
    } else {
        let init = entries.drop_last();
        let last = entries.last();
        assert forall|k: int|
            0 <= k < init.len() && due(init[k].1, current_epoch, initial) implies has_id(
            programs,
            init[k].0.id(),
        ) by {
            assert(init[k] == entries[k]);
        }
        lemma_apply_entries_noop(programs, init, current_epoch, initial);
        if due(last.1, current_epoch, initial) {
            assert(last == entries[entries.len() - 1]);
            assert(has_id(programs, last.0.id()));
        }
    }
}

/// Cold-start catch-up law: on an initial invocation of the synchronizer,
/// every program of the deployment's table whose activation epoch is at or
/// before the bank's current epoch ends up registered, and a program whose
/// activation epoch lies in the future is registered afterwards only if it
/// already was before. In particular, on a bank with no registered
/// programs, exactly the programs already due by this epoch end up
/// registered.
pub proof fn lemma_cold_start_catch_up(bank: BankView, cluster_type: ClusterType)
    ensures
        forall|k: int|
            0 <= k < spec_get_programs(cluster_type).len() && spec_get_programs(cluster_type)[k].1
                <= bank.epoch ==> has_id(
                spec_entered_epoch(bank, cluster_type, true).programs,
                spec_get_programs(cluster_type)[k].0.id(),
            ),
        forall|k: int|
            0 <= k < spec_get_programs(cluster_type).len() && spec_get_programs(cluster_type)[k].1
                > bank.epoch ==> (has_id(
                spec_entered_epoch(bank, cluster_type, true).programs,
                spec_get_programs(cluster_type)[k].0.id(),
            ) <==> has_id(bank.programs, spec_get_programs(cluster_type)[k].0.id())),
{
    let table = spec_get_programs(cluster_type);
    let after = spec_entered_epoch(bank, cluster_type, true);
    let after_inflation = with_inflation(bank, cluster_type);
    lemma_programs_unique(cluster_type);
    assert forall|k: int|
        0 <= k < table.len() && table[k].1 <= bank.epoch implies has_id(
        after.programs,
        table[k].0.id(),
    ) by {
        lemma_apply_entries_has_id(
            after_inflation.programs,
            table,
            after_inflation.epoch,
            true,
            table[k].0.id(),
        );
        assert(due(table[k].1, after_inflation.epoch, true) && table[k].0.id() == table[k].0.id());
    }
    assert forall|k: int|
        0 <= k < table.len() && table[k].1 > bank.epoch implies (has_id(
        after.programs,
        table[k].0.id(),
    ) <==> has_id(bank.programs, table[k].0.id())) by {
        lemma_apply_entries_has_id(
            after_inflation.programs,
            table,
            after_inflation.epoch,
            true,
            table[k].0.id(),
        );
        if has_id(after.programs, table[k].0.id()) && !has_id(bank.programs, table[k].0.id()) {
            let j = choose|j: int|
                0 <= j < table.len() && due(table[j].1, after_inflation.epoch, true)
                    && table[j].0.id() == table[k].0.id();
            assert(unique_ids(table));
            assert(false);
        }
    }
}

/// Live-transition precision law: on a non-initial invocation, programs
/// registered before stay registered at their positions, every table entry
/// whose activation epoch is exactly the bank's epoch ends up registered,
/// and nothing else becomes registered.
pub proof fn lemma_live_transition_precision(bank: BankView, cluster_type: ClusterType)
    ensures
        spec_entered_epoch(bank, cluster_type, false).programs.len() >= bank.programs.len(),
        forall|i: int|
            0 <= i < bank.programs.len() ==> spec_entered_epoch(
                bank,
                cluster_type,
                false,
            ).programs[i] == bank.programs[i],
        forall|k: int|
            0 <= k < spec_get_programs(cluster_type).len() && spec_get_programs(cluster_type)[k].1
                == bank.epoch ==> has_id(
                spec_entered_epoch(bank, cluster_type, false).programs,
                spec_get_programs(cluster_type)[k].0.id(),
            ),
        forall|id: ProgramId|
            has_id(spec_entered_epoch(bank, cluster_type, false).programs, id) && !has_id(
                bank.programs,
                id,
            ) ==> exists|k: int|
                0 <= k < spec_get_programs(cluster_type).len() && spec_get_programs(
                    cluster_type,
                )[k].1 == bank.epoch && spec_get_programs(cluster_type)[k].0.id() == id,
{
    let table = spec_get_programs(cluster_type);
    let after = spec_entered_epoch(bank, cluster_type, false);
    let after_inflation = with_inflation(bank, cluster_type);
    lemma_apply_entries_extends(after_inflation.programs, table, after_inflation.epoch, false);
    assert forall|k: int|
        0 <= k < table.len() && table[k].1 == bank.epoch implies has_id(
        after.programs,
        table[k].0.id(),
    ) by {
        lemma_apply_entries_has_id(
            after_inflation.programs,
            table,
            after_inflation.epoch,
            false,
            table[k].0.id(),
        );
        assert(due(table[k].1, after_inflation.epoch, false) && table[k].0.id() == table[k].0.id());
    }
    assert forall|id: ProgramId|
        has_id(after.programs, id) && !has_id(bank.programs, id) implies exists|k: int|
        0 <= k < table.len() && table[k].1 == bank.epoch && table[k].0.id() == id by {
        lemma_apply_entries_has_id(after_inflation.programs, table, after_inflation.epoch, false, id);
        let j = choose|j: int|
            0 <= j < table.len() && due(table[j].1, after_inflation.epoch, false) && table[j].0.id()
                == id;
        assert(table[j].1 == bank.epoch && table[j].0.id() == id);
    }
}

/// Idempotence law: applying the synchronizer twice with identical
/// arguments leaves the bank in the same state as applying it once.
pub proof fn lemma_entered_epoch_idempotent(
    bank: BankView,
    cluster_type: ClusterType,
    initial: bool,
)
    ensures
        spec_entered_epoch(spec_entered_epoch(bank, cluster_type, initial), cluster_type, initial)
            == spec_entered_epoch(bank, cluster_type, initial),
{
    let table = spec_get_programs(cluster_type);
    let once = spec_entered_epoch(bank, cluster_type, initial);
    let after_inflation = with_inflation(bank, cluster_type);
    assert(once.epoch == bank.epoch);
    assert(with_inflation(once, cluster_type) == once);
    assert forall|k: int|
        0 <= k < table.len() && due(table[k].1, bank.epoch, initial) implies has_id(
        once.programs,
        table[k].0.id(),
    ) by {
        lemma_apply_entries_has_id(
            after_inflation.programs,
            table,
            after_inflation.epoch,
            initial,
            table[k].0.id(),
        );
        assert(due(table[k].1, after_inflation.epoch, initial) && table[k].0.id() == table[k].0.id());
    }
    lemma_apply_entries_noop(once.programs, table, bank.epoch, initial);
}

} // verus!
