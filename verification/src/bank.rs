//! The model of the runtime handle that the epoch synchronizer writes
//! into: the current epoch, the active inflation policy, and the set of
//! registered built-in programs. The handle is owned by the caller; this
//! core only reads its epoch and applies registrations and policy changes.

use vstd::prelude::*;

use crate::types::EntryPoint;
use crate::types::Epoch;
use crate::types::Inflation;
use crate::types::Program;
use crate::types::ProgramId;
use crate::types::ProgramView;

verus! {

/// The ledger-state object the synchronizer mutates. Construction and
/// epoch advancement belong to the surrounding runtime; this core treats
/// the value as caller-owned shared-mutable state.
#[derive(Clone, Debug, PartialEq, Eq)]
pub struct Bank {
    /// The epoch the runtime is currently in.
    pub epoch: Epoch,
    /// The inflation policy currently in effect.
    pub inflation: Inflation,
    /// The currently registered built-in programs, in registration order.
    pub programs: Vec<Program>,
}

/// The mathematical model of a `Bank`.
pub struct BankView {
    pub epoch: Epoch,
    pub inflation: Inflation,
    pub programs: Seq<ProgramView>,
}

/// The views of a sequence of registered programs.
pub open spec fn programs_view(programs: Seq<Program>) -> Seq<ProgramView> {
    programs.map(|i: int, program: Program| program@)
}

impl View for Bank {
    type V = BankView;

    open spec fn view(&self) -> BankView {
        BankView {
            epoch: self.epoch,
            inflation: self.inflation,
            programs: programs_view(self.programs@),
        }
    }
}

/// Whether some registered program carries this identifier.
pub open spec fn has_id(programs: Seq<ProgramView>, id: ProgramId) -> bool {
    exists|i: int| 0 <= i < programs.len() && programs[i].id() == id
}

/// What registering `program` does to the registered set: a no-op when a
/// program with the same identifier is already present, an append at the
/// end otherwise.
pub open spec fn register_program(programs: Seq<ProgramView>, program: ProgramView) -> Seq<
    ProgramView,
> {
    if has_id(programs, program.id()) {
        programs
    } else {
        programs.push(program)
    }
}

impl Bank {
    /// A fresh handle with no registered programs. The surrounding runtime
    /// owns the real handle; this constructor exists so that the handle can
    /// be exercised on its own.
    pub fn new(epoch: Epoch, inflation: Inflation) -> (r: Bank)
        ensures
            r@.epoch == epoch,
            r@.inflation == inflation,
            r@.programs == Seq::<ProgramView>::empty(),
    {
        let bank = Bank { epoch, inflation, programs: Vec::new() };
        proof {
            assert(programs_view(bank.programs@) =~= Seq::<ProgramView>::empty());
        }
        bank
    }

    /// The epoch the runtime is currently in.
    pub fn epoch(&self) -> (r: Epoch)
        ensures
            r == self@.epoch,
    {
        self.epoch
    }

    /// Overwrite the active inflation policy.
    pub fn set_inflation(&mut self, inflation: Inflation)
        ensures
            final(self)@ == (BankView { inflation, ..old(self)@ }),
    {
        self.inflation = inflation;
    }

    /// Whether a program with this identifier is already registered.
    pub fn contains_program_id(&self, id: ProgramId) -> (r: bool)
        ensures
            r == has_id(self@.programs, id),
    {
        let n = self.programs.len();
        let mut i: usize = 0;
        let mut found = false;
        while i < n
            invariant
                i <= n,
                n == self.programs.len(),
                found == has_id(programs_view(self.programs@).take(i as int), id),
            decreases n - i,
        {
            proof {
                assert(programs_view(self.programs@).take(i as int + 1).drop_last() =~= (
                programs_view(self.programs@).take(i as int)));
            }
            if self.programs[i].id() == id {
                found = true;
                proof {
                    let ghost programs = programs_view(self.programs@).take(i as int + 1);
                    assert(programs[i as int].id() == id);
                }
            }
            proof {
                let ghost prefix = programs_view(self.programs@).take(i as int + 1);
                if found && !has_id(prefix.drop_last(), id) && prefix.last().id() != id {
                    assert(false);
                }
                if has_id(prefix, id) && !found {
                    let k = choose|k: int| 0 <= k < prefix.len() && prefix[k].id() == id;
                    if k < i as int {
                        assert(prefix.drop_last()[k].id() == id);
                    }
                    assert(false);
                }
            }
            i = i + 1;
        }
        proof {
            assert(programs_view(self.programs@).take(n as int) =~= programs_view(
                self.programs@,
            ));
        }
        found
    }

    /// Register a native program. Registration is idempotent: when a
    /// program with the same identifier is already registered, the handle
    /// is left untouched.
    pub fn add_native_program(&mut self, name: &str, id: ProgramId)
        ensures
            final(self)@ == (BankView {
                programs: register_program(
                    old(self)@.programs,
                    ProgramView::Native { name: name@, id },
                ),
                ..old(self)@
            }),
    {
        if !self.contains_program_id(id) {
            self.programs.push(Program::Native { name: String::from_str(name), id });
            proof {
                assert(programs_view(self.programs@) =~= old(self)@.programs.push(
                    ProgramView::Native { name: name@, id },
                ));
            }
        }
    }

    /// Register a loader program, forwarding its entry-point handle.
    /// Registration is idempotent in the same way as for native programs.
    pub fn add_builtin_loader(&mut self, name: &str, id: ProgramId, entry_point: EntryPoint)
        ensures
            final(self)@ == (BankView {
                programs: register_program(
                    old(self)@.programs,
                    ProgramView::BuiltinLoader { name: name@, id, entry_point },
                ),
                ..old(self)@
            }),
    {
        if !self.contains_program_id(id) {
            self.programs.push(
                Program::BuiltinLoader { name: String::from_str(name), id, entry_point },
            );
            proof {
                assert(programs_view(self.programs@) =~= old(self)@.programs.push(
                    ProgramView::BuiltinLoader { name: name@, id, entry_point },
                ));
            }
        }
    }
}

} // verus!
