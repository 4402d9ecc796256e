//! Core data model: epochs, deployment identity, inflation policy, and the
//! descriptors of the built-in programs that the schedule activates.

use vstd::prelude::*;

verus! {

/// A logical clock value of the ledger. Epochs are unsigned, start at
/// genesis (zero), and only ever grow; `u64::MAX` is used by the schedule
/// data as a deliberate placeholder meaning "not yet scheduled".
pub type Epoch = u64;

/// The epoch of the ledger's first block.
pub const GENESIS_EPOCH: Epoch = 0;

/// Which network deployment a node belongs to. The set is closed and the
/// value is fixed for the lifetime of the process; every schedule lookup
/// takes it explicitly so that the schedule stays a pure function.
#[derive(Clone, Copy, Debug, PartialEq, Eq, Structural)]
pub enum ClusterType {
    Development,
    Devnet,
    Testnet,
    MainnetBeta,
}

/// Monetary-issuance policy. The schedule only ever selects between the
/// standard policy and the zero-issuance one, and compares them by value.
#[derive(Clone, Copy, Debug, PartialEq, Eq, Structural)]
pub enum Inflation {
    /// The standard issuance parameters.
    Standard,
    /// Zero issuance.
    Disabled,
}

impl Inflation {
    /// The zero-issuance policy.
    pub fn new_disabled() -> (r: Inflation)
        ensures
            r == Inflation::Disabled,
    {
        Inflation::Disabled
    }
}

impl Default for Inflation {
    /// The standard issuance policy.
    fn default() -> (r: Inflation)
        ensures
            r == Inflation::Standard,
    {
        Inflation::Standard
    }
}

/// The unique address-space identifier of a built-in program: the fixed
/// address under which the runtime registers it.
#[derive(Clone, Copy, Debug, PartialEq, Eq, Hash, Structural)]
pub struct ProgramId(pub u64);

/// An opaque, debug-printable handle to the externally supplied entry point
/// of a loader program. This core never invokes it; it only forwards it to
/// the registration call.
#[derive(Clone, Copy, Debug, PartialEq, Eq, Structural)]
pub struct EntryPoint(pub u64);

/// A built-in program known to some deployment: either a native program,
/// linked directly into the runtime, or a loader that executes dynamically
/// supplied code through its own entry point.
#[derive(Clone, Debug, PartialEq, Eq)]
pub enum Program {
    Native { name: String, id: ProgramId },
    BuiltinLoader { name: String, id: ProgramId, entry_point: EntryPoint },
}

/// The mathematical model of a `Program`: the same tag and fields, with the
/// name as a sequence of characters.
pub enum ProgramView {
    Native { name: Seq<char>, id: ProgramId },
    BuiltinLoader { name: Seq<char>, id: ProgramId, entry_point: EntryPoint },
}

impl ProgramView {
    /// The address-space identifier, whatever the kind of program.
    pub open spec fn id(self) -> ProgramId {
        match self {
            ProgramView::Native { id, .. } => id,
            ProgramView::BuiltinLoader { id, .. } => id,
        }
    }

    /// The human-readable name, whatever the kind of program.
    pub open spec fn name(self) -> Seq<char> {
        match self {
            ProgramView::Native { name, .. } => name,
            ProgramView::BuiltinLoader { name, .. } => name,
        }
    }
}

impl View for Program {
    type V = ProgramView;

    open spec fn view(&self) -> ProgramView {
        match self {
            Program::Native { name, id } => ProgramView::Native { name: name@, id: *id },
            Program::BuiltinLoader { name, id, entry_point } => ProgramView::BuiltinLoader {
                name: name@,
                id: *id,
                entry_point: *entry_point,
            },
        }
    }
}

impl Program {
    /// The address-space identifier, whatever the kind of program.
    pub fn id(&self) -> (r: ProgramId)
        ensures
            r == self@.id(),
    {
        match self {
            Program::Native { id, .. } => *id,
            Program::BuiltinLoader { id, .. } => *id,
        }
    }
}

} // verus!
