//! Epoch-gated activation schedule for a ledger runtime: which built-in
//! programs are active and which inflation policy is in effect, as a function
//! of the network deployment and the current epoch, together with the
//! idempotent callback that applies the schedule to a runtime bank.

pub mod bank;
pub mod epoch_sync;
pub mod inflation;
pub mod programs;
pub mod types;

pub use bank::Bank;
pub use bank::BankView;
pub use epoch_sync::get_entered_epoch_callback;
pub use epoch_sync::spec_entered_epoch;
pub use epoch_sync::EnteredEpochCallback;
pub use inflation::get_inflation;
pub use inflation::spec_get_inflation;
pub use programs::get_native_programs_for_genesis;
pub use programs::get_programs;
pub use programs::spec_get_programs;
pub use types::ClusterType;
pub use types::EntryPoint;
pub use types::Epoch;
pub use types::GENESIS_EPOCH;
pub use types::Inflation;
pub use types::Program;
pub use types::ProgramId;
pub use types::ProgramView;
