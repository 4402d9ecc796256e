//! The inflation schedule: a pure map from (deployment, epoch) to an
//! optional inflation-policy change. Absence of a breakpoint is the normal
//! "nothing changes this epoch" outcome, not an error; the synchronizer is
//! responsible for leaving the previous policy in place in that case.

use vstd::prelude::*;

use crate::types::ClusterType;
use crate::types::Epoch;
use crate::types::Inflation;

verus! {

/// The policy breakpoint defined for exactly this (deployment, epoch), if
/// any. This is the full schedule data; `get_inflation` returns exactly it.
pub open spec fn spec_get_inflation(cluster_type: ClusterType, epoch: Epoch) -> Option<Inflation> {
    match cluster_type {
        ClusterType::Development => if epoch == 0 {
            Some(Inflation::Standard)
        } else {
            None
        },
        ClusterType::Devnet => if epoch == 0 {
            Some(Inflation::Standard)
        } else {
            None
        },
        ClusterType::Testnet => if epoch == 0 {
            Some(Inflation::Disabled)
        } else if epoch == 44 {
            Some(Inflation::Standard)
        } else if epoch == 68 {
            Some(Inflation::Disabled)
        } else if epoch == 74 {
            Some(Inflation::Standard)
        } else {
            None
        },
        ClusterType::MainnetBeta => if epoch == 0 {
            Some(Inflation::Disabled)
        } else if epoch == u64::MAX {
            Some(Inflation::Standard)
        } else {
            None
        },
    }
}

/// Look up the inflation-policy breakpoint defined for exactly this epoch.
///
/// The result is a pure function of the two arguments, so two calls with
/// identical arguments return equal results.
pub fn get_inflation(cluster_type: ClusterType, epoch: Epoch) -> (r: Option<Inflation>)
    ensures
        r == spec_get_inflation(cluster_type, epoch),
{
    match cluster_type {
        ClusterType::Development => match epoch {
            0 => Some(Inflation::default()),
            _ => None,
        },
        ClusterType::Devnet => match epoch {
            0 => Some(Inflation::default()),
            _ => None,
        },
        ClusterType::Testnet => match epoch {
            // No inflation at genesis.
            0 => Some(Inflation::new_disabled()),
            // This deployment enabled inflation at epoch 44.
            44 => Some(Inflation::default()),
            // Disabled again ahead of an issuance fix at epoch 68.
            68 => Some(Inflation::new_disabled()),
            // Enabled again once the fix had landed.
            74 => Some(Inflation::default()),
            _ => None,
        },
        ClusterType::MainnetBeta => {
            if epoch == 0 {
                // No inflation at genesis.
                Some(Inflation::new_disabled())
            } else if epoch == u64::MAX {
                // The maximum epoch is a placeholder; a future update is
                // expected to replace it with a concrete epoch.
                Some(Inflation::default())
            } else {
                None
            }
        },
    }
}

} // verus!
