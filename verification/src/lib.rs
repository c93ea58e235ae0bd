//! Persistence core of a multiplayer game world server.
//!
//! The crate keeps the durable record of every player character (identity,
//! location, inventory, job progression and unlock state) as two tables of
//! plain rows, and states every operation on them as a contract over that
//! model. It also converts a character exported by a legacy client into the
//! native record layout.
use vstd::prelude::*;

pub mod common;
pub mod inventory;
pub mod ipc;
pub mod workdefinitions;
pub mod world;

verus! {

/// Number of slots in the per-job level and experience arrays.
pub const CLASSJOB_ARRAY_SIZE: usize = 32;

/// Number of bytes in the general unlock bitmask.
pub const UNLOCK_BITMASK_SIZE: usize = 64;

/// Number of bytes in the aetheryte unlock bitmask.
pub const AETHERYTE_UNLOCK_BITMASK_SIZE: usize = 29;

/// Number of bytes in the completed quest bitmask.
pub const COMPLETED_QUEST_BITMASK_SIZE: usize = 691;

} // verus!
