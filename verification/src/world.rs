//! The world: the state of one connected player and the store that keeps
//! every character between sessions.
use vstd::prelude::*;
use crate::common::Position;
use crate::inventory::{empty_inventory, inventory_wf, Inventory, Item};
use crate::ipc::GameMasterRank;
use crate::{
    AETHERYTE_UNLOCK_BITMASK_SIZE, CLASSJOB_ARRAY_SIZE, COMPLETED_QUEST_BITMASK_SIZE,
    UNLOCK_BITMASK_SIZE,
};

pub mod chat_handler;
pub mod database;
pub mod import;
pub mod lua;

verus! {

/// The state of one character while its player is connected: the identity
/// of the character and the part of its record that play changes.
#[derive(Clone, Debug, PartialEq, Eq)]
pub struct PlayerData {
    pub actor_id: u32,
    pub content_id: u64,
    pub account_id: u32,
    pub classjob_id: u8,
    pub classjob_levels: [i32; 32],
    pub classjob_exp: [u32; 32],
    pub position: Position,
    /// The facing of the character, as the bit pattern of a single-precision
    /// number.
    pub rotation: u32,
    pub zone_id: u16,
    pub inventory: Inventory,
    pub gm_rank: GameMasterRank,
    pub unlocks: [u8; UNLOCK_BITMASK_SIZE],
    pub aetherytes: [u8; AETHERYTE_UNLOCK_BITMASK_SIZE],
    pub completed_quests: [u8; COMPLETED_QUEST_BITMASK_SIZE],
}

/// The mathematical value of a [`PlayerData`]: every array as a sequence.
pub struct PlayerDataView {
    pub actor_id: u32,
    pub content_id: u64,
    pub account_id: u32,
    pub classjob_id: u8,
    pub classjob_levels: Seq<i32>,
    pub classjob_exp: Seq<u32>,
    pub position: Position,
    pub rotation: u32,
    pub zone_id: u16,
    pub inventory: Seq<Seq<Item>>,
    pub gm_rank: GameMasterRank,
    pub unlocks: Seq<u8>,
    pub aetherytes: Seq<u8>,
    pub completed_quests: Seq<u8>,
}

impl PlayerDataView {
    /// A player's data is valid when the job arrays and the bitmasks have
    /// their declared lengths and the inventory has every container with its
    /// declared number of slots.
    pub open spec fn wf(self) -> bool {
        &&& self.classjob_levels.len() == CLASSJOB_ARRAY_SIZE
        &&& self.classjob_exp.len() == CLASSJOB_ARRAY_SIZE
        &&& self.unlocks.len() == UNLOCK_BITMASK_SIZE
        &&& self.aetherytes.len() == AETHERYTE_UNLOCK_BITMASK_SIZE
        &&& self.completed_quests.len() == COMPLETED_QUEST_BITMASK_SIZE
        &&& inventory_wf(self.inventory)
    }
}

impl View for PlayerData {
    type V = PlayerDataView;

    open spec fn view(&self) -> PlayerDataView {
        PlayerDataView {
            actor_id: self.actor_id,
            content_id: self.content_id,
            account_id: self.account_id,
            classjob_id: self.classjob_id,
            classjob_levels: self.classjob_levels@,
            classjob_exp: self.classjob_exp@,
            position: self.position,
            rotation: self.rotation,
            zone_id: self.zone_id,
            inventory: self.inventory@,
            gm_rank: self.gm_rank,
            unlocks: self.unlocks@,
            aetherytes: self.aetherytes@,
            completed_quests: self.completed_quests@,
        }
    }
}

impl PlayerData {
    /// A player's data is valid when its inventory has every container with
    /// its declared number of slots.
    pub open spec fn wf(&self) -> bool {
        self@.wf()
    }

    /// The data of a player that has not loaded a character: every number is
    /// zero, the rank is that of a normal user and the inventory is empty.
    pub open spec fn spec_default() -> PlayerDataView {
        PlayerDataView {
            actor_id: 0,
            content_id: 0,
            account_id: 0,
            classjob_id: 0,
            classjob_levels: Seq::new(CLASSJOB_ARRAY_SIZE as nat, |i: int| 0i32),
            classjob_exp: Seq::new(CLASSJOB_ARRAY_SIZE as nat, |i: int| 0u32),
            position: Position::origin(),
            rotation: 0,
            zone_id: 0,
            inventory: empty_inventory(),
            gm_rank: GameMasterRank::NormalUser,
            unlocks: Seq::new(UNLOCK_BITMASK_SIZE as nat, |i: int| 0u8),
            aetherytes: Seq::new(AETHERYTE_UNLOCK_BITMASK_SIZE as nat, |i: int| 0u8),
            completed_quests: Seq::new(COMPLETED_QUEST_BITMASK_SIZE as nat, |i: int| 0u8),
        }
    }
}

impl Default for PlayerData {
    fn default() -> (r: PlayerData)
        ensures
            r@ == PlayerData::spec_default(),
            r.wf(),
    {
        let r = PlayerData {
            actor_id: 0,
            content_id: 0,
            account_id: 0,
            classjob_id: 0,
            classjob_levels: [0i32; 32],
            classjob_exp: [0u32; 32],
            position: Position::default(),
            rotation: 0,
            zone_id: 0,
            inventory: Inventory::default(),
            gm_rank: GameMasterRank::NormalUser,
            unlocks: [0u8; UNLOCK_BITMASK_SIZE],
            aetherytes: [0u8; AETHERYTE_UNLOCK_BITMASK_SIZE],
            completed_quests: [0u8; COMPLETED_QUEST_BITMASK_SIZE],
        };
        assert(r@.classjob_levels =~= PlayerData::spec_default().classjob_levels);
        assert(r@.classjob_exp =~= PlayerData::spec_default().classjob_exp);
        assert(r@.unlocks =~= PlayerData::spec_default().unlocks);
        assert(r@.aetherytes =~= PlayerData::spec_default().aetherytes);
        assert(r@.completed_quests =~= PlayerData::spec_default().completed_quests);
        r
    }
}

} // verus!
