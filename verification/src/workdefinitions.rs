//! The descriptors that the character-selection flow exchanges with the
//! client.
use vstd::prelude::*;
use crate::common::CustomizeData;

verus! {

/// The appearance and starting-job descriptor given at character creation.
#[derive(Clone, Copy, Debug, PartialEq, Eq, Structural)]
pub struct CharaMake {
    pub customize: CustomizeData,
    pub voice_id: i32,
    pub guardian: i32,
    pub birth_month: i32,
    pub birth_day: i32,
    pub classjob_id: i32,
    pub unk2: i32,
}

/// Whether a character may be remade on its next login.
#[derive(Clone, Copy, Debug, PartialEq, Eq, Structural)]
pub enum RemakeMode {
    /// No remake is pending.
    NoRemake,
    /// The appearance may be edited once.
    EditAppearance,
}

impl RemakeMode {
    /// The integer that stands for the mode in a stored record.
    pub open spec fn spec_to_column(self) -> i32 {
        match self {
            RemakeMode::NoRemake => 0,
            RemakeMode::EditAppearance => 4,
        }
    }

    /// The mode that an integer of a stored record stands for.
    pub open spec fn spec_from_column(value: i32) -> Option<RemakeMode> {
        if value == 0 {
            Some(RemakeMode::NoRemake)
        } else if value == 4 {
            Some(RemakeMode::EditAppearance)
        } else {
            None
        }
    }

    pub fn to_column(self) -> (r: i32)
        ensures
            r == self.spec_to_column(),
            RemakeMode::spec_from_column(r) == Some(self),
    {
        match self {
            RemakeMode::NoRemake => 0,
            RemakeMode::EditAppearance => 4,
        }
    }

    /// Decodes a stored integer; `None` for an integer that stands for no mode.
    pub fn from_column(value: i32) -> (r: Option<RemakeMode>)
        ensures
            r == RemakeMode::spec_from_column(value),
            r matches Some(mode) ==> mode.spec_to_column() == value,
    {
        if value == 0 {
            Some(RemakeMode::NoRemake)
        } else if value == 4 {
            Some(RemakeMode::EditAppearance)
        } else {
            None
        }
    }
}

/// The summary of one character that the character-selection screen shows.
#[derive(Clone, Debug, PartialEq, Eq)]
pub struct ClientSelectData {
    pub character_name: String,
    pub current_class: i32,
    pub class_levels: [i32; 32],
    pub race: i32,
    pub subrace: i32,
    pub gender: i32,
    pub birth_month: i32,
    pub birth_day: i32,
    pub guardian: i32,
    pub unk8: i32,
    pub unk9: i32,
    pub zone_id: i32,
    pub content_finder_condition: i32,
    pub customize: CustomizeData,
    pub model_main_weapon: u64,
    pub model_sub_weapon: i32,
    pub model_ids: [u32; 10],
    pub equip_stain: [u32; 10],
    pub glasses: [u32; 2],
    pub remake_mode: RemakeMode,
    pub remake_minutes_remaining: i32,
    pub voice_id: i32,
    pub unk20: i32,
    pub unk21: i32,
    pub world_name: String,
    pub unk22: i32,
    pub unk23: i32,
}

} // verus!
