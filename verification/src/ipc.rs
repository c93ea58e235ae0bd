//! The messages exchanged with clients, as far as the world builds them.
use vstd::prelude::*;
use crate::common::{ObjectTypeId, Position};
use crate::workdefinitions::ClientSelectData;

verus! {

/// The privilege rank of an account's character.
#[derive(Clone, Copy, Debug, PartialEq, Eq, Structural)]
pub enum GameMasterRank {
    NormalUser,
    GameMaster,
    EventJuniorGM,
    EventSeniorGM,
    Support,
    Senior,
    Debug,
}

impl GameMasterRank {
    /// The integer that stands for the rank in a stored record.
    pub open spec fn spec_to_column(self) -> u8 {
        match self {
            GameMasterRank::NormalUser => 0,
            GameMasterRank::GameMaster => 1,
            GameMasterRank::EventJuniorGM => 3,
            GameMasterRank::EventSeniorGM => 4,
            GameMasterRank::Support => 5,
            GameMasterRank::Senior => 7,
            GameMasterRank::Debug => 90,
        }
    }

    /// The rank that an integer of a stored record stands for.
    pub open spec fn spec_from_column(value: u8) -> Option<GameMasterRank> {
        if value == 0 {
            Some(GameMasterRank::NormalUser)
        } else if value == 1 {
            Some(GameMasterRank::GameMaster)
        } else if value == 3 {
            Some(GameMasterRank::EventJuniorGM)
        } else if value == 4 {
            Some(GameMasterRank::EventSeniorGM)
        } else if value == 5 {
            Some(GameMasterRank::Support)
        } else if value == 7 {
            Some(GameMasterRank::Senior)
        } else if value == 90 {
            Some(GameMasterRank::Debug)
        } else {
            None
        }
    }

    pub fn to_column(self) -> (r: u8)
        ensures
            r == self.spec_to_column(),
            GameMasterRank::spec_from_column(r) == Some(self),
    {
        match self {
            GameMasterRank::NormalUser => 0,
            GameMasterRank::GameMaster => 1,
            GameMasterRank::EventJuniorGM => 3,
            GameMasterRank::EventSeniorGM => 4,
            GameMasterRank::Support => 5,
            GameMasterRank::Senior => 7,
            GameMasterRank::Debug => 90,
        }
    }

    /// Decodes a stored integer; `None` for an integer that stands for no rank.
    pub fn from_column(value: u8) -> (r: Option<GameMasterRank>)
        ensures
            r == GameMasterRank::spec_from_column(value),
            r matches Some(rank) ==> rank.spec_to_column() == value,
    {
        match value {
            0 => Some(GameMasterRank::NormalUser),
            1 => Some(GameMasterRank::GameMaster),
            3 => Some(GameMasterRank::EventJuniorGM),
            4 => Some(GameMasterRank::EventSeniorGM),
            5 => Some(GameMasterRank::Support),
            7 => Some(GameMasterRank::Senior),
            90 => Some(GameMasterRank::Debug),
            _ => None,
        }
    }
}

/// The flag bits shown beside a character in the character list.
#[derive(Clone, Copy, Debug, PartialEq, Eq, Structural)]
pub struct CharacterFlag {
    pub bits: u8,
}

impl CharacterFlag {
    /// No flag is set.
    pub open spec fn spec_none() -> CharacterFlag {
        CharacterFlag { bits: 0 }
    }

    pub fn none() -> (r: CharacterFlag)
        ensures
            r == CharacterFlag::spec_none(),
    {
        CharacterFlag { bits: 0 }
    }
}

/// One entry of the character list of an account.
#[derive(Clone, Debug, PartialEq, Eq)]
pub struct CharacterDetails {
    pub actor_id: u32,
    pub content_id: u64,
    pub index: u8,
    pub flags: CharacterFlag,
    pub unk1: [u8; 6],
    pub origin_server_id: u16,
    pub current_server_id: u16,
    pub character_name: String,
    pub origin_server_name: String,
    pub current_server_name: String,
    pub character_detail: ClientSelectData,
    pub unk2: [u8; 16],
    pub unk3: [u8; 5],
}

/// The kind of a message from the world to a client.
#[derive(Clone, Copy, Debug, PartialEq, Eq, Structural)]
pub enum ServerZoneIpcType {
    ServerChatMessage,
    EventScene,
    Warp,
    ActorControlSelf,
}

/// Asks the client to play a scene of an event.
#[derive(Clone, Copy, Debug, PartialEq, Eq, Structural)]
pub struct EventScene {
    pub actor_id: ObjectTypeId,
    pub event_id: u32,
    pub scene: u16,
    pub scene_flags: u32,
    pub unk2: u8,
}

/// Moves the client's character. `dir` is the rotation, quantized to 16 bits.
#[derive(Clone, Copy, Debug, PartialEq, Eq, Structural)]
pub struct Warp {
    pub dir: u16,
    pub position: Position,
}

/// What an actor-control message asks of the client.
#[derive(Clone, Copy, Debug, PartialEq, Eq, Structural)]
pub enum ActorControlCategory {
    ToggleActionUnlock { id: u32, unlocked: bool },
    SetFestival { festival1: u32, festival2: u32, festival3: u32, festival4: u32 },
}

/// An actor-control message addressed to the client's own character.
#[derive(Clone, Copy, Debug, PartialEq, Eq, Structural)]
pub struct ActorControlSelf {
    pub category: ActorControlCategory,
}

/// The body of a message from the world to a client.
#[derive(Clone, Debug, PartialEq, Eq)]
pub enum ServerZoneIpcData {
    ServerChatMessage { message: String, unk: u32 },
    EventScene(EventScene),
    Warp(Warp),
    ActorControlSelf(ActorControlSelf),
}

/// A message from the world to a client: its kind, the time it was made
/// (seconds since the Unix epoch) and its body.
#[derive(Clone, Debug, PartialEq, Eq)]
pub struct ServerZoneIpcSegment {
    pub op_code: ServerZoneIpcType,
    pub server_id: u16,
    pub timestamp: u32,
    pub data: ServerZoneIpcData,
}

/// The kind of a packet segment.
#[derive(Clone, Copy, Debug, PartialEq, Eq, Structural)]
pub enum SegmentType {
    Ipc,
}

/// The payload of a packet segment.
#[derive(Clone, Debug, PartialEq, Eq)]
pub enum SegmentData {
    Ipc { data: ServerZoneIpcSegment },
}

/// One segment of a packet: who sends, who receives, and the payload.
#[derive(Clone, Debug, PartialEq, Eq)]
pub struct PacketSegment {
    pub source_actor: u32,
    pub target_actor: u32,
    pub segment_type: SegmentType,
    pub data: SegmentData,
}

/// The segment that carries one message of the given kind and body.
pub open spec fn ipc_segment(
    op_code: ServerZoneIpcType,
    data: ServerZoneIpcData,
    source_actor: u32,
    target_actor: u32,
    timestamp: u32,
) -> PacketSegment {
    PacketSegment {
        source_actor,
        target_actor,
        segment_type: SegmentType::Ipc,
        data: SegmentData::Ipc {
            data: ServerZoneIpcSegment { op_code, server_id: 0, timestamp, data },
        },
    }
}

/// How an action hurts its target.
#[derive(Clone, Copy, Debug, PartialEq, Eq, Structural)]
pub enum DamageKind {
    Normal,
    Critical,
    DirectHit,
}

/// The physical nature of a hit.
#[derive(Clone, Copy, Debug, PartialEq, Eq, Structural)]
pub enum DamageType {
    Unknown,
    Slashing,
    Piercing,
    Blunt,
    Shot,
    Magic,
    Breath,
}

/// The element of a hit.
#[derive(Clone, Copy, Debug, PartialEq, Eq, Structural)]
pub enum DamageElement {
    Unknown,
    Fire,
    Ice,
    Air,
    Earth,
    Lightning,
    Water,
    Unaspected,
}

/// What one effect of an action does.
#[derive(Clone, Copy, Debug, PartialEq, Eq, Structural)]
pub enum EffectKind {
    Unknown,
    Damage {
        damage_kind: DamageKind,
        damage_type: DamageType,
        damage_element: DamageElement,
        bonus_percent: u8,
        unk3: u8,
        unk4: u8,
        amount: u16,
    },
}

/// One effect of an action.
#[derive(Clone, Copy, Debug, PartialEq, Eq, Structural)]
pub struct ActionEffect {
    pub kind: EffectKind,
}

} // verus!
