//! Small value types shared by every part of the server, and the static
//! game-data tables that the world consults.
use vstd::prelude::*;

verus! {

/// A point in the world.
///
/// Each coordinate is carried as the bit pattern of a single-precision
/// number: the library stores and returns positions and never computes on
/// them.
#[derive(Clone, Copy, Debug, PartialEq, Eq, Structural)]
pub struct Position {
    pub x: u32,
    pub y: u32,
    pub z: u32,
}

impl Position {
    /// The origin: all three coordinates are positive zero.
    pub open spec fn origin() -> Position {
        Position { x: 0, y: 0, z: 0 }
    }
}

impl Default for Position {
    fn default() -> (r: Position)
        ensures
            r == Position::origin(),
    {
        Position { x: 0, y: 0, z: 0 }
    }
}

/// The address of an actor in the live world.
#[derive(Clone, Copy, Debug, PartialEq, Eq, Structural)]
pub struct ObjectId(pub u32);

/// An actor address together with the kind of object it names.
#[derive(Clone, Copy, Debug, PartialEq, Eq, Structural)]
pub struct ObjectTypeId {
    pub object_id: ObjectId,
    pub object_type: u8,
}

/// The appearance of a character, one byte per choice.
#[derive(Clone, Copy, Debug, PartialEq, Eq, Structural)]
pub struct CustomizeData {
    pub race: u8,
    pub gender: u8,
    pub age: u8,
    pub height: u8,
    pub subrace: u8,
    pub face: u8,
    pub hair: u8,
    pub enable_highlights: u8,
    pub skin_tone: u8,
    pub right_eye_color: u8,
    pub hair_tone: u8,
    pub highlights: u8,
    pub facial_features: u8,
    pub facial_feature_color: u8,
    pub eyebrows: u8,
    pub left_eye_color: u8,
    pub eyes: u8,
    pub nose: u8,
    pub jaw: u8,
    pub mouth: u8,
    pub lips_tone_fur_pattern: u8,
    pub race_feature_size: u8,
    pub race_feature_type: u8,
    pub bust: u8,
    pub face_paint: u8,
    pub face_paint_color: u8,
}

/// Number of bytes in the packed form of [`CustomizeData`].
pub const CUSTOMIZE_DATA_SIZE: usize = 26;

impl CustomizeData {
    /// The appearance whose packed form is `bytes`: one field per byte, in
    /// declaration order.
    pub open spec fn spec_from_bytes(bytes: Seq<u8>) -> CustomizeData {
        CustomizeData {
            race: bytes[0],
            gender: bytes[1],
            age: bytes[2],
            height: bytes[3],
            subrace: bytes[4],
            face: bytes[5],
            hair: bytes[6],
            enable_highlights: bytes[7],
            skin_tone: bytes[8],
            right_eye_color: bytes[9],
            hair_tone: bytes[10],
            highlights: bytes[11],
            facial_features: bytes[12],
            facial_feature_color: bytes[13],
            eyebrows: bytes[14],
            left_eye_color: bytes[15],
            eyes: bytes[16],
            nose: bytes[17],
            jaw: bytes[18],
            mouth: bytes[19],
            lips_tone_fur_pattern: bytes[20],
            race_feature_size: bytes[21],
            race_feature_type: bytes[22],
            bust: bytes[23],
            face_paint: bytes[24],
            face_paint_color: bytes[25],
        }
    }

    /// Unpacks an appearance from its 26 bytes.
    pub fn from_bytes(bytes: &[u8; 26]) -> (r: CustomizeData)
        ensures
            r == CustomizeData::spec_from_bytes(bytes@),
    {
        CustomizeData {
            race: bytes[0],
            gender: bytes[1],
            age: bytes[2],
            height: bytes[3],
            subrace: bytes[4],
            face: bytes[5],
            hair: bytes[6],
            enable_highlights: bytes[7],
            skin_tone: bytes[8],
            right_eye_color: bytes[9],
            hair_tone: bytes[10],
            highlights: bytes[11],
            facial_features: bytes[12],
            facial_feature_color: bytes[13],
            eyebrows: bytes[14],
            left_eye_color: bytes[15],
            eyes: bytes[16],
            nose: bytes[17],
            jaw: bytes[18],
            mouth: bytes[19],
            lips_tone_fur_pattern: bytes[20],
            race_feature_size: bytes[21],
            race_feature_type: bytes[22],
            bust: bytes[23],
            face_paint: bytes[24],
            face_paint_color: bytes[25],
        }
    }
}

/// One row of the job table: a job and the position of its level and
/// experience in the per-job arrays.
#[derive(Clone, Copy, Debug, PartialEq, Eq, Structural)]
pub struct ClassJobInfo {
    pub id: u16,
    pub exp_array_index: i8,
}

/// One row of the item catalog.
#[derive(Clone, Debug, PartialEq, Eq)]
pub struct ItemInfo {
    pub id: u32,
    pub name: String,
    pub equip_category: u8,
    pub primary_model_id: u64,
}

/// One row of the equip-slot taxonomy: the slot that items of a category
/// are worn in.
#[derive(Clone, Copy, Debug, PartialEq, Eq, Structural)]
pub struct EquipSlotInfo {
    pub equip_category: u8,
    pub slot: u16,
}

/// The static game-data tables. A lookup answers with the first row that
/// matches.
#[derive(Clone, Debug, PartialEq, Eq)]
pub struct GameData {
    pub classjobs: Vec<ClassJobInfo>,
    pub items: Vec<ItemInfo>,
    pub equip_slots: Vec<EquipSlotInfo>,
}

impl GameData {
    /// `i` is the first row of the job table with this job id.
    pub open spec fn is_classjob_row(&self, i: int, classjob_id: u16) -> bool {
        &&& 0 <= i < self.classjobs@.len()
        &&& self.classjobs@[i].id == classjob_id
        &&& forall|j: int| 0 <= j < i ==> self.classjobs@[j].id != classjob_id
    }

    /// The exp-array index of a job, if the job table knows the job.
    pub open spec fn exp_array_index(&self, classjob_id: u16) -> Option<i8> {
        if exists|i: int| self.is_classjob_row(i, classjob_id) {
            Some(self.classjobs@[choose|i: int| self.is_classjob_row(i, classjob_id)].exp_array_index)
        } else {
            None
        }
    }

    /// `i` is the first row of the item catalog with this name.
    pub open spec fn is_item_row_named(&self, i: int, name: Seq<char>) -> bool {
        &&& 0 <= i < self.items@.len()
        &&& self.items@[i].name@ == name
        &&& forall|j: int| 0 <= j < i ==> self.items@[j].name@ != name
    }

    /// The equip category and id of the item with this name, if any.
    pub open spec fn item_by_name(&self, name: Seq<char>) -> Option<(u8, u32)> {
        if exists|i: int| self.is_item_row_named(i, name) {
            let i = choose|i: int| self.is_item_row_named(i, name);
            Some((self.items@[i].equip_category, self.items@[i].id))
        } else {
            None
        }
    }

    /// `i` is the first row of the item catalog with this item id.
    pub open spec fn is_item_row(&self, i: int, item_id: u32) -> bool {
        &&& 0 <= i < self.items@.len()
        &&& self.items@[i].id == item_id
        &&& forall|j: int| 0 <= j < i ==> self.items@[j].id != item_id
    }

    /// The model that displays an item, if the catalog knows the item.
    pub open spec fn primary_model_id(&self, item_id: u32) -> Option<u64> {
        if exists|i: int| self.is_item_row(i, item_id) {
            Some(self.items@[choose|i: int| self.is_item_row(i, item_id)].primary_model_id)
        } else {
            None
        }
    }

    /// `i` is the first row of the equip-slot taxonomy for this category.
    pub open spec fn is_equip_slot_row(&self, i: int, equip_category: u8) -> bool {
        &&& 0 <= i < self.equip_slots@.len()
        &&& self.equip_slots@[i].equip_category == equip_category
        &&& forall|j: int| 0 <= j < i ==> self.equip_slots@[j].equip_category != equip_category
    }

    /// The slot that items of a category are worn in, if the category is known.
    pub open spec fn equipslot_category(&self, equip_category: u8) -> Option<u16> {
        if exists|i: int| self.is_equip_slot_row(i, equip_category) {
            Some(self.equip_slots@[choose|i: int| self.is_equip_slot_row(i, equip_category)].slot)
        } else {
            None
        }
    }

    /// Resolves a job id to its exp-array index.
    pub fn get_exp_array_index(&self, classjob_id: u16) -> (r: Option<i8>)
        ensures
            r == self.exp_array_index(classjob_id),
    {
        let mut i: usize = 0;
        while i < self.classjobs.len()
            invariant
                i <= self.classjobs@.len(),
                forall|j: int| 0 <= j < i ==> self.classjobs@[j].id != classjob_id,
            decreases self.classjobs@.len() - i,
        {
            if self.classjobs[i].id == classjob_id {
                assert(self.is_classjob_row(i as int, classjob_id));
                return Some(self.classjobs[i].exp_array_index);
            }
            i += 1;
        }
        None
    }

    /// Resolves an item name to its equip category and item id.
    pub fn get_item_by_name(&self, name: &str) -> (r: Option<(u8, u32)>)
        ensures
            r == self.item_by_name(name@),
    {
        let wanted = name.to_owned();
        let mut i: usize = 0;
        while i < self.items.len()
            invariant
                i <= self.items@.len(),
                wanted@ == name@,
                forall|j: int| 0 <= j < i ==> self.items@[j].name@ != name@,
            decreases self.items@.len() - i,
        {
            if self.items[i].name == wanted {
                assert(self.is_item_row_named(i as int, name@));
                return Some((self.items[i].equip_category, self.items[i].id));
            }
            i += 1;
        }
        None
    }

    /// Resolves an equip category to the slot its items are worn in.
    pub fn get_equipslot_category(&self, equip_category: u8) -> (r: Option<u16>)
        ensures
            r == self.equipslot_category(equip_category),
    {
        let mut i: usize = 0;
        while i < self.equip_slots.len()
            invariant
                i <= self.equip_slots@.len(),
                forall|j: int| 0 <= j < i ==> self.equip_slots@[j].equip_category != equip_category,
            decreases self.equip_slots@.len() - i,
        {
            if self.equip_slots[i].equip_category == equip_category {
                assert(self.is_equip_slot_row(i as int, equip_category));
                return Some(self.equip_slots[i].slot);
            }
            i += 1;
        }
        None
    }

    /// Resolves an item id to the model that displays it.
    pub fn get_primary_model_id(&self, item_id: u32) -> (r: Option<u64>)
        ensures
            r == self.primary_model_id(item_id),
    {
        let mut i: usize = 0;
        while i < self.items.len()
            invariant
                i <= self.items@.len(),
                forall|j: int| 0 <= j < i ==> self.items@[j].id != item_id,
            decreases self.items@.len() - i,
        {
            if self.items[i].id == item_id {
                assert(self.is_item_row(i as int, item_id));
                return Some(self.items[i].primary_model_id);
            }
            i += 1;
        }
        None
    }
}


/// A reading of the system clock, `std::time::SystemTime`. Nothing of it is
/// visible to the library.
#[verifier::external_type_specification]
#[verifier::external_body]
pub struct ExSystemTime(std::time::SystemTime);

/// Reads the system clock with `std::time::SystemTime::now`. Nothing is
/// claimed of the reading.
#[verifier::external_body]
fn system_time_now() -> std::time::SystemTime {
    std::time::SystemTime::now()
}

/// The time from the Unix epoch to a reading of the clock, by
/// `SystemTime::duration_since`, or `None` for a reading before the epoch.
/// Nothing is claimed of the duration.
#[verifier::external_body]
fn since_unix_epoch(time: &std::time::SystemTime) -> Option<core::time::Duration> {
    time.duration_since(std::time::UNIX_EPOCH).ok()
}

/// The whole seconds of a duration, by `Duration::as_secs`. Nothing is
/// claimed of the number.
#[verifier::external_body]
fn whole_seconds(duration: &core::time::Duration) -> u64 {
    duration.as_secs()
}

/// The 32 bits that a message carries for a time, given as whole seconds
/// since the Unix epoch or as `None` for a time before the epoch: 0 for a
/// time before the epoch, the greatest number for a time that does not fit,
/// and the seconds themselves for every other time.
pub open spec fn timestamp_of(seconds: Option<u64>) -> u32 {
    match seconds {
        Some(seconds) => if seconds > u32::MAX {
            u32::MAX
        } else {
            seconds as u32
        },
        None => 0,
    }
}

/// Turns a time, as whole seconds since the Unix epoch, into the 32 bits
/// that a message carries.
pub fn timestamp_from_seconds(seconds: Option<u64>) -> (r: u32)
    ensures
        r == timestamp_of(seconds),
{
    match seconds {
        Some(seconds) => if seconds > 0xffff_ffff {
            0xffff_ffff
        } else {
            seconds as u32
        },
        None => 0,
    }
}

/// The time of the system clock in seconds since the Unix epoch, as the 32
/// bits that a message carries: what [`timestamp_from_seconds`] makes of the
/// clock's reading. Of the reading itself nothing is known.
pub fn timestamp_secs() -> u32 {
    let reading = system_time_now();
    let seconds = match since_unix_epoch(&reading) {
        Some(duration) => Some(whole_seconds(&duration)),
        None => None,
    };
    timestamp_from_seconds(seconds)
}

} // verus!
