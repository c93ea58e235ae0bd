//! The persistent store: every character as one identity row and one record
//! row, and the operations that read and write them.
//!
//! The store holds its two tables as plain rows. Writing them to durable
//! storage and reading them back is the caller's part; the rules of the
//! store (primary keys, whole-record overwrite, two-row deletion) are stated
//! and proved here.
use vstd::prelude::*;
use crate::common::{GameData, Position};
use crate::inventory::{inventory_wf, main_weapon_id_of, model_ids_of, Inventory, Item};
use crate::ipc::{CharacterDetails, CharacterFlag, GameMasterRank};
use crate::workdefinitions::{CharaMake, ClientSelectData, RemakeMode};
use crate::world::{PlayerData, PlayerDataView};
use crate::{
    AETHERYTE_UNLOCK_BITMASK_SIZE, CLASSJOB_ARRAY_SIZE, COMPLETED_QUEST_BITMASK_SIZE,
    UNLOCK_BITMASK_SIZE,
};

verus! {

/// The identity row of a character: which account owns it and under which
/// address it acts in the live world. Created once and never changed.
#[derive(Clone, Copy, Debug, PartialEq, Eq, Structural)]
pub struct CharacterIdentity {
    pub content_id: u64,
    pub service_account_id: u32,
    pub actor_id: u32,
}

/// The record row of a character: its mutable gameplay state.
#[derive(Clone, Debug, PartialEq, Eq)]
pub struct CharacterRecord {
    pub content_id: u64,
    pub name: String,
    pub chara_make: CharaMake,
    pub city_state: u8,
    pub zone_id: u16,
    pub position: Position,
    /// The facing of the character, as the bit pattern of a single-precision
    /// number.
    pub rotation: u32,
    pub inventory: Inventory,
    pub remake_mode: RemakeMode,
    pub gm_rank: GameMasterRank,
    pub classjob_id: u8,
    pub classjob_levels: [i32; 32],
    pub classjob_exp: [u32; 32],
    pub unlocks: [u8; UNLOCK_BITMASK_SIZE],
    pub aetherytes: [u8; AETHERYTE_UNLOCK_BITMASK_SIZE],
    pub completed_quests: [u8; COMPLETED_QUEST_BITMASK_SIZE],
}

/// The mathematical value of a [`CharacterRecord`].
pub struct CharacterRecordView {
    pub content_id: u64,
    pub name: Seq<char>,
    pub chara_make: CharaMake,
    pub city_state: u8,
    pub zone_id: u16,
    pub position: Position,
    pub rotation: u32,
    pub inventory: Seq<Seq<Item>>,
    pub remake_mode: RemakeMode,
    pub gm_rank: GameMasterRank,
    pub classjob_id: u8,
    pub classjob_levels: Seq<i32>,
    pub classjob_exp: Seq<u32>,
    pub unlocks: Seq<u8>,
    pub aetherytes: Seq<u8>,
    pub completed_quests: Seq<u8>,
}

impl View for CharacterRecord {
    type V = CharacterRecordView;

    open spec fn view(&self) -> CharacterRecordView {
        CharacterRecordView {
            content_id: self.content_id,
            name: self.name@,
            chara_make: self.chara_make,
            city_state: self.city_state,
            zone_id: self.zone_id,
            position: self.position,
            rotation: self.rotation,
            inventory: self.inventory@,
            remake_mode: self.remake_mode,
            gm_rank: self.gm_rank,
            classjob_id: self.classjob_id,
            classjob_levels: self.classjob_levels@,
            classjob_exp: self.classjob_exp@,
            unlocks: self.unlocks@,
            aetherytes: self.aetherytes@,
            completed_quests: self.completed_quests@,
        }
    }
}

impl CharacterRecordView {
    /// A record is valid when the job arrays and the bitmasks have their
    /// declared lengths and the inventory has every container with its
    /// declared number of slots.
    pub open spec fn wf(self) -> bool {
        &&& self.classjob_levels.len() == CLASSJOB_ARRAY_SIZE
        &&& self.classjob_exp.len() == CLASSJOB_ARRAY_SIZE
        &&& self.unlocks.len() == UNLOCK_BITMASK_SIZE
        &&& self.aetherytes.len() == AETHERYTE_UNLOCK_BITMASK_SIZE
        &&& self.completed_quests.len() == COMPLETED_QUEST_BITMASK_SIZE
        &&& inventory_wf(self.inventory)
    }
}

/// The part of a record that flows need at character creation and remake.
#[derive(Clone, Debug, PartialEq, Eq)]
pub struct CharacterData {
    pub name: String,
    pub chara_make: CharaMake,
    pub city_state: u8,
    pub position: Position,
    pub zone_id: u16,
}

/// The mathematical value of a [`CharacterData`].
pub struct CharacterDataView {
    pub name: Seq<char>,
    pub chara_make: CharaMake,
    pub city_state: u8,
    pub position: Position,
    pub zone_id: u16,
}

impl View for CharacterData {
    type V = CharacterDataView;

    open spec fn view(&self) -> CharacterDataView {
        CharacterDataView {
            name: self.name@,
            chara_make: self.chara_make,
            city_state: self.city_state,
            position: self.position,
            zone_id: self.zone_id,
        }
    }
}

/// Why the store refused to create a character.
#[derive(Clone, Copy, Debug, PartialEq, Eq, Structural)]
pub enum StoreError {
    /// The starting job of the descriptor has no slot in the job arrays.
    InvalidClassJob,
    /// A row with the content id is already in one of the tables.
    DuplicateContentId,
}

/// Some identity row has this content id.
pub open spec fn has_identity(identities: Seq<CharacterIdentity>, content_id: u64) -> bool {
    exists|i: int| 0 <= i < identities.len() && identities[i].content_id == content_id
}

/// The position of the identity row with this content id.
pub open spec fn identity_index(identities: Seq<CharacterIdentity>, content_id: u64) -> int {
    choose|i: int| 0 <= i < identities.len() && identities[i].content_id == content_id
}

/// Row `i` is the first identity row with this actor id.
pub open spec fn is_first_actor_row(
    identities: Seq<CharacterIdentity>,
    i: int,
    actor_id: u32,
) -> bool {
    &&& 0 <= i < identities.len()
    &&& identities[i].actor_id == actor_id
    &&& forall|j: int| 0 <= j < i ==> identities[j].actor_id != actor_id
}

/// Some identity row has this actor id.
pub open spec fn has_actor(identities: Seq<CharacterIdentity>, actor_id: u32) -> bool {
    exists|i: int| is_first_actor_row(identities, i, actor_id)
}

/// The position of the first identity row with this actor id. Actor ids are
/// not unique, so a lookup by actor id answers with the row of the smallest
/// content id among those with the actor id.
pub open spec fn actor_index(identities: Seq<CharacterIdentity>, actor_id: u32) -> int {
    choose|i: int| is_first_actor_row(identities, i, actor_id)
}

/// Some record row has this content id.
pub open spec fn has_record(records: Seq<CharacterRecordView>, content_id: u64) -> bool {
    exists|i: int| 0 <= i < records.len() && records[i].content_id == content_id
}

/// The position of the record row with this content id.
pub open spec fn record_index(records: Seq<CharacterRecordView>, content_id: u64) -> int {
    choose|i: int| 0 <= i < records.len() && records[i].content_id == content_id
}

/// No record carries this name.
pub open spec fn name_is_free(records: Seq<CharacterRecordView>, name: Seq<char>) -> bool {
    forall|i: int| 0 <= i < records.len() ==> (#[trigger] records[i]).name != name
}

/// The two tables are well formed: the rows of each stand in strictly
/// ascending order of their content ids, so that the content id is a primary
/// key and a scan of a table meets its rows in that order; and every record
/// is valid.
pub open spec fn tables_wf(
    identities: Seq<CharacterIdentity>,
    records: Seq<CharacterRecordView>,
) -> bool {
    &&& forall|i: int, j: int|
        0 <= i < j < identities.len() ==> identities[i].content_id < identities[j].content_id
    &&& forall|i: int, j: int|
        0 <= i < j < records.len() ==> records[i].content_id < records[j].content_id
    &&& forall|i: int| 0 <= i < records.len() ==> (#[trigger] records[i]).wf()
}

/// The place of a content id in an identity table: the number of rows with
/// a smaller content id, which is where a new row with the content id goes.
pub open spec fn identity_position(identities: Seq<CharacterIdentity>, content_id: u64) -> int
    decreases identities.len(),
{
    if identities.len() == 0 || identities.last().content_id < content_id {
        identities.len() as int
    } else {
        identity_position(identities.drop_last(), content_id)
    }
}

/// The place of a content id in a record table: the number of rows with a
/// smaller content id, which is where a new row with the content id goes.
pub open spec fn record_position(records: Seq<CharacterRecordView>, content_id: u64) -> int
    decreases records.len(),
{
    if records.len() == 0 || records.last().content_id < content_id {
        records.len() as int
    } else {
        record_position(records.drop_last(), content_id)
    }
}

/// The identity table with one more row, at the place of its content id.
pub open spec fn identities_with(
    identities: Seq<CharacterIdentity>,
    identity: CharacterIdentity,
) -> Seq<CharacterIdentity> {
    identities.insert(identity_position(identities, identity.content_id), identity)
}

/// The record table with one more row, at the place of its content id.
pub open spec fn records_with(
    records: Seq<CharacterRecordView>,
    record: CharacterRecordView,
) -> Seq<CharacterRecordView> {
    records.insert(record_position(records, record.content_id), record)
}

/// The place of a content id in an ascending identity table is the one
/// position with only smaller content ids before it and none smaller from it
/// on.
pub proof fn lemma_identity_position(
    identities: Seq<CharacterIdentity>,
    content_id: u64,
    p: int,
)
    requires
        forall|i: int, j: int|
            0 <= i < j < identities.len() ==> identities[i].content_id < identities[j].content_id,
        0 <= p <= identities.len(),
        forall|j: int| 0 <= j < p ==> (#[trigger] identities[j]).content_id < content_id,
        forall|j: int|
            p <= j < identities.len() ==> (#[trigger] identities[j]).content_id >= content_id,
    ensures
        identity_position(identities, content_id) == p,
    decreases identities.len(),
{
    if identities.len() > 0 {
        let front = identities.drop_last();
        if identities.last().content_id < content_id {
            if p < identities.len() {
                assert(identities[identities.len() - 1].content_id >= content_id);
            }
        } else {
            if p == identities.len() {
                assert(identities[p - 1].content_id < content_id);
            }
            assert forall|j: int| 0 <= j < p implies (#[trigger] front[j]).content_id
                < content_id by {
                assert(front[j] == identities[j]);
            }
            assert forall|j: int| p <= j < front.len() implies (#[trigger] front[j]).content_id
                >= content_id by {
                assert(front[j] == identities[j]);
            }
            lemma_identity_position(front, content_id, p);
        }
    }
}

/// The place of a content id in an ascending record table is the one
/// position with only smaller content ids before it and none smaller from it
/// on.
pub proof fn lemma_record_position(records: Seq<CharacterRecordView>, content_id: u64, p: int)
    requires
        forall|i: int, j: int|
            0 <= i < j < records.len() ==> records[i].content_id < records[j].content_id,
        0 <= p <= records.len(),
        forall|j: int| 0 <= j < p ==> (#[trigger] records[j]).content_id < content_id,
        forall|j: int| p <= j < records.len() ==> (#[trigger] records[j]).content_id >= content_id,
    ensures
        record_position(records, content_id) == p,
    decreases records.len(),
{
    if records.len() > 0 {
        let front = records.drop_last();
        if records.last().content_id < content_id {
            if p < records.len() {
                assert(records[records.len() - 1].content_id >= content_id);
            }
        } else {
            if p == records.len() {
                assert(records[p - 1].content_id < content_id);
            }
            assert forall|j: int| 0 <= j < p implies (#[trigger] front[j]).content_id
                < content_id by {
                assert(front[j] == records[j]);
            }
            assert forall|j: int| p <= j < front.len() implies (#[trigger] front[j]).content_id
                >= content_id by {
                assert(front[j] == records[j]);
            }
            lemma_record_position(front, content_id, p);
        }
    }
}

/// The place of a content id divides an ascending identity table: only
/// smaller content ids stand before it, and none smaller from it on.
pub proof fn lemma_identity_position_divides(
    identities: Seq<CharacterIdentity>,
    content_id: u64,
)
    requires
        forall|i: int, j: int|
            0 <= i < j < identities.len() ==> identities[i].content_id < identities[j].content_id,
    ensures
        0 <= identity_position(identities, content_id) <= identities.len(),
        forall|j: int|
            0 <= j < identity_position(identities, content_id) ==> (
            #[trigger] identities[j]).content_id < content_id,
        forall|j: int|
            identity_position(identities, content_id) <= j < identities.len() ==> (
            #[trigger] identities[j]).content_id >= content_id,
    decreases identities.len(),
{
    if identities.len() > 0 && !(identities.last().content_id < content_id) {
        let front = identities.drop_last();
        assert forall|i: int, j: int| 0 <= i < j < front.len() implies front[i].content_id
            < front[j].content_id by {
            assert(front[i] == identities[i] && front[j] == identities[j]);
        }
        lemma_identity_position_divides(front, content_id);
        let p = identity_position(front, content_id);
        assert forall|j: int| 0 <= j < p implies (#[trigger] identities[j]).content_id
            < content_id by {
            assert(front[j] == identities[j]);
        }
        assert forall|j: int| p <= j < identities.len() implies (
        #[trigger] identities[j]).content_id >= content_id by {
            if j < front.len() {
                assert(front[j] == identities[j]);
            }
        }
    } else if identities.len() > 0 {
        assert forall|j: int| 0 <= j < identities.len() implies (
        #[trigger] identities[j]).content_id < content_id by {
            if j < identities.len() - 1 {
                assert(identities[j].content_id < identities[identities.len() - 1].content_id);
            }
        }
    }
}

/// The place of a content id divides an ascending record table: only
/// smaller content ids stand before it, and none smaller from it on.
pub proof fn lemma_record_position_divides(records: Seq<CharacterRecordView>, content_id: u64)
    requires
        forall|i: int, j: int|
            0 <= i < j < records.len() ==> records[i].content_id < records[j].content_id,
    ensures
        0 <= record_position(records, content_id) <= records.len(),
        forall|j: int|
            0 <= j < record_position(records, content_id) ==> (#[trigger] records[j]).content_id
                < content_id,
        forall|j: int|
            record_position(records, content_id) <= j < records.len() ==> (
            #[trigger] records[j]).content_id >= content_id,
    decreases records.len(),
{
    if records.len() > 0 && !(records.last().content_id < content_id) {
        let front = records.drop_last();
        assert forall|i: int, j: int| 0 <= i < j < front.len() implies front[i].content_id
            < front[j].content_id by {
            assert(front[i] == records[i] && front[j] == records[j]);
        }
        lemma_record_position_divides(front, content_id);
        let p = record_position(front, content_id);
        assert forall|j: int| 0 <= j < p implies (#[trigger] records[j]).content_id
            < content_id by {
            assert(front[j] == records[j]);
        }
        assert forall|j: int| p <= j < records.len() implies (#[trigger] records[j]).content_id
            >= content_id by {
            if j < front.len() {
                assert(front[j] == records[j]);
            }
        }
    } else if records.len() > 0 {
        assert forall|j: int| 0 <= j < records.len() implies (#[trigger] records[j]).content_id
            < content_id by {
            if j < records.len() - 1 {
                assert(records[j].content_id < records[records.len() - 1].content_id);
            }
        }
    }
}

/// An identity row with an unused content id, put at its place, leaves the
/// table ascending.
pub proof fn lemma_identity_insertion_keeps_order(
    identities: Seq<CharacterIdentity>,
    identity: CharacterIdentity,
)
    requires
        forall|i: int, j: int|
            0 <= i < j < identities.len() ==> identities[i].content_id < identities[j].content_id,
        !has_identity(identities, identity.content_id),
    ensures
        forall|i: int, j: int|
            0 <= i < j < identities_with(identities, identity).len() ==> identities_with(
                identities,
                identity,
            )[i].content_id < identities_with(identities, identity)[j].content_id,
{
    let content_id = identity.content_id;
    lemma_identity_position_divides(identities, content_id);
    let p = identity_position(identities, content_id);
    let identities2 = identities_with(identities, identity);
    assert forall|j: int| p <= j < identities.len() implies (#[trigger] identities[j]).content_id
        > content_id by {}
    assert forall|i: int, j: int| 0 <= i < j < identities2.len() implies identities2[i].content_id
        < identities2[j].content_id by {
        let a = if i < p { i } else { i - 1 };
        let b = if j < p { j } else { j - 1 };
        if i != p {
            assert(identities2[i] == identities[a]);
        }
        if j != p {
            assert(identities2[j] == identities[b]);
        }
    }
}

/// A valid record row with an unused content id, put at its place, leaves
/// the table ascending and every record valid.
pub proof fn lemma_record_insertion_keeps_order(
    records: Seq<CharacterRecordView>,
    record: CharacterRecordView,
)
    requires
        forall|i: int, j: int|
            0 <= i < j < records.len() ==> records[i].content_id < records[j].content_id,
        forall|i: int| 0 <= i < records.len() ==> (#[trigger] records[i]).wf(),
        record.wf(),
        !has_record(records, record.content_id),
    ensures
        forall|i: int, j: int|
            0 <= i < j < records_with(records, record).len() ==> records_with(
                records,
                record,
            )[i].content_id < records_with(records, record)[j].content_id,
        forall|i: int|
            0 <= i < records_with(records, record).len() ==> (#[trigger] records_with(
                records,
                record,
            )[i]).wf(),
{
    let content_id = record.content_id;
    lemma_record_position_divides(records, content_id);
    let q = record_position(records, content_id);
    let records2 = records_with(records, record);
    assert forall|j: int| q <= j < records.len() implies (#[trigger] records[j]).content_id
        > content_id by {}
    assert forall|i: int, j: int| 0 <= i < j < records2.len() implies records2[i].content_id
        < records2[j].content_id by {
        let a = if i < q { i } else { i - 1 };
        let b = if j < q { j } else { j - 1 };
        if i != q {
            assert(records2[i] == records[a]);
        }
        if j != q {
            assert(records2[j] == records[b]);
        }
    }
    assert forall|i: int| 0 <= i < records2.len() implies (#[trigger] records2[i]).wf() by {
        if i != q {
            let a = if i < q { i } else { i - 1 };
            assert(records2[i] == records[a]);
        }
    }
}

/// A new character keeps the tables well formed: with both rows put at the
/// place of their content id, the tables are still ascending, and the new
/// rows are the rows with that content id.
pub proof fn lemma_creation_keeps_tables_well_formed(
    identities: Seq<CharacterIdentity>,
    records: Seq<CharacterRecordView>,
    identity: CharacterIdentity,
    record: CharacterRecordView,
)
    requires
        tables_wf(identities, records),
        record.wf(),
        identity.content_id == record.content_id,
        !has_identity(identities, identity.content_id),
        !has_record(records, record.content_id),
    ensures
        tables_wf(identities_with(identities, identity), records_with(records, record)),
        has_identity(identities_with(identities, identity), identity.content_id),
        has_record(records_with(records, record), record.content_id),
        identity_index(identities_with(identities, identity), identity.content_id)
            == identity_position(identities, identity.content_id),
        record_index(records_with(records, record), record.content_id) == record_position(
            records,
            record.content_id,
        ),
        identities_with(identities, identity)[identity_position(identities, identity.content_id)]
            == identity,
        records_with(records, record)[record_position(records, record.content_id)] == record,
{
    let content_id = identity.content_id;
    lemma_identity_position_divides(identities, content_id);
    lemma_record_position_divides(records, content_id);
    let p = identity_position(identities, content_id);
    let q = record_position(records, content_id);
    let identities2 = identities_with(identities, identity);
    let records2 = records_with(records, record);
    assert forall|j: int| p <= j < identities.len() implies (#[trigger] identities[j]).content_id
        > content_id by {}
    assert forall|j: int| q <= j < records.len() implies (#[trigger] records[j]).content_id
        > content_id by {}
    assert forall|i: int, j: int| 0 <= i < j < identities2.len() implies identities2[i].content_id
        < identities2[j].content_id by {
        let a = if i < p { i } else { i - 1 };
        let b = if j < p { j } else { j - 1 };
        if i != p {
            assert(identities2[i] == identities[a]);
        }
        if j != p {
            assert(identities2[j] == identities[b]);
        }
    }
    assert forall|i: int, j: int| 0 <= i < j < records2.len() implies records2[i].content_id
        < records2[j].content_id by {
        let a = if i < q { i } else { i - 1 };
        let b = if j < q { j } else { j - 1 };
        if i != q {
            assert(records2[i] == records[a]);
        }
        if j != q {
            assert(records2[j] == records[b]);
        }
    }
    assert forall|i: int| 0 <= i < records2.len() implies (#[trigger] records2[i]).wf() by {
        if i != q {
            let a = if i < q { i } else { i - 1 };
            assert(records2[i] == records[a]);
        }
    }
    assert(identities2[p] == identity);
    assert(records2[q] == record);
}

/// A lookup by this actor id finds both rows of a character.
pub open spec fn can_find_player(
    identities: Seq<CharacterIdentity>,
    records: Seq<CharacterRecordView>,
    actor_id: u32,
) -> bool {
    &&& has_actor(identities, actor_id)
    &&& has_record(records, identities[actor_index(identities, actor_id)].content_id)
}

/// What a session loads from the two rows of a character.
pub open spec fn player_data_of(
    identity: CharacterIdentity,
    record: CharacterRecordView,
) -> PlayerDataView {
    PlayerDataView {
        actor_id: identity.actor_id,
        content_id: identity.content_id,
        account_id: identity.service_account_id,
        classjob_id: record.classjob_id,
        classjob_levels: record.classjob_levels,
        classjob_exp: record.classjob_exp,
        position: record.position,
        rotation: record.rotation,
        zone_id: record.zone_id,
        inventory: record.inventory,
        gm_rank: record.gm_rank,
        unlocks: record.unlocks,
        aetherytes: record.aetherytes,
        completed_quests: record.completed_quests,
    }
}

/// What a lookup by actor id loads: the first identity row with the actor
/// id, and the record row with that row's content id.
pub open spec fn player_data_found(
    identities: Seq<CharacterIdentity>,
    records: Seq<CharacterRecordView>,
    actor_id: u32,
) -> PlayerDataView {
    let identity = identities[actor_index(identities, actor_id)];
    player_data_of(identity, records[record_index(records, identity.content_id)])
}

/// A record after a session's data was written over it: every column that a
/// session holds is replaced by the session's value; the name, the
/// descriptor, the city and the remake mode, which a session does not hold,
/// stay.
pub open spec fn committed_record(
    record: CharacterRecordView,
    data: PlayerDataView,
) -> CharacterRecordView {
    CharacterRecordView {
        zone_id: data.zone_id,
        position: data.position,
        rotation: data.rotation,
        inventory: data.inventory,
        gm_rank: data.gm_rank,
        classjob_id: data.classjob_id,
        classjob_levels: data.classjob_levels,
        classjob_exp: data.classjob_exp,
        unlocks: data.unlocks,
        aetherytes: data.aetherytes,
        completed_quests: data.completed_quests,
        ..record
    }
}

/// The record table after a commit: the row with the data's content id is
/// overwritten; without such a row nothing changes.
pub open spec fn records_after_commit(
    records: Seq<CharacterRecordView>,
    data: PlayerDataView,
) -> Seq<CharacterRecordView> {
    if has_record(records, data.content_id) {
        let i = record_index(records, data.content_id);
        records.update(i, committed_record(records[i], data))
    } else {
        records
    }
}

/// The record table after the row with this content id was deleted.
pub open spec fn records_after_delete(
    records: Seq<CharacterRecordView>,
    content_id: u64,
) -> Seq<CharacterRecordView> {
    if has_record(records, content_id) {
        records.remove(record_index(records, content_id))
    } else {
        records
    }
}

/// The identity table after the row with this content id was deleted.
pub open spec fn identities_after_delete(
    identities: Seq<CharacterIdentity>,
    content_id: u64,
) -> Seq<CharacterIdentity> {
    if has_identity(identities, content_id) {
        identities.remove(identity_index(identities, content_id))
    } else {
        identities
    }
}

/// The starting job of a descriptor has a slot in the job arrays.
pub open spec fn valid_starting_job(chara_make: CharaMake) -> bool {
    0 <= chara_make.classjob_id < CLASSJOB_ARRAY_SIZE
}

/// The record of a character that was just created: the starting job at
/// level 1 and every other level at 0, no experience, nothing unlocked, at
/// the origin of its zone, with the highest privilege rank.
pub open spec fn initial_record(
    content_id: u64,
    name: Seq<char>,
    chara_make: CharaMake,
    city_state: u8,
    zone_id: u16,
    inventory: Seq<Seq<Item>>,
) -> CharacterRecordView {
    CharacterRecordView {
        content_id,
        name,
        chara_make,
        city_state,
        zone_id,
        position: Position::origin(),
        rotation: 0,
        inventory,
        remake_mode: RemakeMode::NoRemake,
        gm_rank: GameMasterRank::Debug,
        classjob_id: chara_make.classjob_id as u8,
        classjob_levels: Seq::new(
            CLASSJOB_ARRAY_SIZE as nat,
            |i: int| if i == chara_make.classjob_id { 1i32 } else { 0i32 },
        ),
        classjob_exp: Seq::new(CLASSJOB_ARRAY_SIZE as nat, |i: int| 0u32),
        unlocks: Seq::new(UNLOCK_BITMASK_SIZE as nat, |i: int| 0u8),
        aetherytes: Seq::new(AETHERYTE_UNLOCK_BITMASK_SIZE as nat, |i: int| 0u8),
        completed_quests: Seq::new(COMPLETED_QUEST_BITMASK_SIZE as nat, |i: int| 0u8),
    }
}

/// What the creation flow reads back from a record.
pub open spec fn character_data_of(record: CharacterRecordView) -> CharacterDataView {
    CharacterDataView {
        name: record.name,
        chara_make: record.chara_make,
        city_state: record.city_state,
        position: record.position,
        zone_id: record.zone_id,
    }
}

/// Draws a number with `fastrand::u32` over the whole range of `u32`.
/// Nothing is claimed of the number drawn.
#[verifier::external_body]
pub(crate) fn random_u32() -> u32 {
    fastrand::u32(..)
}

/// The store of all characters.
#[derive(Debug)]
pub struct WorldDatabase {
    characters: Vec<CharacterIdentity>,
    character_data: Vec<CharacterRecord>,
}

impl Default for WorldDatabase {
    fn default() -> (r: WorldDatabase)
        ensures
            r.wf(),
            r.identities() == Seq::<CharacterIdentity>::empty(),
            r.records() == Seq::<CharacterRecordView>::empty(),
    {
        WorldDatabase::new()
    }
}

impl WorldDatabase {
    /// The identity table, ascending by content id.
    pub closed spec fn identities(&self) -> Seq<CharacterIdentity> {
        self.characters@
    }

    /// The record table, ascending by content id.
    pub closed spec fn records(&self) -> Seq<CharacterRecordView> {
        Seq::new(self.character_data@.len(), |i: int| self.character_data@[i]@)
    }

    /// The content id is a primary key of both tables and every record is
    /// valid. Every operation keeps this.
    pub open spec fn wf(&self) -> bool {
        tables_wf(self.identities(), self.records())
    }

    /// A store with both tables empty.
    pub fn new() -> (r: WorldDatabase)
        ensures
            r.wf(),
            r.identities() == Seq::<CharacterIdentity>::empty(),
            r.records() == Seq::<CharacterRecordView>::empty(),
    {
        let r = WorldDatabase { characters: Vec::new(), character_data: Vec::new() };
        assert(r.records() =~= Seq::<CharacterRecordView>::empty());
        r
    }

    /// The position of the identity row with a content id.
    fn find_identity_index(&self, content_id: u64) -> (r: Option<usize>)
        requires
            self.wf(),
        ensures
            r is Some == has_identity(self.identities(), content_id),
            r matches Some(i) ==> i == identity_index(self.identities(), content_id) && i
                < self.identities().len() && self.characters@[i as int].content_id == content_id,
    {
        let mut i: usize = 0;
        while i < self.characters.len()
            invariant
                self.wf(),
                i <= self.characters@.len(),
                forall|j: int| 0 <= j < i ==> self.characters@[j].content_id != content_id,
            decreases self.characters@.len() - i,
        {
            if self.characters[i].content_id == content_id {
                return Some(i);
            }
            i += 1;
        }
        None
    }

    /// The position of the first identity row with an actor id.
    fn find_actor_index(&self, actor_id: u32) -> (r: Option<usize>)
        ensures
            r is Some == has_actor(self.identities(), actor_id),
            r matches Some(i) ==> i == actor_index(self.identities(), actor_id)
                && is_first_actor_row(self.identities(), i as int, actor_id),
    {
        let mut i: usize = 0;
        while i < self.characters.len()
            invariant
                i <= self.characters@.len(),
                forall|j: int| 0 <= j < i ==> self.characters@[j].actor_id != actor_id,
            decreases self.characters@.len() - i,
        {
            if self.characters[i].actor_id == actor_id {
                assert(is_first_actor_row(self.identities(), i as int, actor_id));
                return Some(i);
            }
            i += 1;
        }
        None
    }

    /// The position of the record row with a content id.
    fn find_record_index(&self, content_id: u64) -> (r: Option<usize>)
        requires
            self.wf(),
        ensures
            r is Some == has_record(self.records(), content_id),
            r matches Some(i) ==> i == record_index(self.records(), content_id) && i
                < self.records().len() && self.records()[i as int] == self.character_data@[i as int]@,
    {
        let mut i: usize = 0;
        while i < self.character_data.len()
            invariant
                self.wf(),
                i <= self.character_data@.len(),
                self.records().len() == self.character_data@.len(),
                forall|j: int| 0 <= j < i ==> (#[trigger] self.records()[j]).content_id != content_id,
            decreases self.character_data@.len() - i,
        {
            if self.character_data[i].content_id == content_id {
                assert(self.records()[i as int].content_id == content_id);
                return Some(i);
            }
            assert(self.records()[i as int].content_id != content_id);
            i += 1;
        }
        None
    }

    /// The place of a content id in the identity table.
    fn find_identity_position(&self, content_id: u64) -> (r: usize)
        requires
            self.wf(),
        ensures
            r == identity_position(self.identities(), content_id),
            r <= self.characters@.len(),
    {
        let mut i: usize = 0;
        while i < self.characters.len() && self.characters[i].content_id < content_id
            invariant
                i <= self.characters@.len(),
                forall|j: int| 0 <= j < i ==> (#[trigger] self.characters@[j]).content_id < content_id,
            decreases self.characters@.len() - i,
        {
            i += 1;
        }
        proof {
            assert forall|j: int| i <= j < self.characters@.len() implies (
            #[trigger] self.identities()[j]).content_id >= content_id by {
                if j > i {
                    assert(self.identities()[i as int].content_id < self.identities()[j].content_id);
                }
            }
            lemma_identity_position(self.identities(), content_id, i as int);
        }
        i
    }

    /// The place of a content id in the record table.
    fn find_record_position(&self, content_id: u64) -> (r: usize)
        requires
            self.wf(),
        ensures
            r == record_position(self.records(), content_id),
            r <= self.character_data@.len(),
    {
        let mut i: usize = 0;
        while i < self.character_data.len() && self.character_data[i].content_id < content_id
            invariant
                i <= self.character_data@.len(),
                self.records().len() == self.character_data@.len(),
                forall|j: int| 0 <= j < i ==> (#[trigger] self.records()[j]).content_id < content_id,
            decreases self.character_data@.len() - i,
        {
            assert(self.records()[i as int].content_id < content_id);
            i += 1;
        }
        proof {
            if i < self.character_data@.len() {
                assert(self.records()[i as int].content_id >= content_id);
            }
            assert forall|j: int| i <= j < self.records().len() implies (
            #[trigger] self.records()[j]).content_id >= content_id by {
                if j > i {
                    assert(self.records()[i as int].content_id < self.records()[j].content_id);
                }
            }
            lemma_record_position(self.records(), content_id, i as int);
        }
        i
    }

    /// Whether a lookup by this actor id finds both rows of a character.
    pub fn player_exists(&self, actor_id: u32) -> (r: bool)
        requires
            self.wf(),
        ensures
            r == can_find_player(self.identities(), self.records(), actor_id),
    {
        match self.find_actor_index(actor_id) {
            Some(i) => self.find_record_index(self.characters[i].content_id).is_some(),
            None => false,
        }
    }

    /// Whether the record table has a row with this content id.
    pub fn record_exists(&self, content_id: u64) -> (r: bool)
        requires
            self.wf(),
        ensures
            r == has_record(self.records(), content_id),
    {
        self.find_record_index(content_id).is_some()
    }

    /// Whether the identity table has a row with this content id.
    pub fn identity_exists(&self, content_id: u64) -> (r: bool)
        requires
            self.wf(),
        ensures
            r == has_identity(self.identities(), content_id),
    {
        self.find_identity_index(content_id).is_some()
    }

    /// Loads the data of the character with a content id. Both rows must
    /// exist.
    pub(crate) fn find_player_data_by_content_id(&self, content_id: u64) -> (r: PlayerData)
        requires
            self.wf(),
            has_identity(self.identities(), content_id),
            has_record(self.records(), content_id),
        ensures
            r@ == player_data_of(
                self.identities()[identity_index(self.identities(), content_id)],
                self.records()[record_index(self.records(), content_id)],
            ),
            r.wf(),
    {
        let i = self.find_identity_index(content_id).unwrap();
        let identity = self.characters[i];
        let k = self.find_record_index(content_id).unwrap();
        let record = &self.character_data[k];
        assert(self.records()[k as int].wf());
        PlayerData {
            actor_id: identity.actor_id,
            content_id: identity.content_id,
            account_id: identity.service_account_id,
            classjob_id: record.classjob_id,
            classjob_levels: record.classjob_levels,
            classjob_exp: record.classjob_exp,
            position: record.position,
            rotation: record.rotation,
            zone_id: record.zone_id,
            inventory: record.inventory.clone(),
            gm_rank: record.gm_rank,
            unlocks: record.unlocks,
            aetherytes: record.aetherytes,
            completed_quests: record.completed_quests,
        }
    }

    /// Loads the data of the character that acts under `actor_id`: the first
    /// identity row with the actor id, and the record row with that row's
    /// content id. Both rows must exist.
    pub fn find_player_data(&self, actor_id: u32) -> (r: PlayerData)
        requires
            self.wf(),
            can_find_player(self.identities(), self.records(), actor_id),
        ensures
            r@ == player_data_found(self.identities(), self.records(), actor_id),
            r.wf(),
    {
        let i = self.find_actor_index(actor_id).unwrap();
        let content_id = self.characters[i].content_id;
        assert(self.identities()[i as int].content_id == content_id);
        self.find_player_data_by_content_id(content_id)
    }

    /// Writes the data of a session over the record with the data's content
    /// id: position, rotation, zone, inventory, rank, current job, job arrays
    /// and the three bitmasks are replaced as a whole. The name, the
    /// descriptor, the city and the remake mode, which a session does not
    /// hold, are left as they are. Without such a record nothing changes.
    pub fn commit_player_data(&mut self, data: &PlayerData)
        requires
            old(self).wf(),
            data.wf(),
        ensures
            final(self).wf(),
            final(self).identities() == old(self).identities(),
            final(self).records() == records_after_commit(old(self).records(), data@),
    {
        match self.find_record_index(data.content_id) {
            Some(k) => {
                let inventory = data.inventory.clone();
                let record = &mut self.character_data[k];
                record.zone_id = data.zone_id;
                record.position = data.position;
                record.rotation = data.rotation;
                record.inventory = inventory;
                record.gm_rank = data.gm_rank;
                record.classjob_id = data.classjob_id;
                record.classjob_levels = data.classjob_levels;
                record.classjob_exp = data.classjob_exp;
                record.unlocks = data.unlocks;
                record.aetherytes = data.aetherytes;
                record.completed_quests = data.completed_quests;
                assert(self.records() =~= records_after_commit(old(self).records(), data@));
            },
            None => {},
        }
    }

    /// The actor id of the character with a content id. The identity row
    /// must exist.
    pub fn find_actor_id(&self, content_id: u64) -> (r: u32)
        requires
            self.wf(),
            has_identity(self.identities(), content_id),
        ensures
            r == self.identities()[identity_index(self.identities(), content_id)].actor_id,
    {
        let i = self.find_identity_index(content_id).unwrap();
        self.characters[i].actor_id
    }

    /// Whether no record carries `name`.
    pub fn check_is_name_free(&self, name: &str) -> (r: bool)
        ensures
            r == name_is_free(self.records(), name@),
    {
        let wanted = name.to_owned();
        let mut i: usize = 0;
        while i < self.character_data.len()
            invariant
                i <= self.character_data@.len(),
                wanted@ == name@,
                self.records().len() == self.character_data@.len(),
                forall|j: int| 0 <= j < i ==> (#[trigger] self.records()[j]).name != name@,
            decreases self.character_data@.len() - i,
        {
            if self.character_data[i].name == wanted {
                assert(self.records()[i as int].name == name@);
                return false;
            }
            assert(self.records()[i as int].name != name@);
            i += 1;
        }
        true
    }

    /// The creation-time part of the record with a content id. The record
    /// must exist.
    pub fn find_chara_make(&self, content_id: u64) -> (r: CharacterData)
        requires
            self.wf(),
            has_record(self.records(), content_id),
        ensures
            r@ == character_data_of(self.records()[record_index(self.records(), content_id)]),
    {
        let k = self.find_record_index(content_id).unwrap();
        let record = &self.character_data[k];
        CharacterData {
            name: record.name.clone(),
            chara_make: record.chara_make,
            city_state: record.city_state,
            position: record.position,
            zone_id: record.zone_id,
        }
    }

    /// A copy of the record row with a content id, as durable storage holds
    /// it. The record must exist.
    pub fn find_record(&self, content_id: u64) -> (r: CharacterRecord)
        requires
            self.wf(),
            has_record(self.records(), content_id),
        ensures
            r@ == self.records()[record_index(self.records(), content_id)],
            r.inventory.wf(),
    {
        let k = self.find_record_index(content_id).unwrap();
        let record = &self.character_data[k];
        assert(self.records()[k as int].wf());
        CharacterRecord {
            content_id: record.content_id,
            name: record.name.clone(),
            chara_make: record.chara_make,
            city_state: record.city_state,
            zone_id: record.zone_id,
            position: record.position,
            rotation: record.rotation,
            inventory: record.inventory.clone(),
            remake_mode: record.remake_mode,
            gm_rank: record.gm_rank,
            classjob_id: record.classjob_id,
            classjob_levels: record.classjob_levels,
            classjob_exp: record.classjob_exp,
            unlocks: record.unlocks,
            aetherytes: record.aetherytes,
            completed_quests: record.completed_quests,
        }
    }

    /// Deletes a character: first its record row, then its identity row.
    /// Rows of other characters keep their order.
    pub fn delete_character(&mut self, content_id: u64)
        requires
            old(self).wf(),
        ensures
            final(self).wf(),
            final(self).records() == records_after_delete(old(self).records(), content_id),
            final(self).identities() == identities_after_delete(old(self).identities(), content_id),
            !has_record(final(self).records(), content_id),
            !has_identity(final(self).identities(), content_id),
    {
        proof {
            lemma_delete_removes_both_rows(old(self).identities(), old(self).records(), content_id);
        }
        match self.find_record_index(content_id) {
            Some(k) => {
                self.character_data.remove(k);
                assert(self.records() =~= records_after_delete(old(self).records(), content_id));
            },
            None => {},
        }
        match self.find_identity_index(content_id) {
            Some(i) => {
                self.characters.remove(i);
            },
            None => {},
        }
    }

    /// Sets the remake mode of the record with a content id. Without such a
    /// record nothing changes.
    pub fn set_remake_mode(&mut self, content_id: u64, mode: RemakeMode)
        requires
            old(self).wf(),
        ensures
            final(self).wf(),
            final(self).identities() == old(self).identities(),
            final(self).records() == (if has_record(old(self).records(), content_id) {
                let i = record_index(old(self).records(), content_id);
                old(self).records().update(
                    i,
                    (CharacterRecordView { remake_mode: mode, ..old(self).records()[i] }),
                )
            } else {
                old(self).records()
            }),
    {
        match self.find_record_index(content_id) {
            Some(k) => {
                self.character_data[k].remake_mode = mode;
                assert(self.records() =~= old(self).records().update(
                    k as int,
                    (CharacterRecordView { remake_mode: mode, ..old(self).records()[k as int] }),
                ));
            },
            None => {},
        }
    }

    /// Replaces the descriptor of the record with a content id. Without such
    /// a record nothing changes.
    pub fn set_chara_make(&mut self, content_id: u64, chara_make: CharaMake)
        requires
            old(self).wf(),
        ensures
            final(self).wf(),
            final(self).identities() == old(self).identities(),
            final(self).records() == (if has_record(old(self).records(), content_id) {
                let i = record_index(old(self).records(), content_id);
                old(self).records().update(
                    i,
                    (CharacterRecordView { chara_make, ..old(self).records()[i] }),
                )
            } else {
                old(self).records()
            }),
    {
        match self.find_record_index(content_id) {
            Some(k) => {
                self.character_data[k].chara_make = chara_make;
                assert(self.records() =~= old(self).records().update(
                    k as int,
                    (CharacterRecordView { chara_make, ..old(self).records()[k as int] }),
                ));
            },
            None => {},
        }
    }
}


impl WorldDatabase {
    /// Creates a character under the given ids: one identity row and one
    /// record row, each at the place of the content id in its table. The
    /// record is the [`initial_record`] of the arguments. Nothing is written when the
    /// starting job has no slot in the job arrays, or when a row with the
    /// content id is already in one of the tables.
    pub fn insert_player_data(
        &mut self,
        content_id: u64,
        actor_id: u32,
        service_account_id: u32,
        name: &str,
        chara_make: &CharaMake,
        city_state: u8,
        zone_id: u16,
        inventory: Inventory,
    ) -> (r: Result<(), StoreError>)
        requires
            old(self).wf(),
            inventory.wf(),
        ensures
            final(self).wf(),
            r is Ok <==> valid_starting_job(*chara_make) && !has_identity(
                old(self).identities(),
                content_id,
            ) && !has_record(old(self).records(), content_id),
            r is Ok ==> final(self).identities() == identities_with(
                old(self).identities(),
                (CharacterIdentity { content_id, service_account_id, actor_id }),
            ) && final(self).records() == records_with(
                old(self).records(),
                initial_record(content_id, name@, *chara_make, city_state, zone_id, inventory@),
            ),
            r is Ok ==> !name_is_free(final(self).records(), name@),
            r is Err ==> final(self).identities() == old(self).identities()
                && final(self).records() == old(self).records(),
            r == Err::<(), StoreError>(StoreError::InvalidClassJob) <==> !valid_starting_job(
                *chara_make,
            ),
            r == Err::<(), StoreError>(StoreError::DuplicateContentId) <==> valid_starting_job(
                *chara_make,
            ) && (has_identity(old(self).identities(), content_id) || has_record(
                old(self).records(),
                content_id,
            )),
    {
        if chara_make.classjob_id < 0 || chara_make.classjob_id >= 32 {
            return Err(StoreError::InvalidClassJob);
        }
        if self.find_identity_index(content_id).is_some() || self.find_record_index(
            content_id,
        ).is_some() {
            return Err(StoreError::DuplicateContentId);
        }
        let mut classjob_levels = [0i32; 32];
        classjob_levels[chara_make.classjob_id as usize] = 1;
        let record = CharacterRecord {
            content_id,
            name: name.to_owned(),
            chara_make: *chara_make,
            city_state,
            zone_id,
            position: Position::default(),
            rotation: 0,
            inventory,
            remake_mode: RemakeMode::NoRemake,
            gm_rank: GameMasterRank::Debug,
            classjob_id: chara_make.classjob_id as u8,
            classjob_levels,
            classjob_exp: [0u32; 32],
            unlocks: [0u8; UNLOCK_BITMASK_SIZE],
            aetherytes: [0u8; AETHERYTE_UNLOCK_BITMASK_SIZE],
            completed_quests: [0u8; COMPLETED_QUEST_BITMASK_SIZE],
        };
        proof {
            let expected = initial_record(
                content_id,
                name@,
                *chara_make,
                city_state,
                zone_id,
                inventory@,
            );
            assert(record@.classjob_levels =~= expected.classjob_levels);
            assert(record@.classjob_exp =~= expected.classjob_exp);
            assert(record@.unlocks =~= expected.unlocks);
            assert(record@.aetherytes =~= expected.aetherytes);
            assert(record@.completed_quests =~= expected.completed_quests);
            assert(record@ == expected);
        }
        let identity = CharacterIdentity { content_id, service_account_id, actor_id };
        let place = self.find_identity_position(content_id);
        let record_place = self.find_record_position(content_id);
        proof {
            lemma_creation_keeps_tables_well_formed(
                old(self).identities(),
                old(self).records(),
                identity,
                record@,
            );
            lemma_created_name_is_taken(old(self).records(), record@);
        }
        self.characters.insert(place, identity);
        self.character_data.insert(record_place, record);
        assert(self.records() =~= records_with(old(self).records(), record@));
        Ok(())
    }

    /// Creates a character under two freshly drawn ids and gives
    /// `(content_id, actor_id)`. The ids are random numbers of 32 bits and
    /// are not checked against the ids in use, except that a content id
    /// which is already a key of either table makes the creation fail with
    /// nothing written. Whatever was drawn, the outcome is that of
    /// [`WorldDatabase::insert_player_data`] under the ids.
    pub fn create_player_data(
        &mut self,
        service_account_id: u32,
        name: &str,
        chara_make: &CharaMake,
        city_state: u8,
        zone_id: u16,
        inventory: Inventory,
    ) -> (r: Result<(u64, u32), StoreError>)
        requires
            old(self).wf(),
            inventory.wf(),
        ensures
            final(self).wf(),
            r matches Ok((content_id, actor_id)) ==> {
                &&& content_id <= u32::MAX
                &&& valid_starting_job(*chara_make)
                &&& !has_identity(old(self).identities(), content_id)
                &&& !has_record(old(self).records(), content_id)
                &&& final(self).identities() == identities_with(
                    old(self).identities(),
                    (CharacterIdentity { content_id, service_account_id, actor_id }),
                )
                &&& final(self).records() == records_with(
                    old(self).records(),
                    initial_record(content_id, name@, *chara_make, city_state, zone_id, inventory@),
                )
            },
            r is Ok ==> !name_is_free(final(self).records(), name@),
            r is Err ==> final(self).identities() == old(self).identities()
                && final(self).records() == old(self).records(),
            r == Err::<(u64, u32), StoreError>(StoreError::InvalidClassJob) <==> !valid_starting_job(
                *chara_make,
            ),
            valid_starting_job(*chara_make) && old(self).identities().len() == 0
                && old(self).records().len() == 0 ==> r is Ok,
    {
        let content_id: u64 = random_u32() as u64;
        let actor_id: u32 = random_u32();
        match self.insert_player_data(
            content_id,
            actor_id,
            service_account_id,
            name,
            chara_make,
            city_state,
            zone_id,
            inventory,
        ) {
            Ok(()) => Ok((content_id, actor_id)),
            Err(e) => Err(e),
        }
    }

    /// Puts back an identity row that was read from durable storage, at the
    /// place of its content id. Gives `false`, with nothing written, when a
    /// row with its content id is already there.
    pub fn restore_identity(&mut self, identity: CharacterIdentity) -> (r: bool)
        requires
            old(self).wf(),
        ensures
            final(self).wf(),
            r == !has_identity(old(self).identities(), identity.content_id),
            final(self).records() == old(self).records(),
            final(self).identities() == (if r {
                identities_with(old(self).identities(), identity)
            } else {
                old(self).identities()
            }),
    {
        if self.find_identity_index(identity.content_id).is_some() {
            return false;
        }
        let place = self.find_identity_position(identity.content_id);
        proof {
            lemma_identity_insertion_keeps_order(old(self).identities(), identity);
        }
        self.characters.insert(place, identity);
        assert(self.identities() == identities_with(old(self).identities(), identity));
        true
    }

    /// Puts back a record row that was read from durable storage, at the
    /// place of its content id. Gives `false`, with nothing written, when a
    /// row with its content id is already there.
    pub fn restore_record(&mut self, record: CharacterRecord) -> (r: bool)
        requires
            old(self).wf(),
            record.inventory.wf(),
        ensures
            final(self).wf(),
            r == !has_record(old(self).records(), record.content_id),
            final(self).identities() == old(self).identities(),
            final(self).records() == (if r {
                records_with(old(self).records(), record@)
            } else {
                old(self).records()
            }),
    {
        if self.find_record_index(record.content_id).is_some() {
            return false;
        }
        let place = self.find_record_position(record.content_id);
        proof {
            lemma_record_insertion_keeps_order(old(self).records(), record@);
        }
        self.character_data.insert(place, record);
        assert(self.records() =~= records_with(old(self).records(), record@));
        true
    }
}


/// The identity rows of an account, ascending by content id.
pub open spec fn owned_identities(
    identities: Seq<CharacterIdentity>,
    service_account_id: u32,
) -> Seq<CharacterIdentity> {
    identities.filter(
        |identity: CharacterIdentity| identity.service_account_id == service_account_id,
    )
}

/// Of the first `n` identity rows of an account, the positions of those
/// that have a record.
pub open spec fn listed_ordinals_upto(
    owned: Seq<CharacterIdentity>,
    records: Seq<CharacterRecordView>,
    n: nat,
) -> Seq<int> {
    Seq::new(n, |k: int| k).filter(|k: int| has_record(records, owned[k].content_id))
}

/// The positions, among the identity rows of an account, of the characters
/// that the character list shows: a row without a record is passed over.
pub open spec fn listed_ordinals(
    owned: Seq<CharacterIdentity>,
    records: Seq<CharacterRecordView>,
) -> Seq<int> {
    listed_ordinals_upto(owned, records, owned.len())
}

/// `detail` is the summary that the character-selection screen shows for a
/// record: name, jobs and appearance from the record, and the models of the
/// equipped items from the game data.
pub open spec fn is_select_data_of(
    detail: ClientSelectData,
    record: CharacterRecordView,
    game_data: &GameData,
) -> bool {
    &&& detail.character_name@ == record.name
    &&& detail.current_class == record.classjob_id
    &&& detail.class_levels@ == record.classjob_levels
    &&& detail.race == record.chara_make.customize.race
    &&& detail.subrace == record.chara_make.customize.subrace
    &&& detail.gender == record.chara_make.customize.gender
    &&& detail.birth_month == record.chara_make.birth_month
    &&& detail.birth_day == record.chara_make.birth_day
    &&& detail.guardian == record.chara_make.guardian
    &&& detail.unk8 == 0
    &&& detail.unk9 == 0
    &&& detail.zone_id == record.zone_id
    &&& detail.content_finder_condition == 0
    &&& detail.customize == record.chara_make.customize
    &&& detail.model_main_weapon == main_weapon_id_of(record.inventory, game_data)
    &&& detail.model_sub_weapon == 0
    &&& detail.model_ids@ == model_ids_of(record.inventory, game_data)
    &&& detail.equip_stain@ == Seq::new(10, |i: int| 0u32)
    &&& detail.glasses@ == Seq::new(2, |i: int| 0u32)
    &&& detail.remake_mode == record.remake_mode
    &&& detail.remake_minutes_remaining == 0
    &&& detail.voice_id == record.chara_make.voice_id
    &&& detail.unk20 == 0
    &&& detail.unk21 == 0
    &&& detail.world_name@ == Seq::<char>::empty()
    &&& detail.unk22 == 0
    &&& detail.unk23 == 0
}

/// `details` is the character-list entry of a character: `ordinal` is its
/// position among the identity rows of its account (the entry carries it
/// modulo 256), and the world is both its origin and its current world.
pub open spec fn is_character_details_of(
    details: CharacterDetails,
    ordinal: int,
    identity: CharacterIdentity,
    record: CharacterRecordView,
    world_id: u16,
    world_name: Seq<char>,
    game_data: &GameData,
) -> bool {
    &&& details.actor_id == identity.actor_id
    &&& details.content_id == identity.content_id
    &&& details.index == ordinal % 256
    &&& details.flags == CharacterFlag::spec_none()
    &&& details.unk1@ == Seq::new(6, |i: int| 255u8)
    &&& details.origin_server_id == world_id
    &&& details.current_server_id == world_id
    &&& details.character_name@ == record.name
    &&& details.origin_server_name@ == world_name
    &&& details.current_server_name@ == world_name
    &&& is_select_data_of(details.character_detail, record, game_data)
    &&& details.unk2@ == Seq::new(16, |i: int| 255u8)
    &&& details.unk3@ == Seq::new(5, |i: int| 4u8)
}

/// `details` is the character-list entry of the character at position
/// `ordinal` among the identity rows `owned` of an account, and that
/// character has a record.
pub open spec fn is_listed_character(
    details: CharacterDetails,
    ordinal: int,
    owned: Seq<CharacterIdentity>,
    records: Seq<CharacterRecordView>,
    world_id: u16,
    world_name: Seq<char>,
    game_data: &GameData,
) -> bool {
    &&& 0 <= ordinal < owned.len()
    &&& has_record(records, owned[ordinal].content_id)
    &&& is_character_details_of(
        details,
        ordinal,
        owned[ordinal],
        records[record_index(records, owned[ordinal].content_id)],
        world_id,
        world_name,
        game_data,
    )
}

/// `entries` are the character-list entries of the characters at the
/// positions `listed`, in this order.
pub open spec fn are_listed_characters(
    entries: Seq<CharacterDetails>,
    listed: Seq<int>,
    owned: Seq<CharacterIdentity>,
    records: Seq<CharacterRecordView>,
    world_id: u16,
    world_name: Seq<char>,
    game_data: &GameData,
) -> bool {
    &&& entries.len() == listed.len()
    &&& forall|j: int|
        0 <= j < entries.len() ==> is_listed_character(
            #[trigger] entries[j],
            listed[j],
            owned,
            records,
            world_id,
            world_name,
            game_data,
        )
}

/// One more identity row extends the rows of an account by that row, or not
/// at all.
proof fn lemma_owned_identities_step(
    identities: Seq<CharacterIdentity>,
    service_account_id: u32,
    i: int,
)
    requires
        0 <= i < identities.len(),
    ensures
        owned_identities(identities.take(i + 1), service_account_id) == (if identities[i].service_account_id
            == service_account_id {
            owned_identities(identities.take(i), service_account_id).push(identities[i])
        } else {
            owned_identities(identities.take(i), service_account_id)
        }),
{
    reveal(Seq::filter);
    assert(identities.take(i + 1).drop_last() =~= identities.take(i));
}

/// One more row of an account extends the listed positions by that row's
/// position, or not at all.
proof fn lemma_listed_ordinals_step(
    owned: Seq<CharacterIdentity>,
    records: Seq<CharacterRecordView>,
    n: nat,
)
    ensures
        listed_ordinals_upto(owned, records, n + 1) == (if has_record(
            records,
            owned[n as int].content_id,
        ) {
            listed_ordinals_upto(owned, records, n).push(n as int)
        } else {
            listed_ordinals_upto(owned, records, n)
        }),
        listed_ordinals_upto(owned, records, 0) == Seq::<int>::empty(),
{
    reveal(Seq::filter);
    assert(Seq::new(n + 1, |k: int| k).drop_last() =~= Seq::new(n, |k: int| k));
}

impl WorldDatabase {
    /// The identity rows of an account, ascending by content id.
    fn identities_of_account(&self, service_account_id: u32) -> (r: Vec<CharacterIdentity>)
        ensures
            r@ == owned_identities(self.identities(), service_account_id),
    {
        let mut owned: Vec<CharacterIdentity> = Vec::new();
        let mut i: usize = 0;
        proof {
            reveal(Seq::filter);
            assert(self.identities().take(0) =~= Seq::<CharacterIdentity>::empty());
        }
        while i < self.characters.len()
            invariant
                i <= self.characters@.len(),
                owned@ == owned_identities(self.identities().take(i as int), service_account_id),
            decreases self.characters@.len() - i,
        {
            proof {
                lemma_owned_identities_step(self.identities(), service_account_id, i as int);
            }
            if self.characters[i].service_account_id == service_account_id {
                owned.push(self.characters[i]);
            }
            i += 1;
        }
        assert(self.identities().take(i as int) =~= self.identities());
        owned
    }

    /// The character-list entry of one character.
    fn character_details(
        ordinal: usize,
        identity: CharacterIdentity,
        record: &CharacterRecord,
        world_id: u16,
        world_name: &str,
        game_data: &GameData,
    ) -> (r: CharacterDetails)
        requires
            record@.wf(),
        ensures
            is_character_details_of(
                r,
                ordinal as int,
                identity,
                record@,
                world_id,
                world_name@,
                game_data,
            ),
    {
        let customize = record.chara_make.customize;
        let select_data = ClientSelectData {
            character_name: record.name.clone(),
            current_class: record.classjob_id as i32,
            class_levels: record.classjob_levels,
            race: customize.race as i32,
            subrace: customize.subrace as i32,
            gender: customize.gender as i32,
            birth_month: record.chara_make.birth_month,
            birth_day: record.chara_make.birth_day,
            guardian: record.chara_make.guardian,
            unk8: 0,
            unk9: 0,
            zone_id: record.zone_id as i32,
            content_finder_condition: 0,
            customize,
            model_main_weapon: record.inventory.get_main_weapon_id(game_data),
            model_sub_weapon: 0,
            model_ids: record.inventory.get_model_ids(game_data),
            equip_stain: [0u32; 10],
            glasses: [0u32; 2],
            remake_mode: record.remake_mode,
            remake_minutes_remaining: 0,
            voice_id: record.chara_make.voice_id,
            unk20: 0,
            unk21: 0,
            world_name: String::new(),
            unk22: 0,
            unk23: 0,
        };
        assert(select_data.equip_stain@ =~= Seq::new(10, |i: int| 0u32));
        assert(select_data.glasses@ =~= Seq::new(2, |i: int| 0u32));
        let details = CharacterDetails {
            actor_id: identity.actor_id,
            content_id: identity.content_id,
            index: (ordinal % 256) as u8,
            flags: CharacterFlag::none(),
            unk1: [255u8; 6],
            origin_server_id: world_id,
            current_server_id: world_id,
            character_name: record.name.clone(),
            origin_server_name: world_name.to_owned(),
            current_server_name: world_name.to_owned(),
            character_detail: select_data,
            unk2: [255u8; 16],
            unk3: [4u8; 5],
        };
        assert(details.unk1@ =~= Seq::new(6, |i: int| 255u8));
        assert(details.unk2@ =~= Seq::new(16, |i: int| 255u8));
        assert(details.unk3@ =~= Seq::new(5, |i: int| 4u8));
        details
    }

    /// The character list of an account: one entry for each identity row of
    /// the account that has a record, ascending by content id. A row without a record
    /// is passed over, and still counts in the positions of the rows after
    /// it.
    pub fn get_character_list(
        &self,
        service_account_id: u32,
        world_id: u16,
        world_name: &str,
        game_data: &GameData,
    ) -> (r: Vec<CharacterDetails>)
        requires
            self.wf(),
        ensures
            are_listed_characters(
                r@,
                listed_ordinals(
                    owned_identities(self.identities(), service_account_id),
                    self.records(),
                ),
                owned_identities(self.identities(), service_account_id),
                self.records(),
                world_id,
                world_name@,
                game_data,
            ),
    {
        let owned = self.identities_of_account(service_account_id);
        let mut characters: Vec<CharacterDetails> = Vec::new();
        let mut n: usize = 0;
        proof {
            lemma_listed_ordinals_step(owned@, self.records(), 0);
        }
        while n < owned.len()
            invariant
                self.wf(),
                n <= owned@.len(),
                are_listed_characters(
                    characters@,
                    listed_ordinals_upto(owned@, self.records(), n as nat),
                    owned@,
                    self.records(),
                    world_id,
                    world_name@,
                    game_data,
                ),
            decreases owned@.len() - n,
        {
            let ghost before = characters@;
            let ghost listed = listed_ordinals_upto(owned@, self.records(), n as nat);
            proof {
                lemma_listed_ordinals_step(owned@, self.records(), n as nat);
            }
            let identity = owned[n];
            match self.find_record_index(identity.content_id) {
                Some(k) => {
                    assert(self.records()[k as int].wf());
                    let details = Self::character_details(
                        n,
                        identity,
                        &self.character_data[k],
                        world_id,
                        world_name,
                        game_data,
                    );
                    characters.push(details);
                },
                None => {},
            }
            proof {
                let after = listed_ordinals_upto(owned@, self.records(), (n + 1) as nat);
                assert forall|j: int| 0 <= j < characters@.len() implies is_listed_character(
                    #[trigger] characters@[j],
                    after[j],
                    owned@,
                    self.records(),
                    world_id,
                    world_name@,
                    game_data,
                ) by {
                    if j < before.len() {
                        assert(characters@[j] == before[j]);
                        assert(after[j] == listed[j]);
                    }
                }
            }
            n += 1;
        }
        characters
    }
}

/// Round trip: when a session's data is committed and the character is then
/// loaded by the same actor id, what is loaded equals what was committed, in
/// every field.
///
/// This holds for data that belongs to a character of the store: a lookup by
/// the data's actor id finds the character with the data's content id and
/// account.
pub proof fn lemma_commit_then_find_round_trip(
    identities: Seq<CharacterIdentity>,
    records: Seq<CharacterRecordView>,
    data: PlayerDataView,
)
    requires
        tables_wf(identities, records),
        data.wf(),
        can_find_player(identities, records, data.actor_id),
        player_data_found(identities, records, data.actor_id).content_id == data.content_id,
        player_data_found(identities, records, data.actor_id).account_id == data.account_id,
    ensures
        tables_wf(identities, records_after_commit(records, data)),
        can_find_player(identities, records_after_commit(records, data), data.actor_id),
        player_data_found(identities, records_after_commit(records, data), data.actor_id) == data,
{
    let after = records_after_commit(records, data);
    let k = record_index(records, data.content_id);
    assert(after[k].content_id == data.content_id);
    assert(has_record(after, data.content_id));
    assert(record_index(after, data.content_id) == k);
}

/// Uniqueness: once a record with a name is in the table, the name is no
/// longer free.
pub proof fn lemma_created_name_is_taken(
    records: Seq<CharacterRecordView>,
    record: CharacterRecordView,
)
    requires
        forall|i: int, j: int|
            0 <= i < j < records.len() ==> records[i].content_id < records[j].content_id,
    ensures
        !name_is_free(records_with(records, record), record.name),
{
    lemma_record_position_divides(records, record.content_id);
    let q = record_position(records, record.content_id);
    assert(records_with(records, record)[q].name == record.name);
}

/// Creation leaves other characters as they were: a character that a lookup
/// by an actor id found before is found as before, unless the new character
/// shares the actor id and has the smaller content id.
pub proof fn lemma_creation_keeps_other_characters(
    identities: Seq<CharacterIdentity>,
    records: Seq<CharacterRecordView>,
    identity: CharacterIdentity,
    record: CharacterRecordView,
    actor_id: u32,
)
    requires
        tables_wf(identities, records),
        record.wf(),
        identity.content_id == record.content_id,
        !has_identity(identities, identity.content_id),
        !has_record(records, record.content_id),
        can_find_player(identities, records, actor_id),
        identity.actor_id != actor_id || player_data_found(
            identities,
            records,
            actor_id,
        ).content_id < identity.content_id,
    ensures
        tables_wf(identities_with(identities, identity), records_with(records, record)),
        can_find_player(
            identities_with(identities, identity),
            records_with(records, record),
            actor_id,
        ),
        player_data_found(
            identities_with(identities, identity),
            records_with(records, record),
            actor_id,
        ) == player_data_found(identities, records, actor_id),
{
    lemma_creation_keeps_tables_well_formed(identities, records, identity, record);
    lemma_identity_position_divides(identities, identity.content_id);
    lemma_record_position_divides(records, record.content_id);
    let p = identity_position(identities, identity.content_id);
    let q = record_position(records, record.content_id);
    let i = actor_index(identities, actor_id);
    let identities2 = identities_with(identities, identity);
    let records2 = records_with(records, record);
    assert(is_first_actor_row(identities, i, actor_id));
    let i2 = if i < p { i } else { i + 1 };
    assert(identities2[i2] == identities[i]);
    if identity.actor_id == actor_id {
        assert(identities[i].content_id < identity.content_id);
        assert(i < p);
    }
    assert(is_first_actor_row(identities2, i2, actor_id)) by {
        assert forall|j: int| 0 <= j < i2 implies identities2[j].actor_id != actor_id by {
            if j != p {
                let a = if j < p { j } else { j - 1 };
                assert(identities2[j] == identities[a]);
            }
        }
    }
    assert(actor_index(identities2, actor_id) == i2) by {
        let c = actor_index(identities2, actor_id);
        assert(is_first_actor_row(identities2, c, actor_id));
    }
    let k = record_index(records, identities[i].content_id);
    let k2 = if k < q { k } else { k + 1 };
    assert(records2[k2] == records[k]);
    assert(has_record(records2, identities[i].content_id));
    assert(record_index(records2, identities[i].content_id) == k2);
}

/// Deletion: after a character is deleted, neither table has a row with its
/// content id, and no lookup by any actor id leads to it.
pub proof fn lemma_delete_removes_both_rows(
    identities: Seq<CharacterIdentity>,
    records: Seq<CharacterRecordView>,
    content_id: u64,
)
    requires
        tables_wf(identities, records),
    ensures
        tables_wf(
            identities_after_delete(identities, content_id),
            records_after_delete(records, content_id),
        ),
        !has_identity(identities_after_delete(identities, content_id), content_id),
        !has_record(records_after_delete(records, content_id), content_id),
        forall|actor_id: u32|
            has_actor(identities_after_delete(identities, content_id), actor_id) ==> (
            #[trigger] player_data_found(
                identities_after_delete(identities, content_id),
                records_after_delete(records, content_id),
                actor_id,
            )).content_id != content_id,
{
    let identities2 = identities_after_delete(identities, content_id);
    let records2 = records_after_delete(records, content_id);
    assert(!has_record(records2, content_id)) by {
        if has_record(records2, content_id) {
            let k2 = record_index(records2, content_id);
            if has_record(records, content_id) {
                let d = record_index(records, content_id);
                let k = if k2 < d { k2 } else { k2 + 1 };
                assert(records[k] == records2[k2]);
            }
        }
    }
    assert(!has_identity(identities2, content_id)) by {
        if has_identity(identities2, content_id) {
            let k2 = identity_index(identities2, content_id);
            if has_identity(identities, content_id) {
                let d = identity_index(identities, content_id);
                let k = if k2 < d { k2 } else { k2 + 1 };
                assert(identities[k] == identities2[k2]);
            }
        }
    }
    assert forall|actor_id: u32| has_actor(identities2, actor_id) implies (
    #[trigger] player_data_found(identities2, records2, actor_id)).content_id != content_id by {
        let i = actor_index(identities2, actor_id);
        assert(is_first_actor_row(identities2, i, actor_id));
        assert(identities2[i].content_id != content_id);
    }
    assert(tables_wf(identities2, records2)) by {
        if has_record(records, content_id) {
            let d = record_index(records, content_id);
            assert forall|i: int, j: int| 0 <= i < j < records2.len() implies records2[i].content_id
                != records2[j].content_id by {
                let a = if i < d { i } else { i + 1 };
                let b = if j < d { j } else { j + 1 };
                assert(records2[i] == records[a]);
                assert(records2[j] == records[b]);
            }
            assert forall|i: int| 0 <= i < records2.len() implies (#[trigger] records2[i]).wf() by {
                let a = if i < d { i } else { i + 1 };
                assert(records2[i] == records[a]);
            }
        }
        if has_identity(identities, content_id) {
            let d = identity_index(identities, content_id);
            assert forall|i: int, j: int| 0 <= i < j < identities2.len() implies identities2[i].content_id
                != identities2[j].content_id by {
                let a = if i < d { i } else { i + 1 };
                let b = if j < d { j } else { j + 1 };
                assert(identities2[i] == identities[a]);
                assert(identities2[j] == identities[b]);
            }
        }
    }
}

/// Deletion leaves every other character as it was: a row with another
/// content id is in a table after the deletion exactly if it was there
/// before, and it is the same row.
pub proof fn lemma_delete_keeps_other_characters(
    identities: Seq<CharacterIdentity>,
    records: Seq<CharacterRecordView>,
    content_id: u64,
    other: u64,
)
    requires
        tables_wf(identities, records),
        other != content_id,
    ensures
        has_record(records_after_delete(records, content_id), other) == has_record(records, other),
        has_record(records, other) ==> records_after_delete(records, content_id)[record_index(
            records_after_delete(records, content_id),
            other,
        )] == records[record_index(records, other)],
        has_identity(identities_after_delete(identities, content_id), other) == has_identity(
            identities,
            other,
        ),
        has_identity(identities, other) ==> identities_after_delete(
            identities,
            content_id,
        )[identity_index(identities_after_delete(identities, content_id), other)]
            == identities[identity_index(identities, other)],
{
    let identities2 = identities_after_delete(identities, content_id);
    let records2 = records_after_delete(records, content_id);
    lemma_delete_removes_both_rows(identities, records, content_id);
    if has_record(records, content_id) {
        let d = record_index(records, content_id);
        if has_record(records, other) {
            let k = record_index(records, other);
            let k2 = if k < d { k } else { k - 1 };
            assert(records2[k2] == records[k]);
            assert(has_record(records2, other));
            assert(record_index(records2, other) == k2);
        }
        if has_record(records2, other) {
            let k2 = record_index(records2, other);
            let k = if k2 < d { k2 } else { k2 + 1 };
            assert(records[k] == records2[k2]);
        }
    }
    if has_identity(identities, content_id) {
        let d = identity_index(identities, content_id);
        if has_identity(identities, other) {
            let k = identity_index(identities, other);
            let k2 = if k < d { k } else { k - 1 };
            assert(identities2[k2] == identities[k]);
            assert(has_identity(identities2, other));
            assert(identity_index(identities2, other) == k2);
        }
        if has_identity(identities2, other) {
            let k2 = identity_index(identities2, other);
            let k = if k2 < d { k2 } else { k2 + 1 };
            assert(identities[k] == identities2[k2]);
        }
    }
}

/// Deletion, seen from the live world: when no other character shares the
/// actor id of the deleted character, a lookup by that actor id finds no row.
pub proof fn lemma_deleted_actor_is_not_found(
    identities: Seq<CharacterIdentity>,
    records: Seq<CharacterRecordView>,
    content_id: u64,
)
    requires
        tables_wf(identities, records),
        has_identity(identities, content_id),
        forall|j: int|
            0 <= j < identities.len() && (#[trigger] identities[j]).content_id != content_id
                ==> identities[j].actor_id != identities[identity_index(
                identities,
                content_id,
            )].actor_id,
    ensures
        !can_find_player(
            identities_after_delete(identities, content_id),
            records_after_delete(records, content_id),
            identities[identity_index(identities, content_id)].actor_id,
        ),
{
    let d = identity_index(identities, content_id);
    let actor_id = identities[d].actor_id;
    let identities2 = identities_after_delete(identities, content_id);
    if has_actor(identities2, actor_id) {
        let i = actor_index(identities2, actor_id);
        assert(is_first_actor_row(identities2, i, actor_id));
        let a = if i < d { i } else { i + 1 };
        assert(identities2[i] == identities[a]);
    }
}

} // verus!
