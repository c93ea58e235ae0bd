//! Migration of a character that a legacy client exported.
//!
//! A backup is a metadata document (name, birthday, jobs, items, unlocks)
//! and a binary save blob that holds the appearance. The document arrives
//! decoded, as a [`CharacterBackup`]; the blob arrives as bytes and is
//! decoded here.
use vstd::prelude::*;
use physis::savedata::chardat::CharacterData;
use physis::{Platform, ReadableFile};
use crate::common::{CustomizeData, GameData};
use crate::inventory::{empty_inventory, ContainerKind, Inventory, Item, NUM_CONTAINERS};
use crate::workdefinitions::CharaMake;
use crate::world::database::{
    committed_record, has_identity, has_record, identities_with, initial_record,
    lemma_created_name_is_taken, lemma_creation_keeps_tables_well_formed,
    lemma_record_position_divides, name_is_free,
    random_u32, record_position, records_with, CharacterIdentity, CharacterRecordView,
    WorldDatabase,
};
use crate::world::{PlayerData, PlayerDataView};
use crate::{AETHERYTE_UNLOCK_BITMASK_SIZE, CLASSJOB_ARRAY_SIZE, UNLOCK_BITMASK_SIZE};

verus! {

/// The zone in which an imported character starts.
pub const IMPORT_ZONE_ID: u16 = 132;

/// The starting job that the descriptor of an imported character names.
pub const IMPORT_CLASSJOB_ID: i32 = 5;

/// One job entry of a backup: the job, its level and, if the backup has it,
/// its experience.
#[derive(Clone, Copy, Debug, PartialEq, Eq)]
pub struct BackupClassJob {
    pub value: i32,
    pub level: i32,
    pub exp: Option<u32>,
}

/// One item of a backup and the slot it lay in.
#[derive(Clone, Copy, Debug, PartialEq, Eq, Structural)]
pub struct BackupItem {
    pub slot: i32,
    pub quantity: u32,
    pub condition: u16,
    pub id: u32,
    pub glamour_id: u32,
}

/// The metadata document of a backup.
#[derive(Clone, Debug, PartialEq, Eq)]
pub struct CharacterBackup {
    pub name: String,
    pub city_state: i32,
    pub nameday_day: i32,
    pub nameday_month: i32,
    pub guardian: i32,
    pub voice: i32,
    pub classjob_levels: Vec<BackupClassJob>,
    pub inventory1: Vec<BackupItem>,
    pub inventory2: Vec<BackupItem>,
    pub inventory3: Vec<BackupItem>,
    pub inventory4: Vec<BackupItem>,
    pub equipped_items: Vec<BackupItem>,
    pub currency: Vec<BackupItem>,
    pub armory_off_hand: Vec<BackupItem>,
    pub armory_head: Vec<BackupItem>,
    pub armory_body: Vec<BackupItem>,
    pub armory_hands: Vec<BackupItem>,
    pub armory_legs: Vec<BackupItem>,
    pub armory_ear: Vec<BackupItem>,
    pub armory_neck: Vec<BackupItem>,
    pub armory_wrist: Vec<BackupItem>,
    pub armory_rings: Vec<BackupItem>,
    pub armory_soul_crystal: Vec<BackupItem>,
    pub armory_main_hand: Vec<BackupItem>,
    pub unlock_flags: Vec<u8>,
    pub unlock_aetherytes: Vec<u8>,
}

impl CharacterBackup {
    /// The items that the backup lists for a container.
    pub open spec fn spec_items(&self, kind: ContainerKind) -> Seq<BackupItem> {
        match kind {
            ContainerKind::Inventory0 => self.inventory1@,
            ContainerKind::Inventory1 => self.inventory2@,
            ContainerKind::Inventory2 => self.inventory3@,
            ContainerKind::Inventory3 => self.inventory4@,
            ContainerKind::Equipped => self.equipped_items@,
            ContainerKind::Currency => self.currency@,
            ContainerKind::ArmouryOffHand => self.armory_off_hand@,
            ContainerKind::ArmouryHead => self.armory_head@,
            ContainerKind::ArmouryBody => self.armory_body@,
            ContainerKind::ArmouryHands => self.armory_hands@,
            ContainerKind::ArmouryLegs => self.armory_legs@,
            ContainerKind::ArmouryEarring => self.armory_ear@,
            ContainerKind::ArmouryNecklace => self.armory_neck@,
            ContainerKind::ArmouryBracelet => self.armory_wrist@,
            ContainerKind::ArmouryRings => self.armory_rings@,
            ContainerKind::ArmourySoulCrystal => self.armory_soul_crystal@,
            ContainerKind::ArmouryMainHand => self.armory_main_hand@,
        }
    }

    /// The item lists of the backup, one for each container of an inventory,
    /// in the order of the containers.
    pub open spec fn spec_containers(&self) -> Seq<Seq<BackupItem>> {
        Seq::new(
            NUM_CONTAINERS as nat,
            |k: int| self.spec_items(ContainerKind::spec_from_index(k)),
        )
    }

    /// The two unlock bitmasks of the backup have their declared lengths.
    pub open spec fn has_valid_bitmasks(&self) -> bool {
        &&& self.unlock_flags@.len() == UNLOCK_BITMASK_SIZE
        &&& self.unlock_aetherytes@.len() == AETHERYTE_UNLOCK_BITMASK_SIZE
    }

    /// The items that the backup lists for a container.
    pub fn items(&self, kind: ContainerKind) -> (r: &Vec<BackupItem>)
        ensures
            r@ == self.spec_items(kind),
    {
        match kind {
            ContainerKind::Inventory0 => &self.inventory1,
            ContainerKind::Inventory1 => &self.inventory2,
            ContainerKind::Inventory2 => &self.inventory3,
            ContainerKind::Inventory3 => &self.inventory4,
            ContainerKind::Equipped => &self.equipped_items,
            ContainerKind::Currency => &self.currency,
            ContainerKind::ArmouryOffHand => &self.armory_off_hand,
            ContainerKind::ArmouryHead => &self.armory_head,
            ContainerKind::ArmouryBody => &self.armory_body,
            ContainerKind::ArmouryHands => &self.armory_hands,
            ContainerKind::ArmouryLegs => &self.armory_legs,
            ContainerKind::ArmouryEarring => &self.armory_ear,
            ContainerKind::ArmouryNecklace => &self.armory_neck,
            ContainerKind::ArmouryBracelet => &self.armory_wrist,
            ContainerKind::ArmouryRings => &self.armory_rings,
            ContainerKind::ArmourySoulCrystal => &self.armory_soul_crystal,
            ContainerKind::ArmouryMainHand => &self.armory_main_hand,
        }
    }
}

/// Why an import was refused. A refused import writes nothing.
#[derive(Clone, Copy, Debug, PartialEq, Eq, Structural)]
pub enum ImportError {
    /// An unlock bitmask of the backup does not have its declared length.
    InvalidBitmaskLength,
    /// The save blob could not be decoded into an appearance.
    InvalidAppearance,
    /// A character with the name of the backup exists already.
    NameTaken,
    /// The content id drawn for the character is already in use.
    DuplicateContentId,
}

/// The item that an imported backup item becomes.
pub open spec fn item_of(item: BackupItem) -> Item {
    Item {
        quantity: item.quantity,
        id: item.id,
        condition: item.condition,
        glamour_catalog_id: item.glamour_id,
    }
}

/// The slots of a container after the items of a backup were copied into
/// them, one after the other: an item goes to the slot it names, and an item
/// that names no slot of the container is dropped.
pub open spec fn imported_slots(slots: Seq<Item>, items: Seq<BackupItem>) -> Seq<Item>
    decreases items.len(),
{
    if items.len() == 0 {
        slots
    } else {
        let before = imported_slots(slots, items.drop_last());
        let item = items.last();
        if 0 <= item.slot < slots.len() {
            before.update(item.slot as int, item_of(item))
        } else {
            before
        }
    }
}

/// An inventory after the item lists of a backup were copied into its
/// containers.
pub open spec fn imported_inventory(
    inventory: Seq<Seq<Item>>,
    containers: Seq<Seq<BackupItem>>,
) -> Seq<Seq<Item>> {
    Seq::new(inventory.len(), |k: int| imported_slots(inventory[k], containers[k]))
}

/// The slot of the job arrays that a job entry of a backup is written to:
/// the exp-array index that the game data gives for the job id (its low 16
/// bits), if that index lies inside the arrays. An entry without a slot is
/// passed over.
pub open spec fn job_slot(job: BackupClassJob, game_data: &GameData) -> Option<int> {
    match game_data.exp_array_index(job.value as u16) {
        Some(index) => if 0 <= index < CLASSJOB_ARRAY_SIZE {
            Some(index as int)
        } else {
            None
        },
        None => None,
    }
}

/// The level array after one job entry was imported.
pub open spec fn levels_with_job(
    levels: Seq<i32>,
    job: BackupClassJob,
    game_data: &GameData,
) -> Seq<i32> {
    match job_slot(job, game_data) {
        Some(slot) => levels.update(slot, job.level),
        None => levels,
    }
}

/// The experience array after one job entry was imported. An entry without
/// experience leaves the experience of its job as it is.
pub open spec fn exp_with_job(exp: Seq<u32>, job: BackupClassJob, game_data: &GameData) -> Seq<
    u32,
> {
    match (job_slot(job, game_data), job.exp) {
        (Some(slot), Some(points)) => exp.update(slot, points),
        _ => exp,
    }
}

/// The level array after the job entries of a backup were imported, one
/// after the other.
pub open spec fn imported_levels(
    levels: Seq<i32>,
    jobs: Seq<BackupClassJob>,
    game_data: &GameData,
) -> Seq<i32>
    decreases jobs.len(),
{
    if jobs.len() == 0 {
        levels
    } else {
        levels_with_job(imported_levels(levels, jobs.drop_last(), game_data), jobs.last(), game_data)
    }
}

/// The experience array after the job entries of a backup were imported,
/// one after the other.
pub open spec fn imported_exp(
    exp: Seq<u32>,
    jobs: Seq<BackupClassJob>,
    game_data: &GameData,
) -> Seq<u32>
    decreases jobs.len(),
{
    if jobs.len() == 0 {
        exp
    } else {
        exp_with_job(imported_exp(exp, jobs.drop_last(), game_data), jobs.last(), game_data)
    }
}

/// The descriptor of an imported character: the decoded appearance, and
/// voice, guardian and birthday from the backup.
pub open spec fn imported_chara_make(backup: &CharacterBackup, customize: CustomizeData) -> CharaMake {
    CharaMake {
        customize,
        voice_id: backup.voice,
        guardian: backup.guardian,
        birth_month: backup.nameday_month,
        birth_day: backup.nameday_day,
        classjob_id: IMPORT_CLASSJOB_ID,
        unk2: 1,
    }
}

/// The record of an imported character: the record of a character created
/// with the backup's name and descriptor in the default zone, with the jobs,
/// the items and the two unlock bitmasks of the backup written over it.
pub open spec fn imported_record(
    content_id: u64,
    backup: &CharacterBackup,
    customize: CustomizeData,
    game_data: &GameData,
) -> CharacterRecordView {
    let created = initial_record(
        content_id,
        backup.name@,
        imported_chara_make(backup, customize),
        backup.city_state as u8,
        IMPORT_ZONE_ID,
        empty_inventory(),
    );
    CharacterRecordView {
        inventory: imported_inventory(created.inventory, backup.spec_containers()),
        classjob_levels: imported_levels(created.classjob_levels, backup.classjob_levels@, game_data),
        classjob_exp: imported_exp(created.classjob_exp, backup.classjob_levels@, game_data),
        unlocks: backup.unlock_flags@,
        aetherytes: backup.unlock_aetherytes@,
        ..created
    }
}

/// The two entries of a backup archive, as the bytes they unpack to.
#[derive(Clone, Debug, PartialEq, Eq)]
pub struct BackupArchive {
    /// The metadata document, a JSON text.
    pub character_json: Vec<u8>,
    /// The binary save blob that holds the appearance.
    pub chardat: Vec<u8>,
}

/// Why a backup archive could not be opened.
#[derive(Clone, Copy, Debug, PartialEq, Eq, Structural)]
pub enum ArchiveError {
    /// The archive cannot be read, or has no metadata document.
    MissingDocument,
    /// The archive has no save blob.
    MissingSaveData,
}

/// What the zip reader unpacks from an archive under an entry name, or
/// `None` for bytes that are no archive, an archive without such an entry,
/// or an entry that cannot be unpacked.
pub uninterp spec fn archive_entry(archive: Seq<u8>, name: Seq<char>) -> Option<Seq<u8>>;

/// Opens the bytes of an archive with `zip::ZipArchive::new`, looks the
/// entry up with `by_name` and unpacks it to its end. The result is the
/// named result of the archive and the name; nothing more is claimed.
#[verifier::external_body]
fn read_archive_entry(archive: &[u8], name: &str) -> (r: Option<Vec<u8>>)
    ensures
        r matches Some(bytes) ==> archive_entry(archive@, name@) == Some(bytes@),
        r is None ==> archive_entry(archive@, name@) is None,
{
    let mut zip = zip::ZipArchive::new(std::io::Cursor::new(archive)).ok()?;
    let mut entry = zip.by_name(name).ok()?;
    let mut bytes = Vec::new();
    std::io::Read::read_to_end(&mut entry, &mut bytes).ok()?;
    Some(bytes)
}

/// The name of the metadata document inside a backup archive.
pub open spec fn document_entry_name() -> Seq<char> {
    "character.json"@
}

/// The name of the save blob inside a backup archive.
pub open spec fn chardat_entry_name() -> Seq<char> {
    "FFXIV_CHARA_01.dat"@
}

/// Unpacks the two entries of a backup archive: first the metadata
/// document, then the save blob.
pub fn read_backup_archive(archive: &[u8]) -> (r: Result<BackupArchive, ArchiveError>)
    ensures
        match r {
            Ok(entries) => {
                &&& archive_entry(archive@, document_entry_name()) == Some(entries.character_json@)
                &&& archive_entry(archive@, chardat_entry_name()) == Some(entries.chardat@)
            },
            Err(ArchiveError::MissingDocument) => archive_entry(archive@, document_entry_name())
                is None,
            Err(ArchiveError::MissingSaveData) => {
                &&& archive_entry(archive@, document_entry_name()) is Some
                &&& archive_entry(archive@, chardat_entry_name()) is None
            },
        },
{
    let character_json = match read_archive_entry(archive, "character.json") {
        Some(bytes) => bytes,
        None => {
            return Err(ArchiveError::MissingDocument);
        },
    };
    match read_archive_entry(archive, "FFXIV_CHARA_01.dat") {
        Some(chardat) => Ok(BackupArchive { character_json, chardat }),
        None => Err(ArchiveError::MissingSaveData),
    }
}

/// What physis' reader of character save data makes of a blob: the 26
/// fields of the appearance in the order of their declaration, one byte
/// each, or `None` for a blob that it does not accept.
pub uninterp spec fn chardat_customize(bytes: Seq<u8>) -> Option<Seq<u8>>;

/// Reads a character save blob with `CharacterData::from_existing` of
/// physis, for the desktop platform, and hands out the `customize` part of
/// what was read: race, gender and tribe as their number, the highlights
/// flag as 0 or 1, every other field as it is. The result is the named
/// result of the bytes; nothing more is claimed.
#[verifier::external_body]
fn decode_chardat(bytes: &[u8]) -> (r: Option<[u8; 26]>)
    ensures
        r matches Some(fields) ==> chardat_customize(bytes@) == Some(fields@),
        r is None ==> chardat_customize(bytes@) is None,
{
    let c = CharacterData::from_existing(Platform::Win32, bytes).ok()?.customize;
    Some([
        c.race as u8, c.gender as u8, c.age, c.height, c.tribe as u8, c.face, c.hair,
        c.enable_highlights as u8, c.skin_tone, c.right_eye_color, c.hair_tone, c.highlights,
        c.facial_features, c.facial_feature_color, c.eyebrows, c.left_eye_color, c.eyes, c.nose,
        c.jaw, c.mouth, c.lips_tone_fur_pattern, c.race_feature_size, c.race_feature_type,
        c.bust, c.face_paint, c.face_paint_color,
    ])
}

/// The appearance that a save blob holds, if the blob can be read.
pub open spec fn appearance_of(chardat: Seq<u8>) -> Option<CustomizeData> {
    match chardat_customize(chardat) {
        Some(fields) => Some(CustomizeData::spec_from_bytes(fields)),
        None => None,
    }
}

/// Decodes the appearance that a save blob holds.
pub fn decode_appearance(chardat: &[u8]) -> (r: Option<CustomizeData>)
    ensures
        r == appearance_of(chardat@),
{
    match decode_chardat(chardat) {
        Some(fields) => Some(CustomizeData::from_bytes(&fields)),
        None => None,
    }
}

/// Imports one job entry of a backup: the level, and the experience if the
/// entry has it, go to the slot of the job. An entry whose job has no slot
/// changes nothing.
pub fn import_classjob(player_data: &mut PlayerData, job: &BackupClassJob, game_data: &GameData)
    ensures
        final(player_data).classjob_levels@ == levels_with_job(
            old(player_data).classjob_levels@,
            *job,
            game_data,
        ),
        final(player_data).classjob_exp@ == exp_with_job(
            old(player_data).classjob_exp@,
            *job,
            game_data,
        ),
        final(player_data)@ == (PlayerDataView {
            classjob_levels: final(player_data).classjob_levels@,
            classjob_exp: final(player_data).classjob_exp@,
            ..old(player_data)@
        }),
{
    let classjob_id: u16 = #[verifier::truncate]
    (job.value as u16);
    match game_data.get_exp_array_index(classjob_id) {
        Some(index) => {
            if 0 <= index && index < 32 {
                let slot: usize = index as usize;
                player_data.classjob_levels[slot] = job.level;
                match job.exp {
                    Some(points) => {
                        player_data.classjob_exp[slot] = points;
                    },
                    None => {},
                }
            }
        },
        None => {},
    }
}

/// Imports the job entries of a backup, one after the other.
pub fn import_classjobs(
    player_data: &mut PlayerData,
    jobs: &Vec<BackupClassJob>,
    game_data: &GameData,
)
    ensures
        final(player_data).classjob_levels@ == imported_levels(
            old(player_data).classjob_levels@,
            jobs@,
            game_data,
        ),
        final(player_data).classjob_exp@ == imported_exp(
            old(player_data).classjob_exp@,
            jobs@,
            game_data,
        ),
        final(player_data)@ == (PlayerDataView {
            classjob_levels: final(player_data).classjob_levels@,
            classjob_exp: final(player_data).classjob_exp@,
            ..old(player_data)@
        }),
{
    let mut n: usize = 0;
    while n < jobs.len()
        invariant
            n <= jobs@.len(),
            player_data.classjob_levels@ == imported_levels(
                old(player_data).classjob_levels@,
                jobs@.take(n as int),
                game_data,
            ),
            player_data.classjob_exp@ == imported_exp(
                old(player_data).classjob_exp@,
                jobs@.take(n as int),
                game_data,
            ),
            player_data@ == (PlayerDataView {
                classjob_levels: player_data.classjob_levels@,
                classjob_exp: player_data.classjob_exp@,
                ..old(player_data)@
            }),
        decreases jobs@.len() - n,
    {
        proof {
            assert(jobs@.take(n + 1).drop_last() =~= jobs@.take(n as int));
        }
        import_classjob(player_data, &jobs[n], game_data);
        n += 1;
    }
    assert(jobs@.take(n as int) =~= jobs@);
}

/// Copies the items that a backup lists for a container into the container
/// of that kind. An item goes to the slot it names; an item whose slot is
/// negative, or equal to or greater than the container's maximum slot count,
/// is dropped. Every other container stays as it is.
pub fn import_container(inventory: &mut Inventory, kind: ContainerKind, items: &Vec<BackupItem>)
    requires
        old(inventory).wf(),
    ensures
        final(inventory).wf(),
        final(inventory)@ == old(inventory)@.update(
            kind.spec_index(),
            imported_slots(old(inventory)@[kind.spec_index()], items@),
        ),
{
    let max_slots: u32 = kind.max_slots();
    let mut n: usize = 0;
    assert(old(inventory)@ =~= old(inventory)@.update(
        kind.spec_index(),
        old(inventory)@[kind.spec_index()],
    ));
    while n < items.len()
        invariant
            n <= items@.len(),
            max_slots == kind.spec_max_slots(),
            old(inventory).wf(),
            inventory.wf(),
            inventory@ == old(inventory)@.update(
                kind.spec_index(),
                imported_slots(old(inventory)@[kind.spec_index()], items@.take(n as int)),
            ),
        decreases items@.len() - n,
    {
        proof {
            assert(items@.take(n + 1).drop_last() =~= items@.take(n as int));
        }
        let item = &items[n];
        if 0 <= item.slot && (item.slot as u32) < max_slots {
            inventory.set_slot(
                kind,
                item.slot as u16,
                Item {
                    quantity: item.quantity,
                    id: item.id,
                    condition: item.condition,
                    glamour_catalog_id: item.glamour_id,
                },
            );
        }
        assert(inventory@ =~= old(inventory)@.update(
            kind.spec_index(),
            imported_slots(old(inventory)@[kind.spec_index()], items@.take(n + 1)),
        ));
        n += 1;
    }
    assert(items@.take(n as int) =~= items@);
}

/// Copies the item lists of a backup into the containers of an inventory,
/// container by container.
pub fn import_inventory(inventory: &mut Inventory, backup: &CharacterBackup)
    requires
        old(inventory).wf(),
    ensures
        final(inventory).wf(),
        final(inventory)@ == imported_inventory(old(inventory)@, backup.spec_containers()),
{
    let mut k: usize = 0;
    while k < NUM_CONTAINERS
        invariant
            k <= NUM_CONTAINERS,
            old(inventory).wf(),
            inventory.wf(),
            inventory@.len() == NUM_CONTAINERS,
            forall|j: int|
                0 <= j < k ==> #[trigger] inventory@[j] == imported_slots(
                    old(inventory)@[j],
                    backup.spec_containers()[j],
                ),
            forall|j: int| k <= j < NUM_CONTAINERS ==> #[trigger] inventory@[j] == old(inventory)@[j],
        decreases NUM_CONTAINERS - k,
    {
        let kind = ContainerKind::from_index(k).unwrap();
        import_container(inventory, kind, backup.items(kind));
        k += 1;
    }
    assert(inventory@ =~= imported_inventory(old(inventory)@, backup.spec_containers()));
}


/// Copies a bitmask of a backup into an array of the declared length, or
/// gives `None` when the backup's bitmask has another length.
fn bitmask_of<const N: usize>(bytes: &Vec<u8>) -> (r: Option<[u8; N]>)
    ensures
        r is Some <==> bytes@.len() == N,
        r matches Some(mask) ==> mask@ == bytes@,
{
    if bytes.len() != N {
        return None;
    }
    let mut mask = [0u8; N];
    let mut i: usize = 0;
    while i < N
        invariant
            i <= N,
            bytes@.len() == N,
            forall|j: int| 0 <= j < i ==> mask@[j] == bytes@[j],
        decreases N - i,
    {
        mask[i] = bytes[i];
        i += 1;
    }
    assert(mask@ =~= bytes@);
    Some(mask)
}

/// Why an import is refused before any id is drawn, if it is: a bitmask of
/// the wrong length, a save blob that could not be decoded, or a name that
/// is taken, in this order.
pub open spec fn import_refusal(
    records: Seq<CharacterRecordView>,
    backup: &CharacterBackup,
    customize: Option<CustomizeData>,
) -> Option<ImportError> {
    if !backup.has_valid_bitmasks() {
        Some(ImportError::InvalidBitmaskLength)
    } else if customize is None {
        Some(ImportError::InvalidAppearance)
    } else if !name_is_free(records, backup.name@) {
        Some(ImportError::NameTaken)
    } else {
        None
    }
}

/// How an import under a given content id ends: with the refusal that the
/// backup itself earns, else with a refusal if the content id is in use,
/// else with success.
pub open spec fn import_outcome(
    identities: Seq<CharacterIdentity>,
    records: Seq<CharacterRecordView>,
    content_id: u64,
    backup: &CharacterBackup,
    customize: Option<CustomizeData>,
) -> Result<(), ImportError> {
    match import_refusal(records, backup, customize) {
        Some(refusal) => Err(refusal),
        None => if has_identity(identities, content_id) || has_record(records, content_id) {
            Err(ImportError::DuplicateContentId)
        } else {
            Ok(())
        },
    }
}

impl WorldDatabase {
    /// Imports a backup under the given ids. `customize` is the appearance
    /// that the save blob of the backup was decoded to, or `None` if it could
    /// not be decoded.
    ///
    /// The import is all or nothing: a refused import writes no row, and a
    /// successful one adds the identity row and the finished
    /// [`imported_record`], each at the place of the content id in its table.
    /// Items that name no slot of their container and job entries without a
    /// slot are passed over and refuse nothing.
    pub fn import_character_as(
        &mut self,
        content_id: u64,
        actor_id: u32,
        game_data: &GameData,
        service_account_id: u32,
        backup: &CharacterBackup,
        customize: Option<CustomizeData>,
    ) -> (r: Result<(), ImportError>)
        requires
            old(self).wf(),
        ensures
            final(self).wf(),
            r == import_outcome(
                old(self).identities(),
                old(self).records(),
                content_id,
                backup,
                customize,
            ),
            r is Err ==> final(self).identities() == old(self).identities()
                && final(self).records() == old(self).records(),
            r is Ok ==> final(self).identities() == identities_with(
                old(self).identities(),
                (CharacterIdentity { content_id, service_account_id, actor_id }),
            ) && final(self).records() == records_with(
                old(self).records(),
                imported_record(content_id, backup, customize->0, game_data),
            ),
            r is Ok ==> !name_is_free(final(self).records(), backup.name@),
    {
        let unlocks = match bitmask_of::<UNLOCK_BITMASK_SIZE>(&backup.unlock_flags) {
            Some(mask) => mask,
            None => {
                return Err(ImportError::InvalidBitmaskLength);
            },
        };
        let aetherytes = match bitmask_of::<AETHERYTE_UNLOCK_BITMASK_SIZE>(
            &backup.unlock_aetherytes,
        ) {
            Some(mask) => mask,
            None => {
                return Err(ImportError::InvalidBitmaskLength);
            },
        };
        let customize = match customize {
            Some(customize) => customize,
            None => {
                return Err(ImportError::InvalidAppearance);
            },
        };
        if !self.check_is_name_free(backup.name.as_str()) {
            return Err(ImportError::NameTaken);
        }
        let chara_make = CharaMake {
            customize,
            voice_id: backup.voice,
            guardian: backup.guardian,
            birth_month: backup.nameday_month,
            birth_day: backup.nameday_day,
            classjob_id: IMPORT_CLASSJOB_ID,
            unk2: 1,
        };
        let city_state: u8 = #[verifier::truncate]
        (backup.city_state as u8);
        let inventory = Inventory::default();
        match self.insert_player_data(
            content_id,
            actor_id,
            service_account_id,
            backup.name.as_str(),
            &chara_make,
            city_state,
            IMPORT_ZONE_ID,
            inventory,
        ) {
            Ok(()) => {},
            Err(_) => {
                return Err(ImportError::DuplicateContentId);
            },
        }
        let ghost created = initial_record(
            content_id,
            backup.name@,
            chara_make,
            city_state,
            IMPORT_ZONE_ID,
            empty_inventory(),
        );
        let ghost identity = CharacterIdentity { content_id, service_account_id, actor_id };
        let ghost place = record_position(old(self).records(), content_id);
        proof {
            lemma_creation_keeps_tables_well_formed(
                old(self).identities(),
                old(self).records(),
                identity,
                created,
            );
        }
        let ghost created_records = self.records();
        let mut player_data = self.find_player_data_by_content_id(content_id);
        import_classjobs(&mut player_data, &backup.classjob_levels, game_data);
        import_inventory(&mut player_data.inventory, backup);
        player_data.unlocks = unlocks;
        player_data.aetherytes = aetherytes;
        self.commit_player_data(&player_data);
        proof {
            let expected = imported_record(content_id, backup, customize, game_data);
            let committed = committed_record(created, player_data@);
            assert(committed.completed_quests =~= expected.completed_quests);
            assert(committed == expected);
            assert(player_data@.content_id == content_id);
            lemma_record_position_divides(old(self).records(), content_id);
            assert(created_records == old(self).records().insert(place, created));
            assert(created_records[place] == created);
            assert(self.records() == created_records.update(place, expected));
            assert(self.records() =~= old(self).records().insert(place, expected));
            lemma_created_name_is_taken(old(self).records(), expected);
        }
        Ok(())
    }

    /// Imports a backup: decodes the appearance from the save blob, draws
    /// the two ids as a creation does, and imports under them. Gives
    /// `(content_id, actor_id)` of the new character.
    ///
    /// A backup whose bitmasks have wrong lengths, whose save blob cannot be
    /// decoded or whose name is taken is refused with that reason, in this
    /// order. The import is all or nothing: a refused import writes no
    /// row. Whatever ids were drawn, the outcome is that of
    /// [`WorldDatabase::import_character_as`] under them.
    pub fn import_character(
        &mut self,
        game_data: &GameData,
        service_account_id: u32,
        backup: &CharacterBackup,
        chardat: &[u8],
    ) -> (r: Result<(u64, u32), ImportError>)
        requires
            old(self).wf(),
        ensures
            final(self).wf(),
            import_refusal(old(self).records(), backup, appearance_of(chardat@)) matches Some(
                refusal,
            ) ==> r == Err::<(u64, u32), ImportError>(refusal),
            r matches Err(e) ==> {
                &&& final(self).identities() == old(self).identities()
                &&& final(self).records() == old(self).records()
                &&& e != ImportError::DuplicateContentId ==> import_refusal(
                    old(self).records(),
                    backup,
                    appearance_of(chardat@),
                ) == Some(e)
                &&& e == ImportError::DuplicateContentId ==> old(self).identities().len()
                    + old(self).records().len() > 0
            },
            r matches Ok((content_id, actor_id)) ==> {
                &&& content_id <= u32::MAX
                &&& import_outcome(
                    old(self).identities(),
                    old(self).records(),
                    content_id,
                    backup,
                    appearance_of(chardat@),
                ) is Ok
                &&& final(self).identities() == identities_with(
                    old(self).identities(),
                    (CharacterIdentity { content_id, service_account_id, actor_id }),
                )
                &&& final(self).records() == records_with(
                    old(self).records(),
                    imported_record(content_id, backup, appearance_of(chardat@)->0, game_data),
                )
                &&& !name_is_free(final(self).records(), backup.name@)
            },
            import_refusal(old(self).records(), backup, appearance_of(chardat@)) is None && old(
                self,
            ).identities().len() == 0 && old(self).records().len() == 0 ==> r is Ok,
    {
        let customize = decode_appearance(chardat);
        let content_id: u64 = random_u32() as u64;
        let actor_id: u32 = random_u32();
        match self.import_character_as(
            content_id,
            actor_id,
            game_data,
            service_account_id,
            backup,
            customize,
        ) {
            Ok(()) => Ok((content_id, actor_id)),
            Err(e) => Err(e),
        }
    }
}

/// Item `j` is the last item of the list that names the slot.
pub open spec fn is_last_item_for_slot(items: Seq<BackupItem>, j: int, slot: int) -> bool {
    &&& 0 <= j < items.len()
    &&& items[j].slot == slot
    &&& forall|k: int| j < k < items.len() ==> (#[trigger] items[k]).slot != slot
}

/// Bounds: an item whose slot is negative, or equal to or greater than the
/// number of slots of the container, is absent from what the import makes:
/// the result is that of the same list without the item.
pub proof fn lemma_out_of_range_item_is_dropped(slots: Seq<Item>, items: Seq<BackupItem>, j: int)
    requires
        0 <= j < items.len(),
        !(0 <= items[j].slot < slots.len()),
    ensures
        imported_slots(slots, items) == imported_slots(slots, items.remove(j)),
    decreases items.len(),
{
    if j == items.len() - 1 {
        assert(items.remove(j) =~= items.drop_last());
    } else {
        lemma_out_of_range_item_is_dropped(slots, items.drop_last(), j);
        assert(items.remove(j).drop_last() =~= items.drop_last().remove(j));
        assert(items.remove(j).last() == items.last());
    }
}

/// Bounds: an import keeps the number of slots of a container; a slot that
/// no item names keeps its item; and a slot that items name holds the last
/// of them.
pub proof fn lemma_imported_slot(slots: Seq<Item>, items: Seq<BackupItem>, slot: int)
    requires
        0 <= slot < slots.len(),
    ensures
        imported_slots(slots, items).len() == slots.len(),
        (forall|j: int| 0 <= j < items.len() ==> (#[trigger] items[j]).slot != slot)
            ==> imported_slots(slots, items)[slot] == slots[slot],
        forall|j: int| #[trigger]
            is_last_item_for_slot(items, j, slot) ==> imported_slots(slots, items)[slot]
                == item_of(items[j]),
    decreases items.len(),
{
    if items.len() > 0 {
        let front = items.drop_last();
        lemma_imported_slot(slots, front, slot);
        if items.last().slot == slot {
            assert forall|j: int| #[trigger]
                is_last_item_for_slot(items, j, slot) implies imported_slots(slots, items)[slot]
                == item_of(items[j]) by {
                if j < items.len() - 1 {
                    assert(items[items.len() - 1].slot != slot);
                }
            }
            assert(items[items.len() - 1].slot == slot);
        } else {
            assert forall|j: int| #[trigger]
                is_last_item_for_slot(items, j, slot) implies imported_slots(slots, items)[slot]
                == item_of(items[j]) by {
                assert(is_last_item_for_slot(front, j, slot)) by {
                    assert forall|k: int| j < k < front.len() implies (#[trigger] front[k]).slot
                        != slot by {
                        assert(front[k] == items[k]);
                    }
                }
            }
            if forall|j: int| 0 <= j < items.len() ==> (#[trigger] items[j]).slot != slot {
                assert forall|j: int| 0 <= j < front.len() implies (#[trigger] front[j]).slot
                    != slot by {
                    assert(front[j] == items[j]);
                }
            }
        }
    }
}

/// Bounds, for a whole import: a backup that lists an item whose slot is
/// negative, or equal to or greater than the maximum slot count of its
/// container, is imported exactly as the same backup without that item. The
/// item refuses nothing, and the record that the import writes is the same.
pub proof fn lemma_import_drops_out_of_range_item(
    identities: Seq<CharacterIdentity>,
    records: Seq<CharacterRecordView>,
    content_id: u64,
    backup: &CharacterBackup,
    without: &CharacterBackup,
    customize: Option<CustomizeData>,
    game_data: &GameData,
    kind: ContainerKind,
    j: int,
)
    requires
        0 <= j < backup.spec_items(kind).len(),
        !(0 <= backup.spec_items(kind)[j].slot < kind.spec_max_slots()),
        without.spec_items(kind) == backup.spec_items(kind).remove(j),
        forall|other: ContainerKind|
            other != kind ==> #[trigger] without.spec_items(other) == backup.spec_items(other),
        without.name@ == backup.name@,
        without.city_state == backup.city_state,
        without.nameday_day == backup.nameday_day,
        without.nameday_month == backup.nameday_month,
        without.guardian == backup.guardian,
        without.voice == backup.voice,
        without.classjob_levels@ == backup.classjob_levels@,
        without.unlock_flags@ == backup.unlock_flags@,
        without.unlock_aetherytes@ == backup.unlock_aetherytes@,
    ensures
        import_outcome(identities, records, content_id, backup, customize) == import_outcome(
            identities,
            records,
            content_id,
            without,
            customize,
        ),
        customize matches Some(appearance) ==> imported_record(
            content_id,
            backup,
            appearance,
            game_data,
        ) == imported_record(content_id, without, appearance, game_data),
{
    let empty = empty_inventory();
    let with_item = imported_inventory(empty, backup.spec_containers());
    let without_item = imported_inventory(empty, without.spec_containers());
    assert forall|k: int| 0 <= k < NUM_CONTAINERS implies with_item[k] == without_item[k] by {
        let container = ContainerKind::spec_from_index(k);
        assert(backup.spec_containers()[k] == backup.spec_items(container));
        assert(without.spec_containers()[k] == without.spec_items(container));
        if container == kind {
            lemma_out_of_range_item_is_dropped(empty[k], backup.spec_items(kind), j);
        }
    }
    assert(with_item =~= without_item);
}

/// Job mapping: a job entry whose id has no slot in the job arrays leaves
/// both arrays as they are.
pub proof fn lemma_unknown_job_changes_nothing(
    levels: Seq<i32>,
    exp: Seq<u32>,
    jobs: Seq<BackupClassJob>,
    job: BackupClassJob,
    game_data: &GameData,
)
    requires
        job_slot(job, game_data) is None,
    ensures
        imported_levels(levels, jobs.push(job), game_data) == imported_levels(
            levels,
            jobs,
            game_data,
        ),
        imported_exp(exp, jobs.push(job), game_data) == imported_exp(exp, jobs, game_data),
{
    assert(jobs.push(job).drop_last() =~= jobs);
}

/// Job mapping: a job entry whose id has a slot sets the level at exactly
/// that slot, and the experience at exactly that slot if the entry has
/// experience; every other slot keeps what the entries before it gave.
pub proof fn lemma_known_job_sets_its_slot(
    levels: Seq<i32>,
    exp: Seq<u32>,
    jobs: Seq<BackupClassJob>,
    job: BackupClassJob,
    game_data: &GameData,
)
    requires
        job_slot(job, game_data) is Some,
    ensures
        0 <= job_slot(job, game_data)->0 < CLASSJOB_ARRAY_SIZE,
        imported_levels(levels, jobs.push(job), game_data) == imported_levels(
            levels,
            jobs,
            game_data,
        ).update(job_slot(job, game_data)->0, job.level),
        imported_exp(exp, jobs.push(job), game_data) == (match job.exp {
            Some(points) => imported_exp(exp, jobs, game_data).update(
                job_slot(job, game_data)->0,
                points,
            ),
            None => imported_exp(exp, jobs, game_data),
        }),
{
    assert(jobs.push(job).drop_last() =~= jobs);
}

} // verus!
