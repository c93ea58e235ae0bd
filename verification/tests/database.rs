use world_server::common::{
    ClassJobInfo, CustomizeData, EquipSlotInfo, GameData, ItemInfo, Position,
};
use world_server::inventory::{ContainerKind, Inventory, Item, SLOT_BODY, SLOT_MAIN_HAND};
use world_server::ipc::{CharacterFlag, GameMasterRank};
use world_server::workdefinitions::{CharaMake, RemakeMode};
use world_server::world::database::{
    CharacterIdentity, CharacterRecord, StoreError, WorldDatabase,
};

fn db_customize() -> CustomizeData {
    CustomizeData {
        race: 1,
        gender: 0,
        age: 1,
        height: 50,
        subrace: 1,
        face: 2,
        hair: 3,
        enable_highlights: 0,
        skin_tone: 4,
        right_eye_color: 5,
        hair_tone: 6,
        highlights: 7,
        facial_features: 8,
        facial_feature_color: 9,
        eyebrows: 10,
        left_eye_color: 11,
        eyes: 12,
        nose: 13,
        jaw: 14,
        mouth: 15,
        lips_tone_fur_pattern: 16,
        race_feature_size: 17,
        race_feature_type: 18,
        bust: 19,
        face_paint: 20,
        face_paint_color: 21,
    }
}

fn db_chara_make(classjob_id: i32) -> CharaMake {
    CharaMake {
        customize: db_customize(),
        voice_id: 3,
        guardian: 4,
        birth_month: 5,
        birth_day: 6,
        classjob_id,
        unk2: 1,
    }
}

fn db_game_data() -> GameData {
    GameData {
        classjobs: vec![ClassJobInfo { id: 1, exp_array_index: 0 }],
        items: vec![
            ItemInfo {
                id: 1601,
                name: String::from("Weathered Shortsword"),
                equip_category: 1,
                primary_model_id: 0x0001_0000_0000_0201,
            },
            ItemInfo {
                id: 2653,
                name: String::from("Hempen Tunic"),
                equip_category: 4,
                primary_model_id: 0x57,
            },
        ],
        equip_slots: vec![
            EquipSlotInfo { equip_category: 1, slot: 0 },
            EquipSlotInfo { equip_category: 4, slot: 3 },
        ],
    }
}

#[test]
fn default_store_is_empty() {
    let db = WorldDatabase::default();
    assert!(db.check_is_name_free("Alice"));
    assert!(db.get_character_list(1, 7, "World", &db_game_data()).is_empty());
}

#[test]
fn new_store_is_empty() {
    let db = WorldDatabase::new();
    assert!(db.check_is_name_free("Alice"));
    assert!(!db.player_exists(1));
    assert!(!db.record_exists(1));
    assert!(!db.identity_exists(1));
    assert!(db.get_character_list(1, 7, "World", &db_game_data()).is_empty());
}

#[test]
fn created_character_reads_back() {
    let mut db = WorldDatabase::new();
    let (content_id, actor_id) = db
        .create_player_data(9, "Testaria", &db_chara_make(0), 2, 132, Inventory::default())
        .unwrap();
    assert!(content_id <= u32::MAX as u64);
    let made = db.find_chara_make(content_id);
    assert_eq!(made.name, "Testaria");
    assert_eq!(made.city_state, 2);
    assert_eq!(made.zone_id, 132);
    assert_eq!(made.position, Position { x: 0, y: 0, z: 0 });
    assert_eq!(made.chara_make, db_chara_make(0));
    assert_eq!(db.find_actor_id(content_id), actor_id);
    assert!(db.player_exists(actor_id));
}

#[test]
fn inserted_character_has_the_initial_record() {
    let mut db = WorldDatabase::new();
    let inserted =
        db.insert_player_data(77, 5, 9, "Alice", &db_chara_make(3), 1, 130, Inventory::default());
    assert_eq!(inserted, Ok(()));
    let data = db.find_player_data(5);
    assert_eq!(data.actor_id, 5);
    assert_eq!(data.content_id, 77);
    assert_eq!(data.account_id, 9);
    assert_eq!(data.classjob_id, 3);
    let mut levels = [0i32; 32];
    levels[3] = 1;
    assert_eq!(data.classjob_levels, levels);
    assert_eq!(data.classjob_exp, [0u32; 32]);
    assert_eq!(data.position, Position { x: 0, y: 0, z: 0 });
    assert_eq!(data.rotation, 0);
    assert_eq!(data.zone_id, 130);
    assert_eq!(data.inventory, Inventory::default());
    assert_eq!(data.gm_rank, GameMasterRank::Debug);
    assert_eq!(data.unlocks, [0u8; 64]);
    assert_eq!(data.aetherytes, [0u8; 29]);
    assert_eq!(data.completed_quests, [0u8; 691]);
}

#[test]
fn insert_refuses_a_job_without_a_slot() {
    let mut db = WorldDatabase::new();
    let high = db.insert_player_data(1, 1, 1, "A", &db_chara_make(32), 1, 1, Inventory::default());
    assert_eq!(high, Err(StoreError::InvalidClassJob));
    let negative =
        db.insert_player_data(1, 1, 1, "A", &db_chara_make(-1), 1, 1, Inventory::default());
    assert_eq!(negative, Err(StoreError::InvalidClassJob));
    assert!(db.check_is_name_free("A"));
    assert!(!db.identity_exists(1));
    let last = db.insert_player_data(1, 1, 1, "A", &db_chara_make(31), 1, 1, Inventory::default());
    assert_eq!(last, Ok(()));
    assert_eq!(db.find_player_data(1).classjob_levels[31], 1);
}

#[test]
fn insert_refuses_a_content_id_in_use() {
    let mut db = WorldDatabase::new();
    db.insert_player_data(1, 10, 1, "A", &db_chara_make(0), 1, 1, Inventory::default()).unwrap();
    let again = db.insert_player_data(1, 11, 2, "B", &db_chara_make(0), 1, 1, Inventory::default());
    assert_eq!(again, Err(StoreError::DuplicateContentId));
    assert!(db.check_is_name_free("B"));
    assert!(!db.player_exists(11));
    assert_eq!(db.find_actor_id(1), 10);
}

#[test]
fn commit_then_find_round_trips() {
    let mut db = WorldDatabase::new();
    db.insert_player_data(1, 10, 1, "A", &db_chara_make(0), 1, 1, Inventory::default()).unwrap();
    db.insert_player_data(2, 20, 1, "B", &db_chara_make(1), 1, 1, Inventory::default()).unwrap();
    let mut data = db.find_player_data(20);
    data.zone_id = 181;
    data.position = Position { x: 0x3f80_0000, y: 0x4000_0000, z: 0xbf80_0000 };
    data.rotation = 0x4049_0fdb;
    data.gm_rank = GameMasterRank::Support;
    data.classjob_id = 7;
    data.classjob_levels[7] = 42;
    data.classjob_exp[7] = 123_456;
    data.unlocks[63] = 0x80;
    data.aetherytes[0] = 0x01;
    data.completed_quests[690] = 0xff;
    data.inventory.set_slot(
        ContainerKind::Inventory2,
        34,
        Item { quantity: 3, id: 4551, condition: 30000, glamour_catalog_id: 0 },
    );
    data.inventory.set_slot(
        ContainerKind::Equipped,
        SLOT_MAIN_HAND,
        Item { quantity: 1, id: 1601, condition: 30000, glamour_catalog_id: 9 },
    );
    db.commit_player_data(&data);
    assert_eq!(db.find_player_data(20), data);
    let other = db.find_player_data(10);
    assert_eq!(other.zone_id, 1);
    assert_eq!(other.inventory, Inventory::default());
}

#[test]
fn commit_writes_the_rank_and_keeps_name_descriptor_and_city() {
    let mut db = WorldDatabase::new();
    db.insert_player_data(1, 10, 1, "A", &db_chara_make(0), 4, 1, Inventory::default()).unwrap();
    let mut data = db.find_player_data(10);
    data.gm_rank = GameMasterRank::NormalUser;
    data.zone_id = 2;
    db.commit_player_data(&data);
    let loaded = db.find_player_data(10);
    assert_eq!(loaded.zone_id, 2);
    assert_eq!(loaded.gm_rank, GameMasterRank::NormalUser);
    assert_eq!(loaded, data);
    assert_eq!(db.find_record(1).gm_rank, GameMasterRank::NormalUser);
    let made = db.find_chara_make(1);
    assert_eq!(made.name, "A");
    assert_eq!(made.city_state, 4);
    assert_eq!(made.zone_id, 2);
    assert_eq!(made.chara_make, db_chara_make(0));
}

#[test]
fn commit_without_a_record_changes_nothing() {
    let mut db = WorldDatabase::new();
    db.insert_player_data(1, 10, 1, "A", &db_chara_make(0), 4, 1, Inventory::default()).unwrap();
    let mut data = db.find_player_data(10);
    data.content_id = 99;
    data.zone_id = 500;
    db.commit_player_data(&data);
    assert_eq!(db.find_player_data(10).zone_id, 1);
    assert!(!db.record_exists(99));
}

#[test]
fn created_name_is_taken() {
    let mut db = WorldDatabase::new();
    assert!(db.check_is_name_free("Alice"));
    db.create_player_data(1, "Alice", &db_chara_make(0), 1, 1, Inventory::default()).unwrap();
    assert!(!db.check_is_name_free("Alice"));
    assert!(db.check_is_name_free("alice"));
    assert!(db.check_is_name_free("Alic"));
    assert!(db.check_is_name_free(""));
}

#[test]
fn deleted_character_is_gone() {
    let mut db = WorldDatabase::new();
    db.insert_player_data(1, 10, 1, "A", &db_chara_make(0), 1, 1, Inventory::default()).unwrap();
    db.insert_player_data(2, 20, 1, "B", &db_chara_make(0), 1, 2, Inventory::default()).unwrap();
    db.insert_player_data(3, 30, 1, "C", &db_chara_make(0), 1, 3, Inventory::default()).unwrap();
    db.delete_character(2);
    assert!(!db.record_exists(2));
    assert!(!db.identity_exists(2));
    assert!(!db.player_exists(20));
    assert!(db.check_is_name_free("B"));
    assert!(db.player_exists(10));
    assert!(db.player_exists(30));
    assert_eq!(db.find_chara_make(1).name, "A");
    assert_eq!(db.find_chara_make(3).name, "C");
    assert_eq!(db.find_player_data(30).zone_id, 3);
    let list = db.get_character_list(1, 7, "World", &db_game_data());
    assert_eq!(list.len(), 2);
    assert_eq!(list[0].content_id, 1);
    assert_eq!(list[1].content_id, 3);
    assert_eq!(list[1].index, 1);
    db.delete_character(2);
    assert_eq!(db.get_character_list(1, 7, "World", &db_game_data()).len(), 2);
}

#[test]
fn lookup_by_actor_id_finds_the_smallest_content_id() {
    let mut db = WorldDatabase::new();
    db.insert_player_data(1, 10, 1, "A", &db_chara_make(0), 1, 1, Inventory::default()).unwrap();
    db.insert_player_data(2, 10, 2, "B", &db_chara_make(0), 1, 2, Inventory::default()).unwrap();
    assert_eq!(db.find_player_data(10).content_id, 1);
    db.delete_character(1);
    assert!(db.player_exists(10));
    assert_eq!(db.find_player_data(10).content_id, 2);
}

#[test]
fn remake_mode_and_descriptor_are_set() {
    let mut db = WorldDatabase::new();
    db.insert_player_data(1, 10, 1, "A", &db_chara_make(0), 1, 1, Inventory::default()).unwrap();
    db.set_remake_mode(1, RemakeMode::EditAppearance);
    db.set_chara_make(1, db_chara_make(6));
    db.set_remake_mode(5, RemakeMode::EditAppearance);
    db.set_chara_make(5, db_chara_make(6));
    assert_eq!(db.find_chara_make(1).chara_make, db_chara_make(6));
    let list = db.get_character_list(1, 7, "World", &db_game_data());
    assert_eq!(list.len(), 1);
    assert_eq!(list[0].character_detail.remake_mode, RemakeMode::EditAppearance);
    assert!(!db.record_exists(5));
}

#[test]
fn character_list_shows_the_characters_of_an_account() {
    let mut db = WorldDatabase::new();
    let mut inventory = Inventory::default();
    inventory.set_slot(
        ContainerKind::Equipped,
        SLOT_MAIN_HAND,
        Item { quantity: 1, id: 1601, condition: 0, glamour_catalog_id: 0 },
    );
    inventory.set_slot(
        ContainerKind::Equipped,
        SLOT_BODY,
        Item { quantity: 1, id: 2653, condition: 0, glamour_catalog_id: 0 },
    );
    db.insert_player_data(1, 10, 5, "A", &db_chara_make(2), 1, 130, inventory).unwrap();
    db.insert_player_data(2, 20, 6, "B", &db_chara_make(0), 1, 131, Inventory::default()).unwrap();
    assert!(db.restore_identity(CharacterIdentity {
        content_id: 3,
        service_account_id: 5,
        actor_id: 30,
    }));
    db.insert_player_data(4, 40, 5, "D", &db_chara_make(0), 1, 133, Inventory::default()).unwrap();
    let list = db.get_character_list(5, 21, "Gilgamesh", &db_game_data());
    assert_eq!(list.len(), 2);
    let first = &list[0];
    assert_eq!(first.actor_id, 10);
    assert_eq!(first.content_id, 1);
    assert_eq!(first.index, 0);
    assert_eq!(first.flags, CharacterFlag { bits: 0 });
    assert_eq!(first.unk1, [255u8; 6]);
    assert_eq!(first.origin_server_id, 21);
    assert_eq!(first.current_server_id, 21);
    assert_eq!(first.character_name, "A");
    assert_eq!(first.origin_server_name, "Gilgamesh");
    assert_eq!(first.current_server_name, "Gilgamesh");
    assert_eq!(first.unk2, [255u8; 16]);
    assert_eq!(first.unk3, [4u8; 5]);
    let detail = &first.character_detail;
    assert_eq!(detail.character_name, "A");
    assert_eq!(detail.current_class, 2);
    let mut levels = [0i32; 32];
    levels[2] = 1;
    assert_eq!(detail.class_levels, levels);
    assert_eq!(detail.race, 1);
    assert_eq!(detail.subrace, 1);
    assert_eq!(detail.gender, 0);
    assert_eq!(detail.birth_month, 5);
    assert_eq!(detail.birth_day, 6);
    assert_eq!(detail.guardian, 4);
    assert_eq!(detail.zone_id, 130);
    assert_eq!(detail.customize, db_customize());
    assert_eq!(detail.model_main_weapon, 0x0001_0000_0000_0201);
    assert_eq!(detail.model_sub_weapon, 0);
    assert_eq!(detail.model_ids, [0, 0x57, 0, 0, 0, 0, 0, 0, 0, 0]);
    assert_eq!(detail.equip_stain, [0u32; 10]);
    assert_eq!(detail.glasses, [0u32; 2]);
    assert_eq!(detail.remake_mode, RemakeMode::NoRemake);
    assert_eq!(detail.remake_minutes_remaining, 0);
    assert_eq!(detail.voice_id, 3);
    assert_eq!(detail.world_name, "");
    let second = &list[1];
    assert_eq!(second.content_id, 4);
    assert_eq!(second.index, 2);
    assert_eq!(second.character_name, "D");
    let other = db.get_character_list(6, 21, "Gilgamesh", &db_game_data());
    assert_eq!(other.len(), 1);
    assert_eq!(other[0].content_id, 2);
    assert_eq!(other[0].index, 0);
    assert!(db.get_character_list(7, 21, "Gilgamesh", &db_game_data()).is_empty());
}

#[test]
fn restored_rows_are_found() {
    let mut db = WorldDatabase::new();
    let identity = CharacterIdentity { content_id: 8, service_account_id: 2, actor_id: 80 };
    assert!(db.restore_identity(identity));
    assert!(!db.restore_identity(identity));
    assert!(db.identity_exists(8));
    assert!(!db.player_exists(80));
    let mut unlocks = [0u8; 64];
    unlocks[1] = 2;
    let record = CharacterRecord {
        content_id: 8,
        name: String::from("Restored"),
        chara_make: db_chara_make(1),
        city_state: 3,
        zone_id: 140,
        position: Position { x: 1, y: 2, z: 3 },
        rotation: 4,
        inventory: Inventory::default(),
        remake_mode: RemakeMode::EditAppearance,
        gm_rank: GameMasterRank::Senior,
        classjob_id: 1,
        classjob_levels: [2; 32],
        classjob_exp: [3; 32],
        unlocks,
        aetherytes: [4; 29],
        completed_quests: [5; 691],
    };
    assert!(db.restore_record(record.clone()));
    assert!(!db.restore_record(record));
    let data = db.find_player_data(80);
    assert_eq!(data.content_id, 8);
    assert_eq!(data.account_id, 2);
    assert_eq!(data.gm_rank, GameMasterRank::Senior);
    assert_eq!(data.position, Position { x: 1, y: 2, z: 3 });
    assert_eq!(data.rotation, 4);
    assert_eq!(data.classjob_levels, [2; 32]);
    assert_eq!(data.classjob_exp, [3; 32]);
    assert_eq!(data.unlocks, unlocks);
    assert_eq!(data.aetherytes, [4; 29]);
    assert_eq!(data.completed_quests, [5; 691]);
    assert!(!db.check_is_name_free("Restored"));
}

#[test]
fn two_creations_in_a_row_keep_both_characters() {
    let mut db = WorldDatabase::new();
    let first = db.create_player_data(1, "A", &db_chara_make(0), 1, 1, Inventory::default());
    let second = db.create_player_data(1, "B", &db_chara_make(0), 1, 1, Inventory::default());
    let (first_id, _) = first.unwrap();
    match second {
        Ok((second_id, _)) => {
            assert_ne!(first_id, second_id);
            assert_eq!(db.find_chara_make(second_id).name, "B");
        },
        Err(e) => {
            assert_eq!(e, StoreError::DuplicateContentId);
            assert!(db.check_is_name_free("B"));
        },
    }
    assert_eq!(db.find_chara_make(first_id).name, "A");
}

#[test]
fn list_position_wraps_at_256() {
    let mut db = WorldDatabase::new();
    for n in 0..258u32 {
        let name = format!("Character {}", n);
        db.insert_player_data(n as u64, n, 1, &name, &db_chara_make(0), 1, 1, Inventory::default())
            .unwrap();
    }
    db.delete_character(3);
    let list = db.get_character_list(1, 7, "World", &db_game_data());
    assert_eq!(list.len(), 257);
    assert_eq!(list[2].index, 2);
    assert_eq!(list[3].content_id, 4);
    assert_eq!(list[3].index, 3);
    assert_eq!(list[255].index, 255);
    assert_eq!(list[256].content_id, 257);
    assert_eq!(list[256].index, 0);
}

#[test]
fn record_is_copied_out_as_it_is_held() {
    let mut db = WorldDatabase::new();
    db.insert_player_data(1, 10, 1, "A", &db_chara_make(2), 3, 130, Inventory::default()).unwrap();
    db.set_remake_mode(1, RemakeMode::EditAppearance);
    let record = db.find_record(1);
    assert_eq!(record.content_id, 1);
    assert_eq!(record.name, "A");
    assert_eq!(record.chara_make, db_chara_make(2));
    assert_eq!(record.city_state, 3);
    assert_eq!(record.zone_id, 130);
    assert_eq!(record.remake_mode, RemakeMode::EditAppearance);
    assert_eq!(record.gm_rank, GameMasterRank::Debug);
    assert_eq!(record.classjob_id, 2);
    assert_eq!(record.classjob_levels[2], 1);
    assert_eq!(record.inventory, Inventory::default());
}

#[test]
fn rows_stand_in_ascending_order_of_content_id() {
    let mut db = WorldDatabase::new();
    db.insert_player_data(30, 7, 1, "C", &db_chara_make(0), 1, 3, Inventory::default()).unwrap();
    db.insert_player_data(10, 7, 1, "A", &db_chara_make(0), 1, 1, Inventory::default()).unwrap();
    db.insert_player_data(20, 8, 1, "B", &db_chara_make(0), 1, 2, Inventory::default()).unwrap();
    let list = db.get_character_list(1, 7, "World", &db_game_data());
    let ids: Vec<u64> = list.iter().map(|entry| entry.content_id).collect();
    assert_eq!(ids, vec![10, 20, 30]);
    let positions: Vec<u8> = list.iter().map(|entry| entry.index).collect();
    assert_eq!(positions, vec![0, 1, 2]);
    assert_eq!(db.find_player_data(7).content_id, 10);
    assert_eq!(db.find_player_data(7).zone_id, 1);
    assert!(db.restore_identity(CharacterIdentity {
        content_id: 5,
        service_account_id: 1,
        actor_id: 8,
    }));
    assert!(!db.player_exists(8));
    let list = db.get_character_list(1, 7, "World", &db_game_data());
    let ids: Vec<u64> = list.iter().map(|entry| entry.content_id).collect();
    assert_eq!(ids, vec![10, 20, 30]);
    let positions: Vec<u8> = list.iter().map(|entry| entry.index).collect();
    assert_eq!(positions, vec![1, 2, 3]);
    assert_eq!(db.find_chara_make(20).name, "B");
    assert_eq!(db.find_actor_id(30), 7);
}

#[test]
fn reloaded_store_answers_as_before() {
    let mut db = WorldDatabase::new();
    db.insert_player_data(30, 7, 1, "C", &db_chara_make(0), 1, 3, Inventory::default()).unwrap();
    db.insert_player_data(10, 7, 1, "A", &db_chara_make(1), 1, 1, Inventory::default()).unwrap();
    db.insert_player_data(20, 8, 2, "B", &db_chara_make(2), 1, 2, Inventory::default()).unwrap();
    let mut reloaded = WorldDatabase::new();
    for content_id in [20u64, 30, 10] {
        let actor_id = db.find_actor_id(content_id);
        let service_account_id = if content_id == 20 { 2 } else { 1 };
        assert!(reloaded.restore_identity(CharacterIdentity {
            content_id,
            service_account_id,
            actor_id,
        }));
    }
    for content_id in [10u64, 30, 20] {
        assert!(reloaded.restore_record(db.find_record(content_id)));
    }
    assert_eq!(reloaded.find_player_data(7), db.find_player_data(7));
    assert_eq!(reloaded.find_player_data(8), db.find_player_data(8));
    assert_eq!(
        reloaded.get_character_list(1, 7, "World", &db_game_data()),
        db.get_character_list(1, 7, "World", &db_game_data())
    );
    assert_eq!(
        reloaded.get_character_list(2, 7, "World", &db_game_data()),
        db.get_character_list(2, 7, "World", &db_game_data())
    );
}
