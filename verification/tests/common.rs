use world_server::common::{
    ClassJobInfo, CustomizeData, EquipSlotInfo, GameData, ItemInfo, Position,
};
use world_server::inventory::{
    ContainerKind, Inventory, Item, Storage, SLOT_EARS, SLOT_FEET, SLOT_HANDS, SLOT_HEAD,
    SLOT_LEFT_RING, SLOT_LEGS, SLOT_MAIN_HAND, SLOT_NECK, SLOT_RIGHT_RING, SLOT_WRISTS,
};
use world_server::ipc::{CharacterFlag, GameMasterRank};
use world_server::workdefinitions::RemakeMode;

fn co_game_data() -> GameData {
    GameData {
        classjobs: vec![
            ClassJobInfo { id: 1, exp_array_index: 1 },
            ClassJobInfo { id: 2, exp_array_index: -1 },
            ClassJobInfo { id: 1, exp_array_index: 9 },
        ],
        items: vec![
            ItemInfo { id: 10, name: String::from("Sword"), equip_category: 1, primary_model_id: 7 },
            ItemInfo {
                id: 11,
                name: String::from("Helm"),
                equip_category: 3,
                primary_model_id: 0x1_0000_0005,
            },
            ItemInfo { id: 10, name: String::from("Helm"), equip_category: 9, primary_model_id: 8 },
        ],
        equip_slots: vec![
            EquipSlotInfo { equip_category: 1, slot: 0 },
            EquipSlotInfo { equip_category: 3, slot: 2 },
            EquipSlotInfo { equip_category: 1, slot: 1 },
        ],
    }
}

#[test]
fn lookups_answer_with_the_first_match() {
    let game_data = co_game_data();
    assert_eq!(game_data.get_exp_array_index(1), Some(1));
    assert_eq!(game_data.get_exp_array_index(2), Some(-1));
    assert_eq!(game_data.get_exp_array_index(3), None);
    assert_eq!(game_data.get_item_by_name("Sword"), Some((1, 10)));
    assert_eq!(game_data.get_item_by_name("Helm"), Some((3, 11)));
    assert_eq!(game_data.get_item_by_name("helm"), None);
    assert_eq!(game_data.get_item_by_name(""), None);
    assert_eq!(game_data.get_equipslot_category(1), Some(0));
    assert_eq!(game_data.get_equipslot_category(3), Some(2));
    assert_eq!(game_data.get_equipslot_category(2), None);
    assert_eq!(game_data.get_primary_model_id(10), Some(7));
    assert_eq!(game_data.get_primary_model_id(11), Some(0x1_0000_0005));
    assert_eq!(game_data.get_primary_model_id(12), None);
}

#[test]
fn appearance_is_unpacked_field_by_field() {
    let mut bytes = [0u8; 26];
    for (i, byte) in bytes.iter_mut().enumerate() {
        *byte = (i as u8) * 3 + 1;
    }
    let customize = CustomizeData::from_bytes(&bytes);
    assert_eq!(customize.race, 1);
    assert_eq!(customize.gender, 4);
    assert_eq!(customize.age, 7);
    assert_eq!(customize.height, 10);
    assert_eq!(customize.subrace, 13);
    assert_eq!(customize.face, 16);
    assert_eq!(customize.hair, 19);
    assert_eq!(customize.enable_highlights, 22);
    assert_eq!(customize.skin_tone, 25);
    assert_eq!(customize.right_eye_color, 28);
    assert_eq!(customize.hair_tone, 31);
    assert_eq!(customize.highlights, 34);
    assert_eq!(customize.facial_features, 37);
    assert_eq!(customize.facial_feature_color, 40);
    assert_eq!(customize.eyebrows, 43);
    assert_eq!(customize.left_eye_color, 46);
    assert_eq!(customize.eyes, 49);
    assert_eq!(customize.nose, 52);
    assert_eq!(customize.jaw, 55);
    assert_eq!(customize.mouth, 58);
    assert_eq!(customize.lips_tone_fur_pattern, 61);
    assert_eq!(customize.race_feature_size, 64);
    assert_eq!(customize.race_feature_type, 67);
    assert_eq!(customize.bust, 70);
    assert_eq!(customize.face_paint, 73);
    assert_eq!(customize.face_paint_color, 76);
}

#[test]
fn default_position_is_the_origin() {
    assert_eq!(Position::default(), Position { x: 0, y: 0, z: 0 });
    assert_eq!(0.0f32.to_bits(), Position::default().x);
}

#[test]
fn remake_mode_columns_round_trip() {
    assert_eq!(RemakeMode::NoRemake.to_column(), 0);
    assert_eq!(RemakeMode::EditAppearance.to_column(), 4);
    assert_eq!(RemakeMode::from_column(0), Some(RemakeMode::NoRemake));
    assert_eq!(RemakeMode::from_column(4), Some(RemakeMode::EditAppearance));
    assert_eq!(RemakeMode::from_column(1), None);
    assert_eq!(RemakeMode::from_column(-1), None);
}

#[test]
fn rank_columns_round_trip() {
    let ranks = [
        (GameMasterRank::NormalUser, 0u8),
        (GameMasterRank::GameMaster, 1),
        (GameMasterRank::EventJuniorGM, 3),
        (GameMasterRank::EventSeniorGM, 4),
        (GameMasterRank::Support, 5),
        (GameMasterRank::Senior, 7),
        (GameMasterRank::Debug, 90),
    ];
    for (rank, column) in ranks {
        assert_eq!(rank.to_column(), column);
        assert_eq!(GameMasterRank::from_column(column), Some(rank));
    }
    for column in [2u8, 6, 8, 89, 91, 255] {
        assert_eq!(GameMasterRank::from_column(column), None);
    }
    assert_eq!(CharacterFlag::none(), CharacterFlag { bits: 0 });
}

#[test]
fn container_kinds_have_their_declared_sizes() {
    let sizes = [35u32, 35, 35, 35, 14, 1, 35, 35, 35, 35, 35, 35, 35, 35, 50, 25, 50];
    for (index, size) in sizes.iter().enumerate() {
        let kind = ContainerKind::from_index(index).unwrap();
        assert_eq!(kind.index(), index);
        assert_eq!(kind.max_slots(), *size);
        assert_eq!(Storage::new(kind).max_slots(), *size);
    }
    assert_eq!(ContainerKind::from_index(17), None);
    assert_eq!(ContainerKind::Equipped.index(), 4);
    assert_eq!(ContainerKind::ArmouryMainHand.index(), 16);
}

#[test]
fn storage_slots_are_read_and_written_by_index() {
    let mut storage = Storage::new(ContainerKind::Currency);
    assert_eq!(*storage.get_slot(0), Item::default());
    *storage.get_slot_mut(0) = Item { quantity: 500, id: 1, condition: 0, glamour_catalog_id: 0 };
    assert_eq!(storage.get_slot(0).quantity, 500);
    storage.get_slot_mut(0).quantity = 499;
    assert_eq!(
        *storage.get_slot(0),
        Item { quantity: 499, id: 1, condition: 0, glamour_catalog_id: 0 }
    );
    assert_eq!(storage.clone(), storage);
}

#[test]
fn inventory_starts_empty_and_keeps_what_is_set() {
    let mut inventory = Inventory::default();
    assert!(inventory.is_valid());
    for index in 0..17 {
        let kind = ContainerKind::from_index(index).unwrap();
        assert_eq!(inventory.container(kind).max_slots(), kind.max_slots());
        for slot in 0..kind.max_slots() as u16 {
            assert_eq!(inventory.get_slot(kind, slot), Item::default());
        }
    }
    let item = Item { quantity: 1, id: 42, condition: 100, glamour_catalog_id: 3 };
    inventory.set_slot(ContainerKind::ArmourySoulCrystal, 24, item);
    assert!(inventory.is_valid());
    assert_eq!(inventory.get_slot(ContainerKind::ArmourySoulCrystal, 24), item);
    assert_eq!(*inventory.container(ContainerKind::ArmourySoulCrystal).get_slot(24), item);
    assert_eq!(inventory.get_slot(ContainerKind::ArmourySoulCrystal, 23), Item::default());
    assert_eq!(inventory.get_slot(ContainerKind::ArmouryRings, 24), Item::default());
    let copy = inventory.clone();
    assert_eq!(copy, inventory);
    assert_ne!(copy, Inventory::default());
}

#[test]
fn equipped_items_are_shown_by_their_models() {
    let game_data = co_game_data();
    let mut inventory = Inventory::default();
    assert_eq!(inventory.get_main_weapon_id(&game_data), 0);
    assert_eq!(inventory.get_model_ids(&game_data), [0u32; 10]);
    let worn = |id: u32| Item { quantity: 1, id, condition: 0, glamour_catalog_id: 0 };
    inventory.set_slot(ContainerKind::Equipped, SLOT_MAIN_HAND, worn(11));
    inventory.set_slot(ContainerKind::Equipped, SLOT_HEAD, worn(11));
    inventory.set_slot(ContainerKind::Equipped, SLOT_HANDS, worn(10));
    inventory.set_slot(ContainerKind::Equipped, SLOT_LEGS, worn(99));
    inventory.set_slot(ContainerKind::Equipped, SLOT_FEET, worn(10));
    inventory.set_slot(ContainerKind::Equipped, SLOT_EARS, worn(10));
    inventory.set_slot(ContainerKind::Equipped, SLOT_NECK, worn(10));
    inventory.set_slot(ContainerKind::Equipped, SLOT_WRISTS, worn(10));
    inventory.set_slot(ContainerKind::Equipped, SLOT_LEFT_RING, worn(11));
    inventory.set_slot(ContainerKind::Equipped, SLOT_RIGHT_RING, worn(10));
    assert_eq!(inventory.get_main_weapon_id(&game_data), 0x1_0000_0005);
    assert_eq!(inventory.get_model_ids(&game_data), [5, 0, 7, 0, 7, 7, 7, 7, 5, 7]);
}
