use world_server::common::{EquipSlotInfo, GameData, ItemInfo};
use world_server::inventory::{ContainerKind, Inventory, Item, SLOT_BODY, SLOT_MAIN_HAND};
use world_server::ipc::{ActorControlCategory, ActorControlSelf, GameMasterRank};
use world_server::world::chat_handler::{ChatAction, ChatHandler};
use world_server::world::PlayerData;

fn chat_game_data() -> GameData {
    GameData {
        classjobs: vec![],
        items: vec![
            ItemInfo {
                id: 1601,
                name: String::from("Weathered Shortsword"),
                equip_category: 1,
                primary_model_id: 1,
            },
            ItemInfo {
                id: 2653,
                name: String::from("Hempen Tunic"),
                equip_category: 4,
                primary_model_id: 2,
            },
            ItemInfo {
                id: 9000,
                name: String::from("Ghost Ring"),
                equip_category: 12,
                primary_model_id: 3,
            },
            ItemInfo {
                id: 9001,
                name: String::from("Loose Stone"),
                equip_category: 99,
                primary_model_id: 4,
            },
        ],
        equip_slots: vec![
            EquipSlotInfo { equip_category: 1, slot: 0 },
            EquipSlotInfo { equip_category: 4, slot: 3 },
            EquipSlotInfo { equip_category: 12, slot: 14 },
        ],
    }
}

fn chat_master() -> PlayerData {
    let mut data = PlayerData::default();
    data.actor_id = 0xabc;
    data.gm_rank = GameMasterRank::Debug;
    data
}

fn chat_handle(message: &str) -> ChatAction {
    let mut data = chat_master();
    let action = ChatHandler::handle_chat_message(&mut data, &chat_game_data(), message);
    assert_eq!(data, chat_master());
    action
}

fn chat_festival(festival1: u32, festival2: u32, festival3: u32, festival4: u32) -> ChatAction {
    ChatAction::ActorControlSelf(ActorControlSelf {
        category: ActorControlCategory::SetFestival { festival1, festival2, festival3, festival4 },
    })
}

#[test]
fn normal_user_is_rejected() {
    let mut data = PlayerData::default();
    data.gm_rank = GameMasterRank::NormalUser;
    for message in ["!spawnnpc", "!equip Hempen Tunic", "!unlockaction", "hello", ""] {
        let action = ChatHandler::handle_chat_message(&mut data, &chat_game_data(), message);
        assert_eq!(action, ChatAction::Rejected);
        assert_eq!(data.inventory, Inventory::default());
    }
}

#[test]
fn spawn_commands_name_the_actor() {
    assert_eq!(chat_handle("!spawnnpc"), ChatAction::SpawnNpc { actor_id: 0xabc });
    assert_eq!(chat_handle("!spawnmonster"), ChatAction::SpawnMonster { actor_id: 0xabc });
    assert_eq!(chat_handle("!spawnclone"), ChatAction::SpawnClone { actor_id: 0xabc });
    assert_eq!(chat_handle("!spawnnpc here now"), ChatAction::SpawnNpc { actor_id: 0xabc });
}

#[test]
fn other_text_is_ignored() {
    assert_eq!(chat_handle(""), ChatAction::Ignored);
    assert_eq!(chat_handle("hello there"), ChatAction::Ignored);
    assert_eq!(chat_handle(" !spawnnpc"), ChatAction::Ignored);
    assert_eq!(chat_handle("!spawnnpcs"), ChatAction::Ignored);
    assert_eq!(chat_handle("!SPAWNNPC"), ChatAction::Ignored);
    assert_eq!(chat_handle("!spawn"), ChatAction::Ignored);
}

#[test]
fn unlockaction_takes_a_number() {
    let unlocked = |id: u32| {
        ChatAction::ActorControlSelf(ActorControlSelf {
            category: ActorControlCategory::ToggleActionUnlock { id, unlocked: true },
        })
    };
    assert_eq!(chat_handle("!unlockaction 7"), unlocked(7));
    assert_eq!(chat_handle("!unlockaction 0"), unlocked(0));
    assert_eq!(chat_handle("!unlockaction +12"), unlocked(12));
    assert_eq!(chat_handle("!unlockaction 007"), unlocked(7));
    assert_eq!(chat_handle("!unlockaction 4294967295"), unlocked(4294967295));
    assert_eq!(chat_handle("!unlockaction 7 8"), unlocked(7));
}

#[test]
fn unlockaction_without_a_number_is_malformed() {
    assert_eq!(chat_handle("!unlockaction"), ChatAction::Malformed);
    assert_eq!(chat_handle("!unlockaction "), ChatAction::Malformed);
    assert_eq!(chat_handle("!unlockaction  7"), ChatAction::Malformed);
    assert_eq!(chat_handle("!unlockaction seven"), ChatAction::Malformed);
    assert_eq!(chat_handle("!unlockaction -1"), ChatAction::Malformed);
    assert_eq!(chat_handle("!unlockaction +"), ChatAction::Malformed);
    assert_eq!(chat_handle("!unlockaction 7a"), ChatAction::Malformed);
    assert_eq!(chat_handle("!unlockaction 1_000"), ChatAction::Malformed);
    assert_eq!(chat_handle("!unlockaction 4294967296"), ChatAction::Malformed);
    assert_eq!(chat_handle("!unlockaction 99999999999999999999999"), ChatAction::Malformed);
}

#[test]
fn parsed_numbers_agree_with_the_standard_parser() {
    for text in ["0", "1", "+1", "-1", "", "+", "++1", "+-1", "12a", "a12", "0x10", "1.0",
        "4294967295", "4294967296", "42949672950", "00000000000000000001", "٣"]
    {
        let message = format!("!unlockaction {}", text);
        let expected = match text.parse::<u32>() {
            Ok(id) => ChatAction::ActorControlSelf(ActorControlSelf {
                category: ActorControlCategory::ToggleActionUnlock { id, unlocked: true },
            }),
            _ => ChatAction::Malformed,
        };
        assert_eq!(chat_handle(&message), expected);
    }
}

#[test]
fn festival_takes_up_to_four_numbers() {
    assert_eq!(chat_handle("!festival"), chat_festival(0, 0, 0, 0));
    assert_eq!(chat_handle("!festival 5"), chat_festival(5, 0, 0, 0));
    assert_eq!(chat_handle("!festival 1 2"), chat_festival(1, 2, 0, 0));
    assert_eq!(chat_handle("!festival 1 2 3 4"), chat_festival(1, 2, 3, 4));
    assert_eq!(chat_handle("!festival 1 2 3 4 x"), chat_festival(1, 2, 3, 4));
}

#[test]
fn festival_with_a_bad_number_is_malformed() {
    assert_eq!(chat_handle("!festival x"), ChatAction::Malformed);
    assert_eq!(chat_handle("!festival 1 2 3 x"), ChatAction::Malformed);
    assert_eq!(chat_handle("!festival  5"), ChatAction::Malformed);
    assert_eq!(chat_handle("!festival 5 "), ChatAction::Malformed);
    assert_eq!(chat_handle("!festival "), ChatAction::Malformed);
}

#[test]
fn equip_puts_one_piece_into_its_slot() {
    let mut data = chat_master();
    data.inventory.set_slot(
        ContainerKind::Equipped,
        SLOT_BODY,
        Item { quantity: 5, id: 1, condition: 77, glamour_catalog_id: 8 },
    );
    let action =
        ChatHandler::handle_chat_message(&mut data, &chat_game_data(), "!equip Hempen Tunic");
    assert_eq!(action, ChatAction::SendInventory);
    let mut expected = chat_master();
    expected.inventory.set_slot(
        ContainerKind::Equipped,
        SLOT_BODY,
        Item { quantity: 1, id: 2653, condition: 77, glamour_catalog_id: 8 },
    );
    assert_eq!(data, expected);
    let action = ChatHandler::handle_chat_message(
        &mut data,
        &chat_game_data(),
        "!equip Weathered Shortsword",
    );
    assert_eq!(action, ChatAction::SendInventory);
    expected.inventory.set_slot(
        ContainerKind::Equipped,
        SLOT_MAIN_HAND,
        Item { quantity: 1, id: 1601, condition: 0, glamour_catalog_id: 0 },
    );
    assert_eq!(data, expected);
}

#[test]
fn equip_of_an_unknown_item_sends_the_inventory_unchanged() {
    assert_eq!(chat_handle("!equip Nothing"), ChatAction::SendInventory);
    assert_eq!(chat_handle("!equip "), ChatAction::SendInventory);
    assert_eq!(chat_handle("!equip hempen tunic"), ChatAction::SendInventory);
    assert_eq!(chat_handle("!equip  Hempen Tunic"), ChatAction::SendInventory);
}

#[test]
fn equip_without_a_slot_is_malformed() {
    assert_eq!(chat_handle("!equip"), ChatAction::Malformed);
    assert_eq!(chat_handle("!equip Ghost Ring"), ChatAction::Malformed);
    assert_eq!(chat_handle("!equip Loose Stone"), ChatAction::Malformed);
}
