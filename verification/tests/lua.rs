use world_server::common::{
    timestamp_from_seconds, timestamp_secs, ObjectId, ObjectTypeId, Position,
};
use world_server::ipc::{
    ActionEffect, ActorControlCategory, ActorControlSelf, DamageElement, DamageKind, DamageType,
    EffectKind, EventScene, PacketSegment, SegmentData, SegmentType, ServerZoneIpcData,
    ServerZoneIpcSegment, ServerZoneIpcType, Warp,
};
use world_server::workdefinitions::RemakeMode;
use world_server::world::lua::{EffectsBuilder, LuaPlayer, StatusEffect, Task};
use world_server::world::PlayerData;

fn lua_player(actor_id: u32) -> LuaPlayer {
    let mut player = LuaPlayer::default();
    player.player_data.actor_id = actor_id;
    player
}

fn lua_ipc(segment: &PacketSegment) -> &ServerZoneIpcSegment {
    match &segment.data {
        SegmentData::Ipc { data } => data,
    }
}

#[test]
fn default_player_has_nothing_queued() {
    let player = LuaPlayer::default();
    assert_eq!(player.player_data, PlayerData::default());
    assert!(player.queued_segments.is_empty());
    assert!(player.queued_tasks.is_empty());
    assert!(player.status_effects.status_effects.is_empty());
    assert!(!player.status_effects.dirty);
}

#[test]
fn tasks_are_queued_in_order() {
    let mut player = lua_player(1);
    player.change_territory(132);
    player.set_remake_mode(RemakeMode::EditAppearance);
    player.warp(77);
    player.begin_log_out();
    player.finish_event(0x1000);
    player.set_classjob(19);
    player.warp_aetheryte(8);
    assert_eq!(
        player.queued_tasks,
        vec![
            Task::ChangeTerritory { zone_id: 132 },
            Task::SetRemakeMode(RemakeMode::EditAppearance),
            Task::Warp { warp_id: 77 },
            Task::BeginLogOut,
            Task::FinishEvent { handler_id: 0x1000 },
            Task::SetClassJob { classjob_id: 19 },
            Task::WarpAetheryte { aetheryte_id: 8 },
        ]
    );
    assert!(player.queued_segments.is_empty());
}

#[test]
fn message_is_queued_for_the_player_itself() {
    let mut player = lua_player(0x1234);
    player.send_message("Hello, world");
    assert_eq!(player.queued_segments.len(), 1);
    let segment = &player.queued_segments[0];
    assert_eq!(segment.source_actor, 0x1234);
    assert_eq!(segment.target_actor, 0x1234);
    assert_eq!(segment.segment_type, SegmentType::Ipc);
    let ipc = lua_ipc(segment);
    assert_eq!(ipc.op_code, ServerZoneIpcType::ServerChatMessage);
    assert_eq!(ipc.server_id, 0);
    assert_eq!(
        ipc.data,
        ServerZoneIpcData::ServerChatMessage { message: String::from("Hello, world"), unk: 0 }
    );
    assert!(player.queued_tasks.is_empty());
}

#[test]
fn segment_names_source_and_target() {
    let mut player = lua_player(1);
    let data = ServerZoneIpcData::Warp(Warp { dir: 3, position: Position { x: 1, y: 2, z: 3 } });
    player.create_segment_target(ServerZoneIpcType::Warp, data.clone(), 10, 20);
    player.create_segment_self(ServerZoneIpcType::Warp, data.clone());
    assert_eq!(player.queued_segments.len(), 2);
    assert_eq!(player.queued_segments[0].source_actor, 10);
    assert_eq!(player.queued_segments[0].target_actor, 20);
    assert_eq!(lua_ipc(&player.queued_segments[0]).data, data);
    assert_eq!(player.queued_segments[1].source_actor, 1);
    assert_eq!(player.queued_segments[1].target_actor, 1);
    let queued = player.queued_segments[0].clone();
    player.queue_segment(queued.clone());
    assert_eq!(player.queued_segments.len(), 3);
    assert_eq!(player.queued_segments[2], queued);
}

#[test]
fn segment_carries_the_time_it_was_made() {
    let before = timestamp_secs();
    let mut player = lua_player(1);
    player.send_message("now");
    let after = timestamp_secs();
    let stamped = lua_ipc(&player.queued_segments[0]).timestamp;
    assert!(before <= stamped && stamped <= after);
    assert!(before > 1_000_000_000);
}

#[test]
fn scene_is_queued() {
    let mut player = lua_player(5);
    let target = ObjectTypeId { object_id: ObjectId(0x99), object_type: 1 };
    player.play_scene(target, 0x50001, 2, 0x200, 7);
    let ipc = lua_ipc(&player.queued_segments[0]);
    assert_eq!(ipc.op_code, ServerZoneIpcType::EventScene);
    assert_eq!(
        ipc.data,
        ServerZoneIpcData::EventScene(EventScene {
            actor_id: target,
            event_id: 0x50001,
            scene: 2,
            scene_flags: 0x200,
            unk2: 7,
        })
    );
}

#[test]
fn position_is_queued_as_a_warp() {
    let mut player = lua_player(5);
    let position = Position { x: 0x3f80_0000, y: 0, z: 0xc000_0000 };
    player.set_position(position, 0x8000);
    let ipc = lua_ipc(&player.queued_segments[0]);
    assert_eq!(ipc.op_code, ServerZoneIpcType::Warp);
    assert_eq!(ipc.data, ServerZoneIpcData::Warp(Warp { dir: 0x8000, position }));
}

#[test]
fn festival_is_queued() {
    let mut player = lua_player(5);
    player.set_festival(1, 2, 3, 4);
    let ipc = lua_ipc(&player.queued_segments[0]);
    assert_eq!(ipc.op_code, ServerZoneIpcType::ActorControlSelf);
    assert_eq!(
        ipc.data,
        ServerZoneIpcData::ActorControlSelf(ActorControlSelf {
            category: ActorControlCategory::SetFestival {
                festival1: 1,
                festival2: 2,
                festival3: 3,
                festival4: 4,
            },
        })
    );
}

#[test]
fn status_effect_is_given_once_and_renewed() {
    let mut player = lua_player(5);
    player.give_status_effect(50, 0x4120_0000);
    player.give_status_effect(51, 0x4000_0000);
    player.give_status_effect(50, 0x3f80_0000);
    assert_eq!(
        player.status_effects.status_effects,
        vec![
            StatusEffect { effect_id: 50, duration: 0x3f80_0000 },
            StatusEffect { effect_id: 51, duration: 0x4000_0000 },
        ]
    );
    assert!(player.status_effects.dirty);
    assert!(player.queued_segments.is_empty());
}

#[test]
fn damage_effects_are_collected() {
    let mut builder = EffectsBuilder::default();
    assert!(builder.effects.is_empty());
    builder.damage(DamageKind::Normal, DamageType::Slashing, DamageElement::Unaspected, 120);
    builder.damage(DamageKind::Critical, DamageType::Magic, DamageElement::Fire, 65535);
    assert_eq!(
        builder.effects,
        vec![
            ActionEffect {
                kind: EffectKind::Damage {
                    damage_kind: DamageKind::Normal,
                    damage_type: DamageType::Slashing,
                    damage_element: DamageElement::Unaspected,
                    bonus_percent: 0,
                    unk3: 0,
                    unk4: 0,
                    amount: 120,
                },
            },
            ActionEffect {
                kind: EffectKind::Damage {
                    damage_kind: DamageKind::Critical,
                    damage_type: DamageType::Magic,
                    damage_element: DamageElement::Fire,
                    bonus_percent: 0,
                    unk3: 0,
                    unk4: 0,
                    amount: 65535,
                },
            },
        ]
    );
}

#[test]
fn seconds_are_cut_to_32_bits() {
    assert_eq!(timestamp_from_seconds(None), 0);
    assert_eq!(timestamp_from_seconds(Some(0)), 0);
    assert_eq!(timestamp_from_seconds(Some(1_700_000_000)), 1_700_000_000);
    assert_eq!(timestamp_from_seconds(Some(u32::MAX as u64)), u32::MAX);
    assert_eq!(timestamp_from_seconds(Some(u32::MAX as u64 + 1)), u32::MAX);
    assert_eq!(timestamp_from_seconds(Some(u64::MAX)), u32::MAX);
}
