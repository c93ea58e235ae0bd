//! The state that gameplay scripts act on: the player's data, and the
//! messages and tasks that a script queues for the connection to carry out.
use vstd::prelude::*;
use crate::common::{timestamp_secs, ObjectTypeId, Position};
use crate::ipc::{
    ipc_segment, ActionEffect, ActorControlCategory, ActorControlSelf, DamageElement, DamageKind,
    DamageType, EffectKind, EventScene, PacketSegment, SegmentData, SegmentType,
    ServerZoneIpcData, ServerZoneIpcSegment, ServerZoneIpcType, Warp,
};
use crate::workdefinitions::RemakeMode;
use crate::world::PlayerData;

verus! {

/// Work that a script asks the connection to do after the script has run.
#[derive(Clone, Copy, Debug, PartialEq, Eq, Structural)]
pub enum Task {
    ChangeTerritory { zone_id: u16 },
    SetRemakeMode(RemakeMode),
    Warp { warp_id: u32 },
    BeginLogOut,
    FinishEvent { handler_id: u32 },
    SetClassJob { classjob_id: u8 },
    WarpAetheryte { aetheryte_id: u32 },
}

/// One effect on a character and how long it lasts. The duration is the bit
/// pattern of a single-precision number of seconds.
#[derive(Clone, Copy, Debug, PartialEq, Eq, Structural)]
pub struct StatusEffect {
    pub effect_id: u16,
    pub duration: u32,
}

/// The effects on a character, at most one of each kind, and whether they
/// changed since they were last sent.
#[derive(Debug, PartialEq, Eq)]
pub struct StatusEffects {
    pub status_effects: Vec<StatusEffect>,
    pub dirty: bool,
}

/// Row `i` is the first effect with this id.
pub open spec fn is_first_effect(effects: Seq<StatusEffect>, i: int, effect_id: u16) -> bool {
    &&& 0 <= i < effects.len()
    &&& effects[i].effect_id == effect_id
    &&& forall|j: int| 0 <= j < i ==> effects[j].effect_id != effect_id
}

/// The effects after one was given: an effect that is already there gets
/// the new duration, another one is added at the end.
pub open spec fn effects_with(
    effects: Seq<StatusEffect>,
    effect_id: u16,
    duration: u32,
) -> Seq<StatusEffect> {
    if exists|i: int| is_first_effect(effects, i, effect_id) {
        effects.update(
            choose|i: int| is_first_effect(effects, i, effect_id),
            (StatusEffect { effect_id, duration }),
        )
    } else {
        effects.push((StatusEffect { effect_id, duration }))
    }
}

impl Default for StatusEffects {
    fn default() -> (r: StatusEffects)
        ensures
            r.status_effects@ == Seq::<StatusEffect>::empty(),
            !r.dirty,
    {
        StatusEffects { status_effects: Vec::new(), dirty: false }
    }
}

impl StatusEffects {
    /// Gives an effect, or renews it, and marks the effects as changed.
    pub fn add(&mut self, effect_id: u16, duration: u32)
        ensures
            final(self).status_effects@ == effects_with(
                old(self).status_effects@,
                effect_id,
                duration,
            ),
            final(self).dirty,
    {
        self.dirty = true;
        let mut i: usize = 0;
        while i < self.status_effects.len()
            invariant
                i <= self.status_effects@.len(),
                self.status_effects@ == old(self).status_effects@,
                self.dirty,
                forall|j: int| 0 <= j < i ==> self.status_effects@[j].effect_id != effect_id,
            decreases self.status_effects@.len() - i,
        {
            if self.status_effects[i].effect_id == effect_id {
                assert(is_first_effect(old(self).status_effects@, i as int, effect_id));
                self.status_effects[i].duration = duration;
                assert(self.status_effects@ =~= effects_with(
                    old(self).status_effects@,
                    effect_id,
                    duration,
                ));
                return ;
            }
            i += 1;
        }
        self.status_effects.push(StatusEffect { effect_id, duration });
    }
}

/// `data` is the body of a chat message from the server with this text.
pub open spec fn is_server_chat_message(data: ServerZoneIpcData, message: Seq<char>) -> bool {
    data matches ServerZoneIpcData::ServerChatMessage { message: text, unk } && text@ == message
        && unk == 0
}

/// What a script sees of a player: the player's data and effects, and the
/// messages and tasks that the script has queued so far.
#[derive(Debug, PartialEq, Eq)]
pub struct LuaPlayer {
    pub player_data: PlayerData,
    pub status_effects: StatusEffects,
    pub queued_segments: Vec<PacketSegment>,
    pub queued_tasks: Vec<Task>,
}

impl Default for LuaPlayer {
    fn default() -> (r: LuaPlayer)
        ensures
            r.player_data@ == PlayerData::spec_default(),
            r.player_data.wf(),
            r.status_effects.status_effects@ == Seq::<StatusEffect>::empty(),
            !r.status_effects.dirty,
            r.queued_segments@ == Seq::<PacketSegment>::empty(),
            r.queued_tasks@ == Seq::<Task>::empty(),
    {
        LuaPlayer {
            player_data: PlayerData::default(),
            status_effects: StatusEffects::default(),
            queued_segments: Vec::new(),
            queued_tasks: Vec::new(),
        }
    }
}

impl LuaPlayer {
    /// `self` is `before` with one more queued segment.
    pub open spec fn queued_one_segment(&self, before: &LuaPlayer, segment: PacketSegment) -> bool {
        &&& self.queued_segments@ == before.queued_segments@.push(segment)
        &&& self.queued_tasks == before.queued_tasks
        &&& self.player_data == before.player_data
        &&& self.status_effects == before.status_effects
    }

    /// `self` is `before` with one more queued task.
    pub open spec fn queued_one_task(&self, before: &LuaPlayer, task: Task) -> bool {
        &&& self.queued_tasks@ == before.queued_tasks@.push(task)
        &&& self.queued_segments == before.queued_segments
        &&& self.player_data == before.player_data
        &&& self.status_effects == before.status_effects
    }

    /// `self` is `before` with one more queued message from the player's
    /// own actor to itself, made at some time.
    pub open spec fn queued_message_to_self(
        &self,
        before: &LuaPlayer,
        op_code: ServerZoneIpcType,
        data: ServerZoneIpcData,
    ) -> bool {
        exists|timestamp: u32|
            self.queued_one_segment(
                before,
                #[trigger] ipc_segment(
                    op_code,
                    data,
                    before.player_data.actor_id,
                    before.player_data.actor_id,
                    timestamp,
                ),
            )
    }

    /// Queues a segment behind those already queued.
    pub fn queue_segment(&mut self, segment: PacketSegment)
        ensures
            final(self).queued_one_segment(old(self), segment),
    {
        self.queued_segments.push(segment);
    }

    /// Queues a message of the given kind and body from one actor to
    /// another. The message carries the time at which it was made.
    pub fn create_segment_target(
        &mut self,
        op_code: ServerZoneIpcType,
        data: ServerZoneIpcData,
        source_actor: u32,
        target_actor: u32,
    )
        ensures
            exists|timestamp: u32|
                final(self).queued_one_segment(
                    old(self),
                    #[trigger] ipc_segment(op_code, data, source_actor, target_actor, timestamp),
                ),
    {
        let timestamp = timestamp_secs();
        let ipc = ServerZoneIpcSegment { op_code, server_id: 0, timestamp, data };
        let segment = PacketSegment {
            source_actor,
            target_actor,
            segment_type: SegmentType::Ipc,
            data: SegmentData::Ipc { data: ipc },
        };
        assert(segment == ipc_segment(op_code, data, source_actor, target_actor, timestamp));
        self.queue_segment(segment);
    }

    /// Queues a message from the player's own actor to itself.
    pub fn create_segment_self(&mut self, op_code: ServerZoneIpcType, data: ServerZoneIpcData)
        ensures
            final(self).queued_message_to_self(old(self), op_code, data),
    {
        let actor_id = self.player_data.actor_id;
        self.create_segment_target(op_code, data, actor_id, actor_id);
    }

    /// Queues a chat message from the server to the player.
    pub fn send_message(&mut self, message: &str)
        ensures
            exists|data: ServerZoneIpcData| #[trigger]
                is_server_chat_message(data, message@) && final(self).queued_message_to_self(
                    old(self),
                    ServerZoneIpcType::ServerChatMessage,
                    data,
                ),
    {
        let op_code = ServerZoneIpcType::ServerChatMessage;
        let text = message.to_owned();
        let data = ServerZoneIpcData::ServerChatMessage { message: text, unk: 0 };
        assert(is_server_chat_message(data, message@));
        self.create_segment_self(op_code, data);
    }

    /// Gives the player a status effect, or renews it.
    pub fn give_status_effect(&mut self, effect_id: u16, duration: u32)
        ensures
            final(self).status_effects.status_effects@ == effects_with(
                old(self).status_effects.status_effects@,
                effect_id,
                duration,
            ),
            final(self).status_effects.dirty,
            final(self).player_data == old(self).player_data,
            final(self).queued_segments == old(self).queued_segments,
            final(self).queued_tasks == old(self).queued_tasks,
    {
        self.status_effects.add(effect_id, duration);
    }

    /// Queues the request to play a scene of an event.
    pub fn play_scene(
        &mut self,
        target: ObjectTypeId,
        event_id: u32,
        scene: u16,
        scene_flags: u32,
        param: u8,
    )
        ensures
            final(self).queued_message_to_self(
                old(self),
                ServerZoneIpcType::EventScene,
                ServerZoneIpcData::EventScene(
                    (EventScene { actor_id: target, event_id, scene, scene_flags, unk2: param }),
                ),
            ),
    {
        let op_code = ServerZoneIpcType::EventScene;
        let data = ServerZoneIpcData::EventScene(
            EventScene { actor_id: target, event_id, scene, scene_flags, unk2: param },
        );
        self.create_segment_self(op_code, data);
    }

    /// Queues the message that moves the player to a position. `dir` is the
    /// facing, quantized to 16 bits.
    pub fn set_position(&mut self, position: Position, dir: u16)
        ensures
            final(self).queued_message_to_self(
                old(self),
                ServerZoneIpcType::Warp,
                ServerZoneIpcData::Warp((Warp { dir, position })),
            ),
    {
        let op_code = ServerZoneIpcType::Warp;
        let data = ServerZoneIpcData::Warp(Warp { dir, position });
        self.create_segment_self(op_code, data);
    }

    /// Queues the message that sets the four festivals shown to the player.
    pub fn set_festival(&mut self, festival1: u32, festival2: u32, festival3: u32, festival4: u32)
        ensures
            final(self).queued_message_to_self(
                old(self),
                ServerZoneIpcType::ActorControlSelf,
                ServerZoneIpcData::ActorControlSelf(
                    (ActorControlSelf {
                        category: ActorControlCategory::SetFestival {
                            festival1,
                            festival2,
                            festival3,
                            festival4,
                        },
                    }),
                ),
            ),
    {
        let op_code = ServerZoneIpcType::ActorControlSelf;
        let data = ServerZoneIpcData::ActorControlSelf(
            ActorControlSelf {
                category: ActorControlCategory::SetFestival {
                    festival1,
                    festival2,
                    festival3,
                    festival4,
                },
            },
        );
        self.create_segment_self(op_code, data);
    }

    /// Queues a change of territory.
    pub fn change_territory(&mut self, zone_id: u16)
        ensures
            final(self).queued_one_task(old(self), Task::ChangeTerritory { zone_id }),
    {
        self.queued_tasks.push(Task::ChangeTerritory { zone_id });
    }

    /// Queues a change of the remake mode.
    pub fn set_remake_mode(&mut self, mode: RemakeMode)
        ensures
            final(self).queued_one_task(old(self), Task::SetRemakeMode(mode)),
    {
        self.queued_tasks.push(Task::SetRemakeMode(mode));
    }

    /// Queues a warp.
    pub fn warp(&mut self, warp_id: u32)
        ensures
            final(self).queued_one_task(old(self), Task::Warp { warp_id }),
    {
        self.queued_tasks.push(Task::Warp { warp_id });
    }

    /// Queues the start of a log-out.
    pub fn begin_log_out(&mut self)
        ensures
            final(self).queued_one_task(old(self), Task::BeginLogOut),
    {
        self.queued_tasks.push(Task::BeginLogOut);
    }

    /// Queues the end of an event.
    pub fn finish_event(&mut self, handler_id: u32)
        ensures
            final(self).queued_one_task(old(self), Task::FinishEvent { handler_id }),
    {
        self.queued_tasks.push(Task::FinishEvent { handler_id });
    }

    /// Queues a change of job.
    pub fn set_classjob(&mut self, classjob_id: u8)
        ensures
            final(self).queued_one_task(old(self), Task::SetClassJob { classjob_id }),
    {
        self.queued_tasks.push(Task::SetClassJob { classjob_id });
    }

    /// Queues a warp to an aetheryte.
    pub fn warp_aetheryte(&mut self, aetheryte_id: u32)
        ensures
            final(self).queued_one_task(old(self), Task::WarpAetheryte { aetheryte_id }),
    {
        self.queued_tasks.push(Task::WarpAetheryte { aetheryte_id });
    }
}

/// Collects the effects of an action while a script describes them.
#[derive(Clone, Debug, PartialEq, Eq)]
pub struct EffectsBuilder {
    pub effects: Vec<ActionEffect>,
}

impl Default for EffectsBuilder {
    fn default() -> (r: EffectsBuilder)
        ensures
            r.effects@ == Seq::<ActionEffect>::empty(),
    {
        EffectsBuilder { effects: Vec::new() }
    }
}

impl EffectsBuilder {
    /// Adds a damage effect of the given amount, without bonus.
    pub fn damage(
        &mut self,
        damage_kind: DamageKind,
        damage_type: DamageType,
        damage_element: DamageElement,
        amount: u16,
    )
        ensures
            final(self).effects@ == old(self).effects@.push(
                (ActionEffect {
                    kind: EffectKind::Damage {
                        damage_kind,
                        damage_type,
                        damage_element,
                        bonus_percent: 0,
                        unk3: 0,
                        unk4: 0,
                        amount,
                    },
                }),
            ),
    {
        self.effects.push(
            ActionEffect {
                kind: EffectKind::Damage {
                    damage_kind,
                    damage_type,
                    damage_element,
                    bonus_percent: 0,
                    unk3: 0,
                    unk4: 0,
                    amount,
                },
            },
        );
    }
}

} // verus!
