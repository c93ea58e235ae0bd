//! Debug commands that a game master types into the chat.
//!
//! A message is split at single spaces; its first word names the command.
//! The handler decides what the command asks for and changes the player's
//! data where the command does so itself; sending anything is left to the
//! connection.
use vstd::prelude::*;
use crate::common::GameData;
use crate::inventory::{ContainerKind, Item, EQUIPPED_SLOTS};
use crate::ipc::{ActorControlCategory, ActorControlSelf, GameMasterRank};
use crate::world::{PlayerData, PlayerDataView};

verus! {

/// What the connection is to do after a chat message was handled.
#[derive(Clone, Copy, Debug, PartialEq, Eq, Structural)]
pub enum ChatAction {
    /// The player is no game master: the message is not looked at.
    Rejected,
    /// The message is no command.
    Ignored,
    /// The command lacks an argument, or an argument is not what the
    /// command takes.
    Malformed,
    /// Spawn a debug character beside the actor.
    SpawnNpc { actor_id: u32 },
    /// Spawn a debug enemy beside the actor.
    SpawnMonster { actor_id: u32 },
    /// Spawn a copy of the actor.
    SpawnClone { actor_id: u32 },
    /// Send this actor-control message to the player.
    ActorControlSelf(ActorControlSelf),
    /// Send the player's inventory.
    SendInventory,
}

/// The position of the first space at or behind `from`, or the length of the
/// text if there is none.
pub open spec fn word_end(s: Seq<char>, from: int) -> int
    decreases s.len() - from,
{
    if from < 0 || from >= s.len() || s[from] == ' ' {
        from
    } else {
        word_end(s, from + 1)
    }
}

/// The position at which word `k` of a text starts, counting from 0, where
/// the words are what lies between single spaces. `None` if the text has
/// fewer words.
pub open spec fn word_start(s: Seq<char>, k: nat) -> Option<int>
    decreases k,
{
    if k == 0 {
        Some(0)
    } else {
        match word_start(s, (k - 1) as nat) {
            Some(start) => if word_end(s, start) < s.len() {
                Some(word_end(s, start) + 1)
            } else {
                None
            },
            None => None,
        }
    }
}

/// Word `k` of a text, `None` if the text has fewer words. Two spaces in a
/// row hold an empty word between them.
pub open spec fn word(s: Seq<char>, k: nat) -> Option<Seq<char>> {
    match word_start(s, k) {
        Some(start) => Some(s.subrange(start, word_end(s, start))),
        None => None,
    }
}

/// What follows the first space of a text, `None` for a text without a
/// space.
pub open spec fn after_first_space(s: Seq<char>) -> Option<Seq<char>> {
    if word_end(s, 0) < s.len() {
        Some(s.subrange(word_end(s, 0) + 1, s.len() as int))
    } else {
        None
    }
}

pub open spec fn is_digit(c: char) -> bool {
    '0' <= c && c <= '9'
}

/// The number that a text of decimal digits writes.
pub open spec fn digits_value(s: Seq<char>) -> nat
    decreases s.len(),
{
    if s.len() == 0 {
        0
    } else {
        digits_value(s.drop_last()) * 10 + (s.last() as u32 - '0' as u32) as nat
    }
}

/// A text without the plus sign that it may start with.
pub open spec fn unsigned_part(s: Seq<char>) -> Seq<char> {
    if s.len() > 0 && s[0] == '+' {
        s.subrange(1, s.len() as int)
    } else {
        s
    }
}

/// Every character of a text is a decimal digit.
pub open spec fn all_digits(s: Seq<char>) -> bool {
    forall|i: int| 0 <= i < s.len() ==> is_digit(#[trigger] s[i])
}

/// The number that a text stands for: an optional plus sign, then one or
/// more decimal digits and nothing else, writing a number of at most 32
/// bits. `None` for any other text.
pub open spec fn parsed_u32(s: Seq<char>) -> Option<u32> {
    let digits = unsigned_part(s);
    if digits.len() > 0 && all_digits(digits) && digits_value(digits) <= u32::MAX {
        Some(digits_value(digits) as u32)
    } else {
        None
    }
}

/// The number that argument `k` of a festival command gives: 0 if the
/// message has no word `k`, else what the word stands for.
pub open spec fn festival_argument(s: Seq<char>, k: nat) -> Option<u32> {
    match word(s, k) {
        Some(text) => parsed_u32(text),
        None => Some(0u32),
    }
}

/// The slot that the equip command writes to and the item id it writes, if
/// the command names an item that the game data knows and that is worn in a
/// slot of the equipped items.
pub open spec fn equip_target(s: Seq<char>, game_data: &GameData) -> Option<(u16, u32)> {
    match after_first_space(s) {
        Some(name) => match game_data.item_by_name(name) {
            Some((equip_category, id)) => match game_data.equipslot_category(equip_category) {
                Some(slot) => if slot < EQUIPPED_SLOTS {
                    Some((slot, id))
                } else {
                    None
                },
                None => None,
            },
            None => None,
        },
        None => None,
    }
}

/// Whether an equip command is in order: it has an argument, and if the
/// argument names a known item, the item is worn in a slot of the equipped
/// items.
pub open spec fn equip_is_well_formed(s: Seq<char>, game_data: &GameData) -> bool {
    match after_first_space(s) {
        Some(name) => game_data.item_by_name(name) is Some ==> equip_target(s, game_data) is Some,
        None => false,
    }
}

/// What a chat message asks the connection to do.
pub open spec fn chat_action(
    data: PlayerDataView,
    game_data: &GameData,
    message: Seq<char>,
) -> ChatAction {
    let command = word(message, 0)->0;
    if data.gm_rank == GameMasterRank::NormalUser {
        ChatAction::Rejected
    } else if command == "!spawnnpc"@ {
        ChatAction::SpawnNpc { actor_id: data.actor_id }
    } else if command == "!spawnmonster"@ {
        ChatAction::SpawnMonster { actor_id: data.actor_id }
    } else if command == "!spawnclone"@ {
        ChatAction::SpawnClone { actor_id: data.actor_id }
    } else if command == "!unlockaction"@ {
        match word(message, 1) {
            Some(text) => match parsed_u32(text) {
                Some(id) => ChatAction::ActorControlSelf(
                    ActorControlSelf {
                        category: ActorControlCategory::ToggleActionUnlock { id, unlocked: true },
                    },
                ),
                None => ChatAction::Malformed,
            },
            None => ChatAction::Malformed,
        }
    } else if command == "!equip"@ {
        if equip_is_well_formed(message, game_data) {
            ChatAction::SendInventory
        } else {
            ChatAction::Malformed
        }
    } else if command == "!festival"@ {
        match (
            festival_argument(message, 1),
            festival_argument(message, 2),
            festival_argument(message, 3),
            festival_argument(message, 4),
        ) {
            (Some(festival1), Some(festival2), Some(festival3), Some(festival4)) => {
                ChatAction::ActorControlSelf(
                    ActorControlSelf {
                        category: ActorControlCategory::SetFestival {
                            festival1,
                            festival2,
                            festival3,
                            festival4,
                        },
                    },
                )
            },
            _ => ChatAction::Malformed,
        }
    } else {
        ChatAction::Ignored
    }
}

/// The inventory of the player after a chat message was handled: the equip
/// command of a game master puts one piece of the named item into the slot
/// it is worn in. Nothing else changes an inventory.
pub open spec fn inventory_after_chat(
    data: PlayerDataView,
    game_data: &GameData,
    message: Seq<char>,
) -> Seq<Seq<Item>> {
    if data.gm_rank != GameMasterRank::NormalUser && word(message, 0)->0 == "!equip"@ {
        match equip_target(message, game_data) {
            Some((slot, id)) => {
                let equipped = data.inventory[ContainerKind::Equipped.spec_index()];
                data.inventory.update(
                    ContainerKind::Equipped.spec_index(),
                    equipped.update(slot as int, (Item { id, quantity: 1, ..equipped[slot as int] })),
                )
            },
            None => data.inventory,
        }
    } else {
        data.inventory
    }
}

/// The characters of a text, in order.
fn chars_of(s: &str) -> (r: Vec<char>)
    ensures
        r@ == s@,
{
    let mut chars: Vec<char> = Vec::new();
    for c in it: s.chars()
        invariant
            chars@ == it.seq().take(it.index() as int),
            it.seq() == s@,
    {
        chars.push(c);
    }
    chars
}

/// Whether two texts are the same.
fn same_text(a: &str, b: &str) -> (r: bool)
    ensures
        r == (a@ == b@),
{
    a.to_owned() == b.to_owned()
}

/// Finds the end of the word that starts at `from`.
fn find_word_end(chars: &Vec<char>, from: usize) -> (r: usize)
    requires
        from <= chars@.len(),
    ensures
        r == word_end(chars@, from as int),
        from <= r <= chars@.len(),
{
    let mut i: usize = from;
    while i < chars.len() && chars[i] != ' '
        invariant
            from <= i <= chars@.len(),
            word_end(chars@, from as int) == word_end(chars@, i as int),
        decreases chars@.len() - i,
    {
        i += 1;
    }
    i
}

/// Finds word `k` of a text: the positions at which it starts and ends.
fn find_word(chars: &Vec<char>, k: usize) -> (r: Option<(usize, usize)>)
    ensures
        match r {
            Some((start, end)) => {
                &&& word_start(chars@, k as nat) == Some(start as int)
                &&& end == word_end(chars@, start as int)
                &&& start <= end <= chars@.len()
            },
            None => word_start(chars@, k as nat) is None,
        },
{
    let mut start: usize = 0;
    let mut n: usize = 0;
    while n < k
        invariant
            n <= k,
            start <= chars@.len(),
            word_start(chars@, n as nat) == Some(start as int),
        decreases k - n,
    {
        let end = find_word_end(chars, start);
        if end >= chars.len() {
            proof {
                lemma_no_word_behind_the_last(chars@, (n + 1) as nat, k as nat);
            }
            return None;
        }
        start = end + 1;
        n += 1;
    }
    let end = find_word_end(chars, start);
    Some((start, end))
}

/// A text that has no word `n` has no word behind it either.
proof fn lemma_no_word_behind_the_last(s: Seq<char>, n: nat, k: nat)
    requires
        word_start(s, n) is None,
        n <= k,
    ensures
        word_start(s, k) is None,
    decreases k,
{
    if n < k {
        lemma_no_word_behind_the_last(s, n, (k - 1) as nat);
    }
}

/// More digits never write a smaller number.
proof fn lemma_digits_value_grows(s: Seq<char>, n: int)
    requires
        0 <= n <= s.len(),
    ensures
        digits_value(s.take(n)) <= digits_value(s),
    decreases s.len(),
{
    if n < s.len() {
        lemma_digits_value_grows(s.drop_last(), n);
        assert(s.drop_last().take(n) =~= s.take(n));
    } else {
        assert(s.take(n) =~= s);
    }
}

/// Reads the number that the characters from `from` up to `to` stand for.
fn parse_u32(chars: &Vec<char>, from: usize, to: usize) -> (r: Option<u32>)
    requires
        from <= to <= chars@.len(),
    ensures
        r == parsed_u32(chars@.subrange(from as int, to as int)),
{
    let ghost text = chars@.subrange(from as int, to as int);
    let first: usize = if from < to && chars[from] == '+' {
        from + 1
    } else {
        from
    };
    let ghost digits = chars@.subrange(first as int, to as int);
    proof {
        if from < to && chars@[from as int] == '+' {
            assert(text[0] == '+');
            assert(text.subrange(1, text.len() as int) =~= digits);
        } else {
            if text.len() > 0 {
                assert(text[0] == chars@[from as int]);
            }
            assert(text =~= digits);
        }
        assert(unsigned_part(text) == digits);
    }
    if first == to {
        return None;
    }
    let mut value: u64 = 0;
    let mut i: usize = first;
    proof {
        assert(digits.take(0) =~= Seq::<char>::empty());
    }
    while i < to
        invariant
            first <= i <= to,
            to <= chars@.len(),
            digits == chars@.subrange(first as int, to as int),
            unsigned_part(chars@.subrange(from as int, to as int)) == digits,
            forall|j: int| 0 <= j < i - first ==> is_digit(#[trigger] digits[j]),
            value == digits_value(digits.take(i - first)),
            value <= u32::MAX,
        decreases to - i,
    {
        let c = chars[i];
        assert(digits[i - first] == c);
        if !(c >= '0' && c <= '9') {
            return None;
        }
        proof {
            assert(digits.take(i - first + 1).drop_last() =~= digits.take(i - first));
        }
        value = value * 10 + (c as u32 - '0' as u32) as u64;
        if value > 0xffff_ffff {
            proof {
                lemma_digits_value_grows(digits, i - first + 1);
            }
            return None;
        }
        i += 1;
    }
    proof {
        assert(digits.take(i - first) =~= digits);
    }
    Some(value as u32)
}

/// Reads argument `k` of a festival command.
fn parse_festival_argument(chars: &Vec<char>, k: usize) -> (r: Option<u32>)
    ensures
        r == festival_argument(chars@, k as nat),
{
    match find_word(chars, k) {
        Some((start, end)) => parse_u32(chars, start, end),
        None => Some(0),
    }
}

/// The handler of chat messages.
#[derive(Clone, Copy, Debug, PartialEq, Eq, Structural)]
pub struct ChatHandler {}

impl ChatHandler {
    /// Handles a chat message of a player: decides what the connection is to
    /// do, and carries out the equip command on the player's inventory.
    ///
    /// Only a game master's message is looked at. Nothing but the inventory
    /// of the player changes, and the inventory only by the equip command.
    pub fn handle_chat_message(
        player_data: &mut PlayerData,
        game_data: &GameData,
        message: &str,
    ) -> (r: ChatAction)
        requires
            old(player_data).wf(),
        ensures
            final(player_data).wf(),
            r == chat_action(old(player_data)@, game_data, message@),
            final(player_data)@ == (PlayerDataView {
                inventory: inventory_after_chat(old(player_data)@, game_data, message@),
                ..old(player_data)@
            }),
    {
        if player_data.gm_rank == GameMasterRank::NormalUser {
            return ChatAction::Rejected;
        }
        proof {
            reveal_strlit("!spawnnpc");
            reveal_strlit("!spawnmonster");
            reveal_strlit("!spawnclone");
            reveal_strlit("!unlockaction");
            reveal_strlit("!equip");
            reveal_strlit("!festival");
            assert("!spawnnpc"@.len() == 9);
            assert("!spawnmonster"@.len() == 13);
            assert("!spawnclone"@.len() == 11);
            assert("!unlockaction"@.len() == 13);
            assert("!equip"@.len() == 6);
            assert("!festival"@.len() == 9);
        }
        let chars = chars_of(message);
        let end = find_word_end(&chars, 0);
        let command = message.substring_char(0, end);
        let actor_id = player_data.actor_id;
        if same_text(command, "!spawnnpc") {
            ChatAction::SpawnNpc { actor_id }
        } else if same_text(command, "!spawnmonster") {
            ChatAction::SpawnMonster { actor_id }
        } else if same_text(command, "!spawnclone") {
            ChatAction::SpawnClone { actor_id }
        } else if same_text(command, "!unlockaction") {
            match find_word(&chars, 1) {
                Some((start, end)) => match parse_u32(&chars, start, end) {
                    Some(id) => ChatAction::ActorControlSelf(
                        ActorControlSelf {
                            category: ActorControlCategory::ToggleActionUnlock {
                                id,
                                unlocked: true,
                            },
                        },
                    ),
                    None => ChatAction::Malformed,
                },
                None => ChatAction::Malformed,
            }
        } else if same_text(command, "!equip") {
            if end >= chars.len() {
                return ChatAction::Malformed;
            }
            let name = message.substring_char(end + 1, chars.len());
            match game_data.get_item_by_name(name) {
                Some((equip_category, id)) => {
                    match game_data.get_equipslot_category(equip_category) {
                        Some(slot) => {
                            if slot as u32 >= EQUIPPED_SLOTS {
                                return ChatAction::Malformed;
                            }
                            let worn = player_data.inventory.get_slot(ContainerKind::Equipped, slot);
                            player_data.inventory.set_slot(
                                ContainerKind::Equipped,
                                slot,
                                Item { id, quantity: 1, ..worn },
                            );
                            ChatAction::SendInventory
                        },
                        None => ChatAction::Malformed,
                    }
                },
                None => ChatAction::SendInventory,
            }
        } else if same_text(command, "!festival") {
            let festival1 = match parse_festival_argument(&chars, 1) {
                Some(festival) => festival,
                None => {
                    return ChatAction::Malformed;
                },
            };
            let festival2 = match parse_festival_argument(&chars, 2) {
                Some(festival) => festival,
                None => {
                    return ChatAction::Malformed;
                },
            };
            let festival3 = match parse_festival_argument(&chars, 3) {
                Some(festival) => festival,
                None => {
                    return ChatAction::Malformed;
                },
            };
            let festival4 = match parse_festival_argument(&chars, 4) {
                Some(festival) => festival,
                None => {
                    return ChatAction::Malformed;
                },
            };
            ChatAction::ActorControlSelf(
                ActorControlSelf {
                    category: ActorControlCategory::SetFestival {
                        festival1,
                        festival2,
                        festival3,
                        festival4,
                    },
                },
            )
        } else {
            ChatAction::Ignored
        }
    }
}

} // verus!
