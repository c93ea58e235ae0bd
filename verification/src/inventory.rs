//! Items and the bounded slot containers that hold them.
use vstd::prelude::*;
use crate::common::GameData;

verus! {

/// What one slot of a container holds. A quantity of zero is an empty slot.
#[derive(Clone, Copy, Debug, PartialEq, Eq, Structural)]
pub struct Item {
    pub quantity: u32,
    pub id: u32,
    pub condition: u16,
    pub glamour_catalog_id: u32,
}

impl Item {
    /// The empty slot.
    pub open spec fn empty() -> Item {
        Item { quantity: 0, id: 0, condition: 0, glamour_catalog_id: 0 }
    }
}

impl Default for Item {
    fn default() -> (r: Item)
        ensures
            r == Item::empty(),
    {
        Item { quantity: 0, id: 0, condition: 0, glamour_catalog_id: 0 }
    }
}

/// Number of containers in an inventory.
pub const NUM_CONTAINERS: usize = 17;

/// Number of slots in the container of equipped items.
pub const EQUIPPED_SLOTS: u32 = 14;

/// Positions of the worn items inside the container of equipped items.
pub const SLOT_MAIN_HAND: u16 = 0;
pub const SLOT_OFF_HAND: u16 = 1;
pub const SLOT_HEAD: u16 = 2;
pub const SLOT_BODY: u16 = 3;
pub const SLOT_HANDS: u16 = 4;
pub const SLOT_BELT: u16 = 5;
pub const SLOT_LEGS: u16 = 6;
pub const SLOT_FEET: u16 = 7;
pub const SLOT_EARS: u16 = 8;
pub const SLOT_NECK: u16 = 9;
pub const SLOT_WRISTS: u16 = 10;
pub const SLOT_RIGHT_RING: u16 = 11;
pub const SLOT_LEFT_RING: u16 = 12;
pub const SLOT_SOUL_CRYSTAL: u16 = 13;

/// The containers of an inventory: four general pages, the equipped items,
/// the currency, and eleven armoury chests.
#[derive(Clone, Copy, Debug, PartialEq, Eq, Structural)]
pub enum ContainerKind {
    Inventory0,
    Inventory1,
    Inventory2,
    Inventory3,
    Equipped,
    Currency,
    ArmouryOffHand,
    ArmouryHead,
    ArmouryBody,
    ArmouryHands,
    ArmouryLegs,
    ArmouryEarring,
    ArmouryNecklace,
    ArmouryBracelet,
    ArmouryRings,
    ArmourySoulCrystal,
    ArmouryMainHand,
}

impl ContainerKind {
    /// Position of the container inside an inventory.
    pub open spec fn spec_index(self) -> int {
        match self {
            ContainerKind::Inventory0 => 0,
            ContainerKind::Inventory1 => 1,
            ContainerKind::Inventory2 => 2,
            ContainerKind::Inventory3 => 3,
            ContainerKind::Equipped => 4,
            ContainerKind::Currency => 5,
            ContainerKind::ArmouryOffHand => 6,
            ContainerKind::ArmouryHead => 7,
            ContainerKind::ArmouryBody => 8,
            ContainerKind::ArmouryHands => 9,
            ContainerKind::ArmouryLegs => 10,
            ContainerKind::ArmouryEarring => 11,
            ContainerKind::ArmouryNecklace => 12,
            ContainerKind::ArmouryBracelet => 13,
            ContainerKind::ArmouryRings => 14,
            ContainerKind::ArmourySoulCrystal => 15,
            ContainerKind::ArmouryMainHand => 16,
        }
    }

    /// The container at a position, for positions below [`NUM_CONTAINERS`].
    pub open spec fn spec_from_index(index: int) -> ContainerKind {
        if index == 0 {
            ContainerKind::Inventory0
        } else if index == 1 {
            ContainerKind::Inventory1
        } else if index == 2 {
            ContainerKind::Inventory2
        } else if index == 3 {
            ContainerKind::Inventory3
        } else if index == 4 {
            ContainerKind::Equipped
        } else if index == 5 {
            ContainerKind::Currency
        } else if index == 6 {
            ContainerKind::ArmouryOffHand
        } else if index == 7 {
            ContainerKind::ArmouryHead
        } else if index == 8 {
            ContainerKind::ArmouryBody
        } else if index == 9 {
            ContainerKind::ArmouryHands
        } else if index == 10 {
            ContainerKind::ArmouryLegs
        } else if index == 11 {
            ContainerKind::ArmouryEarring
        } else if index == 12 {
            ContainerKind::ArmouryNecklace
        } else if index == 13 {
            ContainerKind::ArmouryBracelet
        } else if index == 14 {
            ContainerKind::ArmouryRings
        } else if index == 15 {
            ContainerKind::ArmourySoulCrystal
        } else {
            ContainerKind::ArmouryMainHand
        }
    }

    /// The declared maximum slot count of the container.
    pub open spec fn spec_max_slots(self) -> int {
        match self {
            ContainerKind::Inventory0 => 35,
            ContainerKind::Inventory1 => 35,
            ContainerKind::Inventory2 => 35,
            ContainerKind::Inventory3 => 35,
            ContainerKind::Equipped => 14,
            ContainerKind::Currency => 1,
            ContainerKind::ArmouryOffHand => 35,
            ContainerKind::ArmouryHead => 35,
            ContainerKind::ArmouryBody => 35,
            ContainerKind::ArmouryHands => 35,
            ContainerKind::ArmouryLegs => 35,
            ContainerKind::ArmouryEarring => 35,
            ContainerKind::ArmouryNecklace => 35,
            ContainerKind::ArmouryBracelet => 35,
            ContainerKind::ArmouryRings => 50,
            ContainerKind::ArmourySoulCrystal => 25,
            ContainerKind::ArmouryMainHand => 50,
        }
    }

    pub fn index(self) -> (r: usize)
        ensures
            r == self.spec_index(),
            r < NUM_CONTAINERS,
            ContainerKind::spec_from_index(r as int) == self,
    {
        match self {
            ContainerKind::Inventory0 => 0,
            ContainerKind::Inventory1 => 1,
            ContainerKind::Inventory2 => 2,
            ContainerKind::Inventory3 => 3,
            ContainerKind::Equipped => 4,
            ContainerKind::Currency => 5,
            ContainerKind::ArmouryOffHand => 6,
            ContainerKind::ArmouryHead => 7,
            ContainerKind::ArmouryBody => 8,
            ContainerKind::ArmouryHands => 9,
            ContainerKind::ArmouryLegs => 10,
            ContainerKind::ArmouryEarring => 11,
            ContainerKind::ArmouryNecklace => 12,
            ContainerKind::ArmouryBracelet => 13,
            ContainerKind::ArmouryRings => 14,
            ContainerKind::ArmourySoulCrystal => 15,
            ContainerKind::ArmouryMainHand => 16,
        }
    }

    /// The container at a position, or `None` at and above [`NUM_CONTAINERS`].
    pub fn from_index(index: usize) -> (r: Option<ContainerKind>)
        ensures
            index < NUM_CONTAINERS ==> r == Some(ContainerKind::spec_from_index(index as int)),
            index < NUM_CONTAINERS ==> ContainerKind::spec_from_index(index as int).spec_index()
                == index,
            index >= NUM_CONTAINERS ==> r is None,
    {
        match index {
            0 => Some(ContainerKind::Inventory0),
            1 => Some(ContainerKind::Inventory1),
            2 => Some(ContainerKind::Inventory2),
            3 => Some(ContainerKind::Inventory3),
            4 => Some(ContainerKind::Equipped),
            5 => Some(ContainerKind::Currency),
            6 => Some(ContainerKind::ArmouryOffHand),
            7 => Some(ContainerKind::ArmouryHead),
            8 => Some(ContainerKind::ArmouryBody),
            9 => Some(ContainerKind::ArmouryHands),
            10 => Some(ContainerKind::ArmouryLegs),
            11 => Some(ContainerKind::ArmouryEarring),
            12 => Some(ContainerKind::ArmouryNecklace),
            13 => Some(ContainerKind::ArmouryBracelet),
            14 => Some(ContainerKind::ArmouryRings),
            15 => Some(ContainerKind::ArmourySoulCrystal),
            16 => Some(ContainerKind::ArmouryMainHand),
            _ => None,
        }
    }

    pub fn max_slots(self) -> (r: u32)
        ensures
            r == self.spec_max_slots(),
    {
        match self {
            ContainerKind::Equipped => EQUIPPED_SLOTS,
            ContainerKind::Currency => 1,
            ContainerKind::ArmouryRings | ContainerKind::ArmouryMainHand => 50,
            ContainerKind::ArmourySoulCrystal => 25,
            _ => 35,
        }
    }
}

/// A bounded slot container: a fixed number of slots, read and written by
/// index.
#[derive(Debug, PartialEq, Eq)]
pub struct Storage {
    slots: Vec<Item>,
}

impl View for Storage {
    type V = Seq<Item>;

    closed spec fn view(&self) -> Seq<Item> {
        self.slots@
    }
}

impl Clone for Storage {
    fn clone(&self) -> (r: Storage)
        ensures
            r@ == self@,
    {
        Storage { slots: self.slots.clone() }
    }
}

impl Storage {
    /// A container of the given kind with every slot empty.
    pub fn new(kind: ContainerKind) -> (r: Storage)
        ensures
            r@ == Seq::new(kind.spec_max_slots() as nat, |i: int| Item::empty()),
            r.wf(),
    {
        let n: usize = kind.max_slots() as usize;
        let slots = vec![Item::default(); n];
        assert(slots@ =~= Seq::new(kind.spec_max_slots() as nat, |i: int| Item::empty()));
        Storage { slots }
    }

    /// The container has no more slots than a slot index can name. A new
    /// container is so, and writing its slots keeps it so.
    pub open spec fn wf(&self) -> bool {
        self@.len() <= u16::MAX
    }

    /// The number of slots of the container.
    pub fn max_slots(&self) -> (r: u32)
        requires
            self.wf(),
        ensures
            r == self@.len(),
    {
        self.slots.len() as u32
    }

    /// The item in a slot.
    pub fn get_slot(&self, index: u16) -> (r: &Item)
        requires
            index < self@.len(),
        ensures
            *r == self@[index as int],
    {
        &self.slots[index as usize]
    }

    /// The slot at `index`, to be written in place. Every other slot keeps
    /// its item.
    pub fn get_slot_mut(&mut self, index: u16) -> (r: &mut Item)
        requires
            index < old(self)@.len(),
        ensures
            *r == old(self)@[index as int],
            final(self)@ == old(self)@.update(index as int, *final(r)),
    {
        &mut self.slots[index as usize]
    }
}

/// The inventory of one character: one container of each kind.
#[derive(Debug, PartialEq, Eq)]
pub struct Inventory {
    containers: Vec<Storage>,
}

impl View for Inventory {
    type V = Seq<Seq<Item>>;

    closed spec fn view(&self) -> Seq<Seq<Item>> {
        Seq::new(self.containers@.len(), |k: int| self.containers@[k]@)
    }
}

/// An inventory model is well formed when it has one container of each
/// kind, each with its declared number of slots.
pub open spec fn inventory_wf(inventory: Seq<Seq<Item>>) -> bool {
    &&& inventory.len() == NUM_CONTAINERS
    &&& forall|k: int|
        0 <= k < NUM_CONTAINERS ==> (#[trigger] inventory[k]).len()
            == ContainerKind::spec_from_index(k).spec_max_slots()
}

/// The inventory in which every slot of every container is empty.
pub open spec fn empty_inventory() -> Seq<Seq<Item>> {
    Seq::new(
        NUM_CONTAINERS as nat,
        |k: int|
            Seq::new(
                ContainerKind::spec_from_index(k).spec_max_slots() as nat,
                |i: int| Item::empty(),
            ),
    )
}

/// The model ids shown for the equipped items of an inventory: head, body,
/// hands, legs, feet, ears, neck, wrists, left ring and right ring, with 0
/// for an item that the catalog does not know.
pub open spec fn model_ids_of(inventory: Seq<Seq<Item>>, game_data: &GameData) -> Seq<u32> {
    let equipped = inventory[ContainerKind::Equipped.spec_index()];
    seq![
        model_id_of(equipped[SLOT_HEAD as int], game_data),
        model_id_of(equipped[SLOT_BODY as int], game_data),
        model_id_of(equipped[SLOT_HANDS as int], game_data),
        model_id_of(equipped[SLOT_LEGS as int], game_data),
        model_id_of(equipped[SLOT_FEET as int], game_data),
        model_id_of(equipped[SLOT_EARS as int], game_data),
        model_id_of(equipped[SLOT_NECK as int], game_data),
        model_id_of(equipped[SLOT_WRISTS as int], game_data),
        model_id_of(equipped[SLOT_LEFT_RING as int], game_data),
        model_id_of(equipped[SLOT_RIGHT_RING as int], game_data),
    ]
}

/// The low 32 bits of the model that displays an item, 0 for an item that
/// the catalog does not know.
pub open spec fn model_id_of(item: Item, game_data: &GameData) -> u32 {
    match game_data.primary_model_id(item.id) {
        Some(model) => (model % 0x1_0000_0000) as u32,
        None => 0,
    }
}

/// The model of the main-hand weapon of an inventory, 0 for an item that the
/// catalog does not know.
pub open spec fn main_weapon_id_of(inventory: Seq<Seq<Item>>, game_data: &GameData) -> u64 {
    let equipped = inventory[ContainerKind::Equipped.spec_index()];
    match game_data.primary_model_id(equipped[SLOT_MAIN_HAND as int].id) {
        Some(model) => model,
        None => 0,
    }
}

impl Clone for Inventory {
    fn clone(&self) -> (r: Inventory)
        ensures
            r@ == self@,
    {
        let mut containers: Vec<Storage> = Vec::new();
        let mut k: usize = 0;
        while k < self.containers.len()
            invariant
                k <= self.containers@.len(),
                containers@.len() == k,
                forall|j: int| 0 <= j < k ==> containers@[j]@ == self.containers@[j]@,
            decreases self.containers@.len() - k,
        {
            containers.push(self.containers[k].clone());
            k += 1;
        }
        let r = Inventory { containers };
        assert(r@ =~= self@);
        r
    }
}

impl Default for Inventory {
    fn default() -> (r: Inventory)
        ensures
            r@ == empty_inventory(),
            r.wf(),
    {
        let mut containers: Vec<Storage> = Vec::new();
        let mut k: usize = 0;
        while k < NUM_CONTAINERS
            invariant
                k <= NUM_CONTAINERS,
                containers@.len() == k,
                forall|j: int| 0 <= j < k ==> (#[trigger] containers@[j])@ == empty_inventory()[j],
            decreases NUM_CONTAINERS - k,
        {
            let kind = ContainerKind::from_index(k).unwrap();
            containers.push(Storage::new(kind));
            k += 1;
        }
        let r = Inventory { containers };
        assert(r@ =~= empty_inventory());
        r
    }
}

impl Inventory {
    /// Every container is present with its declared number of slots. An
    /// inventory starts out so, and every operation keeps it so.
    pub open spec fn wf(&self) -> bool {
        inventory_wf(self@)
    }

    /// Whether every container is present with its declared number of
    /// slots.
    pub fn is_valid(&self) -> (r: bool)
        ensures
            r == self.wf(),
    {
        if self.containers.len() != NUM_CONTAINERS {
            return false;
        }
        let mut k: usize = 0;
        while k < NUM_CONTAINERS
            invariant
                k <= NUM_CONTAINERS,
                self.containers@.len() == NUM_CONTAINERS,
                self@.len() == NUM_CONTAINERS,
                forall|j: int|
                    0 <= j < k ==> (#[trigger] self@[j]).len() == ContainerKind::spec_from_index(
                        j,
                    ).spec_max_slots(),
            decreases NUM_CONTAINERS - k,
        {
            let kind = ContainerKind::from_index(k).unwrap();
            assert(self@[k as int] == self.containers@[k as int]@);
            if self.containers[k].slots.len() != kind.max_slots() as usize {
                return false;
            }
            k += 1;
        }
        true
    }

    /// The container of a kind.
    pub fn container(&self, kind: ContainerKind) -> (r: &Storage)
        requires
            self.wf(),
        ensures
            r@ == self@[kind.spec_index()],
            r@.len() == kind.spec_max_slots(),
            r.wf(),
    {
        let k: usize = kind.index();
        assert(self@[k as int] == self.containers@[k as int]@);
        &self.containers[k]
    }

    /// The item in a slot of a container.
    pub fn get_slot(&self, kind: ContainerKind, index: u16) -> (r: Item)
        requires
            self.wf(),
            index < kind.spec_max_slots(),
        ensures
            r == self@[kind.spec_index()][index as int],
    {
        *self.container(kind).get_slot(index)
    }

    /// Writes an item into a slot of a container. Nothing else changes.
    pub fn set_slot(&mut self, kind: ContainerKind, index: u16, item: Item)
        requires
            old(self).wf(),
            index < kind.spec_max_slots(),
        ensures
            final(self).wf(),
            final(self)@ == old(self)@.update(
                kind.spec_index(),
                old(self)@[kind.spec_index()].update(index as int, item),
            ),
    {
        let k: usize = kind.index();
        assert(self@[k as int] == self.containers@[k as int]@);
        let slot = self.containers[k].get_slot_mut(index);
        *slot = item;
        assert(self@ =~= old(self)@.update(
            kind.spec_index(),
            old(self)@[kind.spec_index()].update(index as int, item),
        ));
    }

    /// The model of the main-hand weapon.
    pub fn get_main_weapon_id(&self, game_data: &GameData) -> (r: u64)
        requires
            self.wf(),
        ensures
            r == main_weapon_id_of(self@, game_data),
    {
        let item = self.get_slot(ContainerKind::Equipped, SLOT_MAIN_HAND);
        match game_data.get_primary_model_id(item.id) {
            Some(model) => model,
            None => 0,
        }
    }

    /// The model id shown for one equipped item.
    fn equipped_model_id(&self, index: u16, game_data: &GameData) -> (r: u32)
        requires
            self.wf(),
            index < EQUIPPED_SLOTS,
        ensures
            r == model_id_of(self@[ContainerKind::Equipped.spec_index()][index as int], game_data),
    {
        let item = self.get_slot(ContainerKind::Equipped, index);
        match game_data.get_primary_model_id(item.id) {
            Some(model) => (model % 0x1_0000_0000) as u32,
            None => 0,
        }
    }

    /// The model ids shown for the equipped items.
    pub fn get_model_ids(&self, game_data: &GameData) -> (r: [u32; 10])
        requires
            self.wf(),
        ensures
            r@ == model_ids_of(self@, game_data),
    {
        let r = [
            self.equipped_model_id(SLOT_HEAD, game_data),
            self.equipped_model_id(SLOT_BODY, game_data),
            self.equipped_model_id(SLOT_HANDS, game_data),
            self.equipped_model_id(SLOT_LEGS, game_data),
            self.equipped_model_id(SLOT_FEET, game_data),
            self.equipped_model_id(SLOT_EARS, game_data),
            self.equipped_model_id(SLOT_NECK, game_data),
            self.equipped_model_id(SLOT_WRISTS, game_data),
            self.equipped_model_id(SLOT_LEFT_RING, game_data),
            self.equipped_model_id(SLOT_RIGHT_RING, game_data),
        ];
        assert(r@ =~= model_ids_of(self@, game_data));
        r
    }
}

} // verus!
