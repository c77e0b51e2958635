//! Per-connection authoritative player inventory (window 0).
//!
//! The connection is the sole writer of every slot and of the game-mode mirror held
//! beside them, so both can be read without asking the simulation.

use crate::command::GameMode;
use vstd::prelude::*;

verus! {

/// The player-inventory window id.
pub const WINDOW_ID: i32 = 0;

/// First main-inventory slot; armor and crafting come before it.
pub const MAIN_START: usize = 9;

/// One past the last hotbar slot. The slots from [`MAIN_START`] to here are the ones
/// that a container window shows after its own.
pub const PLAYER_WINDOW_END: usize = 45;

/// Number of slots in the player inventory window.
pub const SLOT_COUNT: usize = 46;

/// Index of the first hotbar slot.
pub const HOTBAR_START: usize = 36;

/// Index of the off-hand slot.
pub const OFFHAND_SLOT: usize = 45;

/// Index of the first armor slot.
pub const ARMOR_START: usize = 5;

/// Number of selectable hotbar slots.
pub const HOTBAR_LEN: u8 = 9;

/// Count of each kit item placed in the hotbar.
pub const KIT_STACK_COUNT: u8 = 64;

/// The window state id of a new inventory.
pub const INITIAL_STATE_ID: i32 = 1;

/// A stack of items, or nothing.
#[derive(Clone, Copy, Debug, PartialEq, Eq, Structural)]
pub struct ItemStack {
    /// The registry number of the item; `None` for nothing.
    pub item: Option<i32>,
    /// How many.
    pub count: u8,
    /// The number by which the item codec knows the stack's components; zero for
    /// none.
    pub components: u64,
    /// How many of the item one slot holds.
    pub limit: u8,
}

impl ItemStack {
    /// Whether nothing counts zero and something at least one.
    pub open spec fn wf(self) -> bool {
        (self.item is None) == (self.count == 0)
    }

    /// Whether two stacks hold the same kind of item.
    pub open spec fn same_kind(self, other: ItemStack) -> bool {
        self.item is Some && self.item == other.item && self.components == other.components
    }

    /// How many items of a kind the stack holds.
    pub open spec fn count_of(self, item: i32, components: u64) -> nat {
        if self.item == Some(item) && self.components == components {
            self.count as nat
        } else {
            0
        }
    }

    /// Nothing.
    pub open spec fn nothing() -> ItemStack {
        ItemStack { item: None, count: 0, components: 0, limit: 0 }
    }

    /// Nothing.
    pub fn empty() -> (r: ItemStack)
        ensures
            r == ItemStack::nothing(),
            r.wf(),
    {
        ItemStack { item: None, count: 0, components: 0, limit: 0 }
    }

    /// A stack of items.
    pub fn new(item: i32, count: u8, components: u64, limit: u8) -> (r: ItemStack)
        requires
            count > 0,
        ensures
            r == (ItemStack { item: Some(item), count, components, limit }),
            r.wf(),
    {
        ItemStack { item: Some(item), count, components, limit }
    }

    /// Whether the stack is nothing.
    pub fn is_empty(&self) -> (r: bool)
        ensures
            r == self.item is None,
    {
        self.item.is_none()
    }
}

/// How many items a left click moves onto a slot of the same kind.
pub open spec fn merged_count(slot: ItemStack, cursor: ItemStack) -> int {
    let room = slot.limit - slot.count;
    if room <= 0 {
        0
    } else if room < cursor.count {
        room
    } else {
        cursor.count as int
    }
}

/// A stack with some items taken off; nothing once none is left.
pub open spec fn reduced(stack: ItemStack, by: int) -> ItemStack {
    if by >= stack.count {
        ItemStack::nothing()
    } else {
        ItemStack { count: (stack.count - by) as u8, ..stack }
    }
}

/// The slot after a left click: a stack of the same kind is merged in up to the
/// slot's limit, and anything else changes places with the cursor.
pub open spec fn clicked_slot(slot: ItemStack, cursor: ItemStack) -> ItemStack {
    if slot.same_kind(cursor) {
        ItemStack { count: (slot.count + merged_count(slot, cursor)) as u8, ..slot }
    } else {
        cursor
    }
}

/// The cursor after a left click.
pub open spec fn clicked_cursor(slot: ItemStack, cursor: ItemStack) -> ItemStack {
    if slot.same_kind(cursor) {
        reduced(cursor, merged_count(slot, cursor))
    } else {
        slot
    }
}

/// Carries out a left click on a slot: merges stacks of the same kind, else exchanges
/// slot and cursor. No item comes or goes.
pub fn left_click_exchange(slot: ItemStack, cursor: ItemStack) -> (r: (ItemStack, ItemStack))
    requires
        slot.wf(),
        cursor.wf(),
    ensures
        r.0 == clicked_slot(slot, cursor),
        r.1 == clicked_cursor(slot, cursor),
        r.0.wf() && r.1.wf(),
        forall|item: i32, components: u64|
            #[trigger] r.0.count_of(item, components) + r.1.count_of(item, components)
                == slot.count_of(item, components) + cursor.count_of(item, components),
{
    if slot.item.is_some() && slot.item == cursor.item && slot.components == cursor.components {
        let moved: u8 = if slot.count >= slot.limit {
            0
        } else if slot.limit - slot.count < cursor.count {
            slot.limit - slot.count
        } else {
            cursor.count
        };
        let merged = ItemStack { count: slot.count + moved, ..slot };
        let rest = if moved >= cursor.count {
            ItemStack::empty()
        } else {
            ItemStack { count: cursor.count - moved, ..cursor }
        };
        (merged, rest)
    } else {
        (cursor, slot)
    }
}

/// A server-authoritative player inventory: its slots, the selected hotbar index, the
/// window state id, and the mirror of the player's game mode.
#[derive(Debug)]
pub struct PlayerInventory {
    /// Every window slot.
    pub slots: Vec<ItemStack>,
    /// The window state id, one more on every change (wrapping).
    pub state_id: i32,
    /// The selected hotbar index.
    pub selected: u8,
    /// The mirror of the player's game mode.
    pub game_mode: GameMode,
}

/// The next window state id.
pub open spec fn next_state_id(id: i32) -> i32 {
    if id == i32::MAX {
        i32::MIN
    } else {
        (id + 1) as i32
    }
}

/// How many items of a kind some slots hold.
pub open spec fn total(slots: Seq<ItemStack>, item: i32, components: u64) -> nat
    decreases slots.len(),
{
    if slots.len() == 0 {
        0
    } else {
        total(slots.drop_last(), item, components) + slots.last().count_of(item, components)
    }
}

/// Whether a slot takes the cursor in the first pass of a deposit.
pub open spec fn tops_up(slot: ItemStack, cursor: ItemStack) -> bool {
    cursor.item is Some && slot.same_kind(cursor)
}

/// Whether a slot takes the cursor in the second pass of a deposit.
pub open spec fn fills(slot: ItemStack, cursor: ItemStack) -> bool {
    cursor.item is Some && slot.item is None
}

/// Slots and cursor after a pass of a deposit over the slots before `end`: the first
/// pass tops up stacks of the same kind, the second fills empty slots.
pub open spec fn deposit_pass(
    slots: Seq<ItemStack>,
    cursor: ItemStack,
    end: int,
    top_up: bool,
) -> (Seq<ItemStack>, ItemStack)
    decreases end,
{
    if end <= MAIN_START {
        (slots, cursor)
    } else {
        let (before, carried) = deposit_pass(slots, cursor, end - 1, top_up);
        let slot = before[end - 1];
        if if top_up {
            tops_up(slot, carried)
        } else {
            fills(slot, carried)
        } {
            (before.update(end - 1, clicked_slot(slot, carried)), clicked_cursor(slot, carried))
        } else {
            (before, carried)
        }
    }
}

/// Slots and leftover after a deposit.
pub open spec fn deposited(slots: Seq<ItemStack>, cursor: ItemStack) -> (Seq<
    ItemStack,
>, ItemStack) {
    let (topped, carried) = deposit_pass(slots, cursor, PLAYER_WINDOW_END as int, true);
    deposit_pass(topped, carried, PLAYER_WINDOW_END as int, false)
}

/// Whether some slots are a whole window of stacks.
pub open spec fn is_window(slots: Seq<ItemStack>) -> bool {
    slots.len() == SLOT_COUNT && forall|i: int| 0 <= i < SLOT_COUNT ==> (#[trigger] slots[i]).wf()
}

impl PlayerInventory {
    /// Whether the inventory has all its slots and a valid selection.
    pub open spec fn wf(self) -> bool {
        is_window(self.slots@) && self.selected < HOTBAR_LEN
    }

    /// The slot of the held stack.
    pub open spec fn held_index(self) -> int {
        HOTBAR_START + self.selected
    }

    /// Builds an inventory with the starter kit in the hotbar.
    ///
    /// `kit` holds the registry number of each kit item; a missing one leaves its
    /// slot empty.
    pub fn with_creative_kit(game_mode: GameMode, kit: &Vec<Option<i32>>) -> (r: PlayerInventory)
        requires
            kit.len() == HOTBAR_LEN,
        ensures
            r.wf(),
            r.state_id == INITIAL_STATE_ID,
            r.selected == 0,
            r.game_mode == game_mode,
            forall|i: int|
                0 <= i < SLOT_COUNT ==> #[trigger] r.slots@[i] == if HOTBAR_START <= i
                    < HOTBAR_START + HOTBAR_LEN && kit@[i - HOTBAR_START] is Some {
                    ItemStack {
                        item: kit@[i - HOTBAR_START],
                        count: KIT_STACK_COUNT,
                        components: 0,
                        limit: KIT_STACK_COUNT,
                    }
                } else {
                    ItemStack::nothing()
                },
    {
        let mut slots: Vec<ItemStack> = Vec::new();
        let mut i: usize = 0;
        while i < SLOT_COUNT
            invariant
                i <= SLOT_COUNT,
                slots@.len() == i,
                kit@.len() == HOTBAR_LEN,
                forall|k: int|
                    0 <= k < i ==> #[trigger] slots@[k] == if HOTBAR_START <= k < HOTBAR_START
                        + HOTBAR_LEN && kit@[k - HOTBAR_START] is Some {
                        ItemStack {
                            item: kit@[k - HOTBAR_START],
                            count: KIT_STACK_COUNT,
                            components: 0,
                            limit: KIT_STACK_COUNT,
                        }
                    } else {
                        ItemStack::nothing()
                    },
            decreases SLOT_COUNT - i,
        {
            let mut stack = ItemStack::empty();
            if HOTBAR_START <= i && i < HOTBAR_START + HOTBAR_LEN as usize {
                if let Some(item) = kit[i - HOTBAR_START] {
                    stack = ItemStack::new(item, KIT_STACK_COUNT, 0, KIT_STACK_COUNT);
                }
            }
            slots.push(stack);
            i = i + 1;
        }
        PlayerInventory { slots, state_id: INITIAL_STATE_ID, selected: 0, game_mode }
    }

    /// Builds an inventory from persisted slots; a selection out of range becomes the
    /// first.
    pub fn from_persisted(game_mode: GameMode, selected: u8, slots: Vec<ItemStack>) -> (r:
        PlayerInventory)
        requires
            is_window(slots@),
        ensures
            r.wf(),
            r.slots == slots,
            r.state_id == INITIAL_STATE_ID,
            r.selected == if selected < HOTBAR_LEN {
                selected
            } else {
                0
            },
            r.game_mode == game_mode,
    {
        PlayerInventory {
            slots,
            state_id: INITIAL_STATE_ID,
            selected: if selected < HOTBAR_LEN {
                selected
            } else {
                0
            },
            game_mode,
        }
    }

    /// The current window state id.
    pub fn state_id(&self) -> (r: i32)
        ensures
            r == self.state_id,
    {
        self.state_id
    }

    /// The selected hotbar index.
    pub fn selected(&self) -> (r: u8)
        ensures
            r == self.selected,
    {
        self.selected
    }

    /// The mirror of the player's game mode.
    pub fn game_mode(&self) -> (r: GameMode)
        ensures
            r == self.game_mode,
    {
        self.game_mode
    }

    /// Updates the game-mode mirror.
    pub fn set_game_mode(&mut self, mode: GameMode)
        ensures
            *final(self) == (PlayerInventory { game_mode: mode, ..*old(self) }),
    {
        self.game_mode = mode;
    }

    /// The stack in slot `index`, or `None` if `index` is out of range.
    pub fn slot(&self, index: usize) -> (r: Option<ItemStack>)
        requires
            self.wf(),
        ensures
            r == if index < SLOT_COUNT {
                Some(self.slots@[index as int])
            } else {
                None
            },
    {
        if index < self.slots.len() {
            Some(self.slots[index])
        } else {
            None
        }
    }

    /// Puts a stack in slot `index` without a new state id; tells whether there is
    /// such a slot.
    pub fn set_slot(&mut self, index: usize, stack: ItemStack) -> (r: bool)
        requires
            old(self).wf(),
            stack.wf(),
        ensures
            final(self).wf(),
            r == (index < SLOT_COUNT),
            final(self).slots@ == if r {
                old(self).slots@.update(index as int, stack)
            } else {
                old(self).slots@
            },
            final(self).state_id == old(self).state_id,
            final(self).selected == old(self).selected,
            final(self).game_mode == old(self).game_mode,
    {
        if index < self.slots.len() {
            self.slots.set(index, stack);
            true
        } else {
            false
        }
    }

    /// The main-inventory and hotbar slots that a container window shows after its
    /// own, in order.
    pub fn window_slots(&self) -> (r: Vec<ItemStack>)
        requires
            self.wf(),
        ensures
            r@ == self.slots@.subrange(MAIN_START as int, PLAYER_WINDOW_END as int),
    {
        let mut out: Vec<ItemStack> = Vec::new();
        let mut i: usize = MAIN_START;
        while i < PLAYER_WINDOW_END
            invariant
                MAIN_START <= i <= PLAYER_WINDOW_END,
                self.wf(),
                out@ == self.slots@.subrange(MAIN_START as int, i as int),
            decreases PLAYER_WINDOW_END - i,
        {
            out.push(self.slots[i]);
            assert(out@ =~= self.slots@.subrange(MAIN_START as int, i + 1));
            i = i + 1;
        }
        out
    }

    /// Puts a carried stack back into the main inventory and hotbar: first onto
    /// stacks of the same kind, then into empty slots. Returns what did not fit.
    ///
    /// The state id is bumped when anything was stored.
    pub fn deposit(&mut self, cursor: ItemStack) -> (r: ItemStack)
        requires
            old(self).wf(),
            cursor.wf(),
        ensures
            final(self).wf(),
            r.wf(),
            (final(self).slots@, r) == deposited(old(self).slots@, cursor),
            final(self).state_id == if r.count < cursor.count {
                next_state_id(old(self).state_id)
            } else {
                old(self).state_id
            },
            final(self).selected == old(self).selected,
            final(self).game_mode == old(self).game_mode,
    {
        let carried = self.deposit_in_pass(cursor, true);
        let leftover = self.deposit_in_pass(carried, false);
        proof {
            let (topped, mid) = deposit_pass(
                old(self).slots@,
                cursor,
                PLAYER_WINDOW_END as int,
                true,
            );
            pass_conserves(old(self).slots@, cursor, PLAYER_WINDOW_END as int, true);
            pass_conserves(topped, mid, PLAYER_WINDOW_END as int, false);
        }
        if leftover.count < cursor.count {
            self.bump_state_id();
        }
        leftover
    }

    fn deposit_in_pass(&mut self, cursor: ItemStack, top_up: bool) -> (r: ItemStack)
        requires
            old(self).wf(),
            cursor.wf(),
        ensures
            final(self).wf(),
            r.wf(),
            (final(self).slots@, r) == deposit_pass(
                old(self).slots@,
                cursor,
                PLAYER_WINDOW_END as int,
                top_up,
            ),
            final(self).state_id == old(self).state_id,
            final(self).selected == old(self).selected,
            final(self).game_mode == old(self).game_mode,
    {
        let mut carried = cursor;
        let mut index: usize = MAIN_START;
        while index < PLAYER_WINDOW_END
            invariant
                MAIN_START <= index <= PLAYER_WINDOW_END,
                self.wf(),
                carried.wf(),
                (self.slots@, carried) == deposit_pass(
                    old(self).slots@,
                    cursor,
                    index as int,
                    top_up,
                ),
                self.state_id == old(self).state_id,
                self.selected == old(self).selected,
                self.game_mode == old(self).game_mode,
            decreases PLAYER_WINDOW_END - index,
        {
            let slot = self.slots[index];
            let takes = carried.item.is_some() && if top_up {
                slot.item.is_some() && slot.item == carried.item && slot.components
                    == carried.components
            } else {
                slot.item.is_none()
            };
            if takes {
                let (stored, rest) = left_click_exchange(slot, carried);
                self.slots.set(index, stored);
                carried = rest;
            }
            index = index + 1;
        }
        carried
    }

    /// The stack in the currently selected hotbar slot.
    pub fn held(&self) -> (r: ItemStack)
        requires
            self.wf(),
        ensures
            r == self.slots@[self.held_index()],
    {
        self.slots[HOTBAR_START + self.selected as usize]
    }

    /// Sets the selected hotbar index; tells whether it was a valid one.
    pub fn set_selected(&mut self, index: u8) -> (r: bool)
        requires
            old(self).wf(),
        ensures
            final(self).wf(),
            r == (index < HOTBAR_LEN),
            *final(self) == if r {
                PlayerInventory { selected: index, ..*old(self) }
            } else {
                *old(self)
            },
    {
        if index < HOTBAR_LEN {
            self.selected = index;
            true
        } else {
            false
        }
    }

    /// Stores a validated stack into slot `index` and bumps the state id; an index out
    /// of range changes nothing.
    pub fn set_creative_slot(&mut self, index: usize, stack: ItemStack)
        requires
            old(self).wf(),
            stack.wf(),
        ensures
            final(self).wf(),
            final(self).slots@ == if index < SLOT_COUNT {
                old(self).slots@.update(index as int, stack)
            } else {
                old(self).slots@
            },
            final(self).state_id == if index < SLOT_COUNT {
                next_state_id(old(self).state_id)
            } else {
                old(self).state_id
            },
            final(self).selected == old(self).selected,
            final(self).game_mode == old(self).game_mode,
    {
        if self.set_slot(index, stack) {
            self.bump_state_id();
        }
    }

    /// Advances the window state id (wrapping).
    pub fn bump_state_id(&mut self)
        ensures
            *final(self) == (PlayerInventory {
                state_id: next_state_id(old(self).state_id),
                ..*old(self)
            }),
    {
        self.state_id =
        if self.state_id == i32::MAX {
            i32::MIN
        } else {
            self.state_id + 1
        };
    }

    /// Whether a slot is part of the equipment that others see: the held stack, the
    /// off hand or worn armor.
    pub fn is_equipment_slot(&self, index: usize) -> (r: bool)
        requires
            self.wf(),
        ensures
            r == (index == self.held_index() || index == OFFHAND_SLOT || (ARMOR_START <= index
                < MAIN_START)),
    {
        index == HOTBAR_START + self.selected as usize || index == OFFHAND_SLOT || (ARMOR_START
            <= index && index < MAIN_START)
    }

    /// The body of the main-hand equipment update: the terminal entry of the main-hand
    /// slot, and the held stack as the item codec encodes it.
    pub fn main_hand_equipment_body(held: &Vec<u8>) -> (r: Vec<u8>)
        ensures
            r@ == seq![0u8] + held@,
    {
        let mut body: Vec<u8> = Vec::new();
        body.push(0);
        let mut i: usize = 0;
        assert(body@ =~= seq![0u8] + held@.take(0));
        while i < held.len()
            invariant
                i <= held@.len(),
                body@ == seq![0u8] + held@.take(i as int),
            decreases held@.len() - i,
        {
            body.push(held[i]);
            assert(body@ =~= seq![0u8] + held@.take(i + 1));
            i = i + 1;
        }
        assert(held@.take(i as int) =~= held@);
        body
    }
}

/// The names of the starter kit, in the order of the hotbar.
pub open spec fn kit_names() -> Seq<Seq<char>> {
    seq![
        "stone"@,
        "dirt"@,
        "oak_planks"@,
        "glass"@,
        "cobblestone"@,
        "bricks"@,
        "oak_log"@,
        "white_wool"@,
        "sand"@,
    ]
}

/// The starter kit fills the hotbar: stone is held first, sand stands last, and glass in the
/// fourth place.
pub proof fn the_kit_fills_the_hotbar()
    ensures
        kit_names().len() == 9,
        kit_names()[0] == "stone"@ && kit_names()[1] == "dirt"@ && kit_names()[2] == "oak_planks"@,
        kit_names()[3] == "glass"@ && kit_names()[4] == "cobblestone"@ && kit_names()[5]
            == "bricks"@,
        kit_names()[6] == "oak_log"@ && kit_names()[7] == "white_wool"@ && kit_names()[8]
            == "sand"@,
{
}

/// The names of the starter kit, one per hotbar slot.
pub fn hotbar_kit() -> (r: Vec<&'static str>)
    ensures
        Seq::new(r@.len(), |i: int| r@[i]@) == kit_names(),
        r.len() == HOTBAR_LEN,
        Seq::new(r@.len(), |i: int| r@[i]@) == seq![
            "stone"@,
            "dirt"@,
            "oak_planks"@,
            "glass"@,
            "cobblestone"@,
            "bricks"@,
            "oak_log"@,
            "white_wool"@,
            "sand"@,
        ],
{
    let mut kit: Vec<&'static str> = Vec::new();
    kit.push("stone");
    kit.push("dirt");
    kit.push("oak_planks");
    kit.push("glass");
    kit.push("cobblestone");
    kit.push("bricks");
    kit.push("oak_log");
    kit.push("white_wool");
    kit.push("sand");
    assert(Seq::new(kit@.len(), |i: int| kit@[i]@) =~= seq![
        "stone"@,
        "dirt"@,
        "oak_planks"@,
        "glass"@,
        "cobblestone"@,
        "bricks"@,
        "oak_log"@,
        "white_wool"@,
        "sand"@,
    ]);
    kit
}

/// Putting another stack into one slot changes the total by what the slot gains.
pub proof fn total_after_update(
    slots: Seq<ItemStack>,
    index: int,
    stack: ItemStack,
    item: i32,
    components: u64,
)
    requires
        0 <= index < slots.len(),
    ensures
        total(slots.update(index, stack), item, components) + slots[index].count_of(
            item,
            components,
        ) == total(slots, item, components) + stack.count_of(item, components),
    decreases slots.len(),
{
    let after = slots.update(index, stack);
    if index == slots.len() - 1 {
        assert(after.drop_last() =~= slots.drop_last());
    } else {
        total_after_update(slots.drop_last(), index, stack, item, components);
        assert(after.drop_last() =~= slots.drop_last().update(index, stack));
    }
}

/// A pass of a deposit neither makes nor loses items: of every kind, slots and cursor
/// together hold as many as before. It leaves a window a window, and the cursor never
/// grows or changes its kind.
proof fn pass_conserves(slots: Seq<ItemStack>, cursor: ItemStack, end: int, top_up: bool)
    requires
        is_window(slots),
        cursor.wf(),
        end <= PLAYER_WINDOW_END,
    ensures
        ({
            let (after, carried) = deposit_pass(slots, cursor, end, top_up);
            &&& is_window(after)
            &&& carried.wf()
            &&& carried.count <= cursor.count
            &&& carried.item is Some ==> carried.item == cursor.item && carried.components
                == cursor.components
            &&& forall|item: i32, components: u64|
                #[trigger] total(after, item, components) + carried.count_of(item, components)
                    == total(slots, item, components) + cursor.count_of(item, components)
        }),
    decreases end,
{
    if end > MAIN_START {
        pass_conserves(slots, cursor, end - 1, top_up);
        let (before, carried) = deposit_pass(slots, cursor, end - 1, top_up);
        let slot = before[end - 1];
        if if top_up {
            tops_up(slot, carried)
        } else {
            fills(slot, carried)
        } {
            let (after, rest) = deposit_pass(slots, cursor, end, top_up);
            assert forall|item: i32, components: u64|
                #[trigger] total(after, item, components) + rest.count_of(item, components)
                    == total(slots, item, components) + cursor.count_of(item, components) by {
                total_after_update(before, end - 1, clicked_slot(slot, carried), item, components);
            }
        }
    }
}

/// A deposit neither makes nor loses items: of every kind, inventory and cursor
/// together hold as many after it as before.
pub proof fn deposit_conserves_items(
    slots: Seq<ItemStack>,
    cursor: ItemStack,
    item: i32,
    components: u64,
)
    requires
        is_window(slots),
        cursor.wf(),
    ensures
        ({
            let (after, leftover) = deposited(slots, cursor);
            total(after, item, components) + leftover.count_of(item, components) == total(
                slots,
                item,
                components,
            ) + cursor.count_of(item, components)
        }),
{
    let (topped, carried) = deposit_pass(slots, cursor, PLAYER_WINDOW_END as int, true);
    pass_conserves(slots, cursor, PLAYER_WINDOW_END as int, true);
    pass_conserves(topped, carried, PLAYER_WINDOW_END as int, false);
}

proof fn pass_touches(slots: Seq<ItemStack>, cursor: ItemStack, end: int, top_up: bool, i: int)
    requires
        is_window(slots),
        cursor.wf(),
        end <= PLAYER_WINDOW_END,
        0 <= i < SLOT_COUNT,
    ensures
        ({
            let (after, carried) = deposit_pass(slots, cursor, end, top_up);
            &&& i < MAIN_START || i >= end ==> after[i] == slots[i]
            &&& after[i] != slots[i] ==> after[i].item == cursor.item && after[i].components
                == cursor.components && (slots[i].item is None || slots[i].same_kind(cursor))
            &&& slots[i].item is Some ==> after[i].item == slots[i].item && after[i].components
                == slots[i].components && after[i].count >= slots[i].count && after[i].limit
                == slots[i].limit
            &&& top_up && MAIN_START <= i < end && carried.item is Some && slots[i].same_kind(
                cursor,
            ) ==> after[i].count >= after[i].limit
            &&& !top_up && MAIN_START <= i < end && carried.item is Some ==> after[i].item is Some
        }),
    decreases end,
{
    if end > MAIN_START {
        pass_conserves(slots, cursor, end - 1, top_up);
        pass_touches(slots, cursor, end - 1, top_up, i);
        let (before, carried) = deposit_pass(slots, cursor, end - 1, top_up);
        let (after, rest) = deposit_pass(slots, cursor, end, top_up);
        let slot = before[end - 1];
        pass_touches(slots, cursor, end - 1, top_up, end - 1);
        assert(before[end - 1] == slots[end - 1]);
        if rest.item is Some {
            assert(carried.item is Some);
        }
    }
}

/// A deposit leaves every other slot alone: slots outside the main inventory and
/// hotbar, and slots with another item. Nothing is left over while an empty slot, or
/// room on a stack of the same kind, remains.
pub proof fn deposit_fills_what_it_may(slots: Seq<ItemStack>, cursor: ItemStack, i: int)
    requires
        is_window(slots),
        cursor.wf(),
        0 <= i < SLOT_COUNT,
    ensures
        ({
            let (after, leftover) = deposited(slots, cursor);
            &&& !(MAIN_START <= i < PLAYER_WINDOW_END) ==> after[i] == slots[i]
            &&& slots[i].item is Some && !slots[i].same_kind(cursor) ==> after[i] == slots[i]
            &&& leftover.item is Some && MAIN_START <= i < PLAYER_WINDOW_END ==> after[i].item is Some
            &&& leftover.item is Some && MAIN_START <= i < PLAYER_WINDOW_END && slots[i].same_kind(
                cursor,
            ) ==> after[i].count >= after[i].limit
        }),
{
    let end = PLAYER_WINDOW_END as int;
    let (topped, carried) = deposit_pass(slots, cursor, end, true);
    pass_conserves(slots, cursor, end, true);
    pass_conserves(topped, carried, end, false);
    pass_touches(slots, cursor, end, true, i);
    pass_touches(topped, carried, end, false, i);
}

proof fn nothing_is_deposited_of_nothing(
    slots: Seq<ItemStack>,
    cursor: ItemStack,
    end: int,
    top_up: bool,
)
    requires
        cursor.item is None,
    ensures
        deposit_pass(slots, cursor, end, top_up) == (slots, cursor),
    decreases end,
{
    if end > MAIN_START {
        nothing_is_deposited_of_nothing(slots, cursor, end - 1, top_up);
    }
}

/// A deposit tops up before it fills: an empty slot is used only where every stack of the same
/// kind is full.
pub proof fn deposit_tops_up_first(
    slots: Seq<ItemStack>,
    cursor: ItemStack,
    empty: int,
    stack: int,
)
    requires
        is_window(slots),
        cursor.wf(),
        MAIN_START <= empty < PLAYER_WINDOW_END,
        MAIN_START <= stack < PLAYER_WINDOW_END,
        slots[empty].item is None,
        deposited(slots, cursor).0[empty].item is Some,
        slots[stack].same_kind(cursor),
    ensures
        deposited(slots, cursor).0[stack].count >= slots[stack].limit,
{
    let end = PLAYER_WINDOW_END as int;
    let (topped, carried) = deposit_pass(slots, cursor, end, true);
    pass_conserves(slots, cursor, end, true);
    pass_touches(slots, cursor, end, true, stack);
    pass_keeps_empty_slots(slots, cursor, end, empty);
    pass_touches(topped, carried, end, false, stack);
    if carried.item is None {
        nothing_is_deposited_of_nothing(topped, carried, end, false);
    }
}

proof fn pass_keeps_empty_slots(slots: Seq<ItemStack>, cursor: ItemStack, end: int, i: int)
    requires
        is_window(slots),
        cursor.wf(),
        end <= PLAYER_WINDOW_END,
        0 <= i < SLOT_COUNT,
        slots[i].item is None,
    ensures
        deposit_pass(slots, cursor, end, true).0[i] == slots[i],
    decreases end,
{
    if end > MAIN_START {
        pass_keeps_empty_slots(slots, cursor, end - 1, i);
        pass_conserves(slots, cursor, end - 1, true);
    }
}

/// A left click moves stacks and nothing else. Stacks of the same kind are merged: the slot
/// takes as many as its limit leaves room for, up to all that is carried, and what is left is
/// carried on. Other stacks change places, so that a second click brings each back. An empty
/// cursor picks up the whole slot, and an empty slot takes the whole cursor.
pub proof fn left_clicks_move_stacks(slot: ItemStack, cursor: ItemStack)
    requires
        slot.wf(),
        cursor.wf(),
    ensures
        ({
            let stored = clicked_slot(slot, cursor);
            let carried = clicked_cursor(slot, cursor);
            &&& slot.item is Some && slot.item == cursor.item && slot.components
                == cursor.components ==> {
                &&& stored.item == slot.item && stored.components == slot.components
                &&& stored.count + carried.count == slot.count + cursor.count
                &&& stored.count >= slot.count
                &&& stored.count > slot.count ==> stored.count <= slot.limit
                &&& carried.count > 0 ==> carried.item == cursor.item && carried.components
                    == cursor.components && stored.count >= slot.limit
                &&& carried.count == 0 ==> carried.item is None
            }
            &&& !(slot.item is Some && slot.item == cursor.item && slot.components
                == cursor.components) ==> {
                &&& stored == cursor && carried == slot
                &&& clicked_slot(stored, carried) == slot
                &&& clicked_cursor(stored, carried) == cursor
            }
            &&& cursor.item is None ==> carried == slot && stored.item is None
            &&& slot.item is None ==> stored == cursor && carried.item is None
        }),
{
}

/// State ids count up and go round: no id is its own successor, and no two share one.
pub proof fn state_ids_count_up(a: i32, b: i32)
    ensures
        next_state_id(a) == a + 1 || (a == i32::MAX && next_state_id(a) == i32::MIN),
        next_state_id(a) == next_state_id(b) ==> a == b,
{
}

} // verus!
