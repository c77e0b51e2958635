//! Container windows: opening, clicking, resynchronising and closing them, and the
//! creative and hotbar packets that change the player's own window.
//!
//! The server works out every click from its own state and tells the client the
//! result; it never takes over what the client claims.

use crate::command::GameMode;
use crate::inventory::{
    clicked_cursor, clicked_slot, deposited, is_window, left_click_exchange, next_state_id, total,
    ItemStack, PlayerInventory, HOTBAR_LEN, INITIAL_STATE_ID, MAIN_START, PLAYER_WINDOW_END,
    SLOT_COUNT, WINDOW_ID,
};
use crate::math::BlockPos;
use crate::wire::{as_signed, big_endian_i16, decode_click_prefix, groups, is_var_int, signed_byte};
use vstd::prelude::*;

verus! {

/// The slots of a chest.
pub const CHEST_SLOTS: usize = 27;

/// The slots of a chest window: the chest's own and the player's.
pub const CHEST_WINDOW_SLOTS: usize = 63;

/// The last window number before they begin anew.
pub const LAST_WINDOW_ID: i32 = 100;

/// A slot of a chest window.
#[derive(Clone, Copy, Debug, PartialEq, Eq, Structural)]
pub enum WindowSlot {
    /// A slot of the chest.
    Chest(usize),
    /// A slot of the player inventory.
    Player(usize),
}

/// The slot that a number means in a chest window.
pub open spec fn slot_at(slot: int) -> Option<WindowSlot> {
    if 0 <= slot < CHEST_SLOTS {
        Some(WindowSlot::Chest(slot as usize))
    } else if CHEST_SLOTS <= slot < CHEST_WINDOW_SLOTS {
        Some(WindowSlot::Player((slot - CHEST_SLOTS + MAIN_START) as usize))
    } else {
        None
    }
}

/// An open container.
#[derive(Debug)]
pub struct OpenContainer {
    /// The window number.
    pub window_id: i32,
    /// Where the container stands.
    pub position: BlockPos,
    /// The container's slots, as last seen.
    pub chest_slots: Vec<ItemStack>,
    /// The carried stack.
    pub cursor: ItemStack,
    /// The window state id.
    pub state_id: i32,
}

impl OpenContainer {
    /// Finds the slot that a number means in a chest window: first the chest's own
    /// slots, then the player's main inventory and hotbar.
    pub fn classify_slot(slot: i16) -> (r: Option<WindowSlot>)
        ensures
            r == slot_at(slot as int),
            r matches Some(WindowSlot::Player(index)) ==> MAIN_START <= index < PLAYER_WINDOW_END,
    {
        if slot < 0 {
            None
        } else if (slot as usize) < CHEST_SLOTS {
            Some(WindowSlot::Chest(slot as usize))
        } else if (slot as usize) < CHEST_WINDOW_SLOTS {
            Some(WindowSlot::Player(slot as usize - CHEST_SLOTS + MAIN_START))
        } else {
            None
        }
    }

    /// The slots of the window: the container's own, then the player's.
    pub fn content(&self, inventory: &PlayerInventory) -> (r: Vec<ItemStack>)
        requires
            inventory.wf(),
        ensures
            r@ == self.chest_slots@ + inventory.slots@.subrange(
                MAIN_START as int,
                PLAYER_WINDOW_END as int,
            ),
    {
        let mut out: Vec<ItemStack> = Vec::new();
        let mut i: usize = 0;
        while i < self.chest_slots.len()
            invariant
                i <= self.chest_slots@.len(),
                out@ == self.chest_slots@.take(i as int),
            decreases self.chest_slots@.len() - i,
        {
            out.push(self.chest_slots[i]);
            assert(out@ =~= self.chest_slots@.take(i + 1));
            i = i + 1;
        }
        assert(out@ =~= self.chest_slots@);
        let mut own = inventory.window_slots();
        out.append(&mut own);
        out
    }
}

/// The windows of one connection.
#[derive(Debug)]
pub struct WindowState {
    /// The open container, if there is one.
    pub open: Option<OpenContainer>,
    /// The number of the last opened window.
    pub last_window_id: i32,
}

/// The number of the window after another: they count up and begin anew.
pub open spec fn window_after(id: i32) -> i32 {
    if id >= LAST_WINDOW_ID {
        1
    } else {
        (id + 1) as i32
    }
}

/// What a click asks for.
#[derive(Clone, Copy, Debug, PartialEq, Eq, Structural)]
pub enum ClickStep {
    /// Nothing: the click is on no window.
    Nothing,
    /// The player inventory is sent again, under a state id.
    ResyncInventory {
        /// The state id.
        state_id: i32,
    },
    /// The simulation is to carry the click out on the chest; then
    /// [`WindowState::adopt_chest_click`] takes its result over.
    AskChest {
        /// Where the chest stands.
        position: BlockPos,
        /// The slot.
        slot: usize,
        /// The carried stack.
        cursor: ItemStack,
    },
    /// The chest window is sent again.
    ResyncChest,
}

/// The slot that a click body clicks with the left button in the normal mode.
pub open spec fn left_clicked(rest: Seq<u8>) -> Option<WindowSlot> {
    if rest.len() >= 3 && signed_byte(rest[2]) == 0 && exists|n: int| #[trigger]
        is_var_int(rest.skip(3), n) && as_signed(groups(rest.skip(3), n)) == 0 {
        slot_at(big_endian_i16(rest[0], rest[1]))
    } else {
        None
    }
}

/// What a click on a slot of the open window asks for.
pub open spec fn click_step(target: Option<WindowSlot>, open: OpenContainer) -> ClickStep {
    match target {
        Some(WindowSlot::Chest(slot)) => ClickStep::AskChest {
            position: open.position,
            slot,
            cursor: open.cursor,
        },
        _ => ClickStep::ResyncChest,
    }
}

/// The player's slots after a click on a slot of the open window.
pub open spec fn slots_after_click(
    target: Option<WindowSlot>,
    slots: Seq<ItemStack>,
    cursor: ItemStack,
) -> Seq<ItemStack> {
    match target {
        Some(WindowSlot::Player(index)) => slots.update(
            index as int,
            clicked_slot(slots[index as int], cursor),
        ),
        _ => slots,
    }
}

/// The carried stack after a click on a slot of the open window.
pub open spec fn cursor_after_click(
    target: Option<WindowSlot>,
    slots: Seq<ItemStack>,
    cursor: ItemStack,
) -> ItemStack {
    match target {
        Some(WindowSlot::Player(index)) => clicked_cursor(slots[index as int], cursor),
        _ => cursor,
    }
}

/// A click changes one slot at most, and only one of the player's; of every kind as many items
/// are there as before. A click on the chest is handed to the simulation as it is, with the
/// open chest's place and the carried stack, and changes nothing here. The slot that a click
/// means is the one whose number stands in its first two bytes, and only a left click in the
/// normal mode means one.
pub proof fn clicks_touch_one_slot(
    rest: Seq<u8>,
    open: OpenContainer,
    slots: Seq<ItemStack>,
    other: int,
    item: i32,
    components: u64,
)
    requires
        is_window(slots),
        open.cursor.wf(),
        0 <= other < SLOT_COUNT,
    ensures
        ({
            let target = left_clicked(rest);
            let after = slots_after_click(target, slots, open.cursor);
            let carried = cursor_after_click(target, slots, open.cursor);
            &&& target != Some(WindowSlot::Player(other as usize)) ==> after[other] == slots[other]
            &&& after.len() == slots.len()
            &&& total(after, item, components) + carried.count_of(item, components) == total(
                slots,
                item,
                components,
            ) + open.cursor.count_of(item, components)
            &&& target matches Some(WindowSlot::Chest(slot)) ==> after == slots && carried
                == open.cursor && (click_step(target, open) matches ClickStep::AskChest {
                position,
                slot: asked,
                cursor,
            } && position == open.position && asked == slot && cursor == open.cursor)
            &&& target is None ==> after == slots && carried == open.cursor && click_step(
                target,
                open,
            ) is ResyncChest
            &&& target is Some ==> rest.len() >= 4 && rest[2] == 0 && slot_at(
                big_endian_i16(rest[0], rest[1]),
            ) == target
        }),
{
    let target = left_clicked(rest);
    if let Some(WindowSlot::Player(index)) = target {
        assert(9 <= index < 45);
        player_click_conserves_items(slots, open.cursor, index as int, item, components);
    }
    if target is Some {
        let n = choose|n: int| #[trigger]
            is_var_int(rest.skip(3), n) && as_signed(groups(rest.skip(3), n)) == 0;
        assert(rest.skip(3).len() >= 1);
    }
}

/// A closed container.
#[derive(Clone, Copy, Debug, PartialEq, Eq, Structural)]
pub struct ClosedContainer {
    /// What did not fit into the inventory.
    pub leftover: ItemStack,
    /// The state id under which the inventory is sent again.
    pub state_id: i32,
}

impl WindowState {
    /// Whether an open container has a number of its own and a carried stack.
    pub open spec fn wf(self) -> bool {
        &&& 0 <= self.last_window_id <= LAST_WINDOW_ID
        &&& self.open matches Some(open) ==> open.cursor.wf() && 1 <= open.window_id
            <= LAST_WINDOW_ID
    }

    /// Whether a number is that of the open container.
    pub open spec fn shows(self, window_id: i32) -> bool {
        self.open matches Some(open) && open.window_id == window_id
    }

    /// No window.
    pub fn new() -> (r: WindowState)
        ensures
            r.wf(),
            r.open is None,
            r.last_window_id == 0,
    {
        WindowState { open: None, last_window_id: 0 }
    }

    /// Handles a click.
    ///
    /// On the open chest window a left click in the normal mode is carried out: on a
    /// player slot here and now, on a chest slot by the simulation. Any other click,
    /// and any body that does not parse, changes nothing; the window is sent again all
    /// the same. A click on the player's own window sends that again.
    pub fn handle_window_click(
        &mut self,
        inventory: &mut PlayerInventory,
        window_id: i32,
        rest: &[u8],
    ) -> (r: ClickStep)
        requires
            old(self).wf(),
            old(inventory).wf(),
        ensures
            final(self).wf(),
            final(inventory).wf(),
            final(inventory).selected == old(inventory).selected,
            final(inventory).game_mode == old(inventory).game_mode,
            final(self).last_window_id == old(self).last_window_id,
            if !old(self).shows(window_id) {
                &&& *final(self) == *old(self)
                &&& final(inventory).slots@ == old(inventory).slots@
                &&& window_id == WINDOW_ID ==> {
                    &&& final(inventory).state_id == next_state_id(old(inventory).state_id)
                    &&& r == (ClickStep::ResyncInventory { state_id: final(inventory).state_id })
                }
                &&& window_id != WINDOW_ID ==> {
                    &&& final(inventory).state_id == old(inventory).state_id
                    &&& r is Nothing
                }
            } else {
                let before = old(self).open->Some_0;
                &&& final(inventory).state_id == old(inventory).state_id
                &&& final(self).open is Some
                &&& final(self).open->Some_0.window_id == before.window_id
                &&& final(self).open->Some_0.position == before.position
                &&& final(self).open->Some_0.chest_slots == before.chest_slots
                &&& final(self).open->Some_0.state_id == before.state_id
                &&& r == click_step(left_clicked(rest@), before)
                &&& final(inventory).slots@ == slots_after_click(
                    left_clicked(rest@),
                    old(inventory).slots@,
                    before.cursor,
                )
                &&& final(self).open->Some_0.cursor == cursor_after_click(
                    left_clicked(rest@),
                    old(inventory).slots@,
                    before.cursor,
                )
                &&& match left_clicked(rest@) {
                    Some(WindowSlot::Player(index)) => {
                        let slot = old(inventory).slots@[index as int];
                        &&& r is ResyncChest
                        &&& final(inventory).slots@ == old(inventory).slots@.update(
                            index as int,
                            clicked_slot(slot, before.cursor),
                        )
                        &&& final(self).open->Some_0.cursor == clicked_cursor(slot, before.cursor)
                    },
                    Some(WindowSlot::Chest(slot)) => {
                        &&& r == (ClickStep::AskChest {
                            position: before.position,
                            slot,
                            cursor: before.cursor,
                        })
                        &&& final(inventory).slots@ == old(inventory).slots@
                        &&& final(self).open->Some_0.cursor == before.cursor
                    },
                    None => {
                        &&& r is ResyncChest
                        &&& final(inventory).slots@ == old(inventory).slots@
                        &&& final(self).open->Some_0.cursor == before.cursor
                    },
                }
            },
    {
        let shown = match &self.open {
            Some(open) => open.window_id == window_id,
            None => false,
        };
        if !shown {
            if window_id != WINDOW_ID {
                return ClickStep::Nothing;
            }
            inventory.bump_state_id();
            return ClickStep::ResyncInventory { state_id: inventory.state_id };
        }
        self.apply_chest_window_click(inventory, rest)
    }

    /// Carries out what is safe of a click on the open chest window: a left click in the
    /// normal mode.
    pub fn apply_chest_window_click(&mut self, inventory: &mut PlayerInventory, rest: &[u8]) -> (r:
        ClickStep)
        requires
            old(self).wf(),
            old(self).open is Some,
            old(inventory).wf(),
        ensures
            final(self).wf(),
            final(inventory).wf(),
            final(inventory).selected == old(inventory).selected,
            final(inventory).game_mode == old(inventory).game_mode,
            final(inventory).state_id == old(inventory).state_id,
            final(self).last_window_id == old(self).last_window_id,
            final(self).open is Some,
            ({
                let before = old(self).open->Some_0;
                let after = final(self).open->Some_0;
                &&& after.window_id == before.window_id
                &&& after.position == before.position
                &&& after.chest_slots == before.chest_slots
                &&& after.state_id == before.state_id
                &&& r == click_step(left_clicked(rest@), before)
                &&& final(inventory).slots@ == slots_after_click(
                    left_clicked(rest@),
                    old(inventory).slots@,
                    before.cursor,
                )
                &&& after.cursor == cursor_after_click(
                    left_clicked(rest@),
                    old(inventory).slots@,
                    before.cursor,
                )
                &&& match left_clicked(rest@) {
                    Some(WindowSlot::Player(index)) => {
                        let slot = old(inventory).slots@[index as int];
                        &&& r is ResyncChest
                        &&& final(inventory).slots@ == old(inventory).slots@.update(
                            index as int,
                            clicked_slot(slot, before.cursor),
                        )
                        &&& after.cursor == clicked_cursor(slot, before.cursor)
                    },
                    Some(WindowSlot::Chest(slot)) => {
                        &&& r == (ClickStep::AskChest {
                            position: before.position,
                            slot,
                            cursor: before.cursor,
                        })
                        &&& final(inventory).slots@ == old(inventory).slots@
                        &&& after.cursor == before.cursor
                    },
                    None => {
                        &&& r is ResyncChest
                        &&& final(inventory).slots@ == old(inventory).slots@
                        &&& after.cursor == before.cursor
                    },
                }
            }),
    {
        let (slot, button, mode) = match decode_click_prefix(rest) {
            Some(prefix) => prefix,
            None => {
                assert(left_clicked(rest@) is None);
                return ClickStep::ResyncChest;
            },
        };
        proof {
            let n = choose|n: int| #[trigger]
                is_var_int(rest@.skip(3), n) && mode == as_signed(groups(rest@.skip(3), n));
            assert forall|m: int| #[trigger] is_var_int(rest@.skip(3), m) implies m == n by {
                crate::wire::var_int_length_is_unique(rest@.skip(3), m, n);
            }
        }
        if mode != 0 || button != 0 {
            assert(left_clicked(rest@) is None);
            return ClickStep::ResyncChest;
        }
        let target = OpenContainer::classify_slot(slot);
        assert(left_clicked(rest@) == target);
        match target {
            None => ClickStep::ResyncChest,
            Some(WindowSlot::Chest(chest_slot)) => match &self.open {
                Some(open) => ClickStep::AskChest {
                    position: open.position,
                    slot: chest_slot,
                    cursor: open.cursor,
                },
                None => ClickStep::ResyncChest,
            },
            Some(WindowSlot::Player(index)) => {
                let taken = self.open.take();
                if let Some(mut open) = taken {
                    let (stored, carried) = left_click_exchange(
                        inventory.slots[index],
                        open.cursor,
                    );
                    inventory.slots.set(index, stored);
                    open.cursor = carried;
                    self.open = Some(open);
                }
                ClickStep::ResyncChest
            },
        }
    }

    /// The open container once the simulation has answered a click.
    pub open spec fn adopted(
        open: Option<OpenContainer>,
        outcome: Option<(ItemStack, Vec<ItemStack>)>,
    ) -> Option<OpenContainer> {
        match (outcome, open) {
            (Some((cursor, slots)), Some(open)) => Some(
                OpenContainer { cursor, chest_slots: slots, ..open },
            ),
            _ => open,
        }
    }

    /// A container that was just opened.
    pub open spec fn opened(window_id: i32, position: BlockPos, slots: Vec<ItemStack>) -> OpenContainer {
        OpenContainer {
            window_id,
            position,
            chest_slots: slots,
            cursor: ItemStack::nothing(),
            state_id: INITIAL_STATE_ID,
        }
    }

    /// Takes over what the simulation made of a click on the chest; `None` keeps the
    /// carried stack.
    pub fn adopt_chest_click(&mut self, outcome: Option<(ItemStack, Vec<ItemStack>)>)
        requires
            old(self).wf(),
            outcome matches Some((cursor, _)) ==> cursor.wf(),
        ensures
            final(self).wf(),
            final(self).last_window_id == old(self).last_window_id,
            final(self).open == Self::adopted(old(self).open, outcome),
            match (outcome, old(self).open) {
                (Some((cursor, slots)), Some(open)) => final(self).open == Some(
                    OpenContainer { cursor, chest_slots: slots, ..open },
                ),
                _ => final(self).open == old(self).open,
            },
    {
        if let Some((cursor, slots)) = outcome {
            let taken = self.open.take();
            if let Some(open) = taken {
                self.open =
                Some(
                    OpenContainer {
                        window_id: open.window_id,
                        position: open.position,
                        chest_slots: slots,
                        cursor,
                        state_id: open.state_id,
                    },
                );
            }
        }
    }

    /// Prepares to send the open window again: bumps its state id, and returns the
    /// window number and state id to send it under.
    pub fn resync_chest_window(&mut self) -> (r: Option<(i32, i32)>)
        requires
            old(self).wf(),
        ensures
            final(self).wf(),
            final(self).last_window_id == old(self).last_window_id,
            match old(self).open {
                None => r is None && final(self).open is None,
                Some(open) => {
                    &&& r == Some((open.window_id, next_state_id(open.state_id)))
                    &&& final(self).open == Some(
                        OpenContainer { state_id: next_state_id(open.state_id), ..open },
                    )
                },
            },
    {
        let taken = self.open.take();
        match taken {
            None => None,
            Some(mut open) => {
                open.state_id =
                if open.state_id == i32::MAX {
                    i32::MIN
                } else {
                    open.state_id + 1
                };
                let id: (i32, i32) = (open.window_id, open.state_id);
                self.open = Some(open);
                Some(id)
            },
        }
    }

    /// Closes the open container, if there is one: its carried stack goes back into the
    /// inventory, which is to be sent again under the returned state id.
    pub fn close_open_container(&mut self, inventory: &mut PlayerInventory) -> (r: Option<
        ClosedContainer,
    >)
        requires
            old(self).wf(),
            old(inventory).wf(),
        ensures
            final(self).wf(),
            final(inventory).wf(),
            final(self).open is None,
            final(self).last_window_id == old(self).last_window_id,
            final(inventory).selected == old(inventory).selected,
            final(inventory).game_mode == old(inventory).game_mode,
            match old(self).open {
                None => r is None && *final(inventory) == *old(inventory),
                Some(open) => {
                    let (slots, leftover) = deposited(old(inventory).slots@, open.cursor);
                    &&& final(inventory).slots@ == slots
                    &&& r == Some(
                        ClosedContainer { leftover, state_id: final(inventory).state_id },
                    )
                    &&& final(inventory).state_id == if leftover.count < open.cursor.count {
                        next_state_id(next_state_id(old(inventory).state_id))
                    } else {
                        next_state_id(old(inventory).state_id)
                    }
                },
            },
    {
        let taken = self.open.take();
        match taken {
            None => None,
            Some(open) => {
                let leftover = inventory.deposit(open.cursor);
                inventory.bump_state_id();
                Some(ClosedContainer { leftover, state_id: inventory.state_id })
            },
        }
    }

    /// Opens a chest: a container that is still open is closed first, so that its
    /// carried stack is kept. Returns the closed container and the new window's number.
    pub fn open_chest_window(
        &mut self,
        inventory: &mut PlayerInventory,
        position: BlockPos,
        slots: Vec<ItemStack>,
    ) -> (r: (Option<ClosedContainer>, i32))
        requires
            old(self).wf(),
            old(inventory).wf(),
        ensures
            final(self).wf(),
            final(inventory).wf(),
            r.1 == window_after(old(self).last_window_id),
            r.1 != WINDOW_ID,
            final(self).last_window_id == r.1,
            final(self).open == Some(Self::opened(r.1, position, slots)),
            final(self).open == Some(
                OpenContainer {
                    window_id: r.1,
                    position,
                    chest_slots: slots,
                    cursor: ItemStack::nothing(),
                    state_id: INITIAL_STATE_ID,
                },
            ),
            final(inventory).selected == old(inventory).selected,
            final(inventory).game_mode == old(inventory).game_mode,
            match old(self).open {
                None => r.0 is None && *final(inventory) == *old(inventory),
                Some(open) => {
                    let (kept, leftover) = deposited(old(inventory).slots@, open.cursor);
                    &&& final(inventory).slots@ == kept
                    &&& r.0 == Some(
                        ClosedContainer { leftover, state_id: final(inventory).state_id },
                    )
                    &&& final(inventory).state_id == if leftover.count < open.cursor.count {
                        next_state_id(next_state_id(old(inventory).state_id))
                    } else {
                        next_state_id(old(inventory).state_id)
                    }
                },
            },
    {
        let closed = self.close_open_container(inventory);
        let window_id: i32 = if self.last_window_id >= LAST_WINDOW_ID {
            1
        } else {
            self.last_window_id + 1
        };
        self.last_window_id = window_id;
        self.open =
        Some(
            OpenContainer {
                window_id,
                position,
                chest_slots: slots,
                cursor: ItemStack::empty(),
                state_id: INITIAL_STATE_ID,
            },
        );
        (closed, window_id)
    }
}

/// A click on a player slot neither makes nor loses items: of every kind, inventory
/// and cursor together hold as many after it as before.
pub proof fn player_click_conserves_items(
    slots: Seq<ItemStack>,
    cursor: ItemStack,
    index: int,
    item: i32,
    components: u64,
)
    requires
        is_window(slots),
        cursor.wf(),
        0 <= index < SLOT_COUNT,
    ensures
        ({
            let slot = slots[index];
            let after = slots.update(index, clicked_slot(slot, cursor));
            total(after, item, components) + clicked_cursor(slot, cursor).count_of(item, components)
                == total(slots, item, components) + cursor.count_of(item, components)
        }),
{
    crate::inventory::total_after_update(
        slots,
        index,
        clicked_slot(slots[index], cursor),
        item,
        components,
    );
}

/// What a creative-slot packet does.
#[derive(Clone, Copy, Debug, PartialEq, Eq, Structural)]
pub enum CreativeStep {
    /// Nothing.
    Ignored,
    /// The slot is echoed under a state id, and where others see it the player's
    /// equipment is shown again.
    Stored {
        /// The slot.
        index: usize,
        /// The state id.
        state_id: i32,
        /// Whether the equipment is shown again.
        equipment: bool,
    },
}

/// Whether a slot is part of the equipment that others see, with a selected hotbar slot.
pub open spec fn shows_equipment(selected: int, slot: int) -> bool {
    slot == 36 + selected || slot == 45 || 5 <= slot < 9
}

/// The step of a creative-slot packet, and the slots after it.
pub open spec fn creative_outcome(inventory: PlayerInventory, slot: int, stack: ItemStack) -> (
    CreativeStep,
    Seq<ItemStack>,
) {
    if inventory.game_mode is Creative && 0 <= slot < SLOT_COUNT {
        (
            CreativeStep::Stored {
                index: slot as usize,
                state_id: next_state_id(inventory.state_id),
                equipment: shows_equipment(inventory.selected as int, slot),
            },
            inventory.slots@.update(slot, stack),
        )
    } else {
        (CreativeStep::Ignored, inventory.slots@)
    }
}

/// Only a creative player fills a slot, and only one that exists; what was sent is then in that
/// very slot, every other slot is as it was, and the slot is echoed under a new state id.
/// Others are shown the equipment again exactly where the slot is the held one, the off hand or
/// one of the four armor slots.
pub proof fn creative_slots_hold_what_was_sent(
    inventory: PlayerInventory,
    slot: int,
    stack: ItemStack,
    other: int,
)
    requires
        inventory.wf(),
        0 <= other < SLOT_COUNT,
    ensures
        ({
            let (step, after) = creative_outcome(inventory, slot, stack);
            &&& step is Stored == (inventory.game_mode is Creative && 0 <= slot < 46)
            &&& step matches CreativeStep::Stored { index, state_id, equipment } ==> {
                &&& index == slot && after[slot] == stack
                &&& state_id != inventory.state_id
                &&& equipment == (slot == inventory.held_index() || slot == 45 || slot == 5 || slot
                    == 6 || slot == 7 || slot == 8)
            }
            &&& other != slot || step is Ignored ==> after[other] == inventory.slots@[other]
        }),
{
}

/// Handles a creative-slot packet with its validated item: only a creative player may
/// fill a slot, and only one that exists.
pub fn handle_set_creative_slot(
    inventory: &mut PlayerInventory,
    slot: i16,
    stack: ItemStack,
) -> (r: CreativeStep)
    requires
        old(inventory).wf(),
        stack.wf(),
    ensures
        final(inventory).wf(),
        (r, final(inventory).slots@) == creative_outcome(*old(inventory), slot as int, stack),
        if old(inventory).game_mode is Creative && 0 <= slot < SLOT_COUNT {
            &&& final(inventory).slots@ == old(inventory).slots@.update(slot as int, stack)
            &&& final(inventory).state_id == next_state_id(old(inventory).state_id)
            &&& final(inventory).selected == old(inventory).selected
            &&& final(inventory).game_mode == old(inventory).game_mode
            &&& r == (CreativeStep::Stored {
                index: slot as usize,
                state_id: final(inventory).state_id,
                equipment: slot == old(inventory).held_index() || slot == 45 || 5 <= slot < 9,
            })
        } else {
            *final(inventory) == *old(inventory) && r is Ignored
        },
{
    if inventory.game_mode != GameMode::Creative {
        return CreativeStep::Ignored;
    }
    if slot < 0 || slot as usize >= SLOT_COUNT {
        return CreativeStep::Ignored;
    }
    let index: usize = slot as usize;
    inventory.set_creative_slot(index, stack);
    CreativeStep::Stored {
        index,
        state_id: inventory.state_id,
        equipment: inventory.is_equipment_slot(index),
    }
}

/// The selected slot after a held-item packet.
pub open spec fn selected_after(selected: u8, slot: int) -> u8 {
    if 0 <= slot < HOTBAR_LEN {
        slot as u8
    } else {
        selected
    }
}

/// A held-item packet selects the slot that it names, where there is one among the nine, and
/// changes nothing otherwise; asking for it again changes nothing more.
pub proof fn held_items_are_selected(selected: u8, slot: int)
    requires
        selected < 9,
    ensures
        selected_after(selected, slot) < 9,
        0 <= slot <= 8 ==> selected_after(selected, slot) == slot,
        !(0 <= slot <= 8) ==> selected_after(selected, slot) == selected,
        selected_after(selected_after(selected, slot), slot) == selected_after(selected, slot),
{
}

/// Handles a held-item packet: selects a valid hotbar slot, and tells whether the
/// selection changed, so that the new equipment is shown.
pub fn handle_set_held_item(inventory: &mut PlayerInventory, slot: i16) -> (r: bool)
    requires
        old(inventory).wf(),
    ensures
        final(inventory).wf(),
        final(inventory).selected == selected_after(old(inventory).selected, slot as int),
        r == (final(inventory).selected != old(inventory).selected),
        r == (0 <= slot < HOTBAR_LEN && slot != old(inventory).selected),
        *final(inventory) == if 0 <= slot < HOTBAR_LEN {
            PlayerInventory { selected: slot as u8, ..*old(inventory) }
        } else {
            *old(inventory)
        },
{
    if slot < 0 || slot > 255 {
        return false;
    }
    let before: u8 = inventory.selected;
    inventory.set_selected(slot as u8) && before != slot as u8
}

/// A number of a chest window means the stack that the window shows there: the window lists
/// the chest's slots and then the player's main inventory and hotbar, and the slot that a
/// number means is the one listed at it. No other number means anything.
pub proof fn windows_show_what_their_numbers_mean(
    chest: Seq<ItemStack>,
    slots: Seq<ItemStack>,
    slot: int,
)
    requires
        chest.len() == 27,
        is_window(slots),
    ensures
        ({
            let shown = chest + slots.subrange(9, 45);
            &&& slot_at(slot) is Some == (0 <= slot < shown.len())
            &&& slot_at(slot) matches Some(WindowSlot::Chest(index)) ==> index < 27 && shown[slot]
                == chest[index as int]
            &&& slot_at(slot) matches Some(WindowSlot::Player(index)) ==> 9 <= index < 45
                && shown[slot] == slots[index as int]
            &&& 0 <= slot < 27 ==> slot_at(slot) == Some(WindowSlot::Chest(slot as usize))
            &&& 27 <= slot < 63 ==> slot_at(slot) matches Some(WindowSlot::Player(_))
        }),
{
    let shown = chest + slots.subrange(9, 45);
    if 27 <= slot < 63 {
        assert(shown[slot] == slots.subrange(9, 45)[slot - 27]);
    }
}

/// Two numbers of a chest window never mean the same slot.
pub proof fn window_numbers_are_distinct(a: int, b: int)
    requires
        slot_at(a) is Some,
        slot_at(a) == slot_at(b),
    ensures
        a == b,
{
}

/// A window's number is never that of the player's own window, nor that of the one before;
/// the numbers go round.
pub proof fn window_numbers_go_round(id: i32)
    requires
        0 <= id <= 100,
    ensures
        1 <= window_after(id) <= 100,
        window_after(id) != id,
        window_after(id) == id + 1 || (id == 100 && window_after(id) == 1),
{
}

/// What the simulation made of a click is taken over as it is: the carried stack and the
/// chest's slots are those that it answered, and the window stays the same one. Without an
/// answer nothing changes, so that no item is lost; and nothing is opened by an answer.
pub proof fn answers_are_taken_over(
    open: OpenContainer,
    cursor: ItemStack,
    slots: Vec<ItemStack>,
    outcome: Option<(ItemStack, Vec<ItemStack>)>,
)
    ensures
        WindowState::adopted(Some(open), None) == Some(open),
        WindowState::adopted(None, outcome) is None,
        WindowState::adopted(Some(open), Some((cursor, slots))) matches Some(after) && after.cursor
            == cursor && after.chest_slots == slots && after.window_id == open.window_id
            && after.position == open.position && after.state_id == open.state_id,
{
}

/// A chest that was just opened shows its own slots where it stands, with nothing carried: a
/// click on it asks the simulation about that very chest.
pub proof fn opened_chests_are_the_clicked_ones(
    window_id: i32,
    position: BlockPos,
    slots: Vec<ItemStack>,
    slot: usize,
)
    ensures
        ({
            let open = WindowState::opened(window_id, position, slots);
            &&& open.window_id == window_id && open.position == position && open.chest_slots == slots
            &&& open.cursor.item is None && open.cursor.count == 0
            &&& click_step(Some(WindowSlot::Chest(slot)), open) == (ClickStep::AskChest {
                position,
                slot,
                cursor: ItemStack::nothing(),
            })
        }),
{
}

} // verus!
