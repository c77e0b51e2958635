//! The player inventory and container windows.

use ferrumc_app::command::GameMode;
use ferrumc_app::ieee754::Single;
use ferrumc_app::inventory::{
    hotbar_kit, left_click_exchange, ItemStack, PlayerInventory, HOTBAR_START, INITIAL_STATE_ID,
    KIT_STACK_COUNT, SLOT_COUNT,
};
use ferrumc_app::math::BlockPos;
use ferrumc_app::play::mirror_game_mode_change;
use ferrumc_app::sim_command::GAME_EVENT_CHANGE_GAMEMODE;
use ferrumc_app::window::{
    handle_set_creative_slot, handle_set_held_item, ClickStep, CreativeStep, OpenContainer,
    WindowSlot, WindowState,
};
use ferrumc_app::wire::{decode_click_prefix, read_var_int};

/// Stone is item id `1`, glass `195`, sand `59` in the pinned registry.
const STONE_ITEM: i32 = 1;
const GLASS_ITEM: i32 = 195;
const SAND_ITEM: i32 = 59;

/// The kit's registry numbers; only the pinned ones matter here.
fn kit() -> Vec<Option<i32>> {
    hotbar_kit()
        .iter()
        .enumerate()
        .map(|(place, name)| match *name {
            "stone" => Some(STONE_ITEM),
            "glass" => Some(GLASS_ITEM),
            "sand" => Some(SAND_ITEM),
            _ => Some(1000 + place as i32),
        })
        .collect()
}

fn with_kit(mode: GameMode) -> PlayerInventory {
    PlayerInventory::with_creative_kit(mode, &kit())
}

fn stack(item: i32, count: u8) -> ItemStack {
    ItemStack::new(item, count, 0, 64)
}

fn item_id_at(inv: &PlayerInventory, slot: usize) -> Option<i32> {
    inv.slot(slot).and_then(|stack| stack.item)
}

#[test]
fn creative_kit_populates_only_the_hotbar() {
    let inv = with_kit(GameMode::Creative);
    assert_eq!(inv.state_id(), INITIAL_STATE_ID);
    assert_eq!(inv.selected(), 0);
    // The hotbar carries the kit; the first and last entries pin the layout.
    assert_eq!(item_id_at(&inv, 36), Some(STONE_ITEM));
    assert_eq!(item_id_at(&inv, 44), Some(SAND_ITEM));
    assert_eq!(inv.slot(36).unwrap().count, KIT_STACK_COUNT);
    // Non-hotbar slots stay empty.
    for slot in 0..HOTBAR_START {
        assert!(inv.slot(slot).unwrap().item.is_none(), "slot {slot}");
    }
    assert!(inv.slot(45).unwrap().item.is_none());
}

#[test]
fn held_follows_selection_and_rejects_out_of_range() {
    let mut inv = with_kit(GameMode::Creative);
    // Default selection is hotbar slot 0 -> inventory slot 36 (stone).
    assert_eq!(inv.held().item, Some(STONE_ITEM));
    // Selecting hotbar index 3 -> inventory slot 39 (glass).
    assert!(inv.set_selected(3));
    assert_eq!(inv.held().item, Some(GLASS_ITEM));
    // An out-of-range index is ignored and leaves the selection untouched.
    assert!(!inv.set_selected(9));
    assert_eq!(inv.selected(), 3);
    assert_eq!(inv.held().item, Some(GLASS_ITEM));
}

#[test]
fn set_creative_slot_stores_and_bumps_state() {
    let mut inv = with_kit(GameMode::Creative);
    let before = inv.state_id();
    let glass = stack(GLASS_ITEM, 64);
    inv.set_creative_slot(9, glass);
    assert_eq!(item_id_at(&inv, 9), Some(GLASS_ITEM));
    assert_eq!(inv.state_id(), before + 1);
    // An out-of-range index is a no-op (no store, no bump).
    inv.set_creative_slot(SLOT_COUNT, ItemStack::empty());
    assert_eq!(inv.state_id(), before + 1);
}

#[test]
fn deposit_merges_then_fills_empties_and_conserves() {
    let mut inv = with_kit(GameMode::Creative);
    // Seed main slot 9 with 40 stone; the hotbar already holds a 64 stone (36).
    inv.set_creative_slot(9, stack(STONE_ITEM, 40));
    let before = total_stone(&inv) + 30; // we will deposit 30 more stone

    // Depositing 30 stone tops up slot 9 (40 -> 64) and leaves 6 for an empty slot.
    let leftover = inv.deposit(stack(STONE_ITEM, 30));
    assert!(leftover.item.is_none(), "all 30 stone were stored");
    assert_eq!(total_stone(&inv), before, "no stone duplicated or lost");
    assert_eq!(inv.slot(9).unwrap().count, 64, "slot 9 topped to max");
    assert_eq!(inv.slot(10).unwrap(), stack(STONE_ITEM, 6));
}

#[test]
fn deposit_of_empty_cursor_is_a_noop() {
    let mut inv = with_kit(GameMode::Creative);
    let before = inv.state_id();
    let leftover = inv.deposit(ItemStack::empty());
    assert!(leftover.item.is_none());
    assert_eq!(
        inv.state_id(),
        before,
        "an empty deposit does not bump state"
    );
}

/// Total count of stone across the whole inventory.
fn total_stone(inv: &PlayerInventory) -> u32 {
    (0..SLOT_COUNT)
        .filter_map(|i| inv.slot(i))
        .filter(|s| s.item == Some(STONE_ITEM))
        .map(|s| u32::from(s.count))
        .sum()
}

#[test]
fn game_mode_mirror_round_trips() {
    let mut inv = with_kit(GameMode::Creative);
    assert_eq!(inv.game_mode(), GameMode::Creative);
    inv.set_game_mode(GameMode::Survival);
    assert_eq!(inv.game_mode(), GameMode::Survival);
}

#[test]
fn a_full_inventory_leaves_the_deposit_and_the_state_id() {
    let slots = vec![stack(GLASS_ITEM, 64); SLOT_COUNT];
    let mut inv = PlayerInventory::from_persisted(GameMode::Survival, 12, slots);
    assert_eq!(inv.selected(), 0, "a selection out of range becomes the first");
    let before = inv.state_id();
    assert_eq!(inv.deposit(stack(STONE_ITEM, 5)), stack(STONE_ITEM, 5));
    assert_eq!(inv.state_id(), before, "nothing was stored");
    assert_eq!(inv.deposit(stack(GLASS_ITEM, 5)), stack(GLASS_ITEM, 5));
    assert_eq!(total_stone(&inv), 0);
}

#[test]
fn components_keep_stacks_apart() {
    let plain = stack(STONE_ITEM, 10);
    let named = ItemStack::new(STONE_ITEM, 10, 7, 64);
    assert_eq!(left_click_exchange(plain, named), (named, plain));
    assert_eq!(left_click_exchange(plain, stack(STONE_ITEM, 60)), (
        stack(STONE_ITEM, 64),
        stack(STONE_ITEM, 6)
    ));
    assert_eq!(left_click_exchange(ItemStack::empty(), plain), (plain, ItemStack::empty()));
    assert_eq!(left_click_exchange(plain, ItemStack::empty()), (ItemStack::empty(), plain));
    // A stack beyond its limit takes nothing more.
    let heap = ItemStack::new(STONE_ITEM, 20, 0, 16);
    assert_eq!(left_click_exchange(heap, plain), (heap, plain));
}

#[test]
fn state_ids_wrap() {
    let mut inv = with_kit(GameMode::Creative);
    inv.state_id = i32::MAX;
    inv.bump_state_id();
    assert_eq!(inv.state_id(), i32::MIN);
}

#[test]
fn equipment_is_the_hand_the_off_hand_and_armor() {
    let mut inv = with_kit(GameMode::Creative);
    assert!(inv.set_selected(2));
    let seen: Vec<usize> = (0..50).filter(|slot| inv.is_equipment_slot(*slot)).collect();
    assert_eq!(seen, vec![5, 6, 7, 8, 38, 45]);
    assert_eq!(PlayerInventory::main_hand_equipment_body(&vec![64, 1, 0, 0]), vec![0, 64, 1, 0, 0]);
    assert_eq!(inv.window_slots().len(), 36);
}

#[test]
fn decode_click_prefix_parses_valid_and_rejects_malformed_without_panicking() {
    // Valid: slot 5 (i16 big-endian), button 0, mode 0; trailing bytes ignored.
    assert_eq!(decode_click_prefix(&[0x00, 0x05, 0x00, 0x00]), Some((5, 0, 0)));
    assert_eq!(
        decode_click_prefix(&[0x00, 0x05, 0x01, 0x01, 0xDE, 0xAD]),
        Some((5, 1, 1)),
        "trailing changed-slots/cursor bytes are ignored, not trusted"
    );
    // Truncated bodies are rejected (no panic), not read out of bounds.
    assert_eq!(decode_click_prefix(&[]), None);
    assert_eq!(decode_click_prefix(&[0x00]), None); // half a slot
    assert_eq!(decode_click_prefix(&[0x00, 0x05]), None); // no button
    assert_eq!(decode_click_prefix(&[0x00, 0x05, 0x00]), None); // no mode
    // An over-long (6-byte) VarInt for mode is rejected.
    assert_eq!(
        decode_click_prefix(&[0x00, 0x05, 0x00, 0xFF, 0xFF, 0xFF, 0xFF, 0xFF, 0x7F]),
        None
    );
    // A slot and a button below zero.
    assert_eq!(decode_click_prefix(&[0xFC, 0x19, 0xFF, 0x00]), Some((-999, -1, 0)));
}

#[test]
fn variable_length_integers() {
    assert_eq!(read_var_int(&[0x00]), Some((0, 1)));
    assert_eq!(read_var_int(&[0x7f, 0x01]), Some((127, 1)));
    assert_eq!(read_var_int(&[0x80, 0x01]), Some((128, 2)));
    assert_eq!(read_var_int(&[0xdd, 0xc7, 0x01]), Some((25_565, 3)));
    assert_eq!(read_var_int(&[0xff, 0xff, 0xff, 0xff, 0x07]), Some((i32::MAX, 5)));
    assert_eq!(read_var_int(&[0xff, 0xff, 0xff, 0xff, 0x0f]), Some((-1, 5)));
    assert_eq!(read_var_int(&[0x80, 0x80, 0x80, 0x80, 0x08]), Some((i32::MIN, 5)));
    assert_eq!(read_var_int(&[0x80]), None);
    assert_eq!(read_var_int(&[0x80, 0x80, 0x80, 0x80, 0x80, 0x00]), None);
}

#[test]
fn window_slots_are_the_chest_then_the_player() {
    assert_eq!(OpenContainer::classify_slot(-1), None);
    assert_eq!(OpenContainer::classify_slot(0), Some(WindowSlot::Chest(0)));
    assert_eq!(OpenContainer::classify_slot(26), Some(WindowSlot::Chest(26)));
    assert_eq!(OpenContainer::classify_slot(27), Some(WindowSlot::Player(9)));
    assert_eq!(OpenContainer::classify_slot(62), Some(WindowSlot::Player(44)));
    assert_eq!(OpenContainer::classify_slot(63), None);
}

fn click(slot: i16, button: i8, mode: u8) -> Vec<u8> {
    let mut body = slot.to_be_bytes().to_vec();
    body.push(button as u8);
    body.push(mode);
    body
}

#[test]
fn a_chest_session_keeps_every_item() {
    let chest = BlockPos { x: 1, y: 64, z: 1 };
    let mut inv = with_kit(GameMode::Creative);
    let mut windows = WindowState::new();
    let (closed, window) = windows.open_chest_window(&mut inv, chest, vec![ItemStack::empty(); 27]);
    assert!(closed.is_none());
    assert_eq!(window, 1);
    // Pick up the stone in the first hotbar slot: window slot 54.
    let step = windows.handle_window_click(&mut inv, window, &click(54, 0, 0));
    assert_eq!(step, ClickStep::ResyncChest);
    assert_eq!(windows.open.as_ref().unwrap().cursor, stack(STONE_ITEM, 64));
    assert!(inv.slot(36).unwrap().is_empty());
    assert_eq!(windows.resync_chest_window(), Some((1, 2)));
    // A click on the chest is asked of the simulation, with the carried stack.
    let step = windows.handle_window_click(&mut inv, window, &click(3, 0, 0));
    assert_eq!(
        step,
        ClickStep::AskChest { position: chest, slot: 3, cursor: stack(STONE_ITEM, 64) }
    );
    windows.adopt_chest_click(None);
    assert_eq!(windows.open.as_ref().unwrap().cursor, stack(STONE_ITEM, 64));
    // Other clicks only resynchronise.
    for body in [click(54, 1, 0), click(54, 0, 1), click(99, 0, 0), vec![0x00]] {
        assert_eq!(windows.handle_window_click(&mut inv, window, &body), ClickStep::ResyncChest);
    }
    assert_eq!(total_stone(&inv), 0);
    // A click on another window does nothing, and on the own window resynchronises it.
    assert_eq!(windows.handle_window_click(&mut inv, 5, &click(54, 0, 0)), ClickStep::Nothing);
    let before = inv.state_id();
    assert_eq!(
        windows.handle_window_click(&mut inv, 0, &click(54, 0, 0)),
        ClickStep::ResyncInventory { state_id: before + 1 }
    );
    // Opening another chest closes the first and keeps the carried stack.
    let (closed, window) = windows.open_chest_window(&mut inv, chest, Vec::new());
    let closed = closed.expect("the first window was open");
    assert!(closed.leftover.is_empty());
    assert_eq!(closed.state_id, before + 3);
    assert_eq!(window, 2);
    assert_eq!(total_stone(&inv), 64);
    assert_eq!(windows.open.as_ref().unwrap().content(&inv).len(), 36);
    windows.adopt_chest_click(Some((stack(SAND_ITEM, 1), vec![ItemStack::empty(); 27])));
    assert!(windows.close_open_container(&mut inv).is_some());
    assert!(windows.close_open_container(&mut inv).is_none());
    assert_eq!(windows.resync_chest_window(), None);
}

#[test]
fn creative_slots_take_a_creative_player_and_a_slot() {
    let mut inv = with_kit(GameMode::Survival);
    assert_eq!(
        handle_set_creative_slot(&mut inv, 9, stack(GLASS_ITEM, 1)),
        CreativeStep::Ignored
    );
    inv.set_game_mode(GameMode::Creative);
    assert_eq!(
        handle_set_creative_slot(&mut inv, -1, stack(GLASS_ITEM, 1)),
        CreativeStep::Ignored
    );
    assert_eq!(
        handle_set_creative_slot(&mut inv, 46, stack(GLASS_ITEM, 1)),
        CreativeStep::Ignored
    );
    assert_eq!(
        handle_set_creative_slot(&mut inv, 9, stack(GLASS_ITEM, 1)),
        CreativeStep::Stored { index: 9, state_id: 2, equipment: false }
    );
    assert_eq!(
        handle_set_creative_slot(&mut inv, 36, stack(GLASS_ITEM, 1)),
        CreativeStep::Stored { index: 36, state_id: 3, equipment: true }
    );
}

#[test]
fn held_items_are_shown_on_a_real_change() {
    let mut inv = with_kit(GameMode::Creative);
    assert!(!handle_set_held_item(&mut inv, 0), "the same slot changes nothing");
    assert!(handle_set_held_item(&mut inv, 8));
    assert!(!handle_set_held_item(&mut inv, 9));
    assert!(!handle_set_held_item(&mut inv, -1));
    assert!(!handle_set_held_item(&mut inv, 264), "no slot beyond a byte");
    assert_eq!(inv.selected(), 8);
}

fn value(number: f32) -> Single {
    Single { bits: number.to_bits() }
}

/// A routed `change_game_mode` event updates the connection-local mode that
/// both the creative-slot gate and the leave-save read.
#[test]
fn change_game_mode_event_updates_the_connection_mirror() {
    let mut inventory = with_kit(GameMode::Survival);
    mirror_game_mode_change(
        GAME_EVENT_CHANGE_GAMEMODE,
        value(f32::from(GameMode::Creative.id())),
        &mut inventory,
    );
    assert_eq!(inventory.game_mode(), GameMode::Creative);
}

/// A non `change_game_mode` event (e.g. start-raining) never touches the mode.
#[test]
fn unrelated_game_event_leaves_the_mode_untouched() {
    let mut inventory = with_kit(GameMode::Creative);
    mirror_game_mode_change(1, value(0.0), &mut inventory);
    assert_eq!(inventory.game_mode(), GameMode::Creative);
}

/// A `change_game_mode` event carrying an unknown mode id is ignored rather
/// than corrupting the mirror.
#[test]
fn change_game_mode_event_with_unknown_id_is_ignored() {
    let mut inventory = with_kit(GameMode::Adventure);
    mirror_game_mode_change(GAME_EVENT_CHANGE_GAMEMODE, value(9.0), &mut inventory);
    assert_eq!(inventory.game_mode(), GameMode::Adventure);
}

#[test]
fn only_the_numbers_of_modes_change_the_mode() {
    for number in [
        -1.0_f32, 0.5, 1.5, 2.999, 3.5, 4.0, 9.0, 255.0, 256.0, 1e20, f32::INFINITY,
        f32::NEG_INFINITY, f32::NAN, f32::MIN_POSITIVE, 1e-45,
    ] {
        let mut inventory = with_kit(GameMode::Adventure);
        mirror_game_mode_change(GAME_EVENT_CHANGE_GAMEMODE, value(number), &mut inventory);
        assert_eq!(inventory.game_mode(), GameMode::Adventure, "{number}");
    }
    for (number, mode) in [
        (0.0_f32, GameMode::Survival),
        (-0.0, GameMode::Survival),
        (1.0, GameMode::Creative),
        (2.0, GameMode::Adventure),
        (3.0, GameMode::Spectator),
    ] {
        let mut inventory = with_kit(GameMode::Creative);
        mirror_game_mode_change(GAME_EVENT_CHANGE_GAMEMODE, value(number), &mut inventory);
        assert_eq!(inventory.game_mode(), mode, "{number}");
    }
}
