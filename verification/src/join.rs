//! The packets that bring a player into the world, in the order that a client needs to
//! leave its loading screen.

use crate::chunk_stream::PositionSync;
use crate::command::GameMode;
use crate::ieee754::Single;
use crate::inventory::{PlayerInventory, WINDOW_ID};
use crate::math::{BlockPos, ChunkPos, Rotation, Vec3};
use crate::sim_command::GAME_EVENT_CHANGE_GAMEMODE;
use vstd::prelude::*;

verus! {

/// Game-event reason: the spawn chunks are on their way.
pub const GAME_EVENT_LEVEL_CHUNKS_LOAD_START: u8 = 13;

/// The number of the join's teleport, which the client confirms.
pub const JOIN_TELEPORT_ID: i32 = 1;

/// A creative client's abilities: invulnerable, may fly, instant building.
pub const CREATIVE_ABILITY_FLAGS: i8 = 0x0d;

/// The bit pattern of the flying speed, one twentieth.
pub const ABILITY_FLYING_SPEED: u32 = 0x3d4c_cccd;

/// The bit pattern of the walking speed, one tenth.
pub const ABILITY_WALKING_SPEED: u32 = 0x3dcc_cccd;

/// A packet of the join.
#[derive(Clone, Copy, Debug, PartialEq, Eq, Structural)]
pub enum JoinPacket {
    /// The entry into play.
    JoinGame,
    /// The player's own line on the player list.
    PlayerInfo,
    /// A game event.
    GameEvent {
        /// The reason.
        reason: u8,
        /// The value it carries.
        value: u8,
    },
    /// The centre of the client's view.
    SetCenterChunk(ChunkPos),
    /// The world's spawn.
    SetDefaultSpawnPosition(BlockPos),
    /// The commands that the player may run.
    Commands {
        /// The player's permission level.
        level: u8,
    },
    /// The player's position and look.
    Synchronize {
        /// The number of the teleport.
        teleport_id: i32,
        /// The destination.
        sync: PositionSync,
    },
    /// The player's abilities.
    Abilities {
        /// The flags.
        flags: i8,
        /// The flying speed.
        flying_speed: Single,
        /// The walking speed.
        walking_speed: Single,
    },
    /// The whole inventory.
    ContainerContent {
        /// The window.
        window_id: i32,
        /// The window state id.
        state_id: i32,
    },
    /// The selected hotbar slot.
    SetHeldItem(i32),
}

/// One step of the join.
#[derive(Clone, Copy, Debug, PartialEq, Eq, Structural)]
pub enum JoinStep {
    /// Queue a packet.
    Enqueue(JoinPacket),
    /// Queue a packet that must not be dropped.
    Mandatory(JoinPacket),
    /// Write everything queued to the socket.
    Flush,
    /// Have the driver load the spawn columns, and queue each with its signs.
    StreamSpawnChunks,
}

/// The steps that a returning player gets besides: the saved mode and held slot.
pub open spec fn restore_steps(is_returning: bool, mode: GameMode, selected: u8) -> Seq<JoinStep> {
    if is_returning {
        seq![
            JoinStep::Enqueue(
                JoinPacket::GameEvent {
                    reason: GAME_EVENT_CHANGE_GAMEMODE,
                    value: mode.number() as u8,
                },
            ),
            JoinStep::Enqueue(JoinPacket::SetHeldItem(selected as i32)),
        ]
    } else {
        Seq::empty()
    }
}

/// The steps that place the player.
pub open spec fn entry_steps(
    spawn_chunk: ChunkPos,
    spawn_block: BlockPos,
    level: u8,
    position: Vec3,
    look: Rotation,
    state_id: i32,
) -> Seq<JoinStep> {
    seq![
        JoinStep::Enqueue(JoinPacket::JoinGame),
        JoinStep::Enqueue(JoinPacket::PlayerInfo),
        JoinStep::Enqueue(
            JoinPacket::GameEvent { reason: GAME_EVENT_LEVEL_CHUNKS_LOAD_START, value: 0 },
        ),
        JoinStep::Enqueue(JoinPacket::SetCenterChunk(spawn_chunk)),
        JoinStep::Enqueue(JoinPacket::SetDefaultSpawnPosition(spawn_block)),
        JoinStep::Enqueue(JoinPacket::Commands { level }),
        JoinStep::Enqueue(
            JoinPacket::Synchronize {
                teleport_id: JOIN_TELEPORT_ID,
                sync: PositionSync { position, rotation: look, flags: 0 },
            },
        ),
        JoinStep::Mandatory(
            JoinPacket::Abilities {
                flags: CREATIVE_ABILITY_FLAGS,
                flying_speed: Single { bits: ABILITY_FLYING_SPEED },
                walking_speed: Single { bits: ABILITY_WALKING_SPEED },
            },
        ),
        JoinStep::Mandatory(JoinPacket::ContainerContent { window_id: WINDOW_ID, state_id }),
    ]
}

/// The steps of the whole join.
pub open spec fn join_steps(
    spawn_chunk: ChunkPos,
    spawn_block: BlockPos,
    level: u8,
    position: Vec3,
    look: Rotation,
    is_returning: bool,
    inventory: PlayerInventory,
) -> Seq<JoinStep> {
    entry_steps(spawn_chunk, spawn_block, level, position, look, inventory.state_id)
        + restore_steps(is_returning, inventory.game_mode, inventory.selected) + seq![
        JoinStep::Flush,
        JoinStep::StreamSpawnChunks,
        JoinStep::Flush,
    ]
}

/// An absolute position sync at a look.
pub fn spawn_sync(position: Vec3, look: Rotation) -> (r: PositionSync)
    ensures
        r == (PositionSync { position, rotation: look, flags: 0 }),
{
    PositionSync { position, rotation: look, flags: 0 }
}

/// Lists the steps of the join: the entry and the player's position first and flushed,
/// then the spawn columns and flushed. A returning player's mode and held slot are
/// restored in the first stage.
pub fn send_join_kit(
    spawn_chunk: ChunkPos,
    spawn_block: BlockPos,
    level: u8,
    position: Vec3,
    look: Rotation,
    is_returning: bool,
    inventory: &PlayerInventory,
) -> (r: Vec<JoinStep>)
    ensures
        r@ == join_steps(
            spawn_chunk,
            spawn_block,
            level,
            position,
            look,
            is_returning,
            *inventory,
        ),
{
    let mut out: Vec<JoinStep> = Vec::new();
    out.push(JoinStep::Enqueue(JoinPacket::JoinGame));
    out.push(JoinStep::Enqueue(JoinPacket::PlayerInfo));
    out.push(
        JoinStep::Enqueue(
            JoinPacket::GameEvent { reason: GAME_EVENT_LEVEL_CHUNKS_LOAD_START, value: 0 },
        ),
    );
    out.push(JoinStep::Enqueue(JoinPacket::SetCenterChunk(spawn_chunk)));
    out.push(JoinStep::Enqueue(JoinPacket::SetDefaultSpawnPosition(spawn_block)));
    out.push(JoinStep::Enqueue(JoinPacket::Commands { level }));
    out.push(
        JoinStep::Enqueue(
            JoinPacket::Synchronize {
                teleport_id: JOIN_TELEPORT_ID,
                sync: spawn_sync(position, look),
            },
        ),
    );
    out.push(
        JoinStep::Mandatory(
            JoinPacket::Abilities {
                flags: CREATIVE_ABILITY_FLAGS,
                flying_speed: Single { bits: ABILITY_FLYING_SPEED },
                walking_speed: Single { bits: ABILITY_WALKING_SPEED },
            },
        ),
    );
    out.push(
        JoinStep::Mandatory(
            JoinPacket::ContainerContent { window_id: WINDOW_ID, state_id: inventory.state_id },
        ),
    );
    let ghost entry = entry_steps(
        spawn_chunk,
        spawn_block,
        level,
        position,
        look,
        inventory.state_id,
    );
    assert(out@ =~= entry);
    if is_returning {
        out.push(
            JoinStep::Enqueue(
                JoinPacket::GameEvent {
                    reason: GAME_EVENT_CHANGE_GAMEMODE,
                    value: inventory.game_mode.id(),
                },
            ),
        );
        out.push(JoinStep::Enqueue(JoinPacket::SetHeldItem(inventory.selected as i32)));
    }
    assert(out@ =~= entry + restore_steps(is_returning, inventory.game_mode, inventory.selected));
    out.push(JoinStep::Flush);
    out.push(JoinStep::StreamSpawnChunks);
    out.push(JoinStep::Flush);
    assert(out@ =~= join_steps(
        spawn_chunk,
        spawn_block,
        level,
        position,
        look,
        is_returning,
        *inventory,
    ));
    out
}

/// The player's position is on the wire before any column: between the step that places
/// the player and the one that loads the columns, everything queued is flushed.
pub proof fn position_precedes_chunks(
    spawn_chunk: ChunkPos,
    spawn_block: BlockPos,
    level: u8,
    position: Vec3,
    look: Rotation,
    is_returning: bool,
    inventory: PlayerInventory,
    chunks: int,
)
    requires
        ({
            let steps = join_steps(
                spawn_chunk,
                spawn_block,
                level,
                position,
                look,
                is_returning,
                inventory,
            );
            0 <= chunks < steps.len() && steps[chunks] is StreamSpawnChunks
        }),
    ensures
        ({
            let steps = join_steps(
                spawn_chunk,
                spawn_block,
                level,
                position,
                look,
                is_returning,
                inventory,
            );
            &&& 6 < chunks - 1
            &&& steps[6] == JoinStep::Enqueue(
                JoinPacket::Synchronize {
                    teleport_id: JOIN_TELEPORT_ID,
                    sync: PositionSync { position, rotation: look, flags: 0 },
                },
            )
            &&& steps[chunks - 1] is Flush
            &&& steps.last() is Flush
        }),
{
    let steps = join_steps(
        spawn_chunk,
        spawn_block,
        level,
        position,
        look,
        is_returning,
        inventory,
    );
    let entry = entry_steps(spawn_chunk, spawn_block, level, position, look, inventory.state_id);
    let restore = restore_steps(is_returning, inventory.game_mode, inventory.selected);
    let n = (entry.len() + restore.len()) as int;
    assert(steps[6] == entry[6]);
    assert(steps.len() == n + 3);
    if chunks < entry.len() {
        assert(steps[chunks] == entry[chunks]);
    } else if chunks < n {
        assert(steps[chunks] == restore[chunks - entry.len()]);
    }
    assert(steps[n] is Flush && steps[n + 2] is Flush);
}

/// The packet that a step queues, if it queues one.
pub open spec fn packet_of(step: JoinStep) -> Option<JoinPacket> {
    match step {
        JoinStep::Enqueue(packet) => Some(packet),
        JoinStep::Mandatory(packet) => Some(packet),
        _ => None,
    }
}

/// The mode that a game event shows the client, if it shows one.
pub open spec fn mode_shown(packet: JoinPacket) -> Option<GameMode> {
    match packet {
        JoinPacket::GameEvent { reason, value } => if reason == 3 {
            GameMode::numbered(value as int)
        } else {
            None
        },
        _ => None,
    }
}

/// Whether a join queues a packet.
pub open spec fn queues(steps: Seq<JoinStep>, wanted: spec_fn(JoinPacket) -> bool) -> bool {
    exists|i: int|
        #![trigger steps[i]]
        0 <= i < steps.len() && packet_of(steps[i]) is Some && wanted(packet_of(steps[i])->Some_0)
}

/// Every packet of a join shows the player's own state: the view is centred on the spawn
/// column, the world's spawn is the spawn block, the commands are those of the player's
/// level, the player is put at their own position and look, absolutely, the inventory is
/// sent as the player's own window under its state id, and a mode or a held slot that is
/// shown is the inventory's.
pub proof fn join_shows_the_players_state(
    spawn_chunk: ChunkPos,
    spawn_block: BlockPos,
    level: u8,
    position: Vec3,
    look: Rotation,
    is_returning: bool,
    inventory: PlayerInventory,
    i: int,
)
    requires
        ({
            let steps = join_steps(
                spawn_chunk,
                spawn_block,
                level,
                position,
                look,
                is_returning,
                inventory,
            );
            0 <= i < steps.len() && packet_of(steps[i]) is Some
        }),
    ensures
        ({
            let steps = join_steps(
                spawn_chunk,
                spawn_block,
                level,
                position,
                look,
                is_returning,
                inventory,
            );
            match packet_of(steps[i])->Some_0 {
                JoinPacket::JoinGame => i == 0,
                JoinPacket::PlayerInfo => i == 1,
                JoinPacket::GameEvent { reason, value } => (reason == 13 && value == 0) || (
                is_returning && reason == 3 && GameMode::numbered(value as int) == Some(
                    inventory.game_mode,
                )),
                JoinPacket::SetCenterChunk(center) => center == spawn_chunk,
                JoinPacket::SetDefaultSpawnPosition(block) => block == spawn_block,
                JoinPacket::Commands { level: shown } => shown == level,
                JoinPacket::Synchronize { teleport_id, sync } => {
                    &&& teleport_id == 1 && sync.flags == 0
                    &&& sync.position == position && sync.rotation == look
                },
                JoinPacket::Abilities { flags, flying_speed, walking_speed } => {
                    &&& steps[i] is Mandatory
                    &&& flags == 1 + 4 + 8
                    // One twentieth, and twice that: the next exponent of the same fraction.
                    &&& flying_speed.bits == 0x3d4c_cccd
                    &&& walking_speed.bits == flying_speed.bits + 0x80_0000
                },
                JoinPacket::ContainerContent { window_id, state_id } => {
                    &&& steps[i] is Mandatory
                    &&& window_id == 0 && state_id == inventory.state_id
                },
                JoinPacket::SetHeldItem(slot) => is_returning && slot == inventory.selected,
            }
        }),
{
    let steps = join_steps(spawn_chunk, spawn_block, level, position, look, is_returning, inventory);
    let entry = entry_steps(spawn_chunk, spawn_block, level, position, look, inventory.state_id);
    let restore = restore_steps(is_returning, inventory.game_mode, inventory.selected);
    let n = (entry.len() + restore.len()) as int;
    if i < entry.len() {
        assert(steps[i] == entry[i]);
    } else if i < n {
        assert(steps[i] == restore[i - entry.len()]);
    } else {
        assert(steps[i] is Flush || steps[i] is StreamSpawnChunks);
    }
}

/// Every join queues everything that a client needs to leave its loading screen, and a
/// returning player is shown the saved mode, by its number, and the saved slot. A new player
/// is shown neither.
pub proof fn join_leaves_nothing_out(
    spawn_chunk: ChunkPos,
    spawn_block: BlockPos,
    level: u8,
    position: Vec3,
    look: Rotation,
    is_returning: bool,
    inventory: PlayerInventory,
)
    ensures
        ({
            let steps = join_steps(
                spawn_chunk,
                spawn_block,
                level,
                position,
                look,
                is_returning,
                inventory,
            );
            &&& queues(steps, |p: JoinPacket| p is JoinGame)
            &&& queues(steps, |p: JoinPacket| p is PlayerInfo)
            &&& queues(steps, |p: JoinPacket| p == (JoinPacket::GameEvent { reason: 13, value: 0 }))
            &&& queues(steps, |p: JoinPacket| p is SetCenterChunk)
            &&& queues(steps, |p: JoinPacket| p is SetDefaultSpawnPosition)
            &&& queues(steps, |p: JoinPacket| p is Commands)
            &&& queues(steps, |p: JoinPacket| p is Synchronize)
            &&& queues(steps, |p: JoinPacket| p is Abilities)
            &&& queues(steps, |p: JoinPacket| p is ContainerContent)
            &&& queues(steps, |p: JoinPacket| mode_shown(p) == Some(inventory.game_mode))
                == is_returning
            &&& queues(steps, |p: JoinPacket| p == JoinPacket::SetHeldItem(inventory.selected as i32))
                == is_returning
            &&& steps[steps.len() - 2] is StreamSpawnChunks
        }),
{
    let steps = join_steps(spawn_chunk, spawn_block, level, position, look, is_returning, inventory);
    let entry = entry_steps(spawn_chunk, spawn_block, level, position, look, inventory.state_id);
    let restore = restore_steps(is_returning, inventory.game_mode, inventory.selected);
    assert forall|k: int| 0 <= k < entry.len() implies #[trigger] steps[k] == entry[k] by {}
    assert(packet_of(steps[0]) is Some && packet_of(steps[1]) is Some);
    assert(packet_of(steps[2]) is Some && packet_of(steps[3]) is Some);
    assert(packet_of(steps[4]) is Some && packet_of(steps[5]) is Some);
    assert(packet_of(steps[6]) is Some && packet_of(steps[7]) is Some);
    assert(packet_of(steps[8]) is Some);
    if is_returning {
        assert(steps[9] == restore[0] && steps[10] == restore[1]);
        assert(mode_shown(packet_of(steps[9])->Some_0) == Some(inventory.game_mode));
        assert(packet_of(steps[10]) is Some);
    } else {
        assert(steps.len() == 12);
        assert(packet_of(steps[9]) is None && packet_of(steps[10]) is None);
        assert(packet_of(steps[11]) is None);
        assert forall|k: int| 0 <= k < steps.len() && packet_of(#[trigger] steps[k]) is Some implies
            mode_shown(packet_of(steps[k])->Some_0) is None && !(packet_of(
            steps[k],
        )->Some_0 is SetHeldItem) by {
            assert(steps[k] == entry[k]);
        }
    }
}

} // verus!
