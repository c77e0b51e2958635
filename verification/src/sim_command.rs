//! The requests that connections make of the simulation driver, and what the driver
//! does for each.
//!
//! A reply that a connection waits for is known here by a number; the driver task
//! holds the channel behind it.

use crate::command::GameMode;
use crate::delivery::{Operation, SessionError};
use crate::ieee754::Single;
use crate::inventory::ItemStack;
use crate::math::{BlockPos, ChunkPos, Vec3};
use crate::roster::{resolve_online_player, PlayerId, Roster};
use crate::world_time::{update_time_packet, UpdateTime, WorldTime};
use vstd::arithmetic::div_mod::{lemma_add_mod_noop, lemma_mod_twice, lemma_small_mod};
use vstd::prelude::*;

verus! {

/// A reply that someone waits for.
pub type ReplyId = u64;

/// Game-event reason: rain begins.
pub const GAME_EVENT_START_RAINING: u8 = 1;

/// Game-event reason: rain ends.
pub const GAME_EVENT_STOP_RAINING: u8 = 2;

/// Game-event reason: the recipient's game mode changes to the carried one.
pub const GAME_EVENT_CHANGE_GAMEMODE: u8 = 3;

/// A face of a block.
#[derive(Clone, Copy, Debug, PartialEq, Eq, Structural)]
pub enum Direction {
    /// Down.
    Down,
    /// Up.
    Up,
    /// North.
    North,
    /// South.
    South,
    /// West.
    West,
    /// East.
    East,
}

/// A box of blocks between two corners.
#[derive(Clone, Copy, Debug, PartialEq, Eq, Structural)]
pub struct Cuboid {
    /// The lower corner.
    pub min: BlockPos,
    /// The upper corner.
    pub max: BlockPos,
}

/// An edit of a whole region.
#[derive(Clone, Copy, Debug, PartialEq, Eq, Structural)]
pub enum RegionOp {
    /// Every block becomes a state.
    Fill {
        /// The state.
        state: u32,
    },
    /// Every block of one state becomes another.
    Replace {
        /// The state to replace.
        from: u32,
        /// The new state.
        to: u32,
    },
}

/// A validated network event: a play packet, or the end of the connection.
#[derive(Clone, Copy, Debug, PartialEq, Eq, Structural)]
pub struct NetEvent {
    /// Whose event it is.
    pub player: PlayerId,
    /// Whether the connection ended.
    pub disconnected: bool,
    /// The number by which the connection knows the packet.
    pub packet: u64,
}

/// A request from a connection to the driver.
#[allow(inconsistent_fields)]
#[derive(Debug)]
pub enum SimCommand {
    /// Place a player in the world.
    Join {
        /// The player.
        player: PlayerId,
        /// Their display name.
        name: String,
        /// Where they join.
        position: Vec3,
        /// Their encoded equipment.
        equipment: Vec<u8>,
        /// Who waits for the session.
        reply: ReplyId,
    },
    /// Route a network event to the player's shard.
    Event {
        /// The event.
        event: NetEvent,
        /// Who waits for its admission.
        acceptance: Option<ReplyId>,
    },
    /// Release some chunks and load others around a moving player.
    StreamChunks {
        /// The columns to load.
        load: Vec<ChunkPos>,
        /// The columns to release.
        unload: Vec<ChunkPos>,
        /// Who waits for the built columns.
        reply: ReplyId,
    },
    /// Release the chunks of a player who leaves.
    ReleaseChunks {
        /// The columns to release.
        positions: Vec<ChunkPos>,
    },
    /// Show a message to everyone.
    BroadcastSystemChat {
        /// The message.
        content: String,
        /// Whether it is shown above the hotbar.
        overlay: bool,
    },
    /// Change a player's game mode.
    SetGameMode {
        /// The player.
        player: PlayerId,
        /// The new mode.
        mode: GameMode,
        /// Who waits for its admission.
        acceptance: Option<ReplyId>,
    },
    /// Place the held block.
    PlaceBlock {
        /// The player.
        player: PlayerId,
        /// Where.
        position: BlockPos,
        /// The block-action sequence.
        sequence: i32,
        /// The held item's default state.
        state: u32,
        /// The clicked face.
        clicked_face: Direction,
        /// The point of the click within the block.
        cursor_position: Vec3,
        /// The player's horizontal look.
        player_yaw: Single,
        /// Who waits for the refined state.
        reply: ReplyId,
    },
    /// Write an exact block state.
    SetBlockExact {
        /// The player.
        player: PlayerId,
        /// Where.
        position: BlockPos,
        /// The block-action sequence.
        sequence: i32,
        /// The state.
        state: u32,
        /// Who waits for its admission.
        acceptance: Option<ReplyId>,
    },
    /// Edit a region.
    RegionEdit {
        /// The player.
        player: PlayerId,
        /// The region.
        region: Cuboid,
        /// The edit.
        op: RegionOp,
        /// Who waits for its admission.
        acceptance: Option<ReplyId>,
    },
    /// Undo the player's last region edit.
    RegionUndo {
        /// The player.
        player: PlayerId,
        /// Who waits for its admission.
        acceptance: Option<ReplyId>,
    },
    /// Refuse a block edit and restore the client's view.
    RejectBlockEdit {
        /// The player.
        player: PlayerId,
        /// Where.
        position: BlockPos,
        /// The block-action sequence.
        sequence: i32,
        /// The state that was asked for.
        requested_state: u32,
        /// Who waits for its admission.
        acceptance: Option<ReplyId>,
    },
    /// Teleport a player.
    TeleportPlayer {
        /// The player.
        player: PlayerId,
        /// Where to.
        position: Vec3,
        /// Who waits for its admission.
        acceptance: Option<ReplyId>,
    },
    /// Teleport a player to another.
    TeleportToPlayer {
        /// The player.
        player: PlayerId,
        /// The name of the other.
        target: String,
        /// Who waits for its admission.
        acceptance: Option<ReplyId>,
    },
    /// Change the game mode of a player by name.
    SetGameModeFor {
        /// The name.
        target: String,
        /// The new mode.
        mode: GameMode,
        /// Who waits for its admission.
        acceptance: Option<ReplyId>,
    },
    /// Begin or end the rain.
    SetWeather {
        /// Whether it rains.
        raining: bool,
    },
    /// Set the phase of the day.
    SetTime {
        /// The phase.
        time_of_day: i64,
    },
    /// Move the phase of the day.
    AddTime {
        /// By how much.
        ticks: i64,
    },
    /// Ask for the phase of the day.
    QueryTime {
        /// Who asks.
        player: PlayerId,
    },
    /// Show a message to one player.
    SendSystemChat {
        /// The player.
        player: PlayerId,
        /// The message.
        content: String,
        /// Whether it is shown above the hotbar.
        overlay: bool,
    },
    /// Show a player's new equipment to those who see them.
    SetEquipment {
        /// The player.
        player: PlayerId,
        /// Their encoded equipment.
        equipment: Vec<u8>,
    },
    /// Write a sign.
    UpdateSign {
        /// The player.
        player: PlayerId,
        /// Where.
        position: BlockPos,
        /// Whether its front is written.
        is_front: bool,
        /// The lines.
        lines: Vec<String>,
        /// Who waits for its admission.
        acceptance: Option<ReplyId>,
    },
    /// Read a container.
    OpenContainer {
        /// The player.
        player: PlayerId,
        /// Where.
        position: BlockPos,
        /// Who waits for its contents.
        reply: ReplyId,
    },
    /// Left-click a slot of a container.
    ContainerLeftClick {
        /// The player.
        player: PlayerId,
        /// Where.
        position: BlockPos,
        /// The slot.
        slot: usize,
        /// The carried stack.
        cursor: ItemStack,
        /// Who waits for the outcome.
        reply: ReplyId,
    },
}

impl SimCommand {
    /// Whether a caller can wait for the shard's admission of the command.
    pub open spec fn takes_acceptance(self) -> bool {
        match self {
            SimCommand::Event { .. } => true,
            SimCommand::SetGameMode { .. } => true,
            SimCommand::SetBlockExact { .. } => true,
            SimCommand::RegionEdit { .. } => true,
            SimCommand::RegionUndo { .. } => true,
            SimCommand::RejectBlockEdit { .. } => true,
            SimCommand::TeleportPlayer { .. } => true,
            SimCommand::TeleportToPlayer { .. } => true,
            SimCommand::SetGameModeFor { .. } => true,
            SimCommand::UpdateSign { .. } => true,
            _ => false,
        }
    }

    /// The command with a caller who waits for its admission.
    pub open spec fn awaited_by(self, reply: ReplyId) -> SimCommand {
        match self {
            SimCommand::Event { event, .. } => SimCommand::Event {
                event,
                acceptance: Some(reply),
            },
            SimCommand::SetGameMode { player, mode, .. } => SimCommand::SetGameMode {
                player,
                mode,
                acceptance: Some(reply),
            },
            SimCommand::SetBlockExact { player, position, sequence, state, .. } =>
                SimCommand::SetBlockExact {
                    player,
                    position,
                    sequence,
                    state,
                    acceptance: Some(reply),
                },
            SimCommand::RegionEdit { player, region, op, .. } => SimCommand::RegionEdit {
                player,
                region,
                op,
                acceptance: Some(reply),
            },
            SimCommand::RegionUndo { player, .. } => SimCommand::RegionUndo {
                player,
                acceptance: Some(reply),
            },
            SimCommand::RejectBlockEdit { player, position, sequence, requested_state, .. } =>
                SimCommand::RejectBlockEdit {
                    player,
                    position,
                    sequence,
                    requested_state,
                    acceptance: Some(reply),
                },
            SimCommand::TeleportPlayer { player, position, .. } => SimCommand::TeleportPlayer {
                player,
                position,
                acceptance: Some(reply),
            },
            SimCommand::TeleportToPlayer { player, target, .. } => SimCommand::TeleportToPlayer {
                player,
                target,
                acceptance: Some(reply),
            },
            SimCommand::SetGameModeFor { target, mode, .. } => SimCommand::SetGameModeFor {
                target,
                mode,
                acceptance: Some(reply),
            },
            SimCommand::UpdateSign { player, position, is_front, lines, .. } =>
                SimCommand::UpdateSign {
                    player,
                    position,
                    is_front,
                    lines,
                    acceptance: Some(reply),
                },
            other => other,
        }
    }

    /// Whether a caller can wait for the shard's admission of the command.
    pub fn supports_delivery_acceptance(&self) -> (r: bool)
        ensures
            r == self.takes_acceptance(),
    {
        match self {
            SimCommand::Event { .. } => true,
            SimCommand::SetGameMode { .. } => true,
            SimCommand::SetBlockExact { .. } => true,
            SimCommand::RegionEdit { .. } => true,
            SimCommand::RegionUndo { .. } => true,
            SimCommand::RejectBlockEdit { .. } => true,
            SimCommand::TeleportPlayer { .. } => true,
            SimCommand::TeleportToPlayer { .. } => true,
            SimCommand::SetGameModeFor { .. } => true,
            SimCommand::UpdateSign { .. } => true,
            _ => false,
        }
    }

    /// Asks for a reply once the shard has admitted the command; hands the reply back
    /// where the command takes none.
    pub fn request_delivery_acceptance(self, reply: ReplyId) -> (r: (
        SimCommand,
        Result<(), ReplyId>,
    ))
        ensures
            r.0 == self.awaited_by(reply),
            r.1 == if self.takes_acceptance() {
                Ok::<(), ReplyId>(())
            } else {
                Err(reply)
            },
    {
        match self {
            SimCommand::Event { event, .. } => (
                SimCommand::Event { event, acceptance: Some(reply) },
                Ok(()),
            ),
            SimCommand::SetGameMode { player, mode, .. } => (
                SimCommand::SetGameMode { player, mode, acceptance: Some(reply) },
                Ok(()),
            ),
            SimCommand::SetBlockExact { player, position, sequence, state, .. } => (
                SimCommand::SetBlockExact {
                    player,
                    position,
                    sequence,
                    state,
                    acceptance: Some(reply),
                },
                Ok(()),
            ),
            SimCommand::RegionEdit { player, region, op, .. } => (
                SimCommand::RegionEdit { player, region, op, acceptance: Some(reply) },
                Ok(()),
            ),
            SimCommand::RegionUndo { player, .. } => (
                SimCommand::RegionUndo { player, acceptance: Some(reply) },
                Ok(()),
            ),
            SimCommand::RejectBlockEdit { player, position, sequence, requested_state, .. } => (
                SimCommand::RejectBlockEdit {
                    player,
                    position,
                    sequence,
                    requested_state,
                    acceptance: Some(reply),
                },
                Ok(()),
            ),
            SimCommand::TeleportPlayer { player, position, .. } => (
                SimCommand::TeleportPlayer { player, position, acceptance: Some(reply) },
                Ok(()),
            ),
            SimCommand::TeleportToPlayer { player, target, .. } => (
                SimCommand::TeleportToPlayer { player, target, acceptance: Some(reply) },
                Ok(()),
            ),
            SimCommand::SetGameModeFor { target, mode, .. } => (
                SimCommand::SetGameModeFor { target, mode, acceptance: Some(reply) },
                Ok(()),
            ),
            SimCommand::UpdateSign { player, position, is_front, lines, .. } => (
                SimCommand::UpdateSign {
                    player,
                    position,
                    is_front,
                    lines,
                    acceptance: Some(reply),
                },
                Ok(()),
            ),
            other => (other, Err(reply)),
        }
    }
}

/// An input to a simulation shard.
#[derive(Debug)]
pub enum GameInput {
    /// A game-mode change.
    SetGameMode {
        /// The player.
        player: PlayerId,
        /// The new mode.
        mode: GameMode,
    },
    /// A placement to refine and carry out.
    BlockPlace {
        /// The player.
        player: PlayerId,
        /// Where.
        position: BlockPos,
        /// The block-action sequence.
        sequence: i32,
        /// The held item's default state.
        state: u32,
        /// The clicked face.
        clicked_face: Direction,
        /// The point of the click within the block.
        cursor_position: Vec3,
        /// The player's horizontal look.
        player_yaw: Single,
    },
    /// An exact block write.
    SetBlockExact {
        /// The player.
        player: PlayerId,
        /// Where.
        position: BlockPos,
        /// The block-action sequence.
        sequence: i32,
        /// The state.
        state: u32,
    },
    /// A region edit.
    RegionEdit {
        /// The player.
        player: PlayerId,
        /// The region.
        region: Cuboid,
        /// The edit.
        op: RegionOp,
    },
    /// The undo of a region edit.
    RegionUndo {
        /// The player.
        player: PlayerId,
    },
    /// The refusal of a block edit.
    RejectBlockEdit {
        /// The player.
        player: PlayerId,
        /// Where.
        position: BlockPos,
        /// The block-action sequence.
        sequence: i32,
        /// The state that was asked for.
        requested_state: u32,
    },
    /// A sign update.
    UpdateSign {
        /// The player.
        player: PlayerId,
        /// Where.
        position: BlockPos,
        /// Whether its front is written.
        is_front: bool,
        /// The lines.
        lines: Vec<String>,
    },
}

/// What follows once the delivery of an input is settled.
#[derive(Clone, Copy, Debug, PartialEq, Eq, Structural)]
pub enum AfterRoute {
    /// The caller who waits is told the outcome.
    Reply {
        /// Who waits.
        acceptance: Option<ReplyId>,
    },
    /// On admission the refined placement is previewed for the caller.
    Preview {
        /// The held item's default state.
        state: u32,
        /// The clicked face.
        clicked_face: Direction,
        /// The point of the click within the block.
        cursor_position: Vec3,
        /// The player's horizontal look.
        player_yaw: Single,
        /// Where.
        position: BlockPos,
        /// Who waits.
        reply: ReplyId,
    },
    /// On admission the target's client is switched, and then the caller is told.
    NotifyMode {
        /// The target.
        target: PlayerId,
        /// The new mode.
        mode: GameMode,
        /// Who waits.
        acceptance: Option<ReplyId>,
    },
}

/// What the driver does for a command.
#[allow(inconsistent_fields)]
#[derive(Debug)]
pub enum DriverStep {
    /// Ask the router to admit a player; then [`joined`] tells what follows.
    Join {
        /// The player.
        player: PlayerId,
        /// Their display name.
        name: String,
        /// Where they join.
        position: Vec3,
        /// Their encoded equipment.
        equipment: Vec<u8>,
        /// Who waits for the session.
        reply: ReplyId,
    },
    /// Route a network event, and enforce its delivery.
    RouteEvent {
        /// The event.
        event: NetEvent,
        /// Whether an undelivered leave is retained.
        allow_retained_leave: bool,
        /// What follows.
        after: AfterRoute,
    },
    /// Route an input, and enforce its delivery.
    RouteInput {
        /// Whose shard it goes to.
        player: PlayerId,
        /// The input.
        input: GameInput,
        /// The name of the operation.
        operation: Operation,
        /// What follows.
        after: AfterRoute,
    },
    /// Teleport a player, and enforce the delivery.
    Teleport {
        /// The player.
        player: PlayerId,
        /// Where to.
        position: Vec3,
        /// The name of the operation.
        operation: Operation,
        /// What follows.
        after: AfterRoute,
    },
    /// Look up where a player stands; then [`teleport_to`] tells what follows.
    FindPosition {
        /// The player to teleport.
        player: PlayerId,
        /// The player to look up.
        target: PlayerId,
        /// Who waits.
        acceptance: Option<ReplyId>,
    },
    /// Tell the caller who waits that nothing went wrong.
    ReplyAccepted {
        /// Who waits.
        acceptance: Option<ReplyId>,
    },
    /// Release chunks behind the durability barrier, then load others.
    StreamChunks {
        /// The columns to load.
        load: Vec<ChunkPos>,
        /// The columns to release.
        unload: Vec<ChunkPos>,
        /// Who waits for the built columns.
        reply: ReplyId,
    },
    /// Release chunks behind the durability barrier.
    ReleaseChunks {
        /// The columns to release.
        positions: Vec<ChunkPos>,
    },
    /// Show a message to everyone.
    BroadcastChat {
        /// The message.
        content: String,
        /// Whether it is shown above the hotbar.
        overlay: bool,
    },
    /// Send a game event to everyone.
    BroadcastGameEvent {
        /// The reason.
        reason: u8,
        /// The value it carries.
        value: u8,
    },
    /// Send the time to everyone.
    BroadcastTime(UpdateTime),
    /// Tell one player the phase of the day.
    TellTime {
        /// The player.
        player: PlayerId,
        /// The phase.
        time_of_day: i64,
    },
    /// Show a message to one player.
    SendChat {
        /// The player.
        player: PlayerId,
        /// The message.
        content: String,
        /// Whether it is shown above the hotbar.
        overlay: bool,
    },
    /// Show a player's new equipment to those who see them.
    SetEquipment {
        /// The player.
        player: PlayerId,
        /// Their encoded equipment.
        equipment: Vec<u8>,
    },
    /// Read a container for the caller.
    OpenContainer {
        /// The player.
        player: PlayerId,
        /// Where.
        position: BlockPos,
        /// Who waits.
        reply: ReplyId,
    },
    /// Left-click a container slot for the caller.
    ContainerLeftClick {
        /// The player.
        player: PlayerId,
        /// Where.
        position: BlockPos,
        /// The slot.
        slot: usize,
        /// The carried stack.
        cursor: ItemStack,
        /// Who waits.
        reply: ReplyId,
    },
}

/// The player whom a name means: the one with the smallest identifier among those
/// connected under it.
pub open spec fn is_resolved(
    roster: Map<PlayerId, Seq<char>>,
    name: Seq<char>,
    resolved: Option<PlayerId>,
) -> bool {
    match resolved {
        Some(player) => {
            &&& roster.contains_key(player) && roster[player] == name
            &&& forall|p: PlayerId|
                #[trigger] roster.contains_key(p) && roster[p] == name ==> player <= p
        },
        None => forall|p: PlayerId| #[trigger] roster.contains_key(p) ==> roster[p] != name,
    }
}

/// The player whom the command names, if it names one.
pub open spec fn named_player(command: SimCommand) -> Option<Seq<char>> {
    match command {
        SimCommand::TeleportToPlayer { target, .. } => Some(target@),
        SimCommand::SetGameModeFor { target, .. } => Some(target@),
        _ => None,
    }
}

/// The clock once a command is handled.
pub open spec fn is_time_after(command: SimCommand, before: WorldTime, after: WorldTime) -> bool {
    &&& after.world_age == before.world_age
    &&& match command {
        SimCommand::SetTime { time_of_day } => after.time_of_day as int == time_of_day as int
            % 24_000,
        SimCommand::AddTime { ticks } => after.time_of_day as int == (before.time_of_day + ticks)
            % 24_000,
        _ => after == before,
    }
}

/// What the driver does for a command, where `resolved` is the player that the
/// command names and `time` the clock once the command is handled.
pub open spec fn step_for(
    command: SimCommand,
    resolved: Option<PlayerId>,
    time: WorldTime,
) -> DriverStep {
    match command {
        SimCommand::Join { player, name, position, equipment, reply } => DriverStep::Join {
            player,
            name,
            position,
            equipment,
            reply,
        },
        SimCommand::Event { event, acceptance } => DriverStep::RouteEvent {
            event,
            allow_retained_leave: event.disconnected,
            after: AfterRoute::Reply { acceptance },
        },
        SimCommand::StreamChunks { load, unload, reply } => DriverStep::StreamChunks {
            load,
            unload,
            reply,
        },
        SimCommand::ReleaseChunks { positions } => DriverStep::ReleaseChunks { positions },
        SimCommand::BroadcastSystemChat { content, overlay } => DriverStep::BroadcastChat {
            content,
            overlay,
        },
        SimCommand::SetGameMode { player, mode, acceptance } => DriverStep::RouteInput {
            player,
            input: GameInput::SetGameMode { player, mode },
            operation: Operation::SetGameMode,
            after: AfterRoute::Reply { acceptance },
        },
        SimCommand::PlaceBlock {
            player,
            position,
            sequence,
            state,
            clicked_face,
            cursor_position,
            player_yaw,
            reply,
        } => DriverStep::RouteInput {
            player,
            input: GameInput::BlockPlace {
                player,
                position,
                sequence,
                state,
                clicked_face,
                cursor_position,
                player_yaw,
            },
            operation: Operation::BlockPlacement,
            after: AfterRoute::Preview {
                state,
                clicked_face,
                cursor_position,
                player_yaw,
                position,
                reply,
            },
        },
        SimCommand::SetBlockExact { player, position, sequence, state, acceptance } =>
            DriverStep::RouteInput {
                player,
                input: GameInput::SetBlockExact { player, position, sequence, state },
                operation: Operation::ExactBlockSet,
                after: AfterRoute::Reply { acceptance },
            },
        SimCommand::RegionEdit { player, region, op, acceptance } => DriverStep::RouteInput {
            player,
            input: GameInput::RegionEdit { player, region, op },
            operation: Operation::RegionEdit,
            after: AfterRoute::Reply { acceptance },
        },
        SimCommand::RegionUndo { player, acceptance } => DriverStep::RouteInput {
            player,
            input: GameInput::RegionUndo { player },
            operation: Operation::RegionUndo,
            after: AfterRoute::Reply { acceptance },
        },
        SimCommand::RejectBlockEdit { player, position, sequence, requested_state, acceptance } =>
            DriverStep::RouteInput {
                player,
                input: GameInput::RejectBlockEdit { player, position, sequence, requested_state },
                operation: Operation::BlockEditRejection,
                after: AfterRoute::Reply { acceptance },
            },
        SimCommand::TeleportPlayer { player, position, acceptance } => DriverStep::Teleport {
            player,
            position,
            operation: Operation::Teleport,
            after: AfterRoute::Reply { acceptance },
        },
        SimCommand::TeleportToPlayer { player, acceptance, .. } => match resolved {
            Some(target) => DriverStep::FindPosition { player, target, acceptance },
            None => DriverStep::ReplyAccepted { acceptance },
        },
        SimCommand::SetGameModeFor { mode, acceptance, .. } => match resolved {
            Some(target) => DriverStep::RouteInput {
                player: target,
                input: GameInput::SetGameMode { player: target, mode },
                operation: Operation::TargetedSetGameMode,
                after: AfterRoute::NotifyMode { target, mode, acceptance },
            },
            None => DriverStep::ReplyAccepted { acceptance },
        },
        SimCommand::SetWeather { raining } => DriverStep::BroadcastGameEvent {
            reason: if raining {
                GAME_EVENT_START_RAINING
            } else {
                GAME_EVENT_STOP_RAINING
            },
            value: 0,
        },
        SimCommand::SetTime { .. } => DriverStep::BroadcastTime(time.update()),
        SimCommand::AddTime { .. } => DriverStep::BroadcastTime(time.update()),
        SimCommand::QueryTime { player } => DriverStep::TellTime {
            player,
            time_of_day: time.time_of_day,
        },
        SimCommand::SendSystemChat { player, content, overlay } => DriverStep::SendChat {
            player,
            content,
            overlay,
        },
        SimCommand::SetEquipment { player, equipment } => DriverStep::SetEquipment {
            player,
            equipment,
        },
        SimCommand::UpdateSign { player, position, is_front, lines, acceptance } =>
            DriverStep::RouteInput {
                player,
                input: GameInput::UpdateSign { player, position, is_front, lines },
                operation: Operation::SignUpdate,
                after: AfterRoute::Reply { acceptance },
            },
        SimCommand::OpenContainer { player, position, reply } => DriverStep::OpenContainer {
            player,
            position,
            reply,
        },
        SimCommand::ContainerLeftClick { player, position, slot, cursor, reply } =>
            DriverStep::ContainerLeftClick { player, position, slot, cursor, reply },
    }
}

fn reply_step(
    player: PlayerId,
    input: GameInput,
    operation: Operation,
    acceptance: Option<ReplyId>,
) -> (r: DriverStep)
    ensures
        r == (DriverStep::RouteInput {
            player,
            input,
            operation,
            after: AfterRoute::Reply { acceptance },
        }),
{
    DriverStep::RouteInput { player, input, operation, after: AfterRoute::Reply { acceptance } }
}

/// Decides what the driver does for a command.
///
/// The clock commands set the clock here; a player named by a command is looked up in
/// the roster, and one who is not online is left alone.
pub fn handle_command(command: SimCommand, roster: &Roster, world_time: &mut WorldTime) -> (r:
    DriverStep)
    requires
        roster.wf(),
        old(world_time).wf(),
    ensures
        final(world_time).wf(),
        is_time_after(command, *old(world_time), *final(world_time)),
        exists|resolved: Option<PlayerId>|
            #![trigger step_for(command, resolved, *final(world_time))]
            {
                &&& named_player(command) matches Some(name) ==> is_resolved(
                    roster@,
                    name,
                    resolved,
                )
                &&& r == step_for(command, resolved, *final(world_time))
            },
{
    let ghost given = command;
    let ghost mut resolved: Option<PlayerId> = None;
    let step = match command {
        SimCommand::Join { player, name, position, equipment, reply } => DriverStep::Join {
            player,
            name,
            position,
            equipment,
            reply,
        },
        SimCommand::Event { event, acceptance } => DriverStep::RouteEvent {
            event,
            allow_retained_leave: event.disconnected,
            after: AfterRoute::Reply { acceptance },
        },
        SimCommand::StreamChunks { load, unload, reply } => DriverStep::StreamChunks {
            load,
            unload,
            reply,
        },
        SimCommand::ReleaseChunks { positions } => DriverStep::ReleaseChunks { positions },
        SimCommand::BroadcastSystemChat { content, overlay } => DriverStep::BroadcastChat {
            content,
            overlay,
        },
        SimCommand::SetGameMode { player, mode, acceptance } => reply_step(
            player,
            GameInput::SetGameMode { player, mode },
            Operation::SetGameMode,
            acceptance,
        ),
        SimCommand::PlaceBlock {
            player,
            position,
            sequence,
            state,
            clicked_face,
            cursor_position,
            player_yaw,
            reply,
        } => DriverStep::RouteInput {
            player,
            input: GameInput::BlockPlace {
                player,
                position,
                sequence,
                state,
                clicked_face,
                cursor_position,
                player_yaw,
            },
            operation: Operation::BlockPlacement,
            after: AfterRoute::Preview {
                state,
                clicked_face,
                cursor_position,
                player_yaw,
                position,
                reply,
            },
        },
        SimCommand::SetBlockExact { player, position, sequence, state, acceptance } => reply_step(
            player,
            GameInput::SetBlockExact { player, position, sequence, state },
            Operation::ExactBlockSet,
            acceptance,
        ),
        SimCommand::RegionEdit { player, region, op, acceptance } => reply_step(
            player,
            GameInput::RegionEdit { player, region, op },
            Operation::RegionEdit,
            acceptance,
        ),
        SimCommand::RegionUndo { player, acceptance } => reply_step(
            player,
            GameInput::RegionUndo { player },
            Operation::RegionUndo,
            acceptance,
        ),
        SimCommand::RejectBlockEdit { player, position, sequence, requested_state, acceptance } =>
            reply_step(
            player,
            GameInput::RejectBlockEdit { player, position, sequence, requested_state },
            Operation::BlockEditRejection,
            acceptance,
        ),
        SimCommand::TeleportPlayer { player, position, acceptance } => DriverStep::Teleport {
            player,
            position,
            operation: Operation::Teleport,
            after: AfterRoute::Reply { acceptance },
        },
        SimCommand::TeleportToPlayer { player, target, acceptance } => {
            let found = resolve_online_player(roster, target.as_str());
            proof {
                resolved = found;
            }
            match found {
                Some(target) => DriverStep::FindPosition { player, target, acceptance },
                None => DriverStep::ReplyAccepted { acceptance },
            }
        },
        SimCommand::SetGameModeFor { target, mode, acceptance } => {
            let found = resolve_online_player(roster, target.as_str());
            proof {
                resolved = found;
            }
            match found {
                Some(target) => DriverStep::RouteInput {
                    player: target,
                    input: GameInput::SetGameMode { player: target, mode },
                    operation: Operation::TargetedSetGameMode,
                    after: AfterRoute::NotifyMode { target, mode, acceptance },
                },
                None => DriverStep::ReplyAccepted { acceptance },
            }
        },
        SimCommand::SetWeather { raining } => DriverStep::BroadcastGameEvent {
            reason: if raining {
                GAME_EVENT_START_RAINING
            } else {
                GAME_EVENT_STOP_RAINING
            },
            value: 0,
        },
        SimCommand::SetTime { time_of_day } => {
            world_time.set_time_of_day(time_of_day);
            DriverStep::BroadcastTime(update_time_packet(world_time))
        },
        SimCommand::AddTime { ticks } => {
            world_time.add_time(ticks);
            DriverStep::BroadcastTime(update_time_packet(world_time))
        },
        SimCommand::QueryTime { player } => DriverStep::TellTime {
            player,
            time_of_day: world_time.time_of_day,
        },
        SimCommand::SendSystemChat { player, content, overlay } => DriverStep::SendChat {
            player,
            content,
            overlay,
        },
        SimCommand::SetEquipment { player, equipment } => DriverStep::SetEquipment {
            player,
            equipment,
        },
        SimCommand::UpdateSign { player, position, is_front, lines, acceptance } => reply_step(
            player,
            GameInput::UpdateSign { player, position, is_front, lines },
            Operation::SignUpdate,
            acceptance,
        ),
        SimCommand::OpenContainer { player, position, reply } => DriverStep::OpenContainer {
            player,
            position,
            reply,
        },
        SimCommand::ContainerLeftClick { player, position, slot, cursor, reply } => {
            DriverStep::ContainerLeftClick { player, position, slot, cursor, reply }
        },
    };
    assert(step == step_for(given, resolved, *world_time));
    step
}

/// The roster after the router's answer to a join, and the time that is sent.
pub open spec fn join_outcome(
    roster: Map<PlayerId, Seq<char>>,
    player: PlayerId,
    name: Seq<char>,
    accepted: bool,
    time: WorldTime,
) -> (Map<PlayerId, Seq<char>>, Option<UpdateTime>) {
    if accepted {
        (roster.insert(player, name), Some(time.update()))
    } else {
        (roster, None)
    }
}

/// An accepted player is listed under their name and sent the time, and nobody else's entry
/// changes; a refused one leaves no trace.
pub proof fn accepted_players_are_listed(
    roster: Map<PlayerId, Seq<char>>,
    player: PlayerId,
    name: Seq<char>,
    time: WorldTime,
    other: PlayerId,
)
    ensures
        ({
            let (after, update) = join_outcome(roster, player, name, true, time);
            &&& after.contains_key(player) && after[player] == name
            &&& other != player ==> after.contains_key(other) == roster.contains_key(other)
            &&& other != player && roster.contains_key(other) ==> after[other] == roster[other]
            &&& update matches Some(told) && told.world_age == time.world_age && told.time_of_day
                == time.time_of_day
        }),
        join_outcome(roster, player, name, false, time) == (roster, None::<UpdateTime>),
{
}

/// What follows the router's answer to a join: an accepted player enters the roster
/// and is sent the time; a refused one leaves no trace.
pub fn joined(
    roster: &mut Roster,
    player: PlayerId,
    name: String,
    accepted: bool,
    world_time: &WorldTime,
) -> (r: Option<UpdateTime>)
    requires
        old(roster).wf(),
    ensures
        final(roster).wf(),
        (final(roster)@, r) == join_outcome(old(roster)@, player, name@, accepted, *world_time),
        final(roster)@ == if accepted {
            old(roster)@.insert(player, name@)
        } else {
            old(roster)@
        },
        r == if accepted {
            Some(world_time.update())
        } else {
            None
        },
{
    if accepted {
        roster.insert(player, name);
        Some(update_time_packet(world_time))
    } else {
        None
    }
}

/// What follows the look-up of the player to teleport to, by rule.
pub open spec fn teleport_step(
    player: PlayerId,
    simulated: Option<Vec3>,
    routed: Option<Vec3>,
    acceptance: Option<ReplyId>,
) -> DriverStep {
    let position = if simulated is Some {
        simulated
    } else {
        routed
    };
    match position {
        Some(position) => DriverStep::Teleport {
            player,
            position,
            operation: Operation::TeleportToPlayer,
            after: AfterRoute::Reply { acceptance },
        },
        None => DriverStep::ReplyAccepted { acceptance },
    }
}

/// A teleport to a player moves the one who asked to where the simulation has the other, and
/// to where the router has them only where the simulation does not know. It happens exactly
/// where a position is known, and whoever waits is answered in every case.
pub proof fn teleport_reaches_the_player(
    player: PlayerId,
    simulated: Option<Vec3>,
    routed: Option<Vec3>,
    acceptance: Option<ReplyId>,
)
    ensures
        ({
            let step = teleport_step(player, simulated, routed, acceptance);
            &&& step is Teleport == (simulated is Some || routed is Some)
            &&& awaited(step) == acceptance
            &&& operation_of(step) is Some ==> operation_of(step) == Some(
                Operation::TeleportToPlayer,
            )
            &&& simulated matches Some(there) ==> (step matches DriverStep::Teleport {
                player: moved,
                position,
                ..
            } && moved == player && position == there)
            &&& simulated is None ==> (routed matches Some(there) ==> (
            step matches DriverStep::Teleport { player: moved, position, .. } && moved == player
                && position == there))
            &&& simulated is None && routed is None ==> step is ReplyAccepted
        }),
{
}

/// What follows the look-up of the player to teleport to: the position that the
/// simulation knows, else the one the router knows; without either nothing happens.
pub fn teleport_to(
    player: PlayerId,
    simulated: Option<Vec3>,
    routed: Option<Vec3>,
    acceptance: Option<ReplyId>,
) -> (r: DriverStep)
    ensures
        r == teleport_step(player, simulated, routed, acceptance),
        r == match (simulated, routed) {
            (Some(position), _) => DriverStep::Teleport {
                player,
                position,
                operation: Operation::TeleportToPlayer,
                after: AfterRoute::Reply { acceptance },
            },
            (None, Some(position)) => DriverStep::Teleport {
                player,
                position,
                operation: Operation::TeleportToPlayer,
                after: AfterRoute::Reply { acceptance },
            },
            (None, None) => DriverStep::ReplyAccepted { acceptance },
        },
{
    let position = match simulated {
        Some(position) => Some(position),
        None => routed,
    };
    match position {
        Some(position) => DriverStep::Teleport {
            player,
            position,
            operation: Operation::TeleportToPlayer,
            after: AfterRoute::Reply { acceptance },
        },
        None => DriverStep::ReplyAccepted { acceptance },
    }
}

/// What is done once the delivery of an input is settled.
#[derive(Clone, Copy, Debug, PartialEq, Eq)]
pub enum SettledStep {
    /// The caller who waits is told the outcome.
    Reply {
        /// Who waits.
        acceptance: Option<ReplyId>,
        /// What they are told.
        outcome: Result<(), SessionError>,
    },
    /// The refined placement is previewed, and the caller told the state.
    PreviewPlacement {
        /// The held item's default state.
        state: u32,
        /// The clicked face.
        clicked_face: Direction,
        /// The point of the click within the block.
        cursor_position: Vec3,
        /// The player's horizontal look.
        player_yaw: Single,
        /// Where.
        position: BlockPos,
        /// Who waits.
        reply: ReplyId,
    },
    /// The caller is told that the placement was rejected.
    RefusePlacement {
        /// Who waits.
        reply: ReplyId,
        /// Why.
        error: SessionError,
    },
    /// The target is sent a game event; then the caller who waits is told of success.
    SwitchMode {
        /// The target.
        target: PlayerId,
        /// The reason of the event.
        reason: u8,
        /// The value it carries.
        value: u8,
        /// Who waits.
        acceptance: Option<ReplyId>,
    },
}

/// What is done once the delivery of an input is settled, by rule.
pub open spec fn settled(after: AfterRoute, outcome: Result<(), SessionError>) -> SettledStep {
    match after {
        AfterRoute::Reply { acceptance } => SettledStep::Reply { acceptance, outcome },
        AfterRoute::Preview {
            state,
            clicked_face,
            cursor_position,
            player_yaw,
            position,
            reply,
        } => match outcome {
            Ok(_) => SettledStep::PreviewPlacement {
                state,
                clicked_face,
                cursor_position,
                player_yaw,
                position,
                reply,
            },
            Err(error) => SettledStep::RefusePlacement { reply, error },
        },
        AfterRoute::NotifyMode { target, mode, acceptance } => match outcome {
            Ok(_) => SettledStep::SwitchMode {
                target,
                reason: GAME_EVENT_CHANGE_GAMEMODE,
                value: mode.number() as u8,
                acceptance,
            },
            Err(_) => SettledStep::Reply { acceptance, outcome },
        },
    }
}

/// Decides what is done once the delivery of an input is settled: a preview and a
/// client's mode switch wait for the shard's admission.
pub fn settle(after: AfterRoute, outcome: Result<(), SessionError>) -> (r: SettledStep)
    ensures
        r == settled(after, outcome),
{
    match after {
        AfterRoute::Reply { acceptance } => SettledStep::Reply { acceptance, outcome },
        AfterRoute::Preview {
            state,
            clicked_face,
            cursor_position,
            player_yaw,
            position,
            reply,
        } => match outcome {
            Ok(_) => SettledStep::PreviewPlacement {
                state,
                clicked_face,
                cursor_position,
                player_yaw,
                position,
                reply,
            },
            Err(error) => SettledStep::RefusePlacement { reply, error },
        },
        AfterRoute::NotifyMode { target, mode, acceptance } => match outcome {
            Ok(_) => SettledStep::SwitchMode {
                target,
                reason: GAME_EVENT_CHANGE_GAMEMODE,
                value: mode.id(),
                acceptance,
            },
            Err(_) => SettledStep::Reply { acceptance, outcome },
        },
    }
}

/// Who waits for the outcome of a step.
pub open spec fn awaited(step: DriverStep) -> Option<ReplyId> {
    match step {
        DriverStep::RouteEvent { after, .. } => awaited_after(after),
        DriverStep::RouteInput { after, .. } => awaited_after(after),
        DriverStep::Teleport { after, .. } => awaited_after(after),
        DriverStep::FindPosition { acceptance, .. } => acceptance,
        DriverStep::ReplyAccepted { acceptance } => acceptance,
        _ => None,
    }
}

/// Who waits for what follows a delivery.
pub open spec fn awaited_after(after: AfterRoute) -> Option<ReplyId> {
    match after {
        AfterRoute::Reply { acceptance } => acceptance,
        AfterRoute::Preview { .. } => None,
        AfterRoute::NotifyMode { acceptance, .. } => acceptance,
    }
}

/// A caller who asks for a command's admission is carried through to its outcome.
pub proof fn acceptance_is_carried(
    command: SimCommand,
    reply: ReplyId,
    resolved: Option<PlayerId>,
    time: WorldTime,
)
    requires
        command.takes_acceptance(),
    ensures
        awaited(step_for(command.awaited_by(reply), resolved, time)) == Some(reply),
{
}

/// No client sees a mode switch or a placement preview before the shard has admitted
/// the input.
pub proof fn effects_wait_for_admission(after: AfterRoute, outcome: Result<(), SessionError>)
    requires
        outcome is Err,
    ensures
        !(settled(after, outcome) is PreviewPlacement),
        !(settled(after, outcome) is SwitchMode),
{
}

/// What the driver does for a command carries the command's own payload: whoever joins,
/// acts, is moved or is told is the one the command names, and positions, states, regions,
/// operations, messages, columns and stacks are the command's own. What goes to a shard goes
/// to the shard of the player it is about, and whoever waits is the one who asked.
pub proof fn step_carries_its_command(
    command: SimCommand,
    resolved: Option<PlayerId>,
    time: WorldTime,
)
    ensures
        match step_for(command, resolved, time) {
            DriverStep::Join { player, name, position, equipment, reply } => command == (
            SimCommand::Join { player, name, position, equipment, reply }),
            DriverStep::RouteEvent { event, allow_retained_leave, after } => {
                &&& command matches SimCommand::Event { event: asked, acceptance }
                &&& event == asked && allow_retained_leave == asked.disconnected
                &&& after == (AfterRoute::Reply { acceptance })
            },
            DriverStep::RouteInput { player, input, operation, after } => match input {
                GameInput::SetGameMode { player: whose, mode } => {
                    &&& player == whose
                    &&& match after {
                        AfterRoute::Reply { acceptance } => command == (SimCommand::SetGameMode {
                            player: whose,
                            mode,
                            acceptance,
                        }),
                        AfterRoute::NotifyMode { target, mode: shown, acceptance } => {
                            &&& command matches SimCommand::SetGameModeFor {
                                mode: asked,
                                acceptance: waiting,
                                ..
                            }
                            &&& mode == asked && shown == asked && acceptance == waiting
                            &&& resolved == Some(whose) && target == whose
                        },
                        _ => false,
                    }
                },
                GameInput::BlockPlace {
                    player: whose,
                    position,
                    sequence,
                    state,
                    clicked_face,
                    cursor_position,
                    player_yaw,
                } => {
                    &&& player == whose
                    &&& after matches AfterRoute::Preview { reply, .. }
                    &&& command == (SimCommand::PlaceBlock {
                        player: whose,
                        position,
                        sequence,
                        state,
                        clicked_face,
                        cursor_position,
                        player_yaw,
                        reply,
                    })
                    &&& after == (AfterRoute::Preview {
                        state,
                        clicked_face,
                        cursor_position,
                        player_yaw,
                        position,
                        reply,
                    })
                },
                GameInput::SetBlockExact { player: whose, position, sequence, state } => {
                    &&& player == whose
                    &&& after matches AfterRoute::Reply { acceptance }
                    &&& command == (SimCommand::SetBlockExact {
                        player: whose,
                        position,
                        sequence,
                        state,
                        acceptance,
                    })
                },
                GameInput::RegionEdit { player: whose, region, op } => {
                    &&& player == whose
                    &&& after matches AfterRoute::Reply { acceptance }
                    &&& command == (SimCommand::RegionEdit { player: whose, region, op, acceptance })
                },
                GameInput::RegionUndo { player: whose } => {
                    &&& player == whose
                    &&& after matches AfterRoute::Reply { acceptance }
                    &&& command == (SimCommand::RegionUndo { player: whose, acceptance })
                },
                GameInput::RejectBlockEdit { player: whose, position, sequence, requested_state }
                    => {
                    &&& player == whose
                    &&& after matches AfterRoute::Reply { acceptance }
                    &&& command == (SimCommand::RejectBlockEdit {
                        player: whose,
                        position,
                        sequence,
                        requested_state,
                        acceptance,
                    })
                },
                GameInput::UpdateSign { player: whose, position, is_front, lines } => {
                    &&& player == whose
                    &&& after matches AfterRoute::Reply { acceptance }
                    &&& command == (SimCommand::UpdateSign {
                        player: whose,
                        position,
                        is_front,
                        lines,
                        acceptance,
                    })
                },
            },
            DriverStep::Teleport { player, position, operation, after } => {
                &&& after matches AfterRoute::Reply { acceptance }
                &&& command == (SimCommand::TeleportPlayer { player, position, acceptance })
            },
            DriverStep::FindPosition { player, target, acceptance } => {
                &&& command matches SimCommand::TeleportToPlayer {
                    player: moved,
                    acceptance: waiting,
                    ..
                }
                &&& player == moved && acceptance == waiting && resolved == Some(target)
            },
            DriverStep::ReplyAccepted { acceptance } => resolved is None && match command {
                SimCommand::TeleportToPlayer { acceptance: waiting, .. } => acceptance == waiting,
                SimCommand::SetGameModeFor { acceptance: waiting, .. } => acceptance == waiting,
                _ => false,
            },
            DriverStep::StreamChunks { load, unload, reply } => command == (
            SimCommand::StreamChunks { load, unload, reply }),
            DriverStep::ReleaseChunks { positions } => command == (SimCommand::ReleaseChunks {
                positions,
            }),
            DriverStep::BroadcastChat { content, overlay } => command == (
            SimCommand::BroadcastSystemChat { content, overlay }),
            DriverStep::BroadcastGameEvent { reason, value } => {
                &&& command matches SimCommand::SetWeather { raining }
                &&& reason == if raining {
                    1u8
                } else {
                    2u8
                }
                &&& value == 0
            },
            DriverStep::BroadcastTime(update) => {
                &&& command is SetTime || command is AddTime
                &&& update.world_age == time.world_age
                &&& update.time_of_day == time.time_of_day
                &&& update.increasing
            },
            DriverStep::TellTime { player, time_of_day } => command == (SimCommand::QueryTime {
                player,
            }) && time_of_day == time.time_of_day,
            DriverStep::SendChat { player, content, overlay } => command == (
            SimCommand::SendSystemChat { player, content, overlay }),
            DriverStep::SetEquipment { player, equipment } => command == (
            SimCommand::SetEquipment { player, equipment }),
            DriverStep::OpenContainer { player, position, reply } => command == (
            SimCommand::OpenContainer { player, position, reply }),
            DriverStep::ContainerLeftClick { player, position, slot, cursor, reply } => command
                == (SimCommand::ContainerLeftClick { player, position, slot, cursor, reply }),
        },
{
}

/// Every operation is called by its own name, so that a failure names what failed: inputs of
/// different commands go under different operations.
pub proof fn operations_tell_commands_apart(
    one: SimCommand,
    other: SimCommand,
    resolved: Option<PlayerId>,
    time: WorldTime,
)
    requires
        operation_of(step_for(one, resolved, time)) is Some,
        operation_of(step_for(one, resolved, time)) == operation_of(
            step_for(other, resolved, time),
        ),
    ensures
        one is SetGameMode == other is SetGameMode,
        one is PlaceBlock == other is PlaceBlock,
        one is SetBlockExact == other is SetBlockExact,
        one is RegionEdit == other is RegionEdit,
        one is RegionUndo == other is RegionUndo,
        one is RejectBlockEdit == other is RejectBlockEdit,
        one is TeleportPlayer == other is TeleportPlayer,
        one is SetGameModeFor == other is SetGameModeFor,
        one is UpdateSign == other is UpdateSign,
{
}

/// The operation that a step is done under, if it is named.
pub open spec fn operation_of(step: DriverStep) -> Option<Operation> {
    match step {
        DriverStep::RouteInput { operation, .. } => Some(operation),
        DriverStep::Teleport { operation, .. } => Some(operation),
        _ => None,
    }
}

/// Whether two steps do the same work, whoever waits for them.
pub open spec fn same_work(one: DriverStep, other: DriverStep) -> bool {
    match (one, other) {
        (
            DriverStep::RouteEvent { event: a, allow_retained_leave: b, .. },
            DriverStep::RouteEvent { event: c, allow_retained_leave: d, .. },
        ) => a == c && b == d,
        (
            DriverStep::RouteInput { player: a, input: b, operation: c, .. },
            DriverStep::RouteInput { player: d, input: e, operation: f, .. },
        ) => a == d && b == e && c == f,
        (
            DriverStep::Teleport { player: a, position: b, operation: c, .. },
            DriverStep::Teleport { player: d, position: e, operation: f, .. },
        ) => a == d && b == e && c == f,
        (
            DriverStep::FindPosition { player: a, target: b, .. },
            DriverStep::FindPosition { player: c, target: d, .. },
        ) => a == c && b == d,
        (DriverStep::ReplyAccepted { .. }, DriverStep::ReplyAccepted { .. }) => true,
        _ => one == other,
    }
}

/// Whoever waits for a command changes nothing of what it does, and names the same player;
/// the last to ask is the one who waits. A command can be waited for exactly where its
/// outcome is a shard's admission.
pub proof fn waiting_changes_nothing_else(
    command: SimCommand,
    first: ReplyId,
    second: ReplyId,
    resolved: Option<PlayerId>,
    time: WorldTime,
)
    ensures
        same_work(
            step_for(command.awaited_by(first), resolved, time),
            step_for(command, resolved, time),
        ),
        named_player(command.awaited_by(first)) == named_player(command),
        command.awaited_by(first).awaited_by(second) == command.awaited_by(second),
        !command.takes_acceptance() ==> command.awaited_by(first) == command,
        command.takes_acceptance() == match step_for(command, resolved, time) {
            DriverStep::RouteEvent { .. } => true,
            DriverStep::RouteInput { input, .. } => !(input is BlockPlace),
            DriverStep::Teleport { .. } => true,
            DriverStep::FindPosition { .. } => true,
            DriverStep::ReplyAccepted { .. } => true,
            _ => false,
        },
{
}

/// What follows a delivery tells the one who waits what came of it: an admitted placement is
/// previewed with its own data and a refused one is refused with its reason; a mode switch
/// shows the target the very mode that was set, by its number; and every other outcome is
/// told as it is.
pub proof fn outcomes_reach_who_waits(after: AfterRoute, outcome: Result<(), SessionError>)
    ensures
        match settled(after, outcome) {
            SettledStep::Reply { acceptance, outcome: told } => {
                &&& told == outcome
                &&& acceptance == awaited_after(after)
                &&& !(after is Preview)
                &&& after is NotifyMode ==> outcome is Err
            },
            SettledStep::PreviewPlacement {
                state,
                clicked_face,
                cursor_position,
                player_yaw,
                position,
                reply,
            } => outcome is Ok && after == (AfterRoute::Preview {
                state,
                clicked_face,
                cursor_position,
                player_yaw,
                position,
                reply,
            }),
            SettledStep::RefusePlacement { reply, error } => {
                &&& outcome == Err::<(), SessionError>(error)
                &&& after matches AfterRoute::Preview { reply: waiting, .. }
                &&& reply == waiting
            },
            SettledStep::SwitchMode { target, reason, value, acceptance } => {
                &&& outcome is Ok
                &&& after matches AfterRoute::NotifyMode {
                    target: whose,
                    mode,
                    acceptance: waiting,
                }
                &&& target == whose && acceptance == waiting && reason == 3
                &&& GameMode::numbered(value as int) == Some(mode)
            },
        },
{
}

/// The phase that a clock command leaves lies within a day, and the age never moves. Setting
/// a phase of the day gives that phase, whatever it was before; moving it by two amounts one
/// after the other moves it by both; and moving it by nothing leaves it.
pub proof fn clock_commands_set_and_move(
    before: WorldTime,
    between: WorldTime,
    after: WorldTime,
    a: i64,
    b: i64,
)
    requires
        before.wf(),
        i64::MIN <= a + b <= i64::MAX,
        is_time_after(SimCommand::AddTime { ticks: a }, before, between),
        is_time_after(SimCommand::AddTime { ticks: b }, between, after),
    ensures
        0 <= after.time_of_day < 24_000,
        after.world_age == before.world_age,
        is_time_after(SimCommand::AddTime { ticks: (a + b) as i64 }, before, after),
        a == 0 ==> between == before,
        0 <= before.time_of_day + a < 24_000 ==> between.time_of_day == before.time_of_day + a,
        0 <= a < 24_000 ==> forall|set: WorldTime| #[trigger]
            is_time_after(SimCommand::SetTime { time_of_day: a }, before, set)
                ==> set.time_of_day == a && set.world_age == before.world_age,
{
    lemma_add_mod_noop(before.time_of_day + a, b as int, 24_000);
    lemma_mod_twice(before.time_of_day + a, 24_000);
    lemma_add_mod_noop(between.time_of_day as int, b as int, 24_000);
    lemma_small_mod(before.time_of_day as nat, 24_000);
    if 0 <= a < 24_000 {
        lemma_small_mod(a as nat, 24_000);
    }
    if 0 <= before.time_of_day + a < 24_000 {
        lemma_small_mod((before.time_of_day + a) as nat, 24_000);
    }
}

} // verus!
