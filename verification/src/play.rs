//! The life of a player's session: how the player joins, what the session turns to,
//! and what is done when it ends.

use crate::chunk_stream::{look_synced, mirror_server_teleport, ChunkStream, PositionSync};
use crate::command::GameMode;
use crate::ieee754::{patterns_of_small_integers, Single};
use crate::inventory::{deposited, next_state_id, ItemStack, PlayerInventory};
use crate::login::FrameError;
use crate::math::{ChunkPos, Rotation, Vec3};
use crate::movement::{is_valid_player_position, valid_position};
use crate::outbound::{is_mandatory_overflow, Criticality, EnqueueOutcome};
use crate::serverbound_budget::{DisconnectReason, ServerboundBudget};
use crate::sim_command::GAME_EVENT_CHANGE_GAMEMODE;
use crate::window::WindowState;
use vstd::prelude::*;

verus! {

/// What the store knows of a player.
#[derive(Clone, Copy, Debug, PartialEq, Eq, Structural)]
pub enum PlayerLoad {
    /// Nothing that can be read.
    Unreadable,
    /// That there is nothing.
    NotFound,
    /// Where the player was, how they looked and played.
    Restored {
        /// Where.
        position: Vec3,
        /// The look.
        look: Rotation,
        /// The mode.
        mode: GameMode,
    },
}

/// Why a player may not enter play.
#[derive(Clone, Copy, Debug, PartialEq, Eq, Structural)]
pub enum JoinRefusal {
    /// The saved state cannot be read.
    UnreadableState,
    /// The saved position is unsafe, and so is the spawn.
    UnsafeRecovery,
    /// The spawn is unsafe.
    UnsafeSpawn,
}

/// How a player enters play.
#[derive(Clone, Copy, Debug, PartialEq, Eq, Structural)]
pub struct JoinState {
    /// Where.
    pub position: Vec3,
    /// The look.
    pub look: Rotation,
    /// The mode.
    pub mode: GameMode,
    /// Whether the player was here before.
    pub is_returning: bool,
}

/// A look straight ahead.
pub open spec fn level_look() -> Rotation {
    Rotation { yaw: Single { bits: 0 }, pitch: Single { bits: 0 } }
}

/// How a player enters play, by rule: a returning player where they were, or at spawn
/// where that is unsafe; a new player at spawn, in creative mode. Unreadable state, or a
/// needed spawn that is unsafe, refuses them.
pub open spec fn join_rule(load: PlayerLoad, spawn: Vec3) -> Result<JoinState, JoinRefusal> {
    match load {
        PlayerLoad::Unreadable => Err(JoinRefusal::UnreadableState),
        PlayerLoad::Restored { position, look, mode } => if valid_position(position) {
            Ok(JoinState { position, look, mode, is_returning: true })
        } else if valid_position(spawn) {
            Ok(JoinState { position: spawn, look, mode, is_returning: true })
        } else {
            Err(JoinRefusal::UnsafeRecovery)
        },
        PlayerLoad::NotFound => if valid_position(spawn) {
            Ok(
                JoinState {
                    position: spawn,
                    look: level_look(),
                    mode: GameMode::Creative,
                    is_returning: false,
                },
            )
        } else {
            Err(JoinRefusal::UnsafeSpawn)
        },
    }
}

/// Decides how a player enters play.
pub fn resolve_join(load: PlayerLoad, spawn: Vec3) -> (r: Result<JoinState, JoinRefusal>)
    ensures
        r == join_rule(load, spawn),
        r matches Ok(state) ==> valid_position(state.position),
{
    match load {
        PlayerLoad::Unreadable => Err(JoinRefusal::UnreadableState),
        PlayerLoad::Restored { position, look, mode } => {
            if is_valid_player_position(position) {
                Ok(JoinState { position, look, mode, is_returning: true })
            } else if is_valid_player_position(spawn) {
                Ok(JoinState { position: spawn, look, mode, is_returning: true })
            } else {
                Err(JoinRefusal::UnsafeRecovery)
            }
        },
        PlayerLoad::NotFound => {
            if is_valid_player_position(spawn) {
                Ok(
                    JoinState {
                        position: spawn,
                        look: Rotation { yaw: Single { bits: 0 }, pitch: Single { bits: 0 } },
                        mode: GameMode::Creative,
                        is_returning: false,
                    },
                )
            } else {
                Err(JoinRefusal::UnsafeSpawn)
            }
        },
    }
}

/// Whoever enters play stands at a safe place: where they were saved if that is safe, and at
/// spawn otherwise. A returning player keeps the saved look and mode in either case; a new one
/// looks straight ahead, in creative mode. Only an unreadable state, or a spawn that is needed
/// and unsafe, refuses a player.
pub proof fn join_keeps_what_was_saved(load: PlayerLoad, spawn: Vec3)
    ensures
        match join_rule(load, spawn) {
            Ok(state) => {
                &&& valid_position(state.position)
                &&& state.is_returning == load is Restored
                &&& load matches PlayerLoad::Restored { position, look, mode } ==> {
                    &&& state.look == look && state.mode == mode
                    &&& state.position == position || (!valid_position(position)
                        && state.position == spawn)
                }
                &&& load is NotFound ==> {
                    &&& state.position == spawn && state.mode is Creative
                    &&& state.look.yaw.bits == 0 && state.look.pitch.bits == 0
                }
                &&& !(load is Unreadable)
            },
            Err(refusal) => {
                &&& refusal is UnreadableState == load is Unreadable
                &&& refusal is UnsafeRecovery == load is Restored
                &&& refusal is UnsafeSpawn == load is NotFound
                &&& !(load is Unreadable) ==> !valid_position(spawn)
                &&& load matches PlayerLoad::Restored { position, .. } ==> !valid_position(position)
            },
        },
{
}

/// One step of the entry into play.
#[derive(Clone, Copy, Debug, PartialEq, Eq, Structural)]
pub enum EntryStep {
    /// Join the simulation; without a session the connection ends.
    JoinSimulation,
    /// Set the player's mode in the simulation; waits for admission.
    SetGameMode(GameMode),
    /// Send the join's packets.
    SendJoinKit,
    /// Handle the frames that came in meanwhile.
    DrainFrames,
    /// Stream the first chunks.
    StreamChunks,
    /// Write everything queued to the socket.
    Flush,
}

/// What comes after a step of the entry: the first three end the connection where they
/// fail; a later failure is kept for the session's loop, which ends at once but leaves
/// in good order.
#[derive(Clone, Copy, Debug, PartialEq, Eq, Structural)]
pub enum EntryTurn {
    /// The next step.
    Next(EntryStep),
    /// The connection ends; nothing is saved or released.
    Abort,
    /// The session's loop, which ends at once where `failed`.
    Loop {
        /// Whether something failed.
        failed: bool,
    },
}

/// What comes after a step of the entry, by rule.
pub open spec fn entry_rule(step: EntryStep, mode: GameMode, succeeded: bool) -> EntryTurn {
    match step {
        EntryStep::JoinSimulation => if succeeded {
            EntryTurn::Next(EntryStep::SetGameMode(mode))
        } else {
            EntryTurn::Abort
        },
        EntryStep::SetGameMode(_) => if succeeded {
            EntryTurn::Next(EntryStep::SendJoinKit)
        } else {
            EntryTurn::Abort
        },
        EntryStep::SendJoinKit => if succeeded {
            EntryTurn::Next(EntryStep::DrainFrames)
        } else {
            EntryTurn::Abort
        },
        EntryStep::DrainFrames => if succeeded {
            EntryTurn::Next(EntryStep::StreamChunks)
        } else {
            EntryTurn::Loop { failed: true }
        },
        EntryStep::StreamChunks => if succeeded {
            EntryTurn::Next(EntryStep::Flush)
        } else {
            EntryTurn::Loop { failed: true }
        },
        EntryStep::Flush => EntryTurn::Loop { failed: !succeeded },
    }
}

/// Decides what comes after a step of the entry.
pub fn enter_play(step: EntryStep, mode: GameMode, succeeded: bool) -> (r: EntryTurn)
    ensures
        r == entry_rule(step, mode, succeeded),
{
    match step {
        EntryStep::JoinSimulation => {
            if succeeded {
                EntryTurn::Next(EntryStep::SetGameMode(mode))
            } else {
                EntryTurn::Abort
            }
        },
        EntryStep::SetGameMode(_) => {
            if succeeded {
                EntryTurn::Next(EntryStep::SendJoinKit)
            } else {
                EntryTurn::Abort
            }
        },
        EntryStep::SendJoinKit => {
            if succeeded {
                EntryTurn::Next(EntryStep::DrainFrames)
            } else {
                EntryTurn::Abort
            }
        },
        EntryStep::DrainFrames => {
            if succeeded {
                EntryTurn::Next(EntryStep::StreamChunks)
            } else {
                EntryTurn::Loop { failed: true }
            }
        },
        EntryStep::StreamChunks => {
            if succeeded {
                EntryTurn::Next(EntryStep::Flush)
            } else {
                EntryTurn::Loop { failed: true }
            }
        },
        EntryStep::Flush => EntryTurn::Loop { failed: !succeeded },
    }
}

/// The step that the entry is at after so many steps that succeeded.
pub open spec fn entry_step_after(steps: nat, mode: GameMode) -> Option<EntryStep>
    decreases steps,
{
    if steps == 0 {
        Some(EntryStep::JoinSimulation)
    } else {
        match entry_step_after((steps - 1) as nat, mode) {
            Some(step) => match entry_rule(step, mode, true) {
                EntryTurn::Next(next) => Some(next),
                _ => None,
            },
            None => None,
        }
    }
}

/// An entry without failures joins the simulation, sets the player's own mode there, sends
/// the join's packets, handles what came in, streams the first chunks and writes all of it
/// out, in this order, and then the loop begins. A failure ends the connection as long as
/// nothing is to be saved or released, and afterwards is left to the loop.
pub proof fn entry_goes_through_every_step(mode: GameMode, step: EntryStep)
    ensures
        entry_step_after(0, mode) == Some(EntryStep::JoinSimulation),
        entry_step_after(1, mode) == Some(EntryStep::SetGameMode(mode)),
        entry_step_after(2, mode) == Some(EntryStep::SendJoinKit),
        entry_step_after(3, mode) == Some(EntryStep::DrainFrames),
        entry_step_after(4, mode) == Some(EntryStep::StreamChunks),
        entry_step_after(5, mode) == Some(EntryStep::Flush),
        entry_step_after(6, mode) is None,
        entry_rule(step, mode, true) is Loop == step is Flush,
        entry_rule(EntryStep::Flush, mode, true) == (EntryTurn::Loop { failed: false }),
        entry_rule(step, mode, false) == if step is JoinSimulation || step is SetGameMode
            || step is SendJoinKit {
            EntryTurn::Abort
        } else {
            EntryTurn::Loop { failed: true }
        },
{
    reveal_with_fuel(entry_step_after, 8);
}

/// What a session's loop turns to.
#[derive(Clone, Copy, Debug, PartialEq, Eq, Structural)]
pub enum SessionWake {
    /// The end, because the entry failed.
    Failed,
    /// The end, because the server shuts down.
    Shutdown,
    /// A keep-alive.
    KeepAlive,
    /// The chunk stream.
    ChunkPump,
    /// A packet from the simulation.
    Outbound,
    /// Bytes from the peer.
    Read,
    /// Nothing is due.
    Wait,
}

/// What is due in a session.
#[derive(Clone, Copy, Debug, PartialEq, Eq, Structural)]
pub struct SessionDue {
    /// The entry failed.
    pub failed: bool,
    /// The server shuts down.
    pub shutdown: bool,
    /// The keep-alive interval has passed.
    pub keep_alive: bool,
    /// The chunk-stream interval has passed.
    pub chunk_pump: bool,
    /// The simulation sent something or dropped the session.
    pub outbound: bool,
    /// The peer sent something, closed, or was silent for too long.
    pub read: bool,
}

/// What a session's loop turns to, by rule.
pub open spec fn session_wake(due: SessionDue) -> SessionWake {
    if due.failed {
        SessionWake::Failed
    } else if due.shutdown {
        SessionWake::Shutdown
    } else if due.keep_alive {
        SessionWake::KeepAlive
    } else if due.chunk_pump {
        SessionWake::ChunkPump
    } else if due.outbound {
        SessionWake::Outbound
    } else if due.read {
        SessionWake::Read
    } else {
        SessionWake::Wait
    }
}

/// Whether something to turn to is due.
pub open spec fn is_due(due: SessionDue, wake: SessionWake) -> bool {
    match wake {
        SessionWake::Failed => due.failed,
        SessionWake::Shutdown => due.shutdown,
        SessionWake::KeepAlive => due.keep_alive,
        SessionWake::ChunkPump => due.chunk_pump,
        SessionWake::Outbound => due.outbound,
        SessionWake::Read => due.read,
        SessionWake::Wait => true,
    }
}

/// How much matters more than something to turn to.
pub open spec fn urgency(wake: SessionWake) -> int {
    match wake {
        SessionWake::Failed => 0,
        SessionWake::Shutdown => 1,
        SessionWake::KeepAlive => 2,
        SessionWake::ChunkPump => 3,
        SessionWake::Outbound => 4,
        SessionWake::Read => 5,
        SessionWake::Wait => 6,
    }
}

/// A session turns to what is due and matters most: bytes from the peer never keep it from
/// its own duties, and nothing keeps it from its end.
pub proof fn session_turns_to_the_most_urgent(due: SessionDue, other: SessionWake)
    ensures
        is_due(due, session_wake(due)),
        is_due(due, other) ==> urgency(session_wake(due)) <= urgency(other),
{
}

/// Chooses what a session's loop turns to, in the order of importance.
pub fn next_session_wake(due: SessionDue) -> (r: SessionWake)
    ensures
        r == session_wake(due),
        r == if due.failed {
            SessionWake::Failed
        } else if due.shutdown {
            SessionWake::Shutdown
        } else if due.keep_alive {
            SessionWake::KeepAlive
        } else if due.chunk_pump {
            SessionWake::ChunkPump
        } else if due.outbound {
            SessionWake::Outbound
        } else if due.read {
            SessionWake::Read
        } else {
            SessionWake::Wait
        },
{
    if due.failed {
        SessionWake::Failed
    } else if due.shutdown {
        SessionWake::Shutdown
    } else if due.keep_alive {
        SessionWake::KeepAlive
    } else if due.chunk_pump {
        SessionWake::ChunkPump
    } else if due.outbound {
        SessionWake::Outbound
    } else if due.read {
        SessionWake::Read
    } else {
        SessionWake::Wait
    }
}

/// The number of the keep-alive after another.
pub open spec fn keep_alive_after(id: i64) -> int {
    if id == i64::MAX {
        i64::MIN as int
    } else {
        id + 1
    }
}

/// Keep-alives count up, and begin anew behind the largest number: no two numbers have the
/// same successor, and none is its own.
pub proof fn keep_alives_count_up(a: i64, b: i64)
    ensures
        keep_alive_after(a) == a + 1 || keep_alive_after(a) == a + 1 - 0x1_0000_0000_0000_0000,
        keep_alive_after(a) == keep_alive_after(b) ==> a == b,
        i64::MIN <= keep_alive_after(a) <= i64::MAX,
{
}

/// The number of the next keep-alive (wrapping).
pub fn next_keep_alive(id: i64) -> (r: i64)
    ensures
        r == keep_alive_after(id),
        r == if id == i64::MAX {
            i64::MIN
        } else {
            (id + 1) as i64
        },
{
    if id == i64::MAX {
        i64::MIN
    } else {
        id + 1
    }
}

/// What a read from the peer gave.
#[derive(Clone, Copy, Debug, PartialEq, Eq, Structural)]
pub enum ReadOutcome {
    /// Nothing within the time allowed.
    TimedOut,
    /// A failure.
    Failed,
    /// So many bytes; none where the peer closed.
    Bytes(usize),
}

/// What a read means for the session.
#[derive(Clone, Copy, Debug, PartialEq, Eq, Structural)]
pub enum ReadTurn {
    /// The session fails.
    Fail,
    /// The session ends cleanly.
    End,
    /// The bytes are handled.
    Handle(usize),
}

/// What a read means for the session, by rule.
pub open spec fn read_rule(outcome: ReadOutcome) -> ReadTurn {
    match outcome {
        ReadOutcome::Bytes(n) => if n == 0 {
            ReadTurn::End
        } else {
            ReadTurn::Handle(n)
        },
        _ => ReadTurn::Fail,
    }
}

/// All bytes that were read are handled; a peer that closed ends the session cleanly, and one
/// that is silent for too long or cannot be read fails it.
pub proof fn reads_are_handled_whole(outcome: ReadOutcome)
    ensures
        match read_rule(outcome) {
            ReadTurn::Handle(n) => n > 0 && outcome == ReadOutcome::Bytes(n),
            ReadTurn::End => outcome == ReadOutcome::Bytes(0),
            ReadTurn::Fail => outcome is TimedOut || outcome is Failed,
        },
{
}

/// Decides what a read means for the session.
pub fn judge_read(outcome: ReadOutcome) -> (r: ReadTurn)
    ensures
        r == read_rule(outcome),
        r == match outcome {
            ReadOutcome::Bytes(n) => if n == 0 {
                ReadTurn::End
            } else {
                ReadTurn::Handle(n)
            },
            _ => ReadTurn::Fail,
        },
{
    match outcome {
        ReadOutcome::TimedOut => ReadTurn::Fail,
        ReadOutcome::Failed => ReadTurn::Fail,
        ReadOutcome::Bytes(n) => {
            if n == 0 {
                ReadTurn::End
            } else {
                ReadTurn::Handle(n)
            }
        },
    }
}

/// What the decoder has in play.
#[derive(Clone, Copy, Debug, PartialEq, Eq, Structural)]
pub enum PlayFrame {
    /// A play frame.
    Body,
    /// A frame of another state.
    Foreign,
    /// No complete frame.
    Incomplete,
    /// A frame that does not decode.
    Error(FrameError),
}

/// What is done with what the decoder has.
#[derive(Clone, Copy, Debug, PartialEq, Eq, Structural)]
pub enum PumpTurn {
    /// The frame is handled.
    Handle,
    /// The drain is over.
    Done,
    /// The session ends: the frame does not decode.
    DecodeError(FrameError),
    /// The session ends: the frame is of another state.
    ForeignFrame,
    /// The session ends: the peer is over its budget.
    OverBudget(DisconnectReason),
}

/// What is done with what the decoder has, by rule.
pub open spec fn pump_rule(frame: PlayFrame, within_budget: bool) -> PumpTurn {
    match frame {
        PlayFrame::Error(error) => PumpTurn::DecodeError(error),
        PlayFrame::Incomplete => PumpTurn::Done,
        PlayFrame::Foreign => PumpTurn::ForeignFrame,
        PlayFrame::Body => if within_budget {
            PumpTurn::Handle
        } else {
            PumpTurn::OverBudget(DisconnectReason::BudgetExceeded)
        },
    }
}

/// The count of frames over the budget after what the decoder has.
pub open spec fn over_budget_after(count: u64, frame: PlayFrame, within_budget: bool) -> u64 {
    if frame is Body && !within_budget {
        crate::outbound::saturating_successor(count)
    } else {
        count
    }
}

/// A frame is handled exactly where it is a play frame within the budget; a frame over the
/// budget ends the session and alone is counted; a frame that does not decode, or belongs to
/// another state, ends it too; and without a whole frame the drain is over.
pub proof fn frames_are_charged_first(count: u64, frame: PlayFrame, within_budget: bool)
    ensures
        match pump_rule(frame, within_budget) {
            PumpTurn::Handle => frame is Body && within_budget,
            PumpTurn::Done => frame is Incomplete,
            PumpTurn::DecodeError(error) => frame == PlayFrame::Error(error),
            PumpTurn::ForeignFrame => frame is Foreign,
            PumpTurn::OverBudget(reason) => frame is Body && !within_budget
                && reason is BudgetExceeded,
        },
        over_budget_after(count, frame, within_budget) == if pump_rule(
            frame,
            within_budget,
        ) is OverBudget && count < u64::MAX {
            count + 1
        } else {
            count as int
        },
{
}

/// Decides what is done with what the decoder has. A play frame is charged to the
/// budget before it is handled; `within_budget` is the bucket's verdict on it.
pub fn pump_serverbound(budget: &mut ServerboundBudget, frame: PlayFrame, within_budget: bool) -> (r:
    PumpTurn)
    ensures
        r == pump_rule(frame, within_budget),
        final(budget).over_budget == over_budget_after(
            old(budget).over_budget,
            frame,
            within_budget,
        ),
        r == match frame {
            PlayFrame::Error(error) => PumpTurn::DecodeError(error),
            PlayFrame::Incomplete => PumpTurn::Done,
            PlayFrame::Foreign => PumpTurn::ForeignFrame,
            PlayFrame::Body => if within_budget {
                PumpTurn::Handle
            } else {
                PumpTurn::OverBudget(DisconnectReason::BudgetExceeded)
            },
        },
        final(budget).over_budget == if frame is Body && !within_budget {
            crate::outbound::saturating_successor(old(budget).over_budget)
        } else {
            old(budget).over_budget
        },
{
    match frame {
        PlayFrame::Error(error) => PumpTurn::DecodeError(error),
        PlayFrame::Incomplete => PumpTurn::Done,
        PlayFrame::Foreign => PumpTurn::ForeignFrame,
        PlayFrame::Body => match budget.admit_frame(within_budget) {
            Ok(()) => PumpTurn::Handle,
            Err(reason) => PumpTurn::OverBudget(reason),
        },
    }
}

/// A packet from the simulation, as far as the connection mirrors it.
#[derive(Clone, Copy, Debug, PartialEq, Eq, Structural)]
pub enum OutboundMessage {
    /// A position update of the player.
    Synchronize(PositionSync),
    /// A game event.
    GameEvent {
        /// The reason.
        reason: u8,
        /// The value it carries.
        value: Single,
    },
    /// Anything else.
    Other,
}

/// The mode whose number a value denotes, if it denotes one.
pub open spec fn denoted_mode(value: Single) -> Option<GameMode> {
    if value.denotes(0) {
        Some(GameMode::Survival)
    } else if value.denotes(1) {
        Some(GameMode::Creative)
    } else if value.denotes(2) {
        Some(GameMode::Adventure)
    } else if value.denotes(3) {
        Some(GameMode::Spectator)
    } else {
        None
    }
}

/// The player's mode after a game event: a change to a known mode is taken over, and
/// anything else is not.
pub open spec fn mode_after(mode: GameMode, reason: u8, value: Single) -> GameMode {
    match denoted_mode(value) {
        Some(changed) if reason == GAME_EVENT_CHANGE_GAMEMODE => changed,
        _ => mode,
    }
}

/// The mode follows the events that change it and no others: a mode that is new was denoted by
/// its number in an event of that reason, and such an event always sets the mode of its
/// number.
pub proof fn mode_follows_its_events(mode: GameMode, reason: u8, value: Single, other: GameMode)
    ensures
        mode_after(mode, reason, value) != mode ==> reason == 3 && value.denotes(
            mode_after(mode, reason, value).number(),
        ),
        reason == 3 && value.denotes(other.number()) ==> mode_after(mode, reason, value) == other,
{
    patterns_of_small_integers(value);
}

/// Finds the mode whose number a value denotes.
///
/// Each number has one pattern, and zero has a second with a sign.
fn mode_of_value(value: Single) -> (r: Option<GameMode>)
    ensures
        r == denoted_mode(value),
        r == match value.bits {
            0u32 => Some(GameMode::Survival),
            0x8000_0000u32 => Some(GameMode::Survival),
            0x3f80_0000u32 => Some(GameMode::Creative),
            0x4000_0000u32 => Some(GameMode::Adventure),
            0x4040_0000u32 => Some(GameMode::Spectator),
            _ => None,
        },
{
    proof {
        patterns_of_small_integers(value);
    }
    if value.bits == 0 || value.bits == 0x8000_0000 {
        Some(GameMode::Survival)
    } else if value.bits == 0x3f80_0000 {
        Some(GameMode::Creative)
    } else if value.bits == 0x4000_0000 {
        Some(GameMode::Adventure)
    } else if value.bits == 0x4040_0000 {
        Some(GameMode::Spectator)
    } else {
        None
    }
}

/// Mirrors a server-driven game-mode change into the connection's own mode. An event of
/// another reason, or one with an unknown mode, is ignored.
pub fn mirror_game_mode_change(reason: u8, value: Single, inventory: &mut PlayerInventory)
    ensures
        *final(inventory) == (PlayerInventory {
            game_mode: mode_after(old(inventory).game_mode, reason, value),
            ..*old(inventory)
        }),
        final(inventory).game_mode == if reason != GAME_EVENT_CHANGE_GAMEMODE {
            old(inventory).game_mode
        } else if value.bits == 0 || value.bits == 0x8000_0000 {
            GameMode::Survival
        } else if value.bits == 0x3f80_0000 {
            GameMode::Creative
        } else if value.bits == 0x4000_0000 {
            GameMode::Adventure
        } else if value.bits == 0x4040_0000 {
            GameMode::Spectator
        } else {
            old(inventory).game_mode
        },
{
    if reason != GAME_EVENT_CHANGE_GAMEMODE {
        return;
    }
    if let Some(mode) = mode_of_value(value) {
        inventory.set_game_mode(mode);
    }
}

/// Mirrors a packet from the simulation before it is queued: a trustworthy teleport and
/// a game-mode change.
pub fn mirror_outbound(
    message: OutboundMessage,
    stream: &mut ChunkStream,
    look: &mut Rotation,
    inventory: &mut PlayerInventory,
)
    requires
        old(stream).wf(),
    ensures
        final(stream).wf(),
        old(stream).positions_are_safe() ==> final(stream).positions_are_safe(),
        match message {
            OutboundMessage::Synchronize(sync) => {
                &&& *final(inventory) == *old(inventory)
                &&& *final(look) == look_synced(*old(look), sync)
                &&& *final(stream) == if sync.trustworthy() {
                    old(stream).moved_to(sync.position)
                } else {
                    *old(stream)
                }
                &&& *final(stream) == if sync.trustworthy() {
                    ChunkStream {
                        pending_position: Some(sync.position),
                        last_position: Some(sync.position),
                        last_move_block: Some(sync.position.block()),
                        ..*old(stream)
                    }
                } else {
                    *old(stream)
                }
                &&& *final(look) == if sync.trustworthy() {
                    sync.rotation
                } else {
                    *old(look)
                }
            },
            OutboundMessage::GameEvent { reason, value } => {
                &&& *final(stream) == *old(stream)
                &&& *final(look) == *old(look)
                &&& *final(inventory) == (PlayerInventory {
                    game_mode: mode_after(old(inventory).game_mode, reason, value),
                    ..*old(inventory)
                })
            },
            OutboundMessage::Other => {
                &&& *final(stream) == *old(stream)
                &&& *final(look) == *old(look)
                &&& *final(inventory) == *old(inventory)
            },
        },
{
    match message {
        OutboundMessage::Synchronize(sync) => mirror_server_teleport(stream, look, sync),
        OutboundMessage::GameEvent { reason, value } => mirror_game_mode_change(
            reason,
            value,
            inventory,
        ),
        OutboundMessage::Other => {},
    }
}

/// What is done when a session ends.
#[derive(Debug)]
pub struct LeavePlan {
    /// The carried stack that did not fit into the inventory, if a container was open.
    pub leftover: Option<ItemStack>,
    /// Where the player is saved.
    pub save_position: Vec3,
    /// The columns to release, in coordinate order.
    pub release: Vec<ChunkPos>,
}

/// Where a player is saved: where they were last seen, or where they joined.
pub open spec fn saved_position(last_seen: Option<Vec3>, join_position: Vec3) -> Vec3 {
    match last_seen {
        Some(position) => position,
        None => join_position,
    }
}

/// A player is saved where they were last seen, whatever the place of their join; and a
/// player who was never seen elsewhere is saved where they joined.
pub proof fn players_are_saved_where_they_are(seen: Vec3, joined: Vec3, other: Vec3)
    ensures
        saved_position(Some(seen), joined) == saved_position(Some(seen), other),
        saved_position(Some(seen), joined) == seen,
        saved_position(None, joined) == joined,
{
}

/// Prepares the end of a session: a carried stack goes back into the inventory, so that
/// it is saved; the player is saved where they last were, or where they joined; and
/// every held column is released.
pub fn prepare_leave(
    stream: &ChunkStream,
    window: &mut WindowState,
    inventory: &mut PlayerInventory,
    join_position: Vec3,
) -> (r: LeavePlan)
    requires
        stream.wf(),
        old(window).wf(),
        old(inventory).wf(),
    ensures
        final(window).wf(),
        final(window).open is None,
        final(window).last_window_id == old(window).last_window_id,
        final(inventory).wf(),
        final(inventory).selected == old(inventory).selected,
        final(inventory).game_mode == old(inventory).game_mode,
        match old(window).open {
            None => r.leftover is None && *final(inventory) == *old(inventory),
            Some(open) => {
                let (slots, leftover) = deposited(old(inventory).slots@, open.cursor);
                &&& final(inventory).slots@ == slots
                &&& r.leftover == Some(leftover)
                &&& final(inventory).state_id == if leftover.count < open.cursor.count {
                    next_state_id(old(inventory).state_id)
                } else {
                    old(inventory).state_id
                }
            },
        },
        r.save_position == saved_position(stream.last_position, join_position),
        r.save_position == match stream.last_position {
            Some(position) => position,
            None => join_position,
        },
        stream.positions_are_safe() && valid_position(join_position) ==> valid_position(
            r.save_position,
        ),
        r.release@.to_set() == stream.loaded@,
        r.release@ == stream.loaded.sequence(),
{
    let taken = window.open.take();
    let leftover = match taken {
        Some(open) => Some(inventory.deposit(open.cursor)),
        None => None,
    };
    let save_position = match stream.last_position {
        Some(position) => position,
        None => join_position,
    };
    let columns = stream.loaded.columns();
    let mut release: Vec<ChunkPos> = Vec::new();
    let mut i: usize = 0;
    while i < columns.len()
        invariant
            i <= columns@.len(),
            release@ == columns@.take(i as int),
        decreases columns@.len() - i,
    {
        release.push(columns[i]);
        assert(release@ =~= columns@.take(i + 1));
        i = i + 1;
    }
    assert(release@ =~= columns@);
    LeavePlan { leftover, save_position, release }
}

/// One step of the end of a session.
#[derive(Clone, Copy, Debug, PartialEq, Eq, Structural)]
pub enum LeaveStep {
    /// Sample the queue and dump the traces.
    Report,
    /// Save the player.
    Save,
    /// Release the columns.
    ReleaseChunks,
    /// Tell the simulation that the player is gone.
    Despawn,
}

/// The steps of the end of a session, in order.
pub open spec fn leave_order(holds_chunks: bool) -> Seq<LeaveStep> {
    if holds_chunks {
        seq![LeaveStep::Report, LeaveStep::Save, LeaveStep::ReleaseChunks, LeaveStep::Despawn]
    } else {
        seq![LeaveStep::Report, LeaveStep::Save, LeaveStep::Despawn]
    }
}

/// Every session that ends is reported, saved and despawned, each once. The player is saved
/// before any column is released and before the simulation is told; columns are released
/// exactly where some are held, and before the simulation is told.
pub proof fn leaving_saves_before_it_releases(holds_chunks: bool, i: int, j: int)
    requires
        0 <= i < leave_order(holds_chunks).len(),
        0 <= j < leave_order(holds_chunks).len(),
    ensures
        ({
            let order = leave_order(holds_chunks);
            &&& order[i] == order[j] ==> i == j
            &&& order[i] is Save && (order[j] is ReleaseChunks || order[j] is Despawn) ==> i < j
            &&& order[i] is ReleaseChunks && order[j] is Despawn ==> i < j
            &&& order[i] is Report ==> i == 0
            &&& order.contains(LeaveStep::Report) && order.contains(LeaveStep::Save)
            &&& order.contains(LeaveStep::Despawn)
            &&& order.contains(LeaveStep::ReleaseChunks) == holds_chunks
        }),
{
    let order = leave_order(holds_chunks);
    assert(order[0] is Report && order[1] is Save);
    assert(order[order.len() - 1] is Despawn);
    if holds_chunks {
        assert(order[2] is ReleaseChunks);
    }
}

/// Lists the steps of the end of a session, whatever ended it: the player is saved
/// before any column is released, so that a fast return reads what was saved.
pub fn leave_steps(holds_chunks: bool) -> (r: Vec<LeaveStep>)
    ensures
        r@ == leave_order(holds_chunks),
        r@ == if holds_chunks {
            seq![
                LeaveStep::Report,
                LeaveStep::Save,
                LeaveStep::ReleaseChunks,
                LeaveStep::Despawn,
            ]
        } else {
            seq![LeaveStep::Report, LeaveStep::Save, LeaveStep::Despawn]
        },
{
    let mut out: Vec<LeaveStep> = Vec::new();
    out.push(LeaveStep::Report);
    out.push(LeaveStep::Save);
    if holds_chunks {
        out.push(LeaveStep::ReleaseChunks);
    }
    out.push(LeaveStep::Despawn);
    proof {
        if holds_chunks {
            assert(out@ =~= seq![
                LeaveStep::Report,
                LeaveStep::Save,
                LeaveStep::ReleaseChunks,
                LeaveStep::Despawn,
            ]);
        } else {
            assert(out@ =~= seq![LeaveStep::Report, LeaveStep::Save, LeaveStep::Despawn]);
        }
    }
    out
}

/// Judges the fate of a keep-alive or of a packet from the simulation: the session goes
/// on unless a mandatory one was dropped.
pub fn session_survives(criticality: Criticality, outcome: EnqueueOutcome) -> (r: bool)
    ensures
        r == !(outcome is Dropped && criticality is Mandatory),
{
    !is_mandatory_overflow(criticality, outcome)
}

} // verus!
