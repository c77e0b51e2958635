//! The simulation driver: the order of its work, one tick, and the snapshot that is
//! published after it.

use crate::command::GameMode;
use crate::delivery::{retry_failure, teardown_failure, FatalError, SessionError};
use crate::math::{chunk_of, BlockPos, ChunkPos, Vec3};
use crate::roster::{PlayerId, Roster};
use crate::world_time::{update_time_packet, UpdateTime, WorldTime, TIME_BROADCAST_INTERVAL_TICKS};
use vstd::prelude::*;

verus! {

/// Upper bound on the number of recent tick times that the effective rate is counted
/// from.
pub const TPS_WINDOW_CAP: usize = 128;

/// The span that the effective rate is counted over, in nanoseconds.
pub const TPS_WINDOW_NANOS: u64 = 1_000_000_000;

/// What the driver turns to next.
#[derive(Clone, Copy, Debug, PartialEq, Eq, Structural)]
pub enum Wake {
    /// The shutdown.
    Shutdown,
    /// A tick.
    Tick,
    /// A command.
    Command,
    /// The end: no connection can send commands any more.
    CommandsClosed,
    /// Nothing is due.
    Wait,
}

/// What the command channel holds.
#[derive(Clone, Copy, Debug, PartialEq, Eq, Structural)]
pub enum CommandQueue {
    /// Nothing yet.
    Empty,
    /// A command.
    Waiting,
    /// Nothing ever again.
    Closed,
}

/// What the driver turns to, by rule.
pub open spec fn driver_wake(shutdown: bool, tick_due: bool, commands: CommandQueue) -> Wake {
    if shutdown {
        Wake::Shutdown
    } else if tick_due {
        Wake::Tick
    } else {
        match commands {
            CommandQueue::Waiting => Wake::Command,
            CommandQueue::Closed => Wake::CommandsClosed,
            CommandQueue::Empty => Wake::Wait,
        }
    }
}

/// A flood of commands never starves the simulation, and nothing delays a shutdown: a tick
/// that is due is run whatever commands wait, a shutdown is begun whatever else is due, and a
/// command is taken only where neither is.
pub proof fn ticks_are_never_starved(shutdown: bool, tick_due: bool, commands: CommandQueue)
    ensures
        driver_wake(shutdown, tick_due, commands) is Shutdown == shutdown,
        driver_wake(shutdown, tick_due, commands) is Tick == (tick_due && !shutdown),
        driver_wake(shutdown, tick_due, commands) is Command == (commands is Waiting && !tick_due
            && !shutdown),
        driver_wake(shutdown, tick_due, commands) is CommandsClosed == (commands is Closed
            && !tick_due && !shutdown),
{
}

/// Chooses what the driver turns to: the shutdown before a tick, and a tick before a
/// command.
pub fn next_wake(shutdown: bool, tick_due: bool, commands: CommandQueue) -> (r: Wake)
    ensures
        r == driver_wake(shutdown, tick_due, commands),
        r == if shutdown {
            Wake::Shutdown
        } else if tick_due {
            Wake::Tick
        } else {
            match commands {
                CommandQueue::Waiting => Wake::Command,
                CommandQueue::Closed => Wake::CommandsClosed,
                CommandQueue::Empty => Wake::Wait,
            }
        },
{
    if shutdown {
        Wake::Shutdown
    } else if tick_due {
        Wake::Tick
    } else {
        match commands {
            CommandQueue::Waiting => Wake::Command,
            CommandQueue::Closed => Wake::CommandsClosed,
            CommandQueue::Empty => Wake::Wait,
        }
    }
}

/// A part of the driver's loop that can fail.
#[derive(Clone, Copy, Debug, PartialEq, Eq, Structural)]
pub enum DriverStage {
    /// The tick itself.
    Tick,
    /// The flush at its end.
    Flush,
    /// A command.
    Command,
    /// The flush at shutdown.
    ShutdownFlush,
}

/// Whether a failure in a part of the loop tells the rest of the server to shut down, or
/// only ends the driver.
pub fn announces_shutdown(stage: DriverStage) -> (r: bool)
    ensures
        r == !(stage is Tick),
{
    match stage {
        DriverStage::Tick => false,
        _ => true,
    }
}

/// How many queued inputs the simulation inbox has room for.
pub open spec fn transferable(inbox_len: int, capacity: int, queued: int) -> int {
    if inbox_len >= capacity {
        0
    } else if queued < capacity - inbox_len {
        queued
    } else {
        capacity - inbox_len
    }
}

/// Judges the move of queued inputs into the simulation inbox: as many are moved as it
/// has room for, and the others stay queued.
///
/// `refused` is the first of them, if any, that the inbox did not take though it had
/// room: an input is lost then, and the server must stop.
pub fn drain_shard_inputs(
    inbox_len: usize,
    capacity: usize,
    queued: usize,
    refused: Option<usize>,
) -> (r: Result<usize, FatalError>)
    ensures
        r == match refused {
            Some(place) if place < transferable(
                inbox_len as int,
                capacity as int,
                queued as int,
            ) => Err(FatalError::InboxInconsistent),
            _ => Ok(transferable(inbox_len as int, capacity as int, queued as int) as usize),
        },
        r matches Ok(moved) ==> moved <= queued && (moved == queued || inbox_len + moved
            >= capacity) && (inbox_len <= capacity ==> inbox_len + moved <= capacity),
{
    let room: usize = if inbox_len >= capacity {
        0
    } else {
        capacity - inbox_len
    };
    let moved: usize = if queued < room {
        queued
    } else {
        room
    };
    match refused {
        Some(place) if place < moved => Err(FatalError::InboxInconsistent),
        _ => Ok(moved),
    }
}

/// What became of one chunk that was to be loaded.
#[derive(Clone, Copy, Debug, PartialEq, Eq, Structural)]
pub enum ChunkLoad {
    /// It could not be had; no ticket is held.
    Unavailable,
    /// It is resident under a player ticket, but its packet could not be built.
    Unencodable,
    /// It is resident under a player ticket, and its packet is built.
    Built,
}

/// The columns among `positions` whose load came out as `wanted`.
pub open spec fn columns_with(
    positions: Seq<ChunkPos>,
    loads: Seq<ChunkLoad>,
    wanted: ChunkLoad,
) -> Seq<ChunkPos>
    decreases positions.len(),
{
    if positions.len() == 0 || loads.len() != positions.len() {
        Seq::empty()
    } else {
        let before = columns_with(positions.drop_last(), loads.drop_last(), wanted);
        if loads.last() == wanted {
            before.push(positions.last())
        } else {
            before
        }
    }
}

/// What is done about some loaded chunks.
#[derive(Debug, PartialEq, Eq)]
pub struct LoadedChunks {
    /// The columns that are sent, in order.
    pub streamed: Vec<ChunkPos>,
    /// The columns whose ticket is given back, in order.
    pub returned: Vec<ChunkPos>,
}

/// Sorts the loaded chunks: the built ones are sent, and those that could not be
/// encoded give their ticket back, so that a ticket is held exactly for the columns
/// that are sent.
pub fn load_chunks(positions: &Vec<ChunkPos>, loads: &Vec<ChunkLoad>) -> (r: LoadedChunks)
    requires
        positions.len() == loads.len(),
    ensures
        r.streamed@ == columns_with(positions@, loads@, ChunkLoad::Built),
        r.returned@ == columns_with(positions@, loads@, ChunkLoad::Unencodable),
{
    let mut streamed: Vec<ChunkPos> = Vec::new();
    let mut returned: Vec<ChunkPos> = Vec::new();
    let mut i: usize = 0;
    while i < positions.len()
        invariant
            i <= positions@.len(),
            positions@.len() == loads@.len(),
            streamed@ == columns_with(
                positions@.take(i as int),
                loads@.take(i as int),
                ChunkLoad::Built,
            ),
            returned@ == columns_with(
                positions@.take(i as int),
                loads@.take(i as int),
                ChunkLoad::Unencodable,
            ),
        decreases positions@.len() - i,
    {
        proof {
            let p = positions@.take(i + 1);
            let l = loads@.take(i + 1);
            assert(p.drop_last() =~= positions@.take(i as int));
            assert(l.drop_last() =~= loads@.take(i as int));
            assert(p.last() == positions@[i as int] && l.last() == loads@[i as int]);
        }
        match loads[i] {
            ChunkLoad::Built => streamed.push(positions[i]),
            ChunkLoad::Unencodable => returned.push(positions[i]),
            ChunkLoad::Unavailable => {},
        }
        i = i + 1;
    }
    assert(positions@.take(i as int) =~= positions@);
    assert(loads@.take(i as int) =~= loads@);
    LoadedChunks { streamed, returned }
}

/// Whether some load of a column came out in a way.
pub open spec fn came_out(
    positions: Seq<ChunkPos>,
    loads: Seq<ChunkLoad>,
    column: ChunkPos,
    load: ChunkLoad,
) -> bool {
    exists|i: int|
        0 <= i < positions.len() && #[trigger] positions[i] == column && loads[i] == load
}

/// A ticket is held afterwards exactly for the columns that are sent: of the columns that
/// took a ticket, those that are not sent give it back.
pub proof fn tickets_are_held_for_sent_columns(
    positions: Seq<ChunkPos>,
    loads: Seq<ChunkLoad>,
    column: ChunkPos,
)
    requires
        positions.len() == loads.len(),
        positions.no_duplicates(),
    ensures
        ({
            let took = came_out(positions, loads, column, ChunkLoad::Built) || came_out(
                positions,
                loads,
                column,
                ChunkLoad::Unencodable,
            );
            let returned = columns_with(positions, loads, ChunkLoad::Unencodable).contains(column);
            let sent = columns_with(positions, loads, ChunkLoad::Built).contains(column);
            (took && !returned) == sent
        }),
{
    columns_by_outcome(positions, loads, column, ChunkLoad::Built);
    columns_by_outcome(positions, loads, column, ChunkLoad::Unencodable);
    if came_out(positions, loads, column, ChunkLoad::Built) && came_out(
        positions,
        loads,
        column,
        ChunkLoad::Unencodable,
    ) {
        let i = choose|i: int|
            0 <= i < positions.len() && #[trigger] positions[i] == column && loads[i]
                == ChunkLoad::Built;
        let j = choose|j: int|
            0 <= j < positions.len() && #[trigger] positions[j] == column && loads[j]
                == ChunkLoad::Unencodable;
        assert(positions[i] == positions[j]);
    }
}

proof fn columns_by_outcome(
    positions: Seq<ChunkPos>,
    loads: Seq<ChunkLoad>,
    column: ChunkPos,
    load: ChunkLoad,
)
    requires
        positions.len() == loads.len(),
    ensures
        columns_with(positions, loads, load).contains(column) == came_out(
            positions,
            loads,
            column,
            load,
        ),
    decreases positions.len(),
{
    let all = columns_with(positions, loads, load);
    if positions.len() > 0 {
        let front = positions.drop_last();
        let rest = loads.drop_last();
        let before = columns_with(front, rest, load);
        columns_by_outcome(front, rest, column, load);
        let last = positions.len() - 1;
        if all.contains(column) {
            let k = all.index_of(column);
            if k < before.len() {
                assert(before[k] == column);
                let i = choose|i: int|
                    0 <= i < front.len() && #[trigger] front[i] == column && rest[i] == load;
                assert(positions[i] == column && loads[i] == load);
            } else {
                assert(positions[last] == column && loads[last] == load);
            }
        }
        if came_out(positions, loads, column, load) {
            let i = choose|i: int|
                0 <= i < positions.len() && #[trigger] positions[i] == column && loads[i] == load;
            if i < last {
                assert(front[i] == column && rest[i] == load);
                let k = before.index_of(column);
                assert(all[k] == column);
            } else {
                assert(all[before.len() as int] == column);
            }
        }
    }
}

/// What a block of a chunk carries beside its state.
#[derive(Clone, Copy, Debug, PartialEq, Eq, Structural)]
pub enum BlockEntityKind {
    /// A sign.
    Sign,
    /// Anything else.
    Other,
}

/// The blocks of some entities that are signs.
pub open spec fn signs_among(entities: Seq<(BlockPos, BlockEntityKind)>) -> Seq<BlockPos>
    decreases entities.len(),
{
    if entities.len() == 0 {
        Seq::empty()
    } else {
        let before = signs_among(entities.drop_last());
        if entities.last().1 is Sign {
            before.push(entities.last().0)
        } else {
            before
        }
    }
}

/// The blocks of a chunk whose sign text is sent with it, in order.
pub fn chunk_block_entity_packets(entities: &Vec<(BlockPos, BlockEntityKind)>) -> (r: Vec<BlockPos>)
    ensures
        r@ == signs_among(entities@),
{
    let mut out: Vec<BlockPos> = Vec::new();
    let mut i: usize = 0;
    while i < entities.len()
        invariant
            i <= entities@.len(),
            out@ == signs_among(entities@.take(i as int)),
        decreases entities@.len() - i,
    {
        proof {
            let more = entities@.take(i + 1);
            assert(more.drop_last() =~= entities@.take(i as int));
            assert(more.last() == entities@[i as int]);
        }
        let (position, kind) = entities[i];
        match kind {
            BlockEntityKind::Sign => out.push(position),
            BlockEntityKind::Other => {},
        }
        i = i + 1;
    }
    assert(entities@.take(i as int) =~= entities@);
    out
}

/// An output of a tick, as far as the driver counts it.
#[derive(Clone, Copy, Debug, PartialEq, Eq, Structural)]
pub enum TickOutput {
    /// A block became a state.
    BlockChanged {
        /// Whether the state is air.
        air: bool,
    },
    /// A block edit was refused.
    BlockChangeRejected {
        /// Whether the state that was asked for is air.
        air: bool,
    },
    /// Anything else.
    Other,
}

/// A kind of block edit.
#[derive(Clone, Copy, Debug, PartialEq, Eq, Structural)]
pub enum MutationKind {
    /// The block becomes air.
    Break,
    /// The block becomes something.
    Place,
}

/// What became of a block edit.
#[derive(Clone, Copy, Debug, PartialEq, Eq, Structural)]
pub enum MutationResult {
    /// It was made.
    Accepted,
    /// It was refused.
    Rejected,
}

/// The edit that an output counts as.
pub open spec fn counted_edit(output: TickOutput) -> Option<(MutationKind, MutationResult)> {
    match output {
        TickOutput::BlockChanged { air } => Some(
            (
                if air {
                    MutationKind::Break
                } else {
                    MutationKind::Place
                },
                MutationResult::Accepted,
            ),
        ),
        TickOutput::BlockChangeRejected { air } => Some(
            (
                if air {
                    MutationKind::Break
                } else {
                    MutationKind::Place
                },
                MutationResult::Rejected,
            ),
        ),
        TickOutput::Other => None,
    }
}

/// The edit that an output counts as: to air it is a break, else a placement.
pub fn classify_output(output: TickOutput) -> (r: Option<(MutationKind, MutationResult)>)
    ensures
        r == counted_edit(output),
{
    match output {
        TickOutput::BlockChanged { air } => {
            let kind = if air {
                MutationKind::Break
            } else {
                MutationKind::Place
            };
            Some((kind, MutationResult::Accepted))
        },
        TickOutput::BlockChangeRejected { air } => {
            let kind = if air {
                MutationKind::Break
            } else {
                MutationKind::Place
            };
            Some((kind, MutationResult::Rejected))
        },
        TickOutput::Other => None,
    }
}

/// The block edits counted, by kind and result.
#[derive(Clone, Copy, Debug, PartialEq, Eq, Structural)]
pub struct MutationCounts {
    /// Breaks made.
    pub accepted_breaks: usize,
    /// Placements made.
    pub accepted_places: usize,
    /// Breaks refused.
    pub rejected_breaks: usize,
    /// Placements refused.
    pub rejected_places: usize,
}

/// How many outputs count as an edit.
pub open spec fn edits_among(
    outputs: Seq<TickOutput>,
    kind: MutationKind,
    result: MutationResult,
) -> nat
    decreases outputs.len(),
{
    if outputs.len() == 0 {
        0
    } else {
        edits_among(outputs.drop_last(), kind, result) + if counted_edit(outputs.last()) == Some(
            (kind, result),
        ) {
            1nat
        } else {
            0
        }
    }
}

/// Counts the block edits among a tick's outputs.
pub fn count_mutations(outputs: &Vec<TickOutput>) -> (r: MutationCounts)
    ensures
        r.accepted_breaks == edits_among(outputs@, MutationKind::Break, MutationResult::Accepted),
        r.accepted_places == edits_among(outputs@, MutationKind::Place, MutationResult::Accepted),
        r.rejected_breaks == edits_among(outputs@, MutationKind::Break, MutationResult::Rejected),
        r.rejected_places == edits_among(outputs@, MutationKind::Place, MutationResult::Rejected),
{
    let mut counts = MutationCounts {
        accepted_breaks: 0,
        accepted_places: 0,
        rejected_breaks: 0,
        rejected_places: 0,
    };
    let mut i: usize = 0;
    while i < outputs.len()
        invariant
            i <= outputs@.len(),
            counts.accepted_breaks == edits_among(
                outputs@.take(i as int),
                MutationKind::Break,
                MutationResult::Accepted,
            ),
            counts.accepted_places == edits_among(
                outputs@.take(i as int),
                MutationKind::Place,
                MutationResult::Accepted,
            ),
            counts.rejected_breaks == edits_among(
                outputs@.take(i as int),
                MutationKind::Break,
                MutationResult::Rejected,
            ),
            counts.rejected_places == edits_among(
                outputs@.take(i as int),
                MutationKind::Place,
                MutationResult::Rejected,
            ),
            counts.accepted_breaks <= i,
            counts.accepted_places <= i,
            counts.rejected_breaks <= i,
            counts.rejected_places <= i,
        decreases outputs@.len() - i,
    {
        proof {
            let more = outputs@.take(i + 1);
            assert(more.drop_last() =~= outputs@.take(i as int));
            assert(more.last() == outputs@[i as int]);
        }
        match classify_output(outputs[i]) {
            Some((MutationKind::Break, MutationResult::Accepted)) => {
                counts.accepted_breaks = counts.accepted_breaks + 1;
            },
            Some((MutationKind::Place, MutationResult::Accepted)) => {
                counts.accepted_places = counts.accepted_places + 1;
            },
            Some((MutationKind::Break, MutationResult::Rejected)) => {
                counts.rejected_breaks = counts.rejected_breaks + 1;
            },
            Some((MutationKind::Place, MutationResult::Rejected)) => {
                counts.rejected_places = counts.rejected_places + 1;
            },
            None => {},
        }
        i = i + 1;
    }
    assert(outputs@.take(i as int) =~= outputs@);
    counts
}

/// The next tick, or the same one at the end of the range.
pub open spec fn next_tick(tick: u64) -> u64 {
    if tick == u64::MAX {
        tick
    } else {
        (tick + 1) as u64
    }
}

/// What the end of a tick does, once its outputs are routed and the sessions to tear
/// down are torn down.
#[derive(Clone, Copy, Debug, PartialEq, Eq, Structural)]
pub struct TickReport {
    /// The tick that now counts.
    pub tick: u64,
    /// The block edits of the tick.
    pub mutations: MutationCounts,
    /// The time to send to everyone, once per second.
    pub broadcast: Option<UpdateTime>,
    /// Inputs taken from the queue.
    pub inputs_drained: usize,
    /// Outputs of the simulation.
    pub outputs_emitted: usize,
}

/// Whether some teardown could not reach its shard.
pub open spec fn any_unreachable(failures: Seq<SessionError>) -> bool {
    exists|i: int| 0 <= i < failures.len() && (#[trigger] failures[i]) is ShardUnreachable
}

/// The failure that stops the server at the end of a tick, if there is one.
pub open spec fn tick_failure(failures: Seq<SessionError>, retry: Option<SessionError>) -> Option<
    FatalError,
> {
    if any_unreachable(failures) {
        Some(FatalError::TeardownUnreachable(SessionError::ShardUnreachable))
    } else if retry == Some(SessionError::ShardUnreachable) {
        Some(FatalError::RetryUnreachable(SessionError::ShardUnreachable))
    } else {
        None
    }
}

/// The time to send to everyone, where it is due.
pub open spec fn time_due(time: WorldTime) -> Option<UpdateTime> {
    if time.world_age as int % (TIME_BROADCAST_INTERVAL_TICKS as int) == 0 {
        Some(time.update())
    } else {
        None
    }
}

/// A tick stops the server exactly where a shard cannot be reached: in a teardown, or else in
/// the retry of what was retained. A shard that is full, and a player who is gone, never do.
pub proof fn only_unreachable_shards_stop_a_tick(
    failures: Seq<SessionError>,
    retry: Option<SessionError>,
)
    ensures
        (forall|i: int|
            0 <= i < failures.len() ==> !((#[trigger] failures[i]) is ShardUnreachable)) && !(
        retry matches Some(error) && error is ShardUnreachable) <==> tick_failure(
            failures,
            retry,
        ) is None,
        failures.contains(SessionError::ShardUnreachable) <==> tick_failure(failures, retry)
            == Some(FatalError::TeardownUnreachable(SessionError::ShardUnreachable)),
{
    if failures.contains(SessionError::ShardUnreachable) {
        let i = failures.index_of(SessionError::ShardUnreachable);
        assert(failures[i] is ShardUnreachable);
    }
    if any_unreachable(failures) {
        let i = choose|i: int|
            0 <= i < failures.len() && (#[trigger] failures[i]) is ShardUnreachable;
        assert(failures.contains(failures[i]));
    }
}

/// The time is told once in twenty ticks: of any twenty ages one behind the other, it is due at
/// exactly one, and it is always the clock's own time that is told.
pub proof fn time_is_told_each_second(time: WorldTime, later: nat)
    requires
        time.wf(),
        later < 20,
        time.world_age + later <= i64::MAX,
    ensures
        time_due(time) matches Some(update) ==> update.world_age == time.world_age
            && update.time_of_day == time.time_of_day,
        time_due(time) is Some && later > 0 ==> time_due(
            WorldTime { world_age: (time.world_age + later) as i64, ..time },
        ) is None,
        time_due(time) is Some == (time.world_age as int % 20 == 0),
{
}

/// Ends a tick: judges the failed teardowns and the failed retry of retained leaves,
/// advances tick and clock, and tells what is to be sent and recorded.
///
/// A full shard keeps a leave for the next tick. A shard that cannot be reached stops
/// the server, and tick and clock stay.
pub fn run_tick(
    tick: &mut u64,
    world_time: &mut WorldTime,
    inputs_drained: usize,
    outputs: &Vec<TickOutput>,
    teardown_failures: &Vec<SessionError>,
    retry: Option<SessionError>,
) -> (r: Result<TickReport, FatalError>)
    requires
        old(world_time).wf(),
    ensures
        final(world_time).wf(),
        r is Err == tick_failure(teardown_failures@, retry) is Some,
        r matches Err(error) ==> tick_failure(teardown_failures@, retry) == Some(error),
        r matches Ok(report) ==> report.broadcast == time_due(*final(world_time)),
        match r {
            Err(error) => {
                &&& error == if any_unreachable(teardown_failures@) {
                    FatalError::TeardownUnreachable(SessionError::ShardUnreachable)
                } else {
                    FatalError::RetryUnreachable(SessionError::ShardUnreachable)
                }
                &&& any_unreachable(teardown_failures@) || retry == Some(
                    SessionError::ShardUnreachable,
                )
                &&& *final(tick) == *old(tick)
                &&& *final(world_time) == *old(world_time)
            },
            Ok(report) => {
                &&& !any_unreachable(teardown_failures@)
                &&& retry != Some(SessionError::ShardUnreachable)
                &&& *final(tick) == next_tick(*old(tick))
                &&& *final(world_time) == old(world_time).next()
                &&& report.tick == *final(tick)
                &&& report.inputs_drained == inputs_drained
                &&& report.outputs_emitted == outputs@.len()
                &&& report.broadcast == if final(world_time).world_age as int % (
                TIME_BROADCAST_INTERVAL_TICKS as int) == 0 {
                    Some(final(world_time).update())
                } else {
                    None
                }
                &&& report.mutations.accepted_breaks == edits_among(
                    outputs@,
                    MutationKind::Break,
                    MutationResult::Accepted,
                )
                &&& report.mutations.accepted_places == edits_among(
                    outputs@,
                    MutationKind::Place,
                    MutationResult::Accepted,
                )
                &&& report.mutations.rejected_breaks == edits_among(
                    outputs@,
                    MutationKind::Break,
                    MutationResult::Rejected,
                )
                &&& report.mutations.rejected_places == edits_among(
                    outputs@,
                    MutationKind::Place,
                    MutationResult::Rejected,
                )
            },
        },
{
    let mutations = count_mutations(outputs);
    let mut i: usize = 0;
    while i < teardown_failures.len()
        invariant
            i <= teardown_failures@.len(),
            forall|k: int|
                0 <= k < i ==> !((#[trigger] teardown_failures@[k]) is ShardUnreachable),
            *tick == *old(tick),
            *world_time == *old(world_time),
            old(world_time).wf(),
        decreases teardown_failures@.len() - i,
    {
        if let Some(error) = teardown_failure(teardown_failures[i]) {
            assert(teardown_failures@[i as int] is ShardUnreachable);
            return Err(error);
        }
        i = i + 1;
    }
    if let Some(error) = retry {
        if let Some(error) = retry_failure(error) {
            return Err(error);
        }
    }
    *tick = tick.saturating_add(1);
    world_time.advance();
    let broadcast = if world_time.is_broadcast_tick() {
        Some(update_time_packet(world_time))
    } else {
        None
    };
    Ok(
        TickReport {
            tick: *tick,
            mutations,
            broadcast,
            inputs_drained,
            outputs_emitted: outputs.len(),
        },
    )
}

/// How long ago a time was.
pub open spec fn age(now: u64, then: u64) -> int {
    if now >= then {
        now - then
    } else {
        0
    }
}

/// Times without the leading ones that are over a second old.
pub open spec fn drop_stale(times: Seq<u64>, now: u64) -> Seq<u64>
    decreases times.len(),
{
    if times.len() > 0 && age(now, times[0]) > TPS_WINDOW_NANOS {
        drop_stale(times.drop_first(), now)
    } else {
        times
    }
}

/// The last times, at most `cap`.
pub open spec fn last_times(times: Seq<u64>, cap: int) -> Seq<u64> {
    if times.len() > cap {
        times.skip(times.len() - cap)
    } else {
        times
    }
}

/// The recent tick times that the effective rate is counted from.
#[derive(Debug)]
pub struct TpsWindow {
    /// The times, in nanoseconds since some moment, oldest first.
    pub times: Vec<u64>,
}

impl TpsWindow {
    /// Whether the window is within its bound.
    pub open spec fn wf(self) -> bool {
        self.times@.len() <= TPS_WINDOW_CAP
    }

    /// A window without times.
    pub fn new() -> (r: TpsWindow)
        ensures
            r.wf(),
            r.times@ == Seq::<u64>::empty(),
    {
        TpsWindow { times: Vec::new() }
    }

    /// Records the time of a tick and returns the effective rate: how many ticks the
    /// last second saw.
    pub fn record_tps(&mut self, now: u64) -> (r: usize)
        requires
            old(self).wf(),
        ensures
            final(self).wf(),
            final(self).times@ == drop_stale(
                last_times(old(self).times@.push(now), TPS_WINDOW_CAP as int),
                now,
            ),
            r == final(self).times@.len(),
            1 <= r <= TPS_WINDOW_CAP,
    {
        self.times.push(now);
        if self.times.len() > TPS_WINDOW_CAP {
            let ghost pushed = self.times@;
            self.times.remove(0);
            assert(self.times@ =~= pushed.skip(1));
        }
        let ghost kept = self.times@;
        assert(kept.last() == now);
        while self.times.len() > 0 && is_stale(now, self.times[0])
            invariant
                self.times@.len() <= TPS_WINDOW_CAP,
                drop_stale(self.times@, now) == drop_stale(kept, now),
                self.times@.len() > 0,
                self.times@.last() == now,
            decreases self.times@.len(),
        {
            let ghost before = self.times@;
            self.times.remove(0);
            proof {
                assert(self.times@ =~= before.drop_first());
                if before.len() == 1 {
                    assert(before[0] == now);
                }
                assert(self.times@.last() == before.last());
            }
        }
        self.times.len()
    }
}

fn is_stale(now: u64, then: u64) -> (r: bool)
    ensures
        r == (age(now, then) > TPS_WINDOW_NANOS),
{
    now >= then && now - then > TPS_WINDOW_NANOS
}

/// The lowercase name of a game mode.
pub open spec fn mode_label(mode: GameMode) -> Seq<char> {
    match mode {
        GameMode::Survival => "survival"@,
        GameMode::Creative => "creative"@,
        GameMode::Adventure => "adventure"@,
        GameMode::Spectator => "spectator"@,
    }
}

/// Maps a [`GameMode`] onto its lowercase protocol label for the snapshot.
pub fn gamemode_label(mode: GameMode) -> (r: String)
    ensures
        r@ == mode_label(mode),
{
    match mode {
        GameMode::Survival => "survival".to_owned(),
        GameMode::Creative => "creative".to_owned(),
        GameMode::Adventure => "adventure".to_owned(),
        GameMode::Spectator => "spectator".to_owned(),
    }
}

/// The network counters of one player.
#[derive(Clone, Copy, Debug, PartialEq, Eq, Structural)]
pub struct NetCounters {
    /// Packets waiting.
    pub outbound_queue_len: u64,
    /// Bytes received.
    pub network_in_bytes: u64,
    /// Bytes sent.
    pub network_out_bytes: u64,
    /// Frames received.
    pub frames_decoded: u64,
    /// Frames sent.
    pub frames_encoded: u64,
    /// Packets dropped.
    pub packets_dropped_total: u64,
}

/// Counters of nothing.
pub open spec fn no_counters() -> NetCounters {
    NetCounters {
        outbound_queue_len: 0,
        network_in_bytes: 0,
        network_out_bytes: 0,
        frames_decoded: 0,
        frames_encoded: 0,
        packets_dropped_total: 0,
    }
}

/// What is known of a player when the snapshot is taken.
#[derive(Clone, Copy, Debug, PartialEq, Eq, Structural)]
pub struct PlayerFacts {
    /// Where the simulation has the player.
    pub simulated: Option<Vec3>,
    /// Where the router had the player at join.
    pub routed: Option<Vec3>,
    /// The player's mode in the simulation.
    pub mode: Option<GameMode>,
    /// The player's counters, once published.
    pub counters: Option<NetCounters>,
}

/// One player in the snapshot.
#[derive(Debug)]
pub struct PlayerSnapshot {
    /// The player.
    pub player: PlayerId,
    /// The display name.
    pub name: String,
    /// Where the player is.
    pub position: Vec3,
    /// The chunk that the player is in.
    pub chunk: ChunkPos,
    /// The name of the player's mode.
    pub gamemode: String,
    /// The player's counters.
    pub counters: NetCounters,
}

impl PlayerFacts {
    /// Where the player is: by the simulation, else by the router, else at the origin.
    pub open spec fn position(self) -> Vec3 {
        match (self.simulated, self.routed) {
            (Some(position), _) => position,
            (None, Some(position)) => position,
            (None, None) => crate::command_tree::origin(),
        }
    }
}

impl PlayerSnapshot {
    /// Whether this is the row of a player of whom some facts are known.
    pub open spec fn shows(self, player: PlayerId, name: Seq<char>, facts: PlayerFacts) -> bool {
        &&& self.player == player
        &&& self.name@ == name
        &&& self.position == facts.position()
        &&& self.chunk == facts.position().block().column()
        &&& self.gamemode@ == mode_label(
            match facts.mode {
                Some(mode) => mode,
                None => GameMode::Survival,
            },
        )
        &&& self.counters == match facts.counters {
            Some(counters) => counters,
            None => no_counters(),
        }
    }
}

fn player_row(player: PlayerId, name: &String, facts: PlayerFacts) -> (r: PlayerSnapshot)
    ensures
        r.shows(player, name@, facts),
{
    let position = match facts.simulated {
        Some(position) => position,
        None => match facts.routed {
            Some(position) => position,
            None => {
                let zero = crate::ieee754::Double { bits: 0 };
                Vec3 { x: zero, y: zero, z: zero }
            },
        },
    };
    let mode = match facts.mode {
        Some(mode) => mode,
        None => GameMode::Survival,
    };
    let counters = match facts.counters {
        Some(counters) => counters,
        None => NetCounters {
            outbound_queue_len: 0,
            network_in_bytes: 0,
            network_out_bytes: 0,
            frames_decoded: 0,
            frames_encoded: 0,
            packets_dropped_total: 0,
        },
    };
    PlayerSnapshot {
        player,
        name: name.clone(),
        position,
        chunk: chunk_of(position),
        gamemode: gamemode_label(mode),
        counters,
    }
}

/// The part of the snapshot that the driver assembles.
#[derive(Debug)]
pub struct ServerSnapshotParts {
    /// Seconds since the start.
    pub uptime_secs: u64,
    /// The tick.
    pub tick: u64,
    /// The effective tick rate.
    pub tps: usize,
    /// How many players are online.
    pub players_online: usize,
    /// The players, in the order of their identifiers.
    pub players: Vec<PlayerSnapshot>,
    /// Chunks resident.
    pub chunks_loaded: usize,
    /// Chunks changed; not counted.
    pub chunks_dirty: usize,
    /// One where some chunk waits to become durable, else zero.
    pub chunks_persist_dirty: usize,
}

/// Assembles the snapshot of a tick from the roster, which is pruned to the connected
/// players beforehand, and what is known of each player at their place in it.
pub fn publish_snapshot(
    roster: &Roster,
    facts: &Vec<PlayerFacts>,
    uptime_secs: u64,
    tick: u64,
    tps: usize,
    chunks_loaded: usize,
    has_persist_dirty: bool,
) -> (r: ServerSnapshotParts)
    requires
        roster.wf(),
        facts.len() == roster.sequence().len(),
    ensures
        r.uptime_secs == uptime_secs,
        r.tick == tick,
        r.tps == tps,
        r.players_online == roster.sequence().len(),
        r.players@.len() == roster.sequence().len(),
        forall|i: int|
            0 <= i < r.players@.len() ==> (#[trigger] r.players@[i]).shows(
                roster.sequence()[i].player,
                roster.sequence()[i].name@,
                facts@[i],
            ),
        r.chunks_loaded == chunks_loaded,
        r.chunks_dirty == 0,
        r.chunks_persist_dirty == if has_persist_dirty {
            1int
        } else {
            0
        },
{
    let entries = roster.entries();
    let mut players: Vec<PlayerSnapshot> = Vec::new();
    let mut i: usize = 0;
    while i < entries.len()
        invariant
            i <= entries@.len(),
            entries@ == roster.sequence(),
            facts@.len() == entries@.len(),
            players@.len() == i,
            forall|k: int|
                0 <= k < i ==> (#[trigger] players@[k]).shows(
                    entries@[k].player,
                    entries@[k].name@,
                    facts@[k],
                ),
        decreases entries@.len() - i,
    {
        players.push(player_row(entries[i].player, &entries[i].name, facts[i]));
        i = i + 1;
    }
    ServerSnapshotParts {
        uptime_secs,
        tick,
        tps,
        players_online: players.len(),
        players,
        chunks_loaded,
        chunks_dirty: 0,
        chunks_persist_dirty: if has_persist_dirty {
            1
        } else {
            0
        },
    }
}

/// An edit that was made counts as made and one that was refused as refused; what becomes air
/// is a break and anything else a placement; and nothing else counts. The counts of two runs
/// of outputs one behind the other add up.
pub proof fn edits_count_as_what_they_are(
    output: TickOutput,
    first: Seq<TickOutput>,
    second: Seq<TickOutput>,
    kind: MutationKind,
    result: MutationResult,
)
    ensures
        match counted_edit(output) {
            Some((kind, MutationResult::Accepted)) => output == (TickOutput::BlockChanged {
                air: kind is Break,
            }),
            Some((kind, MutationResult::Rejected)) => output == (TickOutput::BlockChangeRejected {
                air: kind is Break,
            }),
            None => output is Other,
        },
        edits_among(first + second, kind, result) == edits_among(first, kind, result) + edits_among(
            second,
            kind,
            result,
        ),
        edits_among(seq![output], kind, result) == if counted_edit(output) == Some((kind, result)) {
            1nat
        } else {
            0
        },
    decreases second.len(),
{
    reveal_with_fuel(edits_among, 2);
    assert(seq![output].drop_last() =~= Seq::<TickOutput>::empty());
    if second.len() == 0 {
        assert(first + second =~= first);
    } else {
        edits_count_as_what_they_are(output, first, second.drop_last(), kind, result);
        assert((first + second).drop_last() =~= first + second.drop_last());
    }
}

/// The times that are kept are the last ones: what is dropped is older than a second, and the
/// oldest that is kept is not. A time that is just recorded is always kept.
pub proof fn recent_times_are_kept(times: Seq<u64>, now: u64)
    ensures
        drop_stale(times, now).len() <= times.len(),
        drop_stale(times, now) == times.skip(times.len() - drop_stale(times, now).len()),
        forall|i: int|
            0 <= i < times.len() - drop_stale(times, now).len() ==> now > #[trigger] times[i]
                && now - times[i] > 1_000_000_000,
        drop_stale(times, now).len() > 0 ==> !(now > drop_stale(times, now)[0] && now - drop_stale(
            times,
            now,
        )[0] > 1_000_000_000),
    decreases times.len(),
{
    if times.len() > 0 && age(now, times[0]) > TPS_WINDOW_NANOS {
        let rest = times.drop_first();
        recent_times_are_kept(rest, now);
        let kept = drop_stale(rest, now);
        assert(kept =~= times.skip(times.len() - kept.len())) by {
            assert(rest.skip(rest.len() - kept.len()) =~= times.skip(times.len() - kept.len()));
        }
        assert forall|i: int| 0 <= i < times.len() - kept.len() implies now > #[trigger] times[i]
            && now - times[i] > 1_000_000_000 by {
            if i > 0 {
                assert(rest[i - 1] == times[i]);
            }
        }
    } else {
        assert(times.skip(0) =~= times);
    }
}

/// A snapshot shows where the simulation has a player, and where the router had them only
/// where the simulation does not know; the chunk is the one that the shown place lies in, and
/// the mode is shown by its own name.
pub proof fn snapshots_show_the_simulation(
    row: PlayerSnapshot,
    player: PlayerId,
    name: Seq<char>,
    facts: PlayerFacts,
)
    requires
        row.shows(player, name, facts),
    ensures
        row.player == player,
        row.name@ == name,
        facts.simulated matches Some(there) ==> row.position == there,
        facts.simulated is None ==> (facts.routed matches Some(there) ==> row.position == there),
        row.chunk == row.position.block().column(),
        facts.counters matches Some(counters) ==> row.counters == counters,
        facts.counters is None ==> row.counters.network_in_bytes == 0
            && row.counters.network_out_bytes == 0 && row.counters.packets_dropped_total == 0,
        facts.mode matches Some(mode) ==> (row.gamemode@ == "survival"@) == mode is Survival
            && (row.gamemode@ == "creative"@) == mode is Creative && (row.gamemode@
            == "adventure"@) == mode is Adventure && (row.gamemode@ == "spectator"@)
            == mode is Spectator,
{
    reveal_strlit("survival");
    reveal_strlit("creative");
    reveal_strlit("adventure");
    reveal_strlit("spectator");
    assert("survival"@[0] == 's' && "creative"@[0] == 'c');
    assert("adventure"@[0] == 'a' && "spectator"@[0] == 's');
    assert("survival"@.len() == 8 && "creative"@.len() == 8);
    assert("adventure"@.len() == 9 && "spectator"@.len() == 9);
}

/// The tick never goes back, and goes on by one as long as there are numbers left.
pub proof fn ticks_go_on(tick: u64)
    ensures
        next_tick(tick) == tick + 1 || (tick == u64::MAX && next_tick(tick) == tick),
{
}

/// A chunk sends the text of every sign in it, where it stands and in the order in which the
/// blocks are listed, and of nothing else.
pub proof fn every_sign_is_sent(
    first: Seq<(BlockPos, BlockEntityKind)>,
    second: Seq<(BlockPos, BlockEntityKind)>,
    position: BlockPos,
)
    ensures
        signs_among(first + second) == signs_among(first) + signs_among(second),
        signs_among(seq![(position, BlockEntityKind::Sign)]) == seq![position],
        signs_among(seq![(position, BlockEntityKind::Other)]).len() == 0,
    decreases second.len(),
{
    reveal_with_fuel(signs_among, 2);
    let sign = seq![(position, BlockEntityKind::Sign)];
    let other = seq![(position, BlockEntityKind::Other)];
    assert(sign.drop_last() =~= Seq::<(BlockPos, BlockEntityKind)>::empty());
    assert(other.drop_last() =~= Seq::<(BlockPos, BlockEntityKind)>::empty());
    assert(signs_among(sign) =~= seq![position]);
    if second.len() == 0 {
        assert(first + second =~= first);
        assert(signs_among(first) + Seq::<BlockPos>::empty() =~= signs_among(first));
    } else {
        every_sign_is_sent(first, second.drop_last(), position);
        assert((first + second).drop_last() =~= first + second.drop_last());
        let rest = signs_among(second.drop_last());
        assert(signs_among(first) + rest.push(second.last().0) =~= (signs_among(first)
            + rest).push(second.last().0));
    }
}

} // verus!
