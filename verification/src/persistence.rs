//! Making edits durable: the mutation journal, the end-of-tick flush, and the
//! barrier that chunk releases stand behind.

use crate::delivery::{DurabilityPoint, FatalError};
use crate::math::{BlockPos, ChunkPos};
use crate::roster::PlayerId;
use vstd::prelude::*;

verus! {

/// Schema version stamped on every journal record.
pub const MUTATION_LOG_SCHEMA_VERSION: u32 = 1;

/// What caused a block edit.
#[derive(Clone, Copy, Debug, PartialEq, Eq, Structural)]
pub enum MutationCause {
    /// A creative player.
    PlayerCreative(PlayerId),
    /// A plugin.
    Plugin,
    /// A test.
    Test,
    /// A command, or any other source.
    Command,
}

/// A block edit that is not yet journaled.
#[derive(Clone, Copy, Debug, PartialEq, Eq, Structural)]
pub struct PendingMutation {
    /// What caused it.
    pub cause: MutationCause,
    /// Where.
    pub position: BlockPos,
    /// The state before.
    pub old_state: u32,
    /// The state after.
    pub new_state: u32,
}

/// Who is named as the actor of a journaled edit.
#[derive(Clone, Copy, Debug, PartialEq, Eq, Structural)]
pub enum MutationActor {
    /// A player.
    Player(PlayerId),
    /// The server itself.
    System,
}

/// What is named as the cause of a journaled edit.
#[derive(Clone, Copy, Debug, PartialEq, Eq, Structural)]
pub enum MutationLogCause {
    /// A creative player.
    PlayerCreative,
    /// A plugin.
    Plugin,
    /// A test.
    Test,
    /// A command.
    Command,
}

/// A journaled block edit.
#[derive(Clone, Copy, Debug, PartialEq, Eq, Structural)]
pub struct BlockMutationLogRecord {
    /// The version of the record's format.
    pub schema: u32,
    /// The number of the record.
    pub id: u64,
    /// The tick of its capture.
    pub tick: u64,
    /// Who acted.
    pub actor: MutationActor,
    /// Where.
    pub position: BlockPos,
    /// The state before.
    pub old_state: u32,
    /// The state after.
    pub new_state: u32,
    /// Why.
    pub cause: MutationLogCause,
}

/// The record of an edit.
pub open spec fn record_of(id: u64, tick: u64, mutation: PendingMutation) -> BlockMutationLogRecord {
    BlockMutationLogRecord {
        schema: MUTATION_LOG_SCHEMA_VERSION,
        id,
        tick,
        actor: match mutation.cause {
            MutationCause::PlayerCreative(player) => MutationActor::Player(player),
            _ => MutationActor::System,
        },
        position: mutation.position,
        old_state: mutation.old_state,
        new_state: mutation.new_state,
        cause: match mutation.cause {
            MutationCause::PlayerCreative(_) => MutationLogCause::PlayerCreative,
            MutationCause::Plugin => MutationLogCause::Plugin,
            MutationCause::Test => MutationLogCause::Test,
            MutationCause::Command => MutationLogCause::Command,
        },
    }
}

/// Builds the journal record of an edit.
pub fn build_mutation_record(id: u64, tick: u64, mutation: &PendingMutation) -> (r:
    BlockMutationLogRecord)
    ensures
        r == record_of(id, tick, *mutation),
{
    let (actor, cause) = match mutation.cause {
        MutationCause::PlayerCreative(player) => (
            MutationActor::Player(player),
            MutationLogCause::PlayerCreative,
        ),
        MutationCause::Plugin => (MutationActor::System, MutationLogCause::Plugin),
        MutationCause::Test => (MutationActor::System, MutationLogCause::Test),
        MutationCause::Command => (MutationActor::System, MutationLogCause::Command),
    };
    BlockMutationLogRecord {
        schema: MUTATION_LOG_SCHEMA_VERSION,
        id,
        tick,
        actor,
        position: mutation.position,
        old_state: mutation.old_state,
        new_state: mutation.new_state,
        cause,
    }
}

/// The number so many places behind another, kept at the largest.
pub open spec fn later_id(id: u64, by: int) -> u64 {
    if id + by > u64::MAX {
        u64::MAX
    } else {
        (id + by) as u64
    }
}

/// The edits that wait to become durable.
#[derive(Debug)]
pub struct PendingEdits {
    /// The changed chunks, in order.
    pub dirty_chunks: Vec<ChunkPos>,
    /// The edits to journal, in order.
    pub mutations: Vec<PendingMutation>,
}

/// What is handed to the storage worker.
#[derive(Debug)]
pub struct StorageFlushRequest {
    /// The changed chunks, captured at a tick.
    pub overlays: Vec<ChunkPos>,
    /// The tick of their capture.
    pub tick: u64,
    /// The journal records.
    pub records: Vec<BlockMutationLogRecord>,
    /// Whether the worker is to acknowledge once everything is durable.
    pub acknowledged: bool,
}

/// Whether a request carries everything that waits: every changed chunk and every edit, in
/// order, each edit under its own number.
pub open spec fn carries_all(
    request: StorageFlushRequest,
    edits: PendingEdits,
    tick: u64,
    first_id: u64,
) -> bool {
    &&& request.overlays@ == edits.dirty_chunks@
    &&& request.tick == tick
    &&& request.records@.len() == edits.mutations@.len()
    &&& forall|i: int|
        0 <= i < request.records@.len() ==> #[trigger] request.records@[i] == record_of(
            later_id(first_id, i),
            tick,
            edits.mutations@[i],
        )
}

/// Nothing is lost on the way to the storage worker: a request holds as many chunks and
/// records as waited, each record tells the very edit at its place, and the records are
/// numbered on from where the journal stood.
pub proof fn requests_lose_nothing(
    request: StorageFlushRequest,
    edits: PendingEdits,
    tick: u64,
    first_id: u64,
    i: int,
)
    requires
        carries_all(request, edits, tick, first_id),
        0 <= i < edits.mutations@.len(),
        first_id + i < u64::MAX,
    ensures
        request.overlays@.len() == edits.dirty_chunks@.len(),
        request.overlays@.to_set() == edits.dirty_chunks@.to_set(),
        request.records@.len() == edits.mutations@.len(),
        request.records@[i].id == first_id + i,
        request.records@[i].tick == tick && request.tick == tick,
        request.records@[i].position == edits.mutations@[i].position,
        request.records@[i].old_state == edits.mutations@[i].old_state,
        request.records@[i].new_state == edits.mutations@[i].new_state,
{
    assert(request.records@[i] == record_of(later_id(first_id, i), tick, edits.mutations@[i]));
}

impl PendingEdits {
    /// Whether nothing waits.
    pub open spec fn is_settled(self) -> bool {
        self.dirty_chunks@.len() == 0 && self.mutations@.len() == 0
    }

    /// Whether something waits: taking it would remove recoverable state.
    pub fn has_pending_persistence(&self) -> (r: bool)
        ensures
            r == !self.is_settled(),
    {
        self.dirty_chunks.len() > 0 || self.mutations.len() > 0
    }

    /// Takes everything that waits, and numbers the journal records on; takes nothing
    /// where nothing waits.
    pub fn build_flush_request(&mut self, tick: u64, next_mutation_id: &mut u64) -> (r: Option<
        StorageFlushRequest,
    >)
        ensures
            r is Some == !old(self).is_settled(),
            final(self).is_settled(),
            *final(next_mutation_id) == later_id(
                *old(next_mutation_id),
                old(self).mutations@.len() as int,
            ),
            r matches Some(request) ==> carries_all(
                request,
                *old(self),
                tick,
                *old(next_mutation_id),
            ),
            r matches Some(request) ==> {
                &&& request.overlays@ == old(self).dirty_chunks@
                &&& request.tick == tick
                &&& !request.acknowledged
                &&& request.records@.len() == old(self).mutations@.len()
                &&& forall|i: int|
                    0 <= i < request.records@.len() ==> #[trigger] request.records@[i] == record_of(
                        later_id(*old(next_mutation_id), i),
                        tick,
                        old(self).mutations@[i],
                    )
            },
    {
        if !self.has_pending_persistence() {
            return None;
        }
        let ghost first = *next_mutation_id;
        let ghost edits = self.mutations@;
        let mut records: Vec<BlockMutationLogRecord> = Vec::new();
        let mut i: usize = 0;
        while i < self.mutations.len()
            invariant
                i <= edits.len(),
                self.mutations@ == edits,
                self.dirty_chunks@ == old(self).dirty_chunks@,
                *next_mutation_id == later_id(first, i as int),
                records@.len() == i,
                forall|k: int|
                    0 <= k < i ==> #[trigger] records@[k] == record_of(
                        later_id(first, k),
                        tick,
                        edits[k],
                    ),
            decreases edits.len() - i,
        {
            let id: u64 = *next_mutation_id;
            *next_mutation_id = next_mutation_id.saturating_add(1);
            records.push(build_mutation_record(id, tick, &self.mutations[i]));
            i = i + 1;
        }
        let mut overlays: Vec<ChunkPos> = Vec::new();
        overlays.append(&mut self.dirty_chunks);
        self.mutations.clear();
        assert(overlays@ =~= old(self).dirty_chunks@);
        Some(StorageFlushRequest { overlays, tick, records, acknowledged: false })
    }
}

/// The journal is numbered without gaps: what is taken later is numbered behind what
/// was taken before, until the numbers run out.
pub proof fn journal_numbers_are_consecutive(first: u64, taken: nat, i: nat, j: nat)
    requires
        first + taken + j < u64::MAX,
        i < taken,
    ensures
        later_id(first, i as int) < later_id(later_id(first, taken as int), j as int),
        later_id(later_id(first, taken as int), j as int) == first + taken + j,
{
}

/// Whether the storage worker has room for a request.
#[derive(Clone, Copy, Debug, PartialEq, Eq, Structural)]
pub enum StorageSlot {
    /// A place is reserved.
    Reserved,
    /// There is no room now.
    Full,
    /// The worker is gone.
    Closed,
}

/// What a flush does.
#[derive(Debug)]
pub enum FlushStep {
    /// Nothing is sent; what waits goes on waiting.
    Nothing,
    /// The request goes to the reserved place.
    Send(StorageFlushRequest),
    /// The server must stop.
    Fatal(FatalError),
}

/// The end-of-tick flush, which never waits.
///
/// What waits is taken only where a place is reserved for it. Without room it goes on
/// waiting for the next tick, and without a worker the server stops and keeps it.
pub fn try_flush_persist_dirty(
    edits: &mut PendingEdits,
    slot: StorageSlot,
    tick: u64,
    next_mutation_id: &mut u64,
) -> (r: FlushStep)
    ensures
        match r {
            FlushStep::Nothing => {
                &&& old(edits).is_settled() || slot is Full
                &&& *final(edits) == *old(edits)
                &&& *final(next_mutation_id) == *old(next_mutation_id)
            },
            FlushStep::Send(request) => {
                &&& !old(edits).is_settled() && slot is Reserved
                &&& carries_all(request, *old(edits), tick, *old(next_mutation_id))
                &&& final(edits).is_settled()
                &&& request.overlays@ == old(edits).dirty_chunks@
                &&& request.tick == tick
                &&& !request.acknowledged
                &&& request.records@.len() == old(edits).mutations@.len()
                &&& forall|i: int|
                    0 <= i < request.records@.len() ==> #[trigger] request.records@[i] == record_of(
                        later_id(*old(next_mutation_id), i),
                        tick,
                        old(edits).mutations@[i],
                    )
                &&& *final(next_mutation_id) == later_id(
                    *old(next_mutation_id),
                    old(edits).mutations@.len() as int,
                )
            },
            FlushStep::Fatal(error) => {
                &&& !old(edits).is_settled() && slot is Closed
                &&& error == FatalError::StorageClosed(DurabilityPoint::EndOfTick)
                &&& *final(edits) == *old(edits)
                &&& *final(next_mutation_id) == *old(next_mutation_id)
            },
        },
{
    if !edits.has_pending_persistence() {
        return FlushStep::Nothing;
    }
    match slot {
        StorageSlot::Reserved => match edits.build_flush_request(tick, next_mutation_id) {
            Some(request) => FlushStep::Send(request),
            None => FlushStep::Nothing,
        },
        StorageSlot::Full => FlushStep::Nothing,
        StorageSlot::Closed => FlushStep::Fatal(
            FatalError::StorageClosed(DurabilityPoint::EndOfTick),
        ),
    }
}

/// The flush at shutdown, which waits for a place: `reserved` tells whether one was
/// had. Without a worker the server reports failure and keeps what waits.
pub fn shutdown_flush(
    edits: &mut PendingEdits,
    reserved: bool,
    tick: u64,
    next_mutation_id: &mut u64,
) -> (r: FlushStep)
    ensures
        match r {
            FlushStep::Nothing => {
                &&& old(edits).is_settled()
                &&& *final(edits) == *old(edits)
                &&& *final(next_mutation_id) == *old(next_mutation_id)
            },
            FlushStep::Send(request) => {
                &&& !old(edits).is_settled() && reserved
                &&& carries_all(request, *old(edits), tick, *old(next_mutation_id))
                &&& final(edits).is_settled()
                &&& request.overlays@ == old(edits).dirty_chunks@
                &&& request.tick == tick
                &&& !request.acknowledged
                &&& request.records@.len() == old(edits).mutations@.len()
                &&& forall|i: int|
                    0 <= i < request.records@.len() ==> #[trigger] request.records@[i] == record_of(
                        later_id(*old(next_mutation_id), i),
                        tick,
                        old(edits).mutations@[i],
                    )
                &&& *final(next_mutation_id) == later_id(
                    *old(next_mutation_id),
                    old(edits).mutations@.len() as int,
                )
            },
            FlushStep::Fatal(error) => {
                &&& !old(edits).is_settled() && !reserved
                &&& error == FatalError::StorageClosed(DurabilityPoint::Shutdown)
                &&& *final(edits) == *old(edits)
                &&& *final(next_mutation_id) == *old(next_mutation_id)
            },
        },
{
    if !edits.has_pending_persistence() {
        return FlushStep::Nothing;
    }
    if !reserved {
        return FlushStep::Fatal(FatalError::StorageClosed(DurabilityPoint::Shutdown));
    }
    match edits.build_flush_request(tick, next_mutation_id) {
        Some(request) => FlushStep::Send(request),
        None => FlushStep::Nothing,
    }
}

/// What the storage worker answers to an acknowledged request.
#[derive(Clone, Copy, Debug, PartialEq, Eq, Structural)]
pub enum DurabilityAck {
    /// Everything is durable.
    Committed,
    /// The commit failed.
    Failed,
    /// The worker went away without an answer.
    Canceled,
}

/// The release of chunks behind the durability barrier: first a place at the storage
/// worker, then an acknowledged request, and only after its success the tickets.
#[derive(Debug)]
pub enum ReleaseBarrier {
    /// Waiting for a place at the storage worker.
    Reserving,
    /// Waiting for the acknowledgement.
    AwaitingAck,
    /// The tickets may be released.
    Released,
    /// The server must stop; every ticket is kept.
    Failed(FatalError),
}

impl ReleaseBarrier {
    /// The barrier behind its first gate: passed with a place at the worker.
    pub open spec fn behind_reservation(available: bool) -> ReleaseBarrier {
        if available {
            ReleaseBarrier::AwaitingAck
        } else {
            ReleaseBarrier::Failed(FatalError::StorageClosed(DurabilityPoint::ChunkRelease))
        }
    }

    /// The barrier behind its second gate, for each answer of the worker.
    pub open spec fn behind_acknowledgement(ack: DurabilityAck) -> ReleaseBarrier {
        match ack {
            DurabilityAck::Committed => ReleaseBarrier::Released,
            DurabilityAck::Failed => ReleaseBarrier::Failed(FatalError::CommitFailed),
            DurabilityAck::Canceled => ReleaseBarrier::Failed(FatalError::AckCanceled),
        }
    }

    /// The columns whose ticket is released.
    pub open spec fn released(self, columns: Seq<ChunkPos>) -> Seq<ChunkPos> {
        if self is Released {
            columns
        } else {
            Seq::empty()
        }
    }

    /// The barrier before anything happened.
    pub fn new() -> (r: ReleaseBarrier)
        ensures
            r is Reserving,
    {
        ReleaseBarrier::Reserving
    }

    /// Passes the first gate: with a place everything that waits is taken into a
    /// request that the worker must acknowledge. A request is sent even where nothing
    /// waits, since earlier edits may still be on their way. Without a worker nothing
    /// is taken.
    pub fn reserved(
        self,
        available: bool,
        edits: &mut PendingEdits,
        tick: u64,
        next_mutation_id: &mut u64,
    ) -> (r: (ReleaseBarrier, Option<StorageFlushRequest>))
        requires
            self is Reserving,
        ensures
            r.0 == ReleaseBarrier::behind_reservation(available),
            available ==> {
                &&& r.1 is Some
                &&& r.1->Some_0.acknowledged
                &&& carries_all(r.1->Some_0, *old(edits), tick, *old(next_mutation_id))
                &&& r.1->Some_0.overlays@ == old(edits).dirty_chunks@
                &&& r.1->Some_0.tick == tick
                &&& r.1->Some_0.records@.len() == old(edits).mutations@.len()
                &&& forall|i: int|
                    0 <= i < r.1->Some_0.records@.len() ==> #[trigger] r.1->Some_0.records@[i]
                        == record_of(
                        later_id(*old(next_mutation_id), i),
                        tick,
                        old(edits).mutations@[i],
                    )
                &&& final(edits).is_settled()
                &&& *final(next_mutation_id) == later_id(
                    *old(next_mutation_id),
                    old(edits).mutations@.len() as int,
                )
            },
            !available ==> {
                &&& r.1 is None
                &&& *final(edits) == *old(edits)
                &&& *final(next_mutation_id) == *old(next_mutation_id)
            },
    {
        if !available {
            return (
                ReleaseBarrier::Failed(FatalError::StorageClosed(DurabilityPoint::ChunkRelease)),
                None,
            );
        }
        let request = match edits.build_flush_request(tick, next_mutation_id) {
            Some(request) => StorageFlushRequest {
                overlays: request.overlays,
                tick,
                records: request.records,
                acknowledged: true,
            },
            None => {
                let request = StorageFlushRequest {
                    overlays: Vec::new(),
                    tick,
                    records: Vec::new(),
                    acknowledged: true,
                };
                assert(request.overlays@ =~= old(edits).dirty_chunks@);
                request
            },
        };
        (ReleaseBarrier::AwaitingAck, Some(request))
    }

    /// Passes the second gate: only a committed acknowledgement lets the tickets go.
    pub fn acknowledged(self, ack: DurabilityAck) -> (r: ReleaseBarrier)
        requires
            self is AwaitingAck,
        ensures
            r == ReleaseBarrier::behind_acknowledgement(ack),
    {
        match ack {
            DurabilityAck::Committed => ReleaseBarrier::Released,
            DurabilityAck::Failed => ReleaseBarrier::Failed(FatalError::CommitFailed),
            DurabilityAck::Canceled => ReleaseBarrier::Failed(FatalError::AckCanceled),
        }
    }

    /// The columns whose ticket is released: all of them once the barrier is passed,
    /// and none before.
    pub fn released_columns(&self, columns: Vec<ChunkPos>) -> (r: Vec<ChunkPos>)
        ensures
            r@ == self.released(columns@),
    {
        match self {
            ReleaseBarrier::Released => columns,
            _ => Vec::new(),
        }
    }
}

/// No ticket goes before everything is durable: without a place at the worker, and for
/// every answer but a commit, every ticket is kept and the server stops. A commit
/// releases them all.
pub proof fn tickets_wait_for_durability(
    available: bool,
    ack: DurabilityAck,
    columns: Seq<ChunkPos>,
)
    ensures
        ReleaseBarrier::Reserving.released(columns).len() == 0,
        ReleaseBarrier::behind_reservation(available).released(columns).len() == 0,
        ReleaseBarrier::behind_reservation(available) is Failed == !available,
        ReleaseBarrier::behind_acknowledgement(ack).released(columns) == if ack is Committed {
            columns
        } else {
            Seq::empty()
        },
        ReleaseBarrier::behind_acknowledgement(ack) is Failed == !(ack is Committed),
{
}

/// A record tells the whole edit as it was: where, from which state to which, under its own
/// number and tick. A player is named as the actor exactly where a player caused the edit, and
/// then it is that player; different causes are told apart.
pub proof fn records_tell_the_edit(
    id: u64,
    tick: u64,
    mutation: PendingMutation,
    other: PendingMutation,
)
    ensures
        ({
            let record = record_of(id, tick, mutation);
            &&& record.schema == 1 && record.id == id && record.tick == tick
            &&& record.position == mutation.position
            &&& record.old_state == mutation.old_state && record.new_state == mutation.new_state
            &&& match record.actor {
                MutationActor::Player(player) => mutation.cause == MutationCause::PlayerCreative(
                    player,
                ),
                MutationActor::System => !(mutation.cause is PlayerCreative),
            }
            &&& record.cause is PlayerCreative == mutation.cause is PlayerCreative
            &&& record.cause is Plugin == mutation.cause is Plugin
            &&& record.cause is Test == mutation.cause is Test
            &&& record.cause is Command == mutation.cause is Command
            &&& record == record_of(id, tick, other) ==> mutation == other
        }),
{
}

} // verus!
