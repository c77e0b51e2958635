//! Clientbound queueing: which drops end the session, what is traced and counted,
//! and the telemetry published at each flush.

use vstd::prelude::*;

verus! {

/// Whether a packet may be shed under pressure.
#[derive(Clone, Copy, Debug, PartialEq, Eq, Structural)]
pub enum Criticality {
    /// The client's state is wrong without the packet.
    Mandatory,
    /// The packet may be dropped.
    Droppable,
}

/// The queue a packet goes to.
#[derive(Clone, Copy, Debug, PartialEq, Eq, Structural)]
pub enum OutboundPriority {
    /// Liveness and disconnection.
    Control,
    /// Authoritative player state.
    State,
    /// World content.
    World,
    /// Everything else.
    Bulk,
}

/// What became of a packet at the connection writer.
#[derive(Clone, Copy, Debug, PartialEq, Eq, Structural)]
pub enum EnqueueOutcome {
    /// The packet is queued.
    Enqueued {
        /// The packets in the queue, this one included.
        depth: usize,
    },
    /// The queue was full and the packet is gone.
    Dropped {
        /// The full queue.
        priority: OutboundPriority,
    },
}

impl EnqueueOutcome {
    /// Whether the packet is queued.
    pub fn is_enqueued(self) -> (r: bool)
        ensures
            r == self is Enqueued,
    {
        match self {
            EnqueueOutcome::Enqueued { .. } => true,
            EnqueueOutcome::Dropped { .. } => false,
        }
    }

    /// Whether the packet is gone.
    pub fn is_dropped(self) -> (r: bool)
        ensures
            r == self is Dropped,
    {
        !self.is_enqueued()
    }
}

/// Whether the fate of a packet at the writer must end the session: a mandatory
/// packet is delivered or the session ends.
///
/// The criticality is the one that the sender gave the packet, not the usual one of
/// its kind.
pub fn is_mandatory_overflow(criticality: Criticality, outcome: EnqueueOutcome) -> (r: bool)
    ensures
        r == (outcome is Dropped && criticality is Mandatory),
{
    outcome.is_dropped() && match criticality {
        Criticality::Mandatory => true,
        Criticality::Droppable => false,
    }
}

/// A mandatory packet was dropped at the connection writer.
#[derive(Clone, Copy, Debug, PartialEq, Eq, Structural)]
pub struct OutboundOverflow;

impl OutboundOverflow {
    /// What the session's end is logged with.
    pub fn message(&self) -> (r: String)
        ensures
            r@
                == "outbound overflow: a mandatory clientbound packet was dropped at the connection writer"@,
    {
        "outbound overflow: a mandatory clientbound packet was dropped at the connection writer".to_owned()
    }
}

/// Judges the fate of a packet that carries authoritative state.
pub fn send_mandatory(criticality: Criticality, outcome: EnqueueOutcome) -> (r: Result<
    (),
    OutboundOverflow,
>)
    ensures
        r is Err == (outcome is Dropped && criticality is Mandatory),
{
    if is_mandatory_overflow(criticality, outcome) {
        Err(OutboundOverflow)
    } else {
        Ok(())
    }
}

/// Judges the fate of the acknowledgement that ends a client's block prediction,
/// which is always mandatory.
pub fn ack_sequence(outcome: EnqueueOutcome) -> (r: Result<(), OutboundOverflow>)
    ensures
        r is Err == outcome is Dropped,
{
    send_mandatory(Criticality::Mandatory, outcome)
}

/// The packets a connection has queued, with their traces and counters.
///
/// A dropped packet is neither traced nor counted, so traces and counters tell what
/// entered the pipeline.
#[derive(Clone, Copy, Debug, PartialEq, Eq, Structural)]
pub struct OutboundTally {
    /// Packets traced.
    pub traced: u64,
    /// Chunk packets counted as sent.
    pub chunks_sent: u64,
    /// Unload packets counted as sent.
    pub chunks_unloaded: u64,
}

/// What a queued packet counts as.
#[derive(Clone, Copy, Debug, PartialEq, Eq, Structural)]
pub enum Counted {
    /// A chunk column.
    ChunkSent,
    /// The release of a chunk column.
    ChunkUnloaded,
    /// Nothing.
    Uncounted,
}

impl OutboundTally {
    /// The tally after one more packet.
    pub open spec fn after(self, counted: Counted, outcome: EnqueueOutcome) -> OutboundTally {
        if outcome is Enqueued {
            OutboundTally {
                traced: saturating_successor(self.traced),
                chunks_sent: if counted is ChunkSent {
                    saturating_successor(self.chunks_sent)
                } else {
                    self.chunks_sent
                },
                chunks_unloaded: if counted is ChunkUnloaded {
                    saturating_successor(self.chunks_unloaded)
                } else {
                    self.chunks_unloaded
                },
            }
        } else {
            self
        }
    }

    /// Records the fate of one packet: traced and counted where it was queued.
    pub fn enqueue_traced(&mut self, counted: Counted, outcome: EnqueueOutcome)
        ensures
            *final(self) == old(self).after(counted, outcome),
    {
        if outcome.is_enqueued() {
            self.traced = self.traced.saturating_add(1);
            match counted {
                Counted::ChunkSent => {
                    self.chunks_sent = self.chunks_sent.saturating_add(1);
                },
                Counted::ChunkUnloaded => {
                    self.chunks_unloaded = self.chunks_unloaded.saturating_add(1);
                },
                Counted::Uncounted => {},
            }
        }
    }
}

/// The next number, or the same one at the end of the range.
pub open spec fn saturating_successor(n: u64) -> u64 {
    if n == u64::MAX {
        n
    } else {
        (n + 1) as u64
    }
}

/// The counters of one connection's writer.
#[derive(Clone, Copy, Debug, PartialEq, Eq, Structural)]
pub struct WriterMetrics {
    /// Frames written.
    pub frames_encoded: u64,
    /// Bytes written.
    pub bytes_out: u64,
    /// Packets dropped from the control queue.
    pub dropped_control: u64,
    /// Packets dropped from the state queue.
    pub dropped_state: u64,
    /// Packets dropped from the world queue.
    pub dropped_world: u64,
    /// Packets dropped from the bulk queue.
    pub dropped_bulk: u64,
}

/// How many packets of one name a connection has traced.
#[derive(Debug, PartialEq, Eq)]
pub struct PacketTally {
    /// The name of the packet.
    pub name: String,
    /// How many.
    pub count: u64,
}

/// The network telemetry of one connection.
#[derive(Debug, PartialEq, Eq)]
pub struct ConnNetTelemetry {
    /// The session's label.
    pub session: String,
    /// Frames received.
    pub frames_in: u64,
    /// Bytes received.
    pub bytes_in: u64,
    /// Frames written.
    pub frames_out: u64,
    /// Bytes written.
    pub bytes_out: u64,
    /// Received frames that were over budget.
    pub over_budget: u64,
    /// Packets dropped, by queue in the order of [`OutboundPriority`].
    pub dropped: Vec<u64>,
    /// Packets waiting in all queues.
    pub queue_depth: u64,
    /// The received packets by name.
    pub inbound: Vec<PacketTally>,
    /// The queued packets by name.
    pub outbound: Vec<PacketTally>,
}

/// Assembles the telemetry that is published at a flush.
pub fn observe_queue_len(
    session: &str,
    frames_in: u64,
    bytes_in: u64,
    metrics: WriterMetrics,
    over_budget: u64,
    queue_depth: usize,
    inbound: Vec<PacketTally>,
    outbound: Vec<PacketTally>,
) -> (r: ConnNetTelemetry)
    ensures
        r.session@ == session@,
        r.frames_in == frames_in,
        r.bytes_in == bytes_in,
        r.frames_out == metrics.frames_encoded,
        r.bytes_out == metrics.bytes_out,
        r.over_budget == over_budget,
        r.dropped@ == seq![
            metrics.dropped_control,
            metrics.dropped_state,
            metrics.dropped_world,
            metrics.dropped_bulk,
        ],
        r.queue_depth == queue_depth,
        r.inbound == inbound,
        r.outbound == outbound,
{
    let mut dropped: Vec<u64> = Vec::new();
    dropped.push(metrics.dropped_control);
    dropped.push(metrics.dropped_state);
    dropped.push(metrics.dropped_world);
    dropped.push(metrics.dropped_bulk);
    assert(dropped@ =~= seq![
        metrics.dropped_control,
        metrics.dropped_state,
        metrics.dropped_world,
        metrics.dropped_bulk,
    ]);
    ConnNetTelemetry {
        session: session.to_owned(),
        frames_in,
        bytes_in,
        frames_out: metrics.frames_encoded,
        bytes_out: metrics.bytes_out,
        over_budget,
        dropped,
        queue_depth: queue_depth as u64,
        inbound,
        outbound,
    }
}

/// A packet that was dropped leaves no trace; one that was queued is traced once, and counted
/// once where it is a column or the release of one, under its own count.
pub proof fn only_queued_packets_count(tally: OutboundTally, counted: Counted, outcome: EnqueueOutcome)
    requires
        tally.traced < u64::MAX,
        tally.chunks_sent < u64::MAX,
        tally.chunks_unloaded < u64::MAX,
    ensures
        outcome is Dropped ==> tally.after(counted, outcome) == tally,
        outcome is Enqueued ==> tally.after(counted, outcome).traced == tally.traced + 1,
        tally.after(counted, outcome).chunks_sent - tally.chunks_sent == if outcome is Enqueued
            && counted is ChunkSent {
            1int
        } else {
            0
        },
        tally.after(counted, outcome).chunks_unloaded - tally.chunks_unloaded
            == if outcome is Enqueued && counted is ChunkUnloaded {
            1int
        } else {
            0
        },
{
}

} // verus!
