//! What becomes of an input that could not be handed to its simulation shard.

use vstd::prelude::*;
use vstd::string::StringExecFns;

verus! {

/// Why the session layer could not route something.
#[derive(Clone, Copy, Debug, PartialEq, Eq, Structural)]
pub enum SessionError {
    /// No such player is connected.
    UnknownPlayer,
    /// The shard's bounded inbox is full.
    ShardInboxFull,
    /// The shard cannot be reached at all.
    ShardUnreachable,
}

/// How much the loss of an input matters.
#[derive(Clone, Copy, Debug, PartialEq, Eq, Structural)]
pub enum DeliveryPolicy {
    /// The input may be lost.
    BestEffort,
    /// The input may be replaced by a later one, but not lost.
    Coalescible,
    /// The input must not be lost.
    Authoritative,
}

/// What the router made of an input.
#[derive(Clone, Copy, Debug, PartialEq, Eq, Structural)]
pub enum Delivery {
    /// The shard has it.
    Accepted,
    /// The shard does not have it.
    Rejected {
        /// How much its loss matters.
        policy: DeliveryPolicy,
        /// Whether the input is a player's leave.
        is_leave: bool,
        /// Why it was not delivered.
        error: SessionError,
    },
}

/// An operation that hands an input to a shard.
#[derive(Clone, Copy, Debug, PartialEq, Eq, Structural)]
pub enum Operation {
    /// A network event.
    NetworkEvent,
    /// A game-mode change.
    SetGameMode,
    /// A block placement.
    BlockPlacement,
    /// An exact block write.
    ExactBlockSet,
    /// A region edit.
    RegionEdit,
    /// An undo of a region edit.
    RegionUndo,
    /// The refusal of a block edit.
    BlockEditRejection,
    /// A teleport.
    Teleport,
    /// A teleport to another player.
    TeleportToPlayer,
    /// Another player's game-mode change.
    TargetedSetGameMode,
    /// A sign update.
    SignUpdate,
}

impl Operation {
    /// The name of the operation in errors.
    pub open spec fn name(self) -> Seq<char> {
        match self {
            Operation::NetworkEvent => "network event"@,
            Operation::SetGameMode => "set game mode"@,
            Operation::BlockPlacement => "block placement"@,
            Operation::ExactBlockSet => "exact block set"@,
            Operation::RegionEdit => "region edit"@,
            Operation::RegionUndo => "region undo"@,
            Operation::BlockEditRejection => "block-edit rejection"@,
            Operation::Teleport => "teleport"@,
            Operation::TeleportToPlayer => "teleport to player"@,
            Operation::TargetedSetGameMode => "targeted set game mode"@,
            Operation::SignUpdate => "sign update"@,
        }
    }

    /// The name of the operation in errors.
    pub fn label(self) -> (r: &'static str)
        ensures
            r@ == self.name(),
    {
        match self {
            Operation::NetworkEvent => "network event",
            Operation::SetGameMode => "set game mode",
            Operation::BlockPlacement => "block placement",
            Operation::ExactBlockSet => "exact block set",
            Operation::RegionEdit => "region edit",
            Operation::RegionUndo => "region undo",
            Operation::BlockEditRejection => "block-edit rejection",
            Operation::Teleport => "teleport",
            Operation::TeleportToPlayer => "teleport to player",
            Operation::TargetedSetGameMode => "targeted set game mode",
            Operation::SignUpdate => "sign update",
        }
    }
}

/// A failure that stops the server.
#[derive(Clone, Copy, Debug, PartialEq, Eq, Structural)]
pub enum FatalError {
    /// An operation could not reach its shard.
    Unreachable(Operation, SessionError),
    /// The simulation took an operation whose overloaded session could not queue its
    /// player's leave.
    LeaveRefused(Operation, SessionError),
    /// A full shard refused an operation and its overloaded session could not queue
    /// the player's leave.
    DisconnectRefused(Operation, SessionError),
    /// The teardown of a session could not reach its shard.
    TeardownUnreachable(SessionError),
    /// The retry of a retained leave could not reach its shard.
    RetryUnreachable(SessionError),
    /// The simulation inbox refused an input it had room for.
    InboxInconsistent,
    /// The storage worker is gone at a point where edits must become durable.
    StorageClosed(DurabilityPoint),
    /// The storage worker went away without telling whether edits became durable.
    AckCanceled,
    /// The storage worker could not make edits durable.
    CommitFailed,
}

/// A point where edits must become durable.
#[derive(Clone, Copy, Debug, PartialEq, Eq, Structural)]
pub enum DurabilityPoint {
    /// The end of a tick.
    EndOfTick,
    /// The release of chunks.
    ChunkRelease,
    /// The shutdown.
    Shutdown,
}

impl FatalError {
    /// The message that is logged; `cause` is the text of the underlying error.
    pub open spec fn text(self, cause: Seq<char>) -> Seq<char> {
        match self {
            FatalError::Unreachable(operation, _) => operation.name()
                + " could not reach its shard: "@ + cause,
            FatalError::LeaveRefused(operation, _) => operation.name()
                + " was accepted by simulation but its overloaded session could not enqueue PlayerLeave: "@
                + cause,
            FatalError::DisconnectRefused(operation, _) => operation.name()
                + " was rejected by bounded shard capacity and the overloaded session could not enqueue PlayerLeave: "@
                + cause,
            FatalError::TeardownUnreachable(_) =>
                "mandatory outbound teardown could not reach its shard: "@ + cause,
            FatalError::RetryUnreachable(_) =>
                "retained PlayerLeave retry could not reach its shard: "@ + cause,
            FatalError::InboxInconsistent =>
                "simulation inbox rejected input after reporting capacity: "@ + cause,
            FatalError::StorageClosed(point) => "cannot complete "@ + match point {
                DurabilityPoint::EndOfTick => "end-of-tick flush"@,
                DurabilityPoint::ChunkRelease => "chunk-release durability barrier"@,
                DurabilityPoint::Shutdown => "final shutdown flush"@,
            } + ": storage flush worker channel is closed"@,
            FatalError::AckCanceled =>
                "chunk-release durability barrier acknowledgement was canceled"@,
            FatalError::CommitFailed => cause,
        }
    }

    /// The message that is logged; `cause` is the text of the underlying error.
    pub fn message(&self, cause: &str) -> (r: String)
        ensures
            r@ == self.text(cause@),
    {
        match self {
            FatalError::Unreachable(operation, _) => three_parts(
                operation.label(),
                " could not reach its shard: ",
                cause,
            ),
            FatalError::LeaveRefused(operation, _) => three_parts(
                operation.label(),
                " was accepted by simulation but its overloaded session could not enqueue PlayerLeave: ",
                cause,
            ),
            FatalError::DisconnectRefused(operation, _) => three_parts(
                operation.label(),
                " was rejected by bounded shard capacity and the overloaded session could not enqueue PlayerLeave: ",
                cause,
            ),
            FatalError::TeardownUnreachable(_) => {
                let mut m = "mandatory outbound teardown could not reach its shard: ".to_owned();
                m.append(cause);
                m
            },
            FatalError::RetryUnreachable(_) => {
                let mut m = "retained PlayerLeave retry could not reach its shard: ".to_owned();
                m.append(cause);
                m
            },
            FatalError::InboxInconsistent => {
                let mut m = "simulation inbox rejected input after reporting capacity: ".to_owned();
                m.append(cause);
                m
            },
            FatalError::StorageClosed(point) => {
                let operation = match point {
                    DurabilityPoint::EndOfTick => "end-of-tick flush",
                    DurabilityPoint::ChunkRelease => "chunk-release durability barrier",
                    DurabilityPoint::Shutdown => "final shutdown flush",
                };
                three_parts(
                    "cannot complete ",
                    operation,
                    ": storage flush worker channel is closed",
                )
            },
            FatalError::AckCanceled => {
                "chunk-release durability barrier acknowledgement was canceled".to_owned()
            },
            FatalError::CommitFailed => cause.to_owned(),
        }
    }
}

fn three_parts(first: &str, second: &str, third: &str) -> (r: String)
    ensures
        r@ == first@ + second@ + third@,
{
    let mut m = first.to_owned();
    m.append(second);
    m.append(third);
    m
}

/// What a delivery asks for next.
#[derive(Clone, Copy, Debug, PartialEq, Eq)]
pub enum DeliveryStep {
    /// The outcome is known: the caller is told it.
    Done(Result<(), SessionError>),
    /// The session is overloaded: its player is to be disconnected, then
    /// [`after_disconnect`] tells the outcome.
    Disconnect(SessionError),
    /// The server must stop.
    Fatal(FatalError),
}

/// What a delivery asks for next, by rule.
pub open spec fn delivery_rule(
    delivery: Delivery,
    allow_retained_leave: bool,
    operation: Operation,
) -> DeliveryStep {
    match delivery {
        Delivery::Accepted => DeliveryStep::Done(Ok(())),
        Delivery::Rejected { policy, is_leave, error } => match error {
            SessionError::UnknownPlayer => DeliveryStep::Done(Err(error)),
            SessionError::ShardUnreachable => DeliveryStep::Fatal(
                FatalError::Unreachable(operation, error),
            ),
            SessionError::ShardInboxFull => if is_leave && allow_retained_leave {
                DeliveryStep::Done(Err(error))
            } else if is_leave {
                DeliveryStep::Fatal(FatalError::LeaveRefused(operation, error))
            } else if policy is BestEffort {
                DeliveryStep::Done(Ok(()))
            } else {
                DeliveryStep::Disconnect(error)
            },
        },
    }
}

/// Turns one router delivery into acceptance, a classified rejection, a session to
/// end, or a failure that stops the server.
///
/// A leave whose connection is gone anyway is retained by the router, which retries
/// it: `allow_retained_leave`.
pub fn enforce_input_delivery(
    delivery: Delivery,
    allow_retained_leave: bool,
    operation: Operation,
) -> (r: DeliveryStep)
    ensures
        r == delivery_rule(delivery, allow_retained_leave, operation),
{
    match delivery {
        Delivery::Accepted => DeliveryStep::Done(Ok(())),
        Delivery::Rejected { policy, is_leave, error } => match error {
            SessionError::UnknownPlayer => DeliveryStep::Done(Err(error)),
            SessionError::ShardUnreachable => DeliveryStep::Fatal(
                FatalError::Unreachable(operation, error),
            ),
            SessionError::ShardInboxFull => {
                if is_leave && allow_retained_leave {
                    return DeliveryStep::Done(Err(error));
                }
                if is_leave {
                    return DeliveryStep::Fatal(FatalError::LeaveRefused(operation, error));
                }
                match policy {
                    DeliveryPolicy::BestEffort => DeliveryStep::Done(Ok(())),
                    DeliveryPolicy::Authoritative => DeliveryStep::Disconnect(error),
                    DeliveryPolicy::Coalescible => DeliveryStep::Disconnect(error),
                }
            },
        },
    }
}

/// The outcome of a delivery whose session was to be disconnected: the rejection, once
/// the disconnection is under way, else a failure that stops the server.
pub fn after_disconnect(
    rejection: SessionError,
    disconnected: Result<(), SessionError>,
    operation: Operation,
) -> (r: Result<Result<(), SessionError>, FatalError>)
    ensures
        r == match disconnected {
            Ok(_) => Ok::<Result<(), SessionError>, FatalError>(Err(rejection)),
            Err(error) => Err(FatalError::DisconnectRefused(operation, error)),
        },
{
    match disconnected {
        Ok(_) => Ok(Err(rejection)),
        Err(error) => Err(FatalError::DisconnectRefused(operation, error)),
    }
}

/// A caller is told of success only where the shard has the input, or where its loss
/// does not matter; an input that matters is never dropped silently.
pub proof fn success_means_delivery(
    delivery: Delivery,
    allow_retained_leave: bool,
    operation: Operation,
)
    requires
        delivery_rule(delivery, allow_retained_leave, operation) == DeliveryStep::Done(Ok(())),
    ensures
        delivery is Accepted || (delivery matches Delivery::Rejected { policy, is_leave, .. }
            && policy is BestEffort && !is_leave),
{
}

/// An input that must not be lost and meets a full shard ends its session, unless it
/// is the session's own leave: that is retained or stops the server.
pub proof fn full_shard_never_drops_silently(
    policy: DeliveryPolicy,
    is_leave: bool,
    allow_retained_leave: bool,
    operation: Operation,
)
    requires
        !(policy is BestEffort),
    ensures
        ({
            let rejected = Delivery::Rejected {
                policy,
                is_leave,
                error: SessionError::ShardInboxFull,
            };
            delivery_rule(rejected, allow_retained_leave, operation) == if !is_leave {
                DeliveryStep::Disconnect(SessionError::ShardInboxFull)
            } else if allow_retained_leave {
                DeliveryStep::Done(Err(SessionError::ShardInboxFull))
            } else {
                DeliveryStep::Fatal(
                    FatalError::LeaveRefused(operation, SessionError::ShardInboxFull),
                )
            }
        }),
{
}

/// Judges the failed teardown of a session: a full shard keeps the leave for a retry
/// and an unknown player is gone already; anything else stops the server.
pub fn teardown_failure(error: SessionError) -> (r: Option<FatalError>)
    ensures
        r == if error is ShardUnreachable {
            Some(FatalError::TeardownUnreachable(error))
        } else {
            None
        },
{
    match error {
        SessionError::ShardUnreachable => Some(FatalError::TeardownUnreachable(error)),
        _ => None,
    }
}

/// Judges the failed retry of retained leaves, in the same way.
pub fn retry_failure(error: SessionError) -> (r: Option<FatalError>)
    ensures
        r == if error is ShardUnreachable {
            Some(FatalError::RetryUnreachable(error))
        } else {
            None
        },
{
    match error {
        SessionError::ShardUnreachable => Some(FatalError::RetryUnreachable(error)),
        _ => None,
    }
}

/// Every failure names the operation that failed and the error that it met, and a caller is
/// told the error that the router gave. A shard that cannot be reached always stops the
/// server, and a player who is not connected never does.
pub proof fn deliveries_tell_their_error(
    delivery: Delivery,
    allow_retained_leave: bool,
    operation: Operation,
)
    ensures
        match delivery_rule(delivery, allow_retained_leave, operation) {
            DeliveryStep::Done(Ok(_)) => true,
            DeliveryStep::Done(Err(error)) => delivery matches Delivery::Rejected { error: met, .. }
                && error == met && !(met is ShardUnreachable),
            DeliveryStep::Disconnect(error) => delivery matches Delivery::Rejected {
                error: met,
                is_leave,
                ..
            } && error == met && met is ShardInboxFull && !is_leave,
            DeliveryStep::Fatal(failure) => {
                &&& delivery matches Delivery::Rejected { error: met, is_leave, .. }
                &&& match failure {
                    FatalError::Unreachable(what, error) => what == operation && error == met
                        && met is ShardUnreachable,
                    FatalError::LeaveRefused(what, error) => what == operation && error == met
                        && met is ShardInboxFull && is_leave && !allow_retained_leave,
                    _ => false,
                }
            },
        },
        delivery is Accepted ==> delivery_rule(delivery, allow_retained_leave, operation)
            == DeliveryStep::Done(Ok(())),
        delivery matches Delivery::Rejected { error, .. } ==> (error is ShardUnreachable
            ==> delivery_rule(delivery, allow_retained_leave, operation) is Fatal),
{
}

/// Every operation is called by its own name in errors.
pub proof fn operations_go_by_their_names(operation: Operation)
    ensures
        (operation == Operation::NetworkEvent) == (operation.name() == "network event"@),
        (operation == Operation::SetGameMode) == (operation.name() == "set game mode"@),
        (operation == Operation::BlockPlacement) == (operation.name() == "block placement"@),
        (operation == Operation::ExactBlockSet) == (operation.name() == "exact block set"@),
        (operation == Operation::RegionEdit) == (operation.name() == "region edit"@),
        (operation == Operation::RegionUndo) == (operation.name() == "region undo"@),
        (operation == Operation::BlockEditRejection) == (operation.name() == "block-edit rejection"@),
        (operation == Operation::Teleport) == (operation.name() == "teleport"@),
        (operation == Operation::TeleportToPlayer) == (operation.name() == "teleport to player"@),
        (operation == Operation::TargetedSetGameMode) == (operation.name() == "targeted set game mode"@),
        (operation == Operation::SignUpdate) == (operation.name() == "sign update"@),
{
    reveal_strlit("network event");
    reveal_strlit("set game mode");
    reveal_strlit("block placement");
    reveal_strlit("exact block set");
    reveal_strlit("region edit");
    reveal_strlit("region undo");
    reveal_strlit("block-edit rejection");
    reveal_strlit("teleport");
    reveal_strlit("teleport to player");
    reveal_strlit("targeted set game mode");
    reveal_strlit("sign update");
    assert("network event"@.len() == 13);
    assert("set game mode"@.len() == 13);
    assert("block placement"@.len() == 15);
    assert("exact block set"@.len() == 15);
    assert("region edit"@.len() == 11);
    assert("region undo"@.len() == 11);
    assert("block-edit rejection"@.len() == 20);
    assert("teleport"@.len() == 8);
    assert("teleport to player"@.len() == 18);
    assert("targeted set game mode"@.len() == 22);
    assert("sign update"@.len() == 11);
    assert("block placement"@[0] == 'b');
    assert("exact block set"@[0] == 'e');
    assert("network event"@[0] == 'n');
    assert("region edit"@[0] == 'r');
    assert("region edit"@[7] == 'e');
    assert("region undo"@[0] == 'r');
    assert("region undo"@[7] == 'u');
    assert("set game mode"@[0] == 's');
    assert("sign update"@[0] == 's');
}

/// A failure is told with the operation that failed first and the cause last.
pub proof fn failures_name_operation_and_cause(
    operation: Operation,
    error: SessionError,
    cause: Seq<char>,
)
    ensures
        operation.name().is_prefix_of(FatalError::Unreachable(operation, error).text(cause)),
        operation.name().is_prefix_of(FatalError::LeaveRefused(operation, error).text(cause)),
        operation.name().is_prefix_of(FatalError::DisconnectRefused(operation, error).text(cause)),
        ends_with(FatalError::Unreachable(operation, error).text(cause), cause),
        ends_with(FatalError::LeaveRefused(operation, error).text(cause), cause),
        ends_with(FatalError::DisconnectRefused(operation, error).text(cause), cause),
        ends_with(FatalError::TeardownUnreachable(error).text(cause), cause),
        ends_with(FatalError::RetryUnreachable(error).text(cause), cause),
        ends_with(FatalError::InboxInconsistent.text(cause), cause),
        FatalError::CommitFailed.text(cause) == cause,
{
    let a = FatalError::Unreachable(operation, error).text(cause);
    let b = FatalError::LeaveRefused(operation, error).text(cause);
    let c = FatalError::DisconnectRefused(operation, error).text(cause);
    let n = operation.name().len() as int;
    assert(a.subrange(0, n) =~= operation.name());
    assert(b.subrange(0, n) =~= operation.name());
    assert(c.subrange(0, n) =~= operation.name());
    assert(a.skip(a.len() - cause.len()) =~= cause);
    assert(b.skip(b.len() - cause.len()) =~= cause);
    assert(c.skip(c.len() - cause.len()) =~= cause);
    let d = FatalError::TeardownUnreachable(error).text(cause);
    let e = FatalError::RetryUnreachable(error).text(cause);
    let f = FatalError::InboxInconsistent.text(cause);
    assert(d.skip(d.len() - cause.len()) =~= cause);
    assert(e.skip(e.len() - cause.len()) =~= cause);
    assert(f.skip(f.len() - cause.len()) =~= cause);
}

/// Whether a text ends with another.
pub open spec fn ends_with(text: Seq<char>, end: Seq<char>) -> bool {
    end.len() <= text.len() && text.skip(text.len() - end.len()) == end
}

/// A lost storage worker is told with the point at which it was missed.
pub proof fn lost_workers_name_the_point(point: DurabilityPoint, cause: Seq<char>)
    ensures
        FatalError::StorageClosed(point).text(cause) == "cannot complete "@ + (if point is EndOfTick {
            "end-of-tick flush"@
        } else if point is Shutdown {
            "final shutdown flush"@
        } else {
            "chunk-release durability barrier"@
        }) + ": storage flush worker channel is closed"@,
{
}

} // verus!
