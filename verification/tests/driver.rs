//! The driver: commands, deliveries, durability, ticks and snapshots.

use ferrumc_app::command::GameMode;
use ferrumc_app::delivery::{
    after_disconnect, enforce_input_delivery, retry_failure, teardown_failure, Delivery,
    DeliveryPolicy, DeliveryStep, DurabilityPoint, FatalError, Operation, SessionError,
};
use ferrumc_app::driver::{
    announces_shutdown, chunk_block_entity_packets, classify_output, count_mutations,
    drain_shard_inputs, gamemode_label, load_chunks, next_wake, publish_snapshot, run_tick,
    BlockEntityKind, ChunkLoad, CommandQueue, DriverStage, MutationCounts, MutationKind,
    MutationResult, NetCounters, PlayerFacts, TickOutput, TpsWindow, Wake, TPS_WINDOW_CAP,
};
use ferrumc_app::ieee754::{Double, Single};
use ferrumc_app::inventory::ItemStack;
use ferrumc_app::math::{BlockPos, ChunkPos, Vec3};
use ferrumc_app::persistence::{
    build_mutation_record, shutdown_flush, try_flush_persist_dirty, DurabilityAck, FlushStep,
    MutationActor, MutationCause, MutationLogCause, PendingEdits, PendingMutation, ReleaseBarrier,
    StorageSlot,
};
use ferrumc_app::roster::{resolve_online_player, Roster};
use ferrumc_app::sim_command::{
    handle_command, joined, settle, teleport_to, AfterRoute, Cuboid, Direction, DriverStep,
    GameInput, NetEvent, RegionOp, SettledStep, SimCommand,
};
use ferrumc_app::world_time::{time_message, update_time_packet, UpdateTime, WorldTime};

const HERE: BlockPos = BlockPos { x: 8, y: 65, z: 8 };

fn double(value: f64) -> Double {
    Double { bits: value.to_bits() }
}

fn vec3(x: f64, y: f64, z: f64) -> Vec3 {
    Vec3 { x: double(x), y: double(y), z: double(z) }
}

fn spawn() -> Vec3 {
    vec3(8.0, 64.0, 8.0)
}

fn rejected(policy: DeliveryPolicy, is_leave: bool, error: SessionError) -> Delivery {
    Delivery::Rejected { policy, is_leave, error }
}

#[test]
fn simulation_handoff_leaves_excess_authoritative_input_queued() {
    // A simulation inbox for one input, and two inputs in the router channel.
    let moved = drain_shard_inputs(0, 1, 2, None).expect("the inbox keeps its word");
    assert_eq!(moved, 1, "handoff respects capacity");
    assert_eq!(2 - moved, 1, "the input beyond simulation capacity remains in the router channel");
    assert_eq!(drain_shard_inputs(1, 1, 5, None), Ok(0));
    assert_eq!(drain_shard_inputs(3, 10, 2, None), Ok(2));
    // An inbox that refuses an input it has room for stops the server.
    assert_eq!(drain_shard_inputs(3, 10, 2, Some(1)), Err(FatalError::InboxInconsistent));
    assert_eq!(drain_shard_inputs(3, 10, 2, Some(2)), Ok(2));
}

#[test]
fn exhausted_control_lane_fails_closed() {
    // A refusal that a full shard does not take ends the session; where even the leave
    // is not taken, the server stops.
    let full = rejected(DeliveryPolicy::Authoritative, false, SessionError::ShardInboxFull);
    let step = enforce_input_delivery(full, false, Operation::BlockEditRejection);
    assert_eq!(step, DeliveryStep::Disconnect(SessionError::ShardInboxFull));
    let error = after_disconnect(
        SessionError::ShardInboxFull,
        Err(SessionError::ShardInboxFull),
        Operation::BlockEditRejection,
    )
    .expect_err("physical control-lane exhaustion must fail the driver closed");
    assert_eq!(
        error.message("inbox full"),
        "block-edit rejection was rejected by bounded shard capacity and the overloaded session \
         could not enqueue PlayerLeave: inbox full"
    );
}

#[test]
fn deliveries_are_classified() {
    let enforce = |delivery: Delivery, retained: bool| {
        enforce_input_delivery(delivery, retained, Operation::NetworkEvent)
    };
    assert_eq!(enforce(Delivery::Accepted, false), DeliveryStep::Done(Ok(())));
    for policy in [
        DeliveryPolicy::BestEffort,
        DeliveryPolicy::Coalescible,
        DeliveryPolicy::Authoritative,
    ] {
        assert_eq!(
            enforce(rejected(policy, false, SessionError::UnknownPlayer), false),
            DeliveryStep::Done(Err(SessionError::UnknownPlayer))
        );
        assert!(matches!(
            enforce(rejected(policy, false, SessionError::ShardUnreachable), false),
            DeliveryStep::Fatal(FatalError::Unreachable(..))
        ));
        assert_eq!(
            enforce(rejected(policy, true, SessionError::ShardInboxFull), true),
            DeliveryStep::Done(Err(SessionError::ShardInboxFull)),
            "a connection's own leave is retained"
        );
        assert!(matches!(
            enforce(rejected(policy, true, SessionError::ShardInboxFull), false),
            DeliveryStep::Fatal(FatalError::LeaveRefused(..))
        ));
    }
    assert_eq!(
        enforce(rejected(DeliveryPolicy::BestEffort, false, SessionError::ShardInboxFull), false),
        DeliveryStep::Done(Ok(()))
    );
    assert_eq!(
        enforce(rejected(DeliveryPolicy::Coalescible, false, SessionError::ShardInboxFull), false),
        DeliveryStep::Disconnect(SessionError::ShardInboxFull)
    );
    assert_eq!(
        after_disconnect(SessionError::ShardInboxFull, Ok(()), Operation::NetworkEvent),
        Ok(Err(SessionError::ShardInboxFull))
    );
}

#[test]
fn fatal_errors_say_what_failed() {
    let message = |error: FatalError| error.message("cause");
    let gone = SessionError::ShardUnreachable;
    assert_eq!(
        message(FatalError::Unreachable(Operation::SetGameMode, gone)),
        "set game mode could not reach its shard: cause"
    );
    assert_eq!(
        message(FatalError::LeaveRefused(Operation::NetworkEvent, gone)),
        "network event was accepted by simulation but its overloaded session could not enqueue \
         PlayerLeave: cause"
    );
    assert_eq!(
        message(FatalError::TeardownUnreachable(gone)),
        "mandatory outbound teardown could not reach its shard: cause"
    );
    assert_eq!(
        message(FatalError::RetryUnreachable(gone)),
        "retained PlayerLeave retry could not reach its shard: cause"
    );
    assert_eq!(
        message(FatalError::InboxInconsistent),
        "simulation inbox rejected input after reporting capacity: cause"
    );
    assert_eq!(
        message(FatalError::StorageClosed(DurabilityPoint::EndOfTick)),
        "cannot complete end-of-tick flush: storage flush worker channel is closed"
    );
    assert_eq!(
        message(FatalError::StorageClosed(DurabilityPoint::Shutdown)),
        "cannot complete final shutdown flush: storage flush worker channel is closed"
    );
    assert_eq!(
        message(FatalError::AckCanceled),
        "chunk-release durability barrier acknowledgement was canceled"
    );
    assert_eq!(message(FatalError::CommitFailed), "cause");
    assert_eq!(teardown_failure(SessionError::ShardInboxFull), None);
    assert_eq!(teardown_failure(gone), Some(FatalError::TeardownUnreachable(gone)));
    assert_eq!(retry_failure(SessionError::UnknownPlayer), None);
    assert_eq!(retry_failure(gone), Some(FatalError::RetryUnreachable(gone)));
}

fn roster_of(entries: &[(u128, &str)]) -> Roster {
    let mut roster = Roster::new();
    for (player, name) in entries {
        roster.insert(*player, name.to_string());
    }
    roster
}

#[test]
fn rosters_resolve_by_exact_name() {
    let mut roster = roster_of(&[(9, "b"), (3, "a"), (5, "a"), (3, "c")]);
    assert_eq!(resolve_online_player(&roster, "a"), Some(5));
    assert_eq!(resolve_online_player(&roster, "A"), None);
    assert_eq!(resolve_online_player(&roster, "c"), Some(3), "a later name replaces an earlier");
    let ids: Vec<u128> = roster.entries().iter().map(|entry| entry.player).collect();
    assert_eq!(ids, vec![3, 5, 9]);
    roster.retain(&vec![9, 3, 77]);
    let ids: Vec<u128> = roster.entries().iter().map(|entry| entry.player).collect();
    assert_eq!(ids, vec![3, 9]);
    assert_eq!(resolve_online_player(&roster, "a"), None);
}

fn step(command: SimCommand) -> DriverStep {
    handle_command(command, &roster_of(&[(7, "target")]), &mut WorldTime::new())
}

#[test]
fn clock_commands_set_the_clock_and_tell_everyone() {
    let roster = Roster::new();
    let mut time = WorldTime::new();
    let told = handle_command(SimCommand::SetTime { time_of_day: 1_000 }, &roster, &mut time);
    // The phase is set, and the age stays.
    assert_eq!((time.world_age, time.time_of_day), (0, 1_000));
    assert!(matches!(
        told,
        DriverStep::BroadcastTime(UpdateTime { world_age: 0, time_of_day: 1_000, increasing: true })
    ));
    handle_command(SimCommand::AddTime { ticks: -1_001 }, &roster, &mut time);
    assert_eq!(time.time_of_day, 23_999);
    handle_command(SimCommand::SetTime { time_of_day: i64::MIN }, &roster, &mut time);
    assert_eq!(time.time_of_day, i64::MIN.rem_euclid(24_000));
    time.advance();
    assert_eq!(time.world_age, 1);
    assert!(!time.is_broadcast_tick());
    assert!(matches!(
        handle_command(SimCommand::QueryTime { player: 4 }, &roster, &mut time),
        DriverStep::TellTime { player: 4, .. }
    ));
    assert_eq!(time_message(1_000), "The time is 1000");
    assert_eq!(update_time_packet(&time).time_of_day, time.time_of_day);
}

#[test]
fn weather_commands_broadcast_a_game_event() {
    assert!(matches!(
        step(SimCommand::SetWeather { raining: true }),
        DriverStep::BroadcastGameEvent { reason: 1, value: 0 }
    ));
    assert!(matches!(
        step(SimCommand::SetWeather { raining: false }),
        DriverStep::BroadcastGameEvent { reason: 2, value: 0 }
    ));
}

#[test]
fn joins_enter_the_roster_once_accepted() {
    let mut roster = Roster::new();
    let mut time = WorldTime::new();
    time.set_time_of_day(6_000);
    assert_eq!(joined(&mut roster, 1, "joiner".to_string(), false, &time), None);
    assert!(roster.entries().is_empty());
    assert_eq!(
        joined(&mut roster, 1, "joiner".to_string(), true, &time),
        Some(UpdateTime { world_age: 0, time_of_day: 6_000, increasing: true })
    );
    assert_eq!(resolve_online_player(&roster, "joiner"), Some(1));
}

#[test]
fn named_players_are_looked_up() {
    assert!(matches!(
        step(SimCommand::TeleportToPlayer {
            player: 1,
            target: "target".to_string(),
            acceptance: Some(2)
        }),
        DriverStep::FindPosition { player: 1, target: 7, acceptance: Some(2) }
    ));
    assert!(matches!(
        step(SimCommand::TeleportToPlayer {
            player: 1,
            target: "nobody".to_string(),
            acceptance: Some(2)
        }),
        DriverStep::ReplyAccepted { acceptance: Some(2) }
    ));
    assert!(matches!(
        teleport_to(1, None, Some(spawn()), None),
        DriverStep::Teleport { player: 1, operation: Operation::TeleportToPlayer, position, .. }
            if position == spawn()
    ));
    assert!(matches!(
        teleport_to(1, Some(vec3(1.0, 2.0, 3.0)), Some(spawn()), None),
        DriverStep::Teleport { position, .. } if position == vec3(1.0, 2.0, 3.0)
    ));
    assert!(matches!(
        teleport_to(1, None, None, Some(9)),
        DriverStep::ReplyAccepted { acceptance: Some(9) }
    ));
    let routed = step(SimCommand::SetGameModeFor {
        target: "target".to_string(),
        mode: GameMode::Adventure,
        acceptance: Some(3),
    });
    let DriverStep::RouteInput { player: 7, input, after, .. } = routed else {
        panic!("a targeted mode change is routed to the target");
    };
    assert!(matches!(
        input,
        GameInput::SetGameMode { player: 7, mode: GameMode::Adventure }
    ));
    // The client is switched only once the shard has the change.
    assert_eq!(
        settle(after, Err(SessionError::ShardInboxFull)),
        SettledStep::Reply { acceptance: Some(3), outcome: Err(SessionError::ShardInboxFull) }
    );
    assert_eq!(
        settle(after, Ok(())),
        SettledStep::SwitchMode { target: 7, reason: 3, value: 2, acceptance: Some(3) }
    );
}

#[test]
fn placements_are_previewed_after_admission() {
    let routed = step(SimCommand::PlaceBlock {
        player: 1,
        position: HERE,
        sequence: 19,
        state: 137,
        clicked_face: Direction::East,
        cursor_position: vec3(0.5, 0.5, 0.5),
        player_yaw: Single { bits: 0 },
        reply: 44,
    });
    let DriverStep::RouteInput { operation, after, .. } = routed else {
        panic!("a placement is routed");
    };
    assert_eq!(operation, Operation::BlockPlacement);
    assert!(matches!(
        settle(after, Ok(())),
        SettledStep::PreviewPlacement { state: 137, clicked_face: Direction::East, reply: 44, .. }
    ));
    assert_eq!(
        settle(after, Err(SessionError::ShardInboxFull)),
        SettledStep::RefusePlacement { reply: 44, error: SessionError::ShardInboxFull }
    );
}

#[test]
fn acceptance_can_be_asked_of_shard_inputs_only() {
    let (command, asked) =
        SimCommand::RegionUndo { player: 1, acceptance: None }.request_delivery_acceptance(5);
    assert_eq!(asked, Ok(()));
    assert!(command.supports_delivery_acceptance());
    assert!(matches!(command, SimCommand::RegionUndo { player: 1, acceptance: Some(5) }));
    let (command, asked) =
        SimCommand::SetWeather { raining: true }.request_delivery_acceptance(5);
    assert_eq!(asked, Err(5));
    assert!(!command.supports_delivery_acceptance());
    let edit = SimCommand::RegionEdit {
        player: 1,
        region: Cuboid { min: HERE, max: HERE },
        op: RegionOp::Fill { state: 1 },
        acceptance: None,
    };
    let (edit, asked) = edit.request_delivery_acceptance(6);
    assert_eq!(asked, Ok(()));
    let DriverStep::RouteInput { operation: Operation::RegionEdit, after, .. } = step(edit) else {
        panic!("a region edit is routed");
    };
    assert_eq!(after, AfterRoute::Reply { acceptance: Some(6) });
}

#[test]
fn the_other_commands_pass_through() {
    let leave = NetEvent { player: 1, disconnected: true, packet: 0 };
    assert!(matches!(
        step(SimCommand::Event { event: leave, acceptance: None }),
        DriverStep::RouteEvent { allow_retained_leave: true, .. }
    ));
    assert!(matches!(
        step(SimCommand::BroadcastSystemChat { content: "hi".to_string(), overlay: false }),
        DriverStep::BroadcastChat { content, overlay: false } if content == "hi"
    ));
    assert!(matches!(
        step(SimCommand::ContainerLeftClick {
            player: 1,
            position: HERE,
            slot: 3,
            cursor: ItemStack::empty(),
            reply: 8
        }),
        DriverStep::ContainerLeftClick { slot: 3, reply: 8, .. }
    ));
    assert!(matches!(
        step(SimCommand::StreamChunks {
            load: vec![ChunkPos { x: 1, z: 2 }],
            unload: Vec::new(),
            reply: 8
        }),
        DriverStep::StreamChunks { load, reply: 8, .. } if load == vec![ChunkPos { x: 1, z: 2 }]
    ));
}

fn edits() -> PendingEdits {
    let mutation = |cause: MutationCause| PendingMutation {
        cause,
        position: HERE,
        old_state: 0,
        new_state: 1,
    };
    PendingEdits {
        dirty_chunks: vec![ChunkPos { x: 0, z: 0 }],
        mutations: vec![
            mutation(MutationCause::PlayerCreative(77)),
            mutation(MutationCause::Plugin),
        ],
    }
}

fn nothing() -> PendingEdits {
    PendingEdits { dirty_chunks: Vec::new(), mutations: Vec::new() }
}

#[test]
fn the_tick_flush_defers_when_full_and_stops_when_closed() {
    let mut next = 10;
    let mut pending = edits();
    assert!(matches!(
        try_flush_persist_dirty(&mut pending, StorageSlot::Full, 5, &mut next),
        FlushStep::Nothing
    ));
    assert!(pending.has_pending_persistence());
    let closed = try_flush_persist_dirty(&mut pending, StorageSlot::Closed, 5, &mut next);
    assert!(matches!(
        closed,
        FlushStep::Fatal(FatalError::StorageClosed(DurabilityPoint::EndOfTick))
    ));
    assert_eq!(pending.mutations.len(), 2);
    assert_eq!(next, 10);
    let FlushStep::Send(request) =
        try_flush_persist_dirty(&mut pending, StorageSlot::Reserved, 5, &mut next)
    else {
        panic!("a reserved place takes the request");
    };
    assert!(!pending.has_pending_persistence());
    assert_eq!(request.overlays, vec![ChunkPos { x: 0, z: 0 }]);
    assert_eq!(request.records.iter().map(|record| record.id).collect::<Vec<_>>(), vec![10, 11]);
    assert_eq!((request.tick, request.acknowledged, next), (5, false, 12));
    assert!(matches!(
        try_flush_persist_dirty(&mut pending, StorageSlot::Closed, 6, &mut next),
        FlushStep::Nothing
    ));
}

#[test]
fn journal_records_name_actor_and_cause() {
    let record = build_mutation_record(3, 4, &edits().mutations[0]);
    assert_eq!((record.schema, record.id, record.tick), (1, 3, 4));
    assert_eq!(record.actor, MutationActor::Player(77));
    assert_eq!(record.cause, MutationLogCause::PlayerCreative);
    assert_eq!((record.position, record.old_state, record.new_state), (HERE, 0, 1));
    for (cause, logged) in [
        (MutationCause::Plugin, MutationLogCause::Plugin),
        (MutationCause::Test, MutationLogCause::Test),
        (MutationCause::Command, MutationLogCause::Command),
    ] {
        let mutation = PendingMutation { cause, ..edits().mutations[0] };
        let record = build_mutation_record(0, 0, &mutation);
        assert_eq!((record.actor, record.cause), (MutationActor::System, logged));
    }
    let mut next = u64::MAX;
    let request = edits().build_flush_request(0, &mut next).expect("something waits");
    assert_eq!((request.records[1].id, next), (u64::MAX, u64::MAX));
}

#[test]
fn the_release_barrier_keeps_tickets_until_everything_is_durable() {
    let columns = || vec![ChunkPos { x: 0, z: 0 }, ChunkPos { x: 1, z: 0 }];
    let mut next = 0;
    // A closed worker takes nothing and releases nothing.
    let mut pending = edits();
    let (barrier, request) =
        ReleaseBarrier::new().reserved(false, &mut pending, 1, &mut next);
    assert!(request.is_none() && pending.has_pending_persistence());
    assert!(matches!(
        barrier,
        ReleaseBarrier::Failed(FatalError::StorageClosed(DurabilityPoint::ChunkRelease))
    ));
    assert!(barrier.released_columns(columns()).is_empty());
    // Every other answer than a commit keeps the tickets.
    for (ack, released) in [
        (DurabilityAck::Failed, 0),
        (DurabilityAck::Canceled, 0),
        (DurabilityAck::Committed, 2),
    ] {
        let mut pending = edits();
        let (barrier, request) =
            ReleaseBarrier::new().reserved(true, &mut pending, 1, &mut next);
        assert!(request.expect("a request is sent").acknowledged);
        assert!(barrier.released_columns(columns()).is_empty());
        let barrier = barrier.acknowledged(ack);
        assert_eq!(barrier.released_columns(columns()).len(), released, "{ack:?}");
    }
    // A request is sent even where nothing waits.
    let (_, request) = ReleaseBarrier::new().reserved(true, &mut nothing(), 1, &mut next);
    assert!(request.expect("a request is sent").overlays.is_empty());
}

#[test]
fn the_shutdown_flush_reports_a_lost_worker() {
    let mut next = 5;
    assert!(matches!(shutdown_flush(&mut nothing(), false, 1, &mut next), FlushStep::Nothing));
    assert_eq!(next, 5);
    assert!(matches!(
        shutdown_flush(&mut edits(), false, 1, &mut next),
        FlushStep::Fatal(FatalError::StorageClosed(DurabilityPoint::Shutdown))
    ));
    assert_eq!(next, 5);
    let journalled = edits().mutations.len() as u64;
    assert!(matches!(shutdown_flush(&mut edits(), true, 1, &mut next), FlushStep::Send(_)));
    assert_eq!(next, 5 + journalled);
}

#[test]
fn the_driver_turns_to_what_matters_most() {
    assert_eq!(next_wake(true, true, CommandQueue::Waiting), Wake::Shutdown);
    assert_eq!(next_wake(false, true, CommandQueue::Waiting), Wake::Tick);
    assert_eq!(next_wake(false, false, CommandQueue::Waiting), Wake::Command);
    assert_eq!(next_wake(false, false, CommandQueue::Closed), Wake::CommandsClosed);
    assert_eq!(next_wake(false, false, CommandQueue::Empty), Wake::Wait);
    assert!(!announces_shutdown(DriverStage::Tick));
    assert!(announces_shutdown(DriverStage::Flush));
    assert!(announces_shutdown(DriverStage::Command));
    assert!(announces_shutdown(DriverStage::ShutdownFlush));
}

#[test]
fn loaded_chunks_are_sent_or_give_their_ticket_back() {
    let chunk = |x: i32| ChunkPos { x, z: 0 };
    let loaded = load_chunks(
        &vec![chunk(1), chunk(2), chunk(3), chunk(4)],
        &vec![ChunkLoad::Built, ChunkLoad::Unavailable, ChunkLoad::Unencodable, ChunkLoad::Built],
    );
    assert_eq!(loaded.streamed, vec![chunk(1), chunk(4)]);
    assert_eq!(loaded.returned, vec![chunk(3)]);
    let at = |y: i32| BlockPos { x: 0, y, z: 0 };
    assert_eq!(
        chunk_block_entity_packets(&vec![
            (at(1), BlockEntityKind::Sign),
            (at(2), BlockEntityKind::Other),
            (at(3), BlockEntityKind::Sign),
        ]),
        vec![at(1), at(3)]
    );
}

#[test]
fn a_tick_counts_advances_and_tells_the_time_each_second() {
    let mut tick = 0;
    let mut time = WorldTime::new();
    let outputs = vec![
        TickOutput::BlockChanged { air: true },
        TickOutput::BlockChanged { air: false },
        TickOutput::BlockChanged { air: false },
        TickOutput::BlockChangeRejected { air: true },
        TickOutput::BlockChangeRejected { air: false },
        TickOutput::Other,
    ];
    assert_eq!(
        count_mutations(&outputs),
        MutationCounts {
            accepted_breaks: 1,
            accepted_places: 2,
            rejected_breaks: 1,
            rejected_places: 1,
        }
    );
    assert_eq!(
        classify_output(outputs[3]),
        Some((MutationKind::Break, MutationResult::Rejected))
    );
    let mut broadcasts = Vec::new();
    for _ in 0..40 {
        let report = run_tick(&mut tick, &mut time, 3, &outputs, &Vec::new(), None)
            .expect("nothing failed");
        assert_eq!((report.inputs_drained, report.outputs_emitted), (3, 6));
        if report.broadcast.is_some() {
            broadcasts.push(report.tick);
        }
    }
    assert_eq!(broadcasts, vec![20, 40]);
    // Full shards and unknown players are left for later; a lost shard stops the server.
    let mild = vec![SessionError::ShardInboxFull, SessionError::UnknownPlayer];
    assert!(run_tick(&mut tick, &mut time, 0, &outputs, &mild, Some(mild[0])).is_ok());
    let lost = vec![SessionError::ShardInboxFull, SessionError::ShardUnreachable];
    assert_eq!(
        run_tick(&mut tick, &mut time, 0, &outputs, &lost, None),
        Err(FatalError::TeardownUnreachable(SessionError::ShardUnreachable))
    );
    assert_eq!(
        run_tick(&mut tick, &mut time, 0, &outputs, &mild, Some(SessionError::ShardUnreachable)),
        Err(FatalError::RetryUnreachable(SessionError::ShardUnreachable))
    );
    assert_eq!((tick, time.world_age), (41, 41), "a failed tick does not count");
}

#[test]
fn the_effective_rate_counts_the_last_second() {
    let mut window = TpsWindow::new();
    for n in 0..20u64 {
        assert_eq!(window.record_tps(n * 50_000_000), n as usize + 1);
    }
    // Exactly one second old still counts; more does not.
    assert_eq!(window.record_tps(1_000_000_000), 21);
    assert_eq!(window.record_tps(1_050_000_000), 21);
    assert_eq!(window.record_tps(10_000_000_000), 1);
    for n in 0..300u64 {
        window.record_tps(10_000_000_000 + n);
    }
    assert_eq!(window.times.len(), TPS_WINDOW_CAP);
}

#[test]
fn snapshots_show_each_player() {
    let roster = roster_of(&[(2, "b"), (1, "a")]);
    let counters = NetCounters {
        outbound_queue_len: 1,
        network_in_bytes: 2,
        network_out_bytes: 3,
        frames_decoded: 4,
        frames_encoded: 5,
        packets_dropped_total: 6,
    };
    let facts = vec![
        PlayerFacts {
            simulated: Some(vec3(-0.5, 70.0, 33.0)),
            routed: Some(spawn()),
            mode: Some(GameMode::Spectator),
            counters: Some(counters),
        },
        PlayerFacts { simulated: None, routed: None, mode: None, counters: None },
    ];
    let parts = publish_snapshot(&roster, &facts, 60, 1200, 20, 25, true);
    assert_eq!((parts.uptime_secs, parts.tick, parts.tps), (60, 1200, 20));
    assert_eq!((parts.players_online, parts.chunks_loaded), (2, 25));
    assert_eq!((parts.chunks_dirty, parts.chunks_persist_dirty), (0, 1));
    let first = &parts.players[0];
    assert_eq!((first.player, first.name.as_str()), (1, "a"));
    assert_eq!((first.chunk, first.gamemode.as_str()), (ChunkPos { x: -1, z: 2 }, "spectator"));
    assert_eq!(first.counters, counters);
    let second = &parts.players[1];
    assert_eq!((second.position, second.gamemode.as_str()), (vec3(0.0, 0.0, 0.0), "survival"));
    assert_eq!(second.counters.frames_decoded, 0);
    assert_eq!(gamemode_label(GameMode::Creative), "creative");
    assert_eq!(gamemode_label(GameMode::Adventure), "adventure");
}
