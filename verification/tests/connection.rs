//! A connection: login, play frames, chat, queueing and block edits.

use ferrumc_app::block_edit::{
    continue_use_item_on, handle_block_break, handle_update_sign, handle_use_item_on,
    route_emitted_intents, EditAction, IntentBatch, IntentRoute, PluginEventDecision,
    ResolvedDecision, UseItem, UseItemReply, UseItemStage, WorldIntent,
};
use ferrumc_app::chat::{accept_line, chat_line, handle_chat, ChatAction};
use ferrumc_app::chunk_stream::{ChunkStream, PositionSync};
use ferrumc_app::command::GameMode;
use ferrumc_app::ieee754::{Double, Single};
use ferrumc_app::inventory::{ItemStack, PlayerInventory, SLOT_COUNT};
use ferrumc_app::join::{send_join_kit, JoinPacket, JoinStep};
use ferrumc_app::login::{
    after_access_check, advance, build_status_response, enabled_threshold, granted_identity,
    is_ignorable_unknown_packet, run_login, status_fits, ConnectionState, FrameError,
    LoginFrame, LoginIdentity, LoginPacket, LoginPhase, LoginProgress, LoginReply, LoginState,
    LoginStep, LoginTurn,
};
use ferrumc_app::math::{BlockPos, ChunkPos, Rotation, Vec3};
use ferrumc_app::movement::{
    interact_hand, reported_position, validated_movement, InteractHand, MovementObservation,
    MovementPacket, MovementValidation,
};
use ferrumc_app::observe::{
    clientbound_play_name, decode_error_label, play_decode_error, trace_inbound_login,
    trace_inbound_play, trace_outbound, trace_outbound_play, ClientboundPlayPacket, InboundPacket,
    OutboundPacket, PacketState, ProtoError, ServerboundPlayPacket,
};
use ferrumc_app::outbound::{
    ack_sequence, is_mandatory_overflow, observe_queue_len, send_mandatory, Counted, Criticality,
    EnqueueOutcome, OutboundOverflow, OutboundPriority, OutboundTally, PacketTally, WriterMetrics,
};
use ferrumc_app::play::{
    enter_play, judge_read, leave_steps, mirror_outbound, next_keep_alive, next_session_wake,
    prepare_leave, pump_serverbound, resolve_join, session_survives, EntryStep, EntryTurn,
    JoinRefusal, LeaveStep, OutboundMessage, PlayFrame, PlayerLoad, PumpTurn, ReadOutcome,
    ReadTurn, SessionDue, SessionWake,
};
use ferrumc_app::play_body::{
    decode_play_body, handle_play_body, play_packet_id, DecodeError, DisconnectClass, ItemOutcome,
    PlayBodyDecode, PlayPacket, PlayRoute, ProtoOutcome,
};
use ferrumc_app::rate_limiter::{ChatRateLimiter, CHAT_BURST, CHAT_TICKS_PER_TOKEN};
use ferrumc_app::serverbound_budget::{DisconnectReason, ServerboundBudget};
use ferrumc_app::session_command::{handle_command, CommandAction, DispatchOutcome};
use ferrumc_app::sim_command::{Direction, SimCommand};
use ferrumc_app::window::WindowState;

fn double(value: f64) -> Double {
    Double { bits: value.to_bits() }
}

fn single(value: f32) -> Single {
    Single { bits: value.to_bits() }
}

fn vec3(x: f64, y: f64, z: f64) -> Vec3 {
    Vec3 { x: double(x), y: double(y), z: double(z) }
}

fn look(yaw: f32, pitch: f32) -> Rotation {
    Rotation { yaw: single(yaw), pitch: single(pitch) }
}

const HERE: BlockPos = BlockPos { x: 8, y: 63, z: 8 };

fn burst_then_throttle() {
    let mut limiter = ChatRateLimiter::new(0);
    // The full burst is allowed within a single tick.
    for _ in 0..CHAT_BURST {
        assert!(limiter.try_consume(0), "burst line within budget");
    }
    // The next line at the same tick is over budget and dropped.
    assert!(!limiter.try_consume(0), "over-budget line throttled");
    // One refill interval later, exactly one more line is allowed.
    assert!(limiter.try_consume(CHAT_TICKS_PER_TOKEN));
    assert!(!limiter.try_consume(CHAT_TICKS_PER_TOKEN));
}

fn refill_is_capped() {
    let mut limiter = ChatRateLimiter::new(0);
    // Spend the whole burst.
    for _ in 0..CHAT_BURST {
        assert!(limiter.try_consume(0));
    }
    // A long idle gap refills at most CHAT_BURST tokens, never more.
    let far = CHAT_TICKS_PER_TOKEN * u64::from(CHAT_BURST) * 100;
    for _ in 0..CHAT_BURST {
        assert!(limiter.try_consume(far), "refilled up to the burst cap");
    }
    assert!(!limiter.try_consume(far), "cannot exceed the burst cap");
}

#[test]
fn rate_limiter_chat_rate_limiter_allows_a_burst_then_throttles_until_refill() {
    burst_then_throttle();
}

#[test]
fn connection_chat_rate_limiter_allows_a_burst_then_throttles_until_refill() {
    burst_then_throttle();
}

#[test]
fn rate_limiter_chat_rate_limiter_refill_is_capped_at_the_burst() {
    refill_is_capped();
}

#[test]
fn connection_chat_rate_limiter_refill_is_capped_at_the_burst() {
    refill_is_capped();
}

#[test]
fn partial_progress_toward_a_token_is_kept() {
    let mut limiter = ChatRateLimiter::new(0);
    for _ in 0..CHAT_BURST {
        assert!(limiter.try_consume(0));
    }
    assert!(!limiter.try_consume(9));
    assert!(limiter.try_consume(19));
    assert!(limiter.try_consume(20), "nine ticks of the first call were not lost");
    // A clock that goes back refills nothing.
    assert!(!limiter.try_consume(3));
}

fn drops_escalate_by_criticality() {
    let dropped = EnqueueOutcome::Dropped { priority: OutboundPriority::State };
    let enqueued = EnqueueOutcome::Enqueued { depth: 1 };

    // A dropped mandatory frame is an outbound overflow; a dropped droppable
    // frame is tolerated, and a successfully enqueued frame never escalates.
    assert!(is_mandatory_overflow(Criticality::Mandatory, dropped));
    assert!(!is_mandatory_overflow(Criticality::Droppable, dropped));
    assert!(!is_mandatory_overflow(Criticality::Mandatory, enqueued));
    assert!(!is_mandatory_overflow(Criticality::Droppable, enqueued));
}

#[test]
fn outbound_mandatory_layer_b_drop_escalates_droppable_does_not() {
    drops_escalate_by_criticality();
}

#[test]
fn connection_mandatory_layer_b_drop_escalates_droppable_does_not() {
    drops_escalate_by_criticality();
}

#[test]
fn mandatory_packets_end_the_session_when_dropped() {
    let dropped = EnqueueOutcome::Dropped { priority: OutboundPriority::State };
    let error = send_mandatory(Criticality::Mandatory, dropped).expect_err("an overflow");
    assert!(error.message().contains("mandatory clientbound packet"));
    assert_eq!(ack_sequence(dropped), Err(OutboundOverflow));
    assert_eq!(ack_sequence(EnqueueOutcome::Enqueued { depth: 3 }), Ok(()));
    assert_eq!(send_mandatory(Criticality::Droppable, dropped), Ok(()));
    assert!(!session_survives(Criticality::Mandatory, dropped));
    assert!(session_survives(Criticality::Droppable, dropped));
}

#[test]
fn only_queued_packets_are_traced_and_counted() {
    let mut tally = OutboundTally { traced: 0, chunks_sent: 0, chunks_unloaded: u64::MAX };
    let queued = EnqueueOutcome::Enqueued { depth: 1 };
    let dropped = EnqueueOutcome::Dropped { priority: OutboundPriority::World };
    tally.enqueue_traced(Counted::ChunkSent, queued);
    tally.enqueue_traced(Counted::ChunkSent, dropped);
    tally.enqueue_traced(Counted::ChunkUnloaded, queued);
    tally.enqueue_traced(Counted::Uncounted, queued);
    assert_eq!(
        tally,
        OutboundTally { traced: 3, chunks_sent: 1, chunks_unloaded: u64::MAX }
    );
}

#[test]
fn telemetry_lists_drops_by_queue() {
    let metrics = WriterMetrics {
        frames_encoded: 5,
        bytes_out: 600,
        dropped_control: 1,
        dropped_state: 2,
        dropped_world: 3,
        dropped_bulk: 4,
    };
    let tally = |name: &str, count: u64| PacketTally { name: name.to_string(), count };
    let telemetry = observe_queue_len(
        "Saad",
        7,
        80,
        metrics,
        9,
        10,
        vec![tally("keep_alive", 3)],
        vec![tally("block_update", 2), tally("keep_alive", 1)],
    );
    assert_eq!(telemetry.inbound, vec![tally("keep_alive", 3)]);
    assert_eq!(telemetry.outbound, vec![tally("block_update", 2), tally("keep_alive", 1)]);
    assert_eq!(telemetry.session, "Saad");
    assert_eq!((telemetry.frames_in, telemetry.bytes_in), (7, 80));
    assert_eq!((telemetry.frames_out, telemetry.bytes_out), (5, 600));
    assert_eq!((telemetry.over_budget, telemetry.queue_depth), (9, 10));
    assert_eq!(telemetry.dropped, vec![1, 2, 3, 4]);
}

#[test]
fn strict_body_decode_preserves_disconnect_classes_and_compatibility() {
    let no_item = ItemOutcome::Malformed;
    let class = |error: DecodeError| error.disconnect_class();
    assert_eq!(
        class(play_packet_id(&[]).expect_err("an empty body has no packet number")),
        DisconnectClass::MalformedPacket,
    );

    // Two bytes behind a keep-alive.
    let trailing = ProtoOutcome::Decoded { packet: PlayPacket::KeepAlive, remaining: 2 };
    assert_eq!(
        class(decode_play_body(0x1b, trailing, no_item).expect_err("trailing bytes")),
        DisconnectClass::ProtocolViolation,
    );

    let (invalid_id, _) = play_packet_id(&[0x77]).expect("a packet number");
    assert_eq!(
        class(decode_play_body(invalid_id, ProtoOutcome::UnknownId, no_item).expect_err("no packet")),
        DisconnectClass::ProtocolViolation,
    );

    // A creative slot with two bytes behind its item.
    let creative = ProtoOutcome::Decoded { packet: PlayPacket::SetCreativeSlot, remaining: 0 };
    let nested = ItemOutcome::Decoded {
        validated: Some(ItemStack::new(1, 1, 0, 64)),
        remaining: 2,
    };
    assert_eq!(
        class(decode_play_body(0x37, creative, nested).expect_err("trailing bytes")),
        DisconnectClass::ProtocolViolation,
    );

    let (tick_end, _) = play_packet_id(&[0x0c]).expect("a packet number");
    assert_eq!(
        decode_play_body(tick_end, ProtoOutcome::UnknownId, no_item),
        Ok(PlayBodyDecode::Unmodelled { id: 0x0c })
    );
}

#[test]
fn a_creative_slot_needs_a_whole_valid_item() {
    let creative = ProtoOutcome::Decoded { packet: PlayPacket::SetCreativeSlot, remaining: 0 };
    assert_eq!(
        decode_play_body(0x37, creative, ItemOutcome::Malformed),
        Err(DecodeError::MalformedBody)
    );
    assert_eq!(
        decode_play_body(0x37, creative, ItemOutcome::Decoded { validated: None, remaining: 0 }),
        Err(DecodeError::MalformedBody)
    );
    let stack = ItemStack::new(1, 1, 0, 64);
    let decoded = decode_play_body(
        0x37,
        creative,
        ItemOutcome::Decoded { validated: Some(stack), remaining: 0 },
    );
    assert_eq!(handle_play_body(decoded), PlayRoute::CreativeSlot { stack });
    assert_eq!(
        decode_play_body(0x42, ProtoOutcome::UnknownId, ItemOutcome::Malformed),
        Err(DecodeError::UnknownPacket { id: 0x42 })
    );
    assert_eq!(
        decode_play_body(0x1b, ProtoOutcome::Malformed, ItemOutcome::Malformed),
        Err(DecodeError::MalformedBody)
    );
}

#[test]
fn every_packet_has_its_route() {
    let route = |packet: PlayPacket| {
        handle_play_body(Ok(PlayBodyDecode::Modelled { packet, creative_item: None }))
    };
    assert_eq!(route(PlayPacket::ChatCommand), PlayRoute::Command);
    assert_eq!(route(PlayPacket::ChatMessage), PlayRoute::Chat);
    assert_eq!(route(PlayPacket::TabCompleteRequest), PlayRoute::TabComplete);
    assert_eq!(route(PlayPacket::UseItemOn), PlayRoute::UseItemOn);
    assert_eq!(route(PlayPacket::UpdateSign), PlayRoute::UpdateSign);
    assert_eq!(route(PlayPacket::SetCreativeSlot), PlayRoute::MissingItem);
    assert_eq!(route(PlayPacket::SetHeldItem), PlayRoute::HeldItem);
    assert_eq!(route(PlayPacket::WindowClick), PlayRoute::WindowClick);
    assert_eq!(route(PlayPacket::CloseContainer), PlayRoute::CloseContainer);
    assert_eq!(route(PlayPacket::ConfirmTeleportation), PlayRoute::Accept);
    assert_eq!(route(PlayPacket::KeepAlive), PlayRoute::Accept);
    assert_eq!(route(PlayPacket::Other), PlayRoute::Forward);
    assert_eq!(
        route(PlayPacket::BlockBreak { position: HERE, sequence: 4 }),
        PlayRoute::BlockBreak { position: HERE, sequence: 4 }
    );
    let unsafe_move = MovementPacket::PositionAndRotation(
        vec3(30_000_001.0, 64.0, 8.5),
        look(120.0, 30.0),
    );
    assert_eq!(route(PlayPacket::Movement(unsafe_move)), PlayRoute::DropMovement);
    assert_eq!(
        handle_play_body(Ok(PlayBodyDecode::Unmodelled { id: 12 })),
        PlayRoute::IgnoreUnmodelled { id: 12 }
    );
    assert_eq!(
        handle_play_body(Err(DecodeError::MalformedBody)),
        PlayRoute::Fatal(DecodeError::MalformedBody)
    );
}

#[test]
fn movement_validation_preserves_packet_component_shape() {
    // A turn-in-place updates the yaw the placement path reads, so rotating then
    // placing orients stairs/furnaces correctly. This locks in that the
    // rotation-only packet feeds the place yaw.
    let turn = MovementPacket::Rotation(look(90.0, -10.0));
    assert_eq!(
        validated_movement(turn),
        MovementValidation::Valid(MovementObservation {
            position: None,
            yaw: Some(single(90.0)),
            pitch: Some(single(-10.0)),
        })
    );
    assert_eq!(reported_position(turn), None);

    // A position-only move carries no yaw, so it must leave the mirrored yaw
    // untouched (None), not reset it to 0.
    let strafe = MovementPacket::Position(vec3(1.0, 2.0, 3.0));
    assert_eq!(
        validated_movement(strafe),
        MovementValidation::Valid(MovementObservation {
            position: Some(vec3(1.0, 2.0, 3.0)),
            yaw: None,
            pitch: None,
        })
    );
    assert_eq!(reported_position(strafe), Some(vec3(1.0, 2.0, 3.0)));
    assert_eq!(validated_movement(MovementPacket::Other), MovementValidation::NotMovement);
}

#[test]
fn invalid_movement_components_are_rejected_before_observation() {
    for (label, coordinate) in [
        ("NaN", f64::NAN),
        ("positive infinity", f64::INFINITY),
        ("negative infinity", f64::NEG_INFINITY),
        ("above the positive boundary", 30_000_001.0),
        ("below the negative boundary", -30_000_001.0),
    ] {
        let packet = MovementPacket::Position(vec3(coordinate, 64.0, 8.0));
        assert_eq!(
            validated_movement(packet),
            MovementValidation::Invalid,
            "{label} reached the connection's stateful movement path"
        );
    }

    for coordinate in [-30_000_000.0, 30_000_000.0] {
        let packet = MovementPacket::Position(vec3(coordinate, 64.0, 8.0));
        assert_eq!(
            validated_movement(packet),
            MovementValidation::Valid(MovementObservation {
                position: Some(vec3(coordinate, 64.0, 8.0)),
                yaw: None,
                pitch: None,
            }),
            "the inclusive simulation boundary must stay accepted",
        );
    }

    let invalid_yaw = MovementPacket::Rotation(look(f32::NAN, 0.0));
    assert_eq!(
        validated_movement(invalid_yaw),
        MovementValidation::Invalid,
        "a non-finite yaw must not enter the persistence mirror"
    );

    let invalid_pitch =
        MovementPacket::PositionAndRotation(vec3(8.0, 64.0, 8.0), look(0.0, f32::NEG_INFINITY));
    assert_eq!(
        validated_movement(invalid_pitch),
        MovementValidation::Invalid,
        "a non-finite pitch must not enter the persistence mirror"
    );

    let valid_position_invalid_look =
        MovementPacket::PositionAndRotation(vec3(8.0, 64.0, 8.0), look(f32::INFINITY, 15.0));
    assert_eq!(
        validated_movement(valid_position_invalid_look),
        MovementValidation::Invalid,
        "a combined packet is rejected atomically instead of applying its position"
    );

    let invalid_position_valid_look =
        MovementPacket::PositionAndRotation(vec3(30_000_001.0, 64.0, 8.0), look(90.0, 15.0));
    assert_eq!(
        validated_movement(invalid_position_valid_look),
        MovementValidation::Invalid,
        "a combined packet is rejected atomically instead of applying its look"
    );

    let wrapped_finite_look = MovementPacket::Rotation(look(100_000.0, -100_000.0));
    assert_eq!(
        validated_movement(wrapped_finite_look),
        MovementValidation::Valid(MovementObservation {
            position: None,
            yaw: Some(single(100_000.0)),
            pitch: Some(single(-100_000.0)),
        }),
        "finite angles remain protocol-valid and may wrap"
    );
}

#[test]
fn malformed_hands_are_off_hands() {
    assert_eq!(interact_hand(0), InteractHand::Main);
    assert_eq!(interact_hand(1), InteractHand::Off);
    assert_eq!(interact_hand(-7), InteractHand::Off);
}

#[test]
fn login_identity_is_derived_once() {
    let player = 0x1234_5678_u128;
    let identity = LoginIdentity::offline("IdentityProbe".to_string(), player);
    assert_eq!(identity.player, player);
    assert_eq!(identity.uuid(), identity.player);
    assert_eq!(identity.name.as_str(), "IdentityProbe");
}

#[test]
fn a_whole_login_reaches_play() {
    let mut phase = LoginPhase::Handshaking;
    for packet in [
        LoginPacket::Handshake { next_state: 2 },
        LoginPacket::LoginStart,
        LoginPacket::LoginAcknowledged,
        LoginPacket::ClientInformation,
        LoginPacket::KnownPacks,
        LoginPacket::ClientInformation,
    ] {
        let step = advance(phase, packet);
        phase = step.next_phase(phase).expect("the login goes on");
    }
    assert_eq!(phase, LoginPhase::AwaitingFinishAck);
    assert_eq!(advance(phase, LoginPacket::AckFinishConfiguration), LoginStep::Play);
    assert_eq!(phase.connection_state(), ConnectionState::Configuration);
}

#[test]
fn an_accepted_login_start_alone_establishes_the_identity() {
    let identity = || LoginIdentity::offline("IdentityProbe".to_string(), 7);
    let mut state = LoginState::new();
    let handshake = LoginPacket::Handshake { next_state: 2 };
    // An identity that comes with another packet is not taken.
    assert_eq!(state.settle(handshake, Some(identity())), LoginProgress::Continue);
    assert_eq!(state, LoginState { phase: LoginPhase::Login, identity: None });

    // A denied login closes and leaves the state.
    let denied = granted_identity(identity(), true);
    assert_eq!(denied, None);
    assert_eq!(state.settle(LoginPacket::LoginStart, denied), LoginProgress::Close);
    assert_eq!(state, LoginState { phase: LoginPhase::Login, identity: None });

    let granted = granted_identity(identity(), false);
    assert_eq!(state.settle(LoginPacket::LoginStart, granted), LoginProgress::Continue);
    assert_eq!(
        state,
        LoginState { phase: LoginPhase::AwaitingLoginAck, identity: Some(identity()) }
    );
    assert_eq!(state.settle(LoginPacket::LoginStart, None), LoginProgress::Unexpected);
    assert_eq!(state.settle(LoginPacket::LoginAcknowledged, None), LoginProgress::Continue);
    assert_eq!(state.settle(LoginPacket::ClientInformation, None), LoginProgress::Continue);
    assert_eq!(state.settle(LoginPacket::KnownPacks, None), LoginProgress::Continue);
    assert_eq!(state.settle(LoginPacket::AckFinishConfiguration, None), LoginProgress::Play);
    assert_eq!(state.identity, Some(identity()));

    let mut status = LoginState::new();
    let handshake = LoginPacket::Handshake { next_state: 1 };
    assert_eq!(status.settle(handshake, None), LoginProgress::Continue);
    assert_eq!(status.settle(LoginPacket::StatusRequest, None), LoginProgress::Continue);
    let ping = LoginPacket::PingRequest { payload: 1 };
    assert_eq!(status.settle(ping, None), LoginProgress::Close);
    assert_eq!(status.identity, None);
}

#[test]
fn the_status_branch_answers_and_closes() {
    let step = advance(LoginPhase::Handshaking, LoginPacket::Handshake { next_state: 1 });
    assert_eq!(step, LoginStep::Continue(LoginPhase::Status));
    assert_eq!(advance(LoginPhase::Status, LoginPacket::StatusRequest), LoginStep::SendStatus);
    let pong = advance(LoginPhase::Status, LoginPacket::PingRequest { payload: 77 });
    assert_eq!(pong, LoginStep::SendPong { payload: 77 });
    assert_eq!(pong.next_phase(LoginPhase::Status), None);
    assert_eq!(
        advance(LoginPhase::Handshaking, LoginPacket::Handshake { next_state: 3 }),
        LoginStep::Close
    );
    assert_eq!(advance(LoginPhase::Status, LoginPacket::LoginStart), LoginStep::Unexpected);
    let status = build_status_response(20);
    assert_eq!((status.version.as_str(), status.protocol), ("FerrumC 1.21.8", 772));
    assert_eq!((status.max_players, status.online, status.motd.as_str()), (20, 0, "FerrumC"));
    assert!(status_fits(&"x".repeat(32_767)));
    assert!(!status_fits(&"x".repeat(32_768)));
}

#[test]
fn access_and_compression_shape_the_login_reply() {
    assert_eq!(
        after_access_check(true, Some(256)),
        (None, vec![LoginReply::Disconnect])
    );
    assert_eq!(
        after_access_check(false, Some(256)),
        (
            Some(LoginPhase::AwaitingLoginAck),
            vec![LoginReply::SetCompression { threshold: 256 }, LoginReply::LoginSuccess]
        )
    );
    assert_eq!(
        after_access_check(false, None),
        (Some(LoginPhase::AwaitingLoginAck), vec![LoginReply::LoginSuccess])
    );
    assert_eq!(enabled_threshold(Some(-1)), None);
    assert_eq!(enabled_threshold(Some(0)), Some(0));
}

#[test]
fn unknown_packets_pass_in_login_and_configuration_only() {
    for (phase, skipped) in [
        (LoginPhase::Handshaking, false),
        (LoginPhase::Status, false),
        (LoginPhase::Login, true),
        (LoginPhase::AwaitingKnownPacks, true),
    ] {
        let turn = run_login(phase, LoginFrame::Error(FrameError::UnknownPacket));
        assert_eq!(turn == LoginTurn::SkipFrame, skipped, "{phase:?}");
        assert_eq!(
            run_login(phase, LoginFrame::Error(FrameError::MalformedBody)),
            LoginTurn::Fatal(FrameError::MalformedBody)
        );
    }
    assert!(!is_ignorable_unknown_packet(ConnectionState::Play, FrameError::UnknownPacket));
    assert_eq!(run_login(LoginPhase::Login, LoginFrame::Incomplete), LoginTurn::ReadMore);
    assert_eq!(
        run_login(LoginPhase::Login, LoginFrame::Packet(LoginPacket::LoginStart)),
        LoginTurn::Advance(LoginStep::CheckAccess)
    );
}

#[test]
fn chat_is_paced_judged_and_stripped() {
    let mut limiter = ChatRateLimiter::new(5);
    assert!(accept_line(&mut limiter, 5));
    assert_eq!(
        handle_chat(PluginEventDecision::Deny),
        vec![ChatAction::DenyMessage, ChatAction::RouteIntents]
    );
    assert_eq!(
        handle_chat(PluginEventDecision::Allow),
        vec![ChatAction::RouteIntents, ChatAction::Relay]
    );
    assert_eq!(chat_line("Saad", "hi \u{a7}kthere\u{a7}"), "<Saad> hi kthere");
    assert_eq!(chat_line("Saad", ""), "<Saad> ");
}

#[test]
fn breaks_are_healed_replaced_or_routed() {
    let heal = EditAction::Heal { position: HERE, sequence: 5, requested_state: 0 };
    let route = EditAction::RouteIntents(IntentBatch::Edit);
    let after = EditAction::RouteIntents(IntentBatch::AfterEdit);
    assert_eq!(
        handle_block_break(ResolvedDecision::Deny, HERE, 5),
        vec![heal, EditAction::DenyMessage, route]
    );
    assert_eq!(
        handle_block_break(ResolvedDecision::Replace { block_state_id: u32::MAX }, HERE, 5),
        vec![heal, route]
    );
    assert_eq!(
        handle_block_break(ResolvedDecision::Replace { block_state_id: 9 }, HERE, 5),
        vec![
            EditAction::WriteExact { position: HERE, sequence: 5, state: 9 },
            route,
            EditAction::NotifyBreak { position: HERE },
            after,
        ]
    );
    assert_eq!(
        handle_block_break(ResolvedDecision::Allow, HERE, 5)[0],
        EditAction::Break { position: HERE, sequence: 5 }
    );
}

fn use_item(held_state: Option<u32>) -> UseItem {
    UseItem {
        sequence: 6,
        target: Some(BlockPos { x: 8, y: 64, z: 8 }),
        clicked: HERE,
        face: Direction::Up,
        cursor: vec3(0.5, 1.0, 0.5),
        yaw: single(90.0),
        hand: InteractHand::Main,
        held_state,
    }
}

#[test]
fn a_placement_asks_in_turn_and_tells_its_final_state() {
    let item = use_item(Some(1));
    let target = BlockPos { x: 8, y: 64, z: 8 };
    let (stage, actions) = handle_use_item_on(item);
    assert_eq!(
        actions,
        vec![EditAction::AskInteract {
            hand: InteractHand::Main,
            position: target,
            face: Direction::Up
        }]
    );
    let (stage, actions) =
        continue_use_item_on(item, stage, UseItemReply::Interact(PluginEventDecision::Allow));
    assert_eq!(
        actions,
        vec![
            EditAction::RouteIntents(IntentBatch::Interact),
            EditAction::AskContainer { position: HERE }
        ]
    );
    let (stage, actions) = continue_use_item_on(item, stage, UseItemReply::Container(false));
    assert_eq!(actions, vec![EditAction::AskPlace { position: target, state: 1 }]);
    let (stage, actions) =
        continue_use_item_on(item, stage, UseItemReply::Place(ResolvedDecision::Allow));
    assert_eq!(
        actions,
        vec![EditAction::Place {
            position: target,
            sequence: 6,
            state: 1,
            face: Direction::Up,
            cursor: vec3(0.5, 1.0, 0.5),
            yaw: single(90.0),
        }]
    );
    let (stage, actions) = continue_use_item_on(item, stage, UseItemReply::Placed(137));
    assert_eq!(stage, UseItemStage::Done);
    assert_eq!(
        actions,
        vec![
            EditAction::RouteIntents(IntentBatch::Edit),
            EditAction::NotifyPlace { position: target, state: 137 },
            EditAction::RouteIntents(IntentBatch::AfterEdit),
        ]
    );
}

#[test]
fn refused_uses_end_the_prediction() {
    let target = BlockPos { x: 8, y: 64, z: 8 };
    let ack = EditAction::Ack { sequence: 6 };
    let heal = EditAction::Heal { position: target, sequence: 6, requested_state: 1 };
    let aimless = UseItem { target: None, ..use_item(Some(1)) };
    assert_eq!(handle_use_item_on(aimless), (UseItemStage::Done, vec![ack]));
    let interacting = UseItemStage::Interacting { target };
    let deny = UseItemReply::Interact(PluginEventDecision::Deny);
    assert_eq!(continue_use_item_on(use_item(Some(1)), interacting, deny).1[0], heal);
    assert_eq!(continue_use_item_on(use_item(None), interacting, deny).1[0], ack);
    let opening = UseItemStage::Opening { target };
    assert_eq!(
        continue_use_item_on(use_item(None), opening, UseItemReply::Container(false)),
        (UseItemStage::Done, vec![ack])
    );
    assert_eq!(
        continue_use_item_on(use_item(Some(1)), opening, UseItemReply::Container(true)),
        (UseItemStage::Done, vec![ack, EditAction::OpenWindow { position: HERE }])
    );
    let deciding = UseItemStage::Deciding { target, held: 1 };
    for decision in [
        ResolvedDecision::Deny,
        ResolvedDecision::Replace { block_state_id: 0x8000_0000 },
    ] {
        let (stage, actions) =
            continue_use_item_on(use_item(Some(1)), deciding, UseItemReply::Place(decision));
        assert_eq!((stage, actions[0]), (UseItemStage::Done, heal));
    }
    let (_, actions) = continue_use_item_on(
        use_item(Some(1)),
        deciding,
        UseItemReply::Place(ResolvedDecision::Replace { block_state_id: 7 }),
    );
    assert_eq!(actions[2], EditAction::NotifyPlace { position: target, state: 7 });
}

#[test]
fn intents_are_routed_in_order_and_unsafe_ones_dropped() {
    let routes = route_emitted_intents(
        1,
        9,
        vec![
            WorldIntent::SetBlock { position: HERE, block_state_id: 4 },
            WorldIntent::SetBlock { position: HERE, block_state_id: u32::MAX },
            WorldIntent::Message { player: 1, message: "own".to_string() },
            WorldIntent::Message { player: 2, message: "other".to_string() },
            WorldIntent::Teleport { player: 2, position: vec3(30_000_001.0, 64.0, 8.0) },
            WorldIntent::Teleport { player: 2, position: vec3(20.0, 70.0, -5.0) },
            WorldIntent::Other,
        ],
    );
    assert_eq!(routes.len(), 4);
    assert!(matches!(
        routes[0],
        IntentRoute::WriteExact { player: 1, sequence: 9, state: 4, position } if position == HERE
    ));
    assert!(matches!(&routes[1], IntentRoute::OwnMessage { message } if message == "own"));
    assert!(matches!(
        &routes[2],
        IntentRoute::Message { player: 2, message } if message == "other"
    ));
    assert!(matches!(
        routes[3],
        IntentRoute::Teleport { player: 2, position } if position == vec3(20.0, 70.0, -5.0)
    ));
}

#[test]
fn sign_updates_go_to_the_driver() {
    let line = |text: &str| text.to_string();
    let command =
        handle_update_sign(3, HERE, true, line("a"), line("b"), line(""), line("d"));
    let SimCommand::UpdateSign { player, position, is_front, lines, acceptance } = command else {
        panic!("a sign update");
    };
    assert_eq!((player, position, is_front, acceptance), (3, HERE, true, None));
    assert_eq!(lines, vec!["a", "b", "", "d"]);
}

#[test]
fn commands_are_admitted_before_success_is_shown() {
    let spawn = vec3(8.0, 64.0, 8.0);
    let sync = PositionSync { position: spawn, rotation: look(1.0, 2.0), flags: 0 };
    let success = DispatchOutcome::Success { has_feedback: true };
    let run = |outcome: DispatchOutcome, command: &str, commands: Vec<SimCommand>| {
        handle_command(outcome, command, &commands, spawn, look(1.0, 2.0))
    };
    assert_eq!(
        run(success, "spawn", Vec::new()),
        vec![
            CommandAction::AdmitSpawnMove { position: spawn },
            CommandAction::MirrorTeleport(sync),
            CommandAction::SendTeleport(sync),
            CommandAction::Feedback,
            CommandAction::PresentationPackets,
            CommandAction::ScoreboardPackets,
        ]
    );
    assert_eq!(
        run(success, "gamemode 2", Vec::new())[..3],
        [
            CommandAction::AdmitGameMode(GameMode::Adventure),
            CommandAction::SendGameMode { reason: 3, value: 2 },
            CommandAction::MirrorGameMode(GameMode::Adventure),
        ]
    );
    assert_eq!(
        run(
            DispatchOutcome::Success { has_feedback: false },
            "time set day",
            vec![
                SimCommand::SetTime { time_of_day: 1_000 },
                SimCommand::RegionUndo { player: 1, acceptance: None },
            ],
        ),
        vec![
            CommandAction::SendDriverCommand(0),
            CommandAction::AdmitDriverCommand(1),
            CommandAction::PresentationPackets,
            CommandAction::ScoreboardPackets,
        ]
    );
    assert_eq!(run(DispatchOutcome::Error, "x", Vec::new()), vec![CommandAction::ErrorLine]);
    assert_eq!(
        run(DispatchOutcome::Failure { has_feedback: true }, "x", Vec::new()),
        vec![CommandAction::Feedback]
    );
    assert!(run(DispatchOutcome::Failure { has_feedback: false }, "x", Vec::new()).is_empty());
}

#[test]
fn joins_restore_recover_or_refuse() {
    let spawn = vec3(8.0, 64.0, 8.0);
    let nowhere = vec3(f64::NAN, 64.0, 8.0);
    let saved = |position: Vec3| PlayerLoad::Restored {
        position,
        look: look(3.0, 4.0),
        mode: GameMode::Survival,
    };
    let state = resolve_join(saved(vec3(1.0, 2.0, 3.0)), spawn).expect("a safe return");
    assert_eq!(state.position, vec3(1.0, 2.0, 3.0));
    assert_eq!((state.look, state.mode, state.is_returning), (look(3.0, 4.0), GameMode::Survival, true));
    let state = resolve_join(saved(nowhere), spawn).expect("a recovery at spawn");
    assert_eq!((state.position, state.look), (spawn, look(3.0, 4.0)));
    assert_eq!(resolve_join(saved(nowhere), nowhere), Err(JoinRefusal::UnsafeRecovery));
    let state = resolve_join(PlayerLoad::NotFound, spawn).expect("a new player");
    assert_eq!((state.look, state.mode, state.is_returning), (look(0.0, 0.0), GameMode::Creative, false));
    assert_eq!(resolve_join(PlayerLoad::NotFound, nowhere), Err(JoinRefusal::UnsafeSpawn));
    assert_eq!(resolve_join(PlayerLoad::Unreadable, spawn), Err(JoinRefusal::UnreadableState));
}

#[test]
fn the_join_kit_places_the_player_before_the_chunks() {
    let kit: Vec<Option<i32>> = vec![Some(1); 9];
    let mut inventory = PlayerInventory::with_creative_kit(GameMode::Survival, &kit);
    assert!(inventory.set_selected(4));
    let spawn = vec3(8.0, 64.0, 8.0);
    let steps = |returning: bool| {
        send_join_kit(
            ChunkPos { x: 0, z: 0 },
            HERE,
            2,
            spawn,
            look(5.0, 6.0),
            returning,
            &inventory,
        )
    };
    let fresh = steps(false);
    assert_eq!(fresh.len(), 12);
    assert_eq!(fresh[0], JoinStep::Enqueue(JoinPacket::JoinGame));
    assert_eq!(fresh[2], JoinStep::Enqueue(JoinPacket::GameEvent { reason: 13, value: 0 }));
    assert_eq!(fresh[5], JoinStep::Enqueue(JoinPacket::Commands { level: 2 }));
    assert_eq!(
        fresh[6],
        JoinStep::Enqueue(JoinPacket::Synchronize {
            teleport_id: 1,
            sync: PositionSync { position: spawn, rotation: look(5.0, 6.0), flags: 0 },
        })
    );
    assert_eq!(
        fresh[7],
        JoinStep::Mandatory(JoinPacket::Abilities {
            flags: 0x01 | 0x04 | 0x08,
            flying_speed: single(0.05),
            walking_speed: single(0.1),
        })
    );
    assert_eq!(
        fresh[8],
        JoinStep::Mandatory(JoinPacket::ContainerContent { window_id: 0, state_id: 1 })
    );
    assert_eq!(fresh[9..], [JoinStep::Flush, JoinStep::StreamSpawnChunks, JoinStep::Flush]);
    let returning = steps(true);
    assert_eq!(
        returning[9..11],
        [
            JoinStep::Enqueue(JoinPacket::GameEvent { reason: 3, value: 0 }),
            JoinStep::Enqueue(JoinPacket::SetHeldItem(4)),
        ]
    );
}

#[test]
fn a_failed_entry_leaves_in_good_order() {
    let mode = GameMode::Creative;
    assert_eq!(
        enter_play(EntryStep::JoinSimulation, mode, true),
        EntryTurn::Next(EntryStep::SetGameMode(mode))
    );
    assert_eq!(enter_play(EntryStep::JoinSimulation, mode, false), EntryTurn::Abort);
    assert_eq!(
        enter_play(EntryStep::SetGameMode(mode), mode, true),
        EntryTurn::Next(EntryStep::SendJoinKit)
    );
    assert_eq!(
        enter_play(EntryStep::SendJoinKit, mode, true),
        EntryTurn::Next(EntryStep::DrainFrames)
    );
    assert_eq!(
        enter_play(EntryStep::DrainFrames, mode, false),
        EntryTurn::Loop { failed: true }
    );
    assert_eq!(
        enter_play(EntryStep::StreamChunks, mode, true),
        EntryTurn::Next(EntryStep::Flush)
    );
    assert_eq!(enter_play(EntryStep::Flush, mode, true), EntryTurn::Loop { failed: false });
}

#[test]
fn a_session_turns_to_what_matters_most() {
    let idle = SessionDue {
        failed: false,
        shutdown: false,
        keep_alive: false,
        chunk_pump: false,
        outbound: false,
        read: false,
    };
    assert_eq!(next_session_wake(idle), SessionWake::Wait);
    assert_eq!(next_session_wake(SessionDue { read: true, ..idle }), SessionWake::Read);
    assert_eq!(
        next_session_wake(SessionDue { read: true, outbound: true, ..idle }),
        SessionWake::Outbound
    );
    assert_eq!(
        next_session_wake(SessionDue { chunk_pump: true, keep_alive: true, ..idle }),
        SessionWake::KeepAlive
    );
    assert_eq!(
        next_session_wake(SessionDue { shutdown: true, keep_alive: true, ..idle }),
        SessionWake::Shutdown
    );
    assert_eq!(
        next_session_wake(SessionDue { failed: true, shutdown: true, ..idle }),
        SessionWake::Failed
    );
    assert_eq!(next_keep_alive(0), 1);
    assert_eq!(next_keep_alive(i64::MAX), i64::MIN);
    assert_eq!(judge_read(ReadOutcome::Bytes(0)), ReadTurn::End);
    assert_eq!(judge_read(ReadOutcome::Bytes(9)), ReadTurn::Handle(9));
    assert_eq!(judge_read(ReadOutcome::TimedOut), ReadTurn::Fail);
    assert_eq!(judge_read(ReadOutcome::Failed), ReadTurn::Fail);
}

#[test]
fn frames_are_charged_before_they_are_handled() {
    let mut budget = ServerboundBudget::new();
    assert_eq!(pump_serverbound(&mut budget, PlayFrame::Body, true), PumpTurn::Handle);
    assert_eq!(pump_serverbound(&mut budget, PlayFrame::Incomplete, false), PumpTurn::Done);
    assert_eq!(pump_serverbound(&mut budget, PlayFrame::Foreign, false), PumpTurn::ForeignFrame);
    assert_eq!(
        pump_serverbound(&mut budget, PlayFrame::Error(FrameError::Compression), false),
        PumpTurn::DecodeError(FrameError::Compression)
    );
    assert_eq!(budget.over_budget(), 0);
    for _ in 0..2 {
        assert_eq!(
            pump_serverbound(&mut budget, PlayFrame::Body, false),
            PumpTurn::OverBudget(DisconnectReason::BudgetExceeded)
        );
    }
    assert_eq!(budget.over_budget(), 2);
    assert_eq!(budget.admit_frame(true), Ok(()));
    assert_eq!(budget.admit_frame(false), Err(DisconnectReason::BudgetExceeded));
}

#[test]
fn leaving_keeps_the_carried_stack_and_releases_everything() {
    let columns = vec![ChunkPos { x: 2, z: 0 }, ChunkPos { x: 1, z: 0 }];
    let mut stream = ChunkStream::new(ChunkPos { x: 0, z: 0 }, 2, &columns);
    let mut windows = WindowState::new();
    let mut inventory = PlayerInventory::from_persisted(
        GameMode::Survival,
        0,
        vec![ItemStack::empty(); SLOT_COUNT],
    );
    let join = vec3(8.0, 64.0, 8.0);
    let plan = prepare_leave(&stream, &mut windows, &mut inventory, join);
    assert_eq!(plan.leftover, None);
    assert_eq!(plan.save_position, join);
    assert_eq!(plan.release, vec![ChunkPos { x: 1, z: 0 }, ChunkPos { x: 2, z: 0 }]);
    windows.open_chest_window(&mut inventory, HERE, Vec::new());
    windows.adopt_chest_click(Some((ItemStack::new(1, 5, 0, 64), Vec::new())));
    stream.observe(vec3(1.0, 2.0, 3.0));
    let plan = prepare_leave(&stream, &mut windows, &mut inventory, join);
    assert_eq!(plan.leftover, Some(ItemStack::empty()));
    assert_eq!(inventory.slot(9), Some(ItemStack::new(1, 5, 0, 64)));
    assert_eq!(plan.save_position, vec3(1.0, 2.0, 3.0));
    assert_eq!(
        leave_steps(true),
        vec![LeaveStep::Report, LeaveStep::Save, LeaveStep::ReleaseChunks, LeaveStep::Despawn]
    );
    assert_eq!(
        leave_steps(false),
        vec![LeaveStep::Report, LeaveStep::Save, LeaveStep::Despawn]
    );
}

#[test]
fn outbound_packets_are_mirrored_before_they_are_queued() {
    let mut stream = ChunkStream::new(ChunkPos { x: 0, z: 0 }, 2, &Vec::new());
    let mut mirror = look(0.0, 0.0);
    let kit: Vec<Option<i32>> = vec![None; 9];
    let mut inventory = PlayerInventory::with_creative_kit(GameMode::Creative, &kit);
    let sync = PositionSync { position: vec3(1.0, 2.0, 3.0), rotation: look(9.0, 8.0), flags: 0 };
    mirror_outbound(OutboundMessage::Synchronize(sync), &mut stream, &mut mirror, &mut inventory);
    assert_eq!((stream.last_position(), mirror), (Some(sync.position), look(9.0, 8.0)));
    mirror_outbound(
        OutboundMessage::GameEvent { reason: 3, value: single(2.0) },
        &mut stream,
        &mut mirror,
        &mut inventory,
    );
    assert_eq!(inventory.game_mode(), GameMode::Adventure);
    mirror_outbound(OutboundMessage::Other, &mut stream, &mut mirror, &mut inventory);
    assert_eq!(inventory.game_mode(), GameMode::Adventure);
}

#[test]
fn traces_name_state_number_and_packet() {
    let trace = trace_outbound(OutboundPacket::RegistryData, 7, 120, true, 9);
    assert_eq!((trace.outbound, trace.state, trace.id), (true, PacketState::Configuration, 7));
    assert_eq!((trace.name, trace.size, trace.compressed, trace.tick), ("registry_data", 120, true, 9));
    let trace = trace_outbound_play(ClientboundPlayPacket::BossBar, 10, false, 1);
    assert_eq!((trace.state, trace.name, trace.size), (PacketState::Play, "boss_bar", 0));
    let trace = trace_inbound_login(InboundPacket::Play, 3, false, 2);
    assert_eq!((trace.outbound, trace.id, trace.name), (false, -1, "play_raw"));
    let trace = trace_inbound_login(InboundPacket::PingRequest, 1, false, 2);
    assert_eq!((trace.state, trace.id, trace.name), (PacketState::Status, 1, "ping_request"));
    let trace = trace_inbound_play(ServerboundPlayPacket::WindowClick, 17, 44, false, 2);
    assert_eq!((trace.name, trace.size), ("window_click", 44));
    assert_eq!(
        clientbound_play_name(ClientboundPlayPacket::ChunkDataAndLight),
        "chunk_data_and_light"
    );
    assert_eq!(decode_error_label(FrameError::BadLengthVarInt), "bad_length_varint");
    assert_eq!(play_decode_error(ProtoError::UnknownPacketId), ("unknown_play", false));
    assert_eq!(play_decode_error(ProtoError::Nbt), ("malformed_play_nbt", true));
    assert_eq!(play_decode_error(ProtoError::Other), ("malformed_play", true));
}
