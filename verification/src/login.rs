//! The handshake, status, login and configuration exchange, up to play.

use crate::roster::PlayerId;
use vstd::prelude::*;

verus! {

/// The `next_state` of a handshake that selects the server-list ping.
pub const NEXT_STATE_STATUS: i32 = 1;

/// The `next_state` of a handshake that selects the login.
pub const NEXT_STATE_LOGIN: i32 = 2;

/// The version name that the server list shows.
pub const STATUS_VERSION_NAME: &'static str = "FerrumC 1.21.8";

/// The protocol number that the server list compares.
pub const STATUS_PROTOCOL_VERSION: i32 = 772;

/// The message that the server list shows.
pub const STATUS_MOTD: &'static str = "FerrumC";

/// The most characters that a status response holds.
pub const STATUS_JSON_MAX_CHARS: usize = 32_767;

/// The protocol state that a frame is decoded in.
#[derive(Clone, Copy, Debug, PartialEq, Eq, Structural)]
pub enum ConnectionState {
    /// Before the handshake.
    Handshaking,
    /// The server-list ping.
    Status,
    /// The login.
    Login,
    /// The configuration.
    Configuration,
    /// Play.
    Play,
}

/// A phase of the exchange, one step finer than [`ConnectionState`].
#[derive(Clone, Copy, Debug, PartialEq, Eq, Structural)]
pub enum LoginPhase {
    /// Awaiting the handshake.
    Handshaking,
    /// Awaiting a status or ping request.
    Status,
    /// Awaiting the login start.
    Login,
    /// Awaiting the acknowledgement of the login.
    AwaitingLoginAck,
    /// Awaiting the client's known packs.
    AwaitingKnownPacks,
    /// Awaiting the acknowledgement of the configuration.
    AwaitingFinishAck,
}

impl LoginPhase {
    /// The protocol state of a phase.
    pub open spec fn protocol(self) -> ConnectionState {
        match self {
            LoginPhase::Handshaking => ConnectionState::Handshaking,
            LoginPhase::Status => ConnectionState::Status,
            LoginPhase::Login => ConnectionState::Login,
            LoginPhase::AwaitingLoginAck => ConnectionState::Login,
            LoginPhase::AwaitingKnownPacks => ConnectionState::Configuration,
            LoginPhase::AwaitingFinishAck => ConnectionState::Configuration,
        }
    }

    /// The protocol state that the next frame is decoded in.
    pub fn connection_state(self) -> (r: ConnectionState)
        ensures
            r == self.protocol(),
    {
        match self {
            LoginPhase::Handshaking => ConnectionState::Handshaking,
            LoginPhase::Status => ConnectionState::Status,
            LoginPhase::Login | LoginPhase::AwaitingLoginAck => ConnectionState::Login,
            LoginPhase::AwaitingKnownPacks | LoginPhase::AwaitingFinishAck => {
                ConnectionState::Configuration
            },
        }
    }
}

/// A packet of the exchange.
#[derive(Clone, Copy, Debug, PartialEq, Eq, Structural)]
pub enum LoginPacket {
    /// The handshake.
    Handshake {
        /// What the client wants next.
        next_state: i32,
    },
    /// The server-list question.
    StatusRequest,
    /// The server-list ping.
    PingRequest {
        /// What is to be echoed.
        payload: i64,
    },
    /// The login start.
    LoginStart,
    /// The acknowledgement of the login.
    LoginAcknowledged,
    /// The client's known packs.
    KnownPacks,
    /// The acknowledgement of the configuration.
    AckFinishConfiguration,
    /// The client's settings.
    ClientInformation,
    /// A play packet, which has no place here.
    Play,
}

impl LoginPacket {
    /// Whether the packet belongs to the configuration.
    pub open spec fn is_configuration(self) -> bool {
        self is KnownPacks || self is AckFinishConfiguration || self is ClientInformation
    }
}

/// What the exchange does next.
#[derive(Clone, Copy, Debug, PartialEq, Eq, Structural)]
pub enum LoginStep {
    /// Go on reading in a phase.
    Continue(LoginPhase),
    /// Close the connection cleanly.
    Close,
    /// Send the status response and go on.
    SendStatus,
    /// Echo a ping and close.
    SendPong {
        /// What is echoed.
        payload: i64,
    },
    /// Ask whether the player may join; then [`after_access_check`] tells what
    /// follows.
    CheckAccess,
    /// Send the known packs and go on in the next phase.
    SendKnownPacks,
    /// Send the registries and the end of the configuration, and go on in the next
    /// phase.
    SendRegistries,
    /// Enter play.
    Play,
    /// End the session: the packet has no place in the phase.
    Unexpected,
}

/// What a packet makes of a phase, by rule.
pub open spec fn login_rule(phase: LoginPhase, packet: LoginPacket) -> LoginStep {
    match (phase, packet) {
        (LoginPhase::Handshaking, LoginPacket::Handshake { next_state }) => if next_state
            == NEXT_STATE_LOGIN {
            LoginStep::Continue(LoginPhase::Login)
        } else if next_state == NEXT_STATE_STATUS {
            LoginStep::Continue(LoginPhase::Status)
        } else {
            LoginStep::Close
        },
        (LoginPhase::Status, LoginPacket::StatusRequest) => LoginStep::SendStatus,
        (LoginPhase::Status, LoginPacket::PingRequest { payload }) => LoginStep::SendPong {
            payload,
        },
        (LoginPhase::Login, LoginPacket::LoginStart) => LoginStep::CheckAccess,
        (LoginPhase::AwaitingLoginAck, LoginPacket::LoginAcknowledged) => LoginStep::SendKnownPacks,
        (LoginPhase::AwaitingKnownPacks, LoginPacket::KnownPacks) => LoginStep::SendRegistries,
        (LoginPhase::AwaitingFinishAck, LoginPacket::AckFinishConfiguration) => LoginStep::Play,
        (LoginPhase::AwaitingKnownPacks, p) => if p.is_configuration() {
            LoginStep::Continue(phase)
        } else {
            LoginStep::Unexpected
        },
        (LoginPhase::AwaitingFinishAck, p) => if p.is_configuration() {
            LoginStep::Continue(phase)
        } else {
            LoginStep::Unexpected
        },
        _ => LoginStep::Unexpected,
    }
}

/// Feeds one packet to the exchange.
pub fn advance(phase: LoginPhase, packet: LoginPacket) -> (r: LoginStep)
    ensures
        r == login_rule(phase, packet),
{
    match phase {
        LoginPhase::Handshaking => match packet {
            LoginPacket::Handshake { next_state } => {
                if next_state == NEXT_STATE_LOGIN {
                    LoginStep::Continue(LoginPhase::Login)
                } else if next_state == NEXT_STATE_STATUS {
                    LoginStep::Continue(LoginPhase::Status)
                } else {
                    LoginStep::Close
                }
            },
            _ => LoginStep::Unexpected,
        },
        LoginPhase::Status => match packet {
            LoginPacket::StatusRequest => LoginStep::SendStatus,
            LoginPacket::PingRequest { payload } => LoginStep::SendPong { payload },
            _ => LoginStep::Unexpected,
        },
        LoginPhase::Login => match packet {
            LoginPacket::LoginStart => LoginStep::CheckAccess,
            _ => LoginStep::Unexpected,
        },
        LoginPhase::AwaitingLoginAck => match packet {
            LoginPacket::LoginAcknowledged => LoginStep::SendKnownPacks,
            _ => LoginStep::Unexpected,
        },
        LoginPhase::AwaitingKnownPacks => match packet {
            LoginPacket::KnownPacks => LoginStep::SendRegistries,
            LoginPacket::ClientInformation | LoginPacket::AckFinishConfiguration => {
                LoginStep::Continue(phase)
            },
            _ => LoginStep::Unexpected,
        },
        LoginPhase::AwaitingFinishAck => match packet {
            LoginPacket::AckFinishConfiguration => LoginStep::Play,
            LoginPacket::ClientInformation | LoginPacket::KnownPacks => LoginStep::Continue(phase),
            _ => LoginStep::Unexpected,
        },
    }
}

impl LoginStep {
    /// The phase that the exchange is in after the step, where it goes on. Access is
    /// taken as granted.
    pub open spec fn phase_after(self, phase: LoginPhase) -> Option<LoginPhase> {
        match self {
            LoginStep::Continue(next) => Some(next),
            LoginStep::SendStatus => Some(phase),
            LoginStep::CheckAccess => Some(LoginPhase::AwaitingLoginAck),
            LoginStep::SendKnownPacks => Some(LoginPhase::AwaitingKnownPacks),
            LoginStep::SendRegistries => Some(LoginPhase::AwaitingFinishAck),
            LoginStep::Close => None,
            LoginStep::SendPong { .. } => None,
            LoginStep::Play => None,
            LoginStep::Unexpected => None,
        }
    }

    /// The phase that the exchange is in after the step, where it goes on.
    pub fn next_phase(self, phase: LoginPhase) -> (r: Option<LoginPhase>)
        ensures
            r == self.phase_after(phase),
    {
        match self {
            LoginStep::Continue(next) => Some(next),
            LoginStep::SendStatus => Some(phase),
            LoginStep::CheckAccess => Some(LoginPhase::AwaitingLoginAck),
            LoginStep::SendKnownPacks => Some(LoginPhase::AwaitingKnownPacks),
            LoginStep::SendRegistries => Some(LoginPhase::AwaitingFinishAck),
            _ => None,
        }
    }
}

/// Whether some packets lead from a phase into play, access taken as granted.
pub open spec fn leads_to_play(phase: LoginPhase, packets: Seq<LoginPacket>) -> bool
    decreases packets.len(),
{
    if packets.len() == 0 {
        false
    } else {
        let step = login_rule(phase, packets[0]);
        match step.phase_after(phase) {
            Some(next) => leads_to_play(next, packets.drop_first()),
            None => step is Play && packets.len() == 1,
        }
    }
}

/// Whether some packets hold a login handshake, a login start, its acknowledgement, the
/// known packs and the acknowledgement of the configuration in this order, the
/// first `done` of them left out.
pub open spec fn holds_handshake(packets: Seq<LoginPacket>, done: int) -> bool
    decreases packets.len(),
{
    if done >= 5 {
        true
    } else if packets.len() == 0 {
        false
    } else if packets[0] == handshake_packet(done) {
        holds_handshake(packets.drop_first(), done + 1)
    } else {
        holds_handshake(packets.drop_first(), done)
    }
}

/// The packets of a whole login, by place.
pub open spec fn handshake_packet(place: int) -> LoginPacket {
    if place == 0 {
        LoginPacket::Handshake { next_state: NEXT_STATE_LOGIN }
    } else if place == 1 {
        LoginPacket::LoginStart
    } else if place == 2 {
        LoginPacket::LoginAcknowledged
    } else if place == 3 {
        LoginPacket::KnownPacks
    } else {
        LoginPacket::AckFinishConfiguration
    }
}

/// How many packets of a whole login a phase has behind it.
pub open spec fn packets_behind(phase: LoginPhase) -> int {
    match phase {
        LoginPhase::Handshaking => 0,
        LoginPhase::Status => 0,
        LoginPhase::Login => 1,
        LoginPhase::AwaitingLoginAck => 2,
        LoginPhase::AwaitingKnownPacks => 3,
        LoginPhase::AwaitingFinishAck => 4,
    }
}

/// Play is reached through the whole login only: whatever else comes in between, the
/// five packets of a login come first, in order. The server-list branch never reaches
/// play.
pub proof fn play_takes_the_whole_login(phase: LoginPhase, packets: Seq<LoginPacket>)
    requires
        leads_to_play(phase, packets),
    ensures
        !(phase is Status),
        holds_handshake(packets, packets_behind(phase)),
    decreases packets.len(),
{
    let step = login_rule(phase, packets[0]);
    let rest = packets.drop_first();
    match step.phase_after(phase) {
        Some(next) => {
            play_takes_the_whole_login(next, rest);
        },
        None => {
            assert(holds_handshake(rest, 5));
        },
    }
}

/// The canonical identity of a player, established once from the login start.
#[derive(Debug, PartialEq, Eq)]
pub struct LoginIdentity {
    /// The exact username that the client gave.
    pub name: String,
    /// The identity that belongs to it.
    pub player: PlayerId,
}

impl LoginIdentity {
    /// The offline identity of a name, with the identifier derived from it.
    pub fn offline(name: String, player: PlayerId) -> (r: LoginIdentity)
        ensures
            r == (LoginIdentity { name, player }),
    {
        LoginIdentity { name, player }
    }

    /// The identifier shown in the login success and to other players.
    pub fn uuid(&self) -> (r: u128)
        ensures
            r == self.player,
    {
        self.player
    }
}

/// The identity that a login start establishes: none where the player was denied.
pub fn granted_identity(identity: LoginIdentity, denied: bool) -> (r: Option<LoginIdentity>)
    ensures
        r == if denied {
            None
        } else {
            Some(identity)
        },
{
    if denied {
        None
    } else {
        Some(identity)
    }
}

/// Where the exchange stands: its phase, and the identity once it is established.
#[derive(Debug, PartialEq, Eq)]
pub struct LoginState {
    /// The phase.
    pub phase: LoginPhase,
    /// The identity.
    pub identity: Option<LoginIdentity>,
}

/// Whether the exchange goes on.
#[derive(Clone, Copy, Debug, PartialEq, Eq, Structural)]
pub enum LoginProgress {
    /// It goes on.
    Continue,
    /// The connection closes cleanly.
    Close,
    /// The client reached play.
    Play,
    /// The session ends: the packet has no place in the phase.
    Unexpected,
}

impl LoginState {
    /// Whether an identity is there wherever a login was accepted.
    pub open spec fn wf(self) -> bool {
        packets_behind(self.phase) >= 2 ==> self.identity is Some
    }

    /// The state after a packet, where `granted` is the identity of an accepted login
    /// start.
    pub open spec fn after(self, packet: LoginPacket, granted: Option<LoginIdentity>) -> LoginState {
        let step = login_rule(self.phase, packet);
        if step is CheckAccess {
            match granted {
                Some(_) => LoginState { phase: LoginPhase::AwaitingLoginAck, identity: granted },
                None => self,
            }
        } else {
            match step.phase_after(self.phase) {
                Some(next) => LoginState { phase: next, ..self },
                None => self,
            }
        }
    }

    /// Whether the exchange goes on after a packet.
    pub open spec fn progress(
        self,
        packet: LoginPacket,
        granted: Option<LoginIdentity>,
    ) -> LoginProgress {
        match login_rule(self.phase, packet) {
            LoginStep::CheckAccess => if granted is Some {
                LoginProgress::Continue
            } else {
                LoginProgress::Close
            },
            LoginStep::Close => LoginProgress::Close,
            LoginStep::SendPong { .. } => LoginProgress::Close,
            LoginStep::Play => LoginProgress::Play,
            LoginStep::Unexpected => LoginProgress::Unexpected,
            _ => LoginProgress::Continue,
        }
    }

    /// The state of a new connection.
    pub open spec fn fresh() -> LoginState {
        LoginState { phase: LoginPhase::Handshaking, identity: None }
    }

    /// The state of a new connection.
    pub fn new() -> (r: LoginState)
        ensures
            r == LoginState::fresh(),
            r.wf(),
    {
        LoginState { phase: LoginPhase::Handshaking, identity: None }
    }

    /// Takes a packet into account, once what it asks for is sent. `granted` is the
    /// identity of an accepted login start: that alone establishes an identity.
    pub fn settle(&mut self, packet: LoginPacket, granted: Option<LoginIdentity>) -> (r:
        LoginProgress)
        requires
            old(self).wf(),
        ensures
            final(self).wf(),
            *final(self) == old(self).after(packet, granted),
            r == old(self).progress(packet, granted),
            r is Play ==> final(self).identity is Some,
    {
        let step = advance(self.phase, packet);
        match step {
            LoginStep::CheckAccess => {
                if granted.is_some() {
                    self.phase = LoginPhase::AwaitingLoginAck;
                    self.identity = granted;
                    LoginProgress::Continue
                } else {
                    LoginProgress::Close
                }
            },
            LoginStep::Close => LoginProgress::Close,
            LoginStep::SendPong { .. } => LoginProgress::Close,
            LoginStep::Play => LoginProgress::Play,
            LoginStep::Unexpected => LoginProgress::Unexpected,
            _ => {
                if let Some(next) = step.next_phase(self.phase) {
                    self.phase = next;
                }
                LoginProgress::Continue
            },
        }
    }
}

/// Whether a packet has a place in a phase.
pub open spec fn has_place(phase: LoginPhase, packet: LoginPacket) -> bool {
    match phase {
        LoginPhase::Handshaking => packet is Handshake,
        LoginPhase::Status => packet is StatusRequest || packet is PingRequest,
        LoginPhase::Login => packet is LoginStart,
        LoginPhase::AwaitingLoginAck => packet is LoginAcknowledged,
        LoginPhase::AwaitingKnownPacks => packet.is_configuration(),
        LoginPhase::AwaitingFinishAck => packet.is_configuration(),
    }
}

/// The exchange moves in five ways only: a handshake selects login or status, an accepted
/// login start establishes the identity, its acknowledgement and the known packs lead on.
/// Nothing else changes phase or identity. Play follows the acknowledged configuration; a
/// handshake for anything else, a ping and a denied login close; and a packet without a
/// place in the phase ends the session.
pub proof fn login_moves(state: LoginState, packet: LoginPacket, granted: Option<LoginIdentity>)
    ensures
        ({
            let next = state.after(packet, granted);
            let progress = state.progress(packet, granted);
            &&& next != state ==> progress is Continue && match state.phase {
                LoginPhase::Handshaking => next.identity == state.identity && ((packet == (
                LoginPacket::Handshake { next_state: NEXT_STATE_LOGIN }) && next.phase is Login)
                    || (packet == (LoginPacket::Handshake { next_state: NEXT_STATE_STATUS })
                    && next.phase is Status)),
                LoginPhase::Status => false,
                LoginPhase::Login => packet is LoginStart && granted is Some && next.identity
                    == granted && next.phase is AwaitingLoginAck,
                LoginPhase::AwaitingLoginAck => packet is LoginAcknowledged && next.identity
                    == state.identity && next.phase is AwaitingKnownPacks,
                LoginPhase::AwaitingKnownPacks => packet is KnownPacks && next.identity
                    == state.identity && next.phase is AwaitingFinishAck,
                LoginPhase::AwaitingFinishAck => false,
            }
            &&& progress is Play <==> state.phase is AwaitingFinishAck
                && packet is AckFinishConfiguration
            &&& progress is Unexpected <==> !has_place(state.phase, packet)
            &&& progress is Close <==> has_place(state.phase, packet) && match packet {
                LoginPacket::Handshake { next_state } => next_state != NEXT_STATE_LOGIN
                    && next_state != NEXT_STATE_STATUS,
                LoginPacket::PingRequest { .. } => true,
                LoginPacket::LoginStart => granted is None,
                _ => false,
            }
            &&& state.phase is Login && packet is LoginStart && granted is Some ==> next == (
            LoginState { phase: LoginPhase::AwaitingLoginAck, identity: granted })
        }),
{
}

/// Where some packets lead, each with the identity it was granted: as far as the exchange
/// goes on.
pub open spec fn led_to(
    state: LoginState,
    packets: Seq<(LoginPacket, Option<LoginIdentity>)>,
) -> (LoginState, LoginProgress)
    decreases packets.len(),
{
    if packets.len() == 0 {
        (state, LoginProgress::Continue)
    } else {
        let (packet, granted) = packets[0];
        let progress = state.progress(packet, granted);
        if progress is Continue {
            led_to(state.after(packet, granted), packets.drop_first())
        } else {
            (state.after(packet, granted), progress)
        }
    }
}

/// Play is never reached without an identity, and the identity is one that a login start
/// was granted.
pub proof fn play_has_an_identity(packets: Seq<(LoginPacket, Option<LoginIdentity>)>)
    requires
        led_to(LoginState::fresh(), packets).1 is Play,
    ensures
        led_to(LoginState::fresh(), packets).0.identity is Some,
        exists|i: int|
            0 <= i < packets.len() && (#[trigger] packets[i]).0 is LoginStart && packets[i].1
                == led_to(LoginState::fresh(), packets).0.identity,
{
    identity_is_granted(LoginState::fresh(), packets);
}

proof fn identity_is_granted(
    state: LoginState,
    packets: Seq<(LoginPacket, Option<LoginIdentity>)>,
)
    requires
        state.wf(),
    ensures
        led_to(state, packets).0.wf(),
        led_to(state, packets).1 is Play ==> led_to(state, packets).0.identity is Some,
        led_to(state, packets).0.identity == state.identity || exists|i: int|
            0 <= i < packets.len() && (#[trigger] packets[i]).0 is LoginStart && packets[i].1
                == led_to(state, packets).0.identity,
    decreases packets.len(),
{
    if packets.len() > 0 {
        let (packet, granted) = packets[0];
        let next = state.after(packet, granted);
        let rest = packets.drop_first();
        login_moves(state, packet, granted);
        if state.progress(packet, granted) is Continue {
            identity_is_granted(next, rest);
            let end = led_to(next, rest).0.identity;
            if end == next.identity {
                if end != state.identity {
                    assert(packets[0].0 is LoginStart && packets[0].1 == end);
                }
            } else {
                let i = choose|i: int|
                    0 <= i < rest.len() && (#[trigger] rest[i]).0 is LoginStart && rest[i].1
                        == end;
                assert(packets[i + 1] == rest[i]);
            }
        }
    }
}

/// The active compression threshold, or `None` when compression is disabled.
pub fn enabled_threshold(compression_threshold: Option<i32>) -> (r: Option<i32>)
    ensures
        r == match compression_threshold {
            Some(threshold) if threshold >= 0 => Some(threshold),
            _ => None,
        },
{
    match compression_threshold {
        Some(threshold) => if threshold >= 0 {
            Some(threshold)
        } else {
            None
        },
        None => None,
    }
}

/// What a player's login sends.
#[derive(Clone, Copy, Debug, PartialEq, Eq, Structural)]
pub enum LoginReply {
    /// Why the player may not join; the connection closes.
    Disconnect,
    /// The compression threshold, itself uncompressed; every later frame is
    /// compressed by it.
    SetCompression {
        /// The threshold.
        threshold: i32,
    },
    /// The login's success.
    LoginSuccess,
}

/// What follows the access check: a refused player is told so and the connection
/// closes; an admitted one gets the compression threshold, where there is one, and the
/// login's success, and the next phase awaits its acknowledgement.
pub fn after_access_check(denied: bool, compression_threshold: Option<i32>) -> (r: (
    Option<LoginPhase>,
    Vec<LoginReply>,
))
    ensures
        (r.0, r.1@) == access_rule(denied, compression_threshold),
        r.0 == if denied {
            None
        } else {
            Some(LoginPhase::AwaitingLoginAck)
        },
        r.1@ == if denied {
            seq![LoginReply::Disconnect]
        } else {
            match compression_threshold {
                Some(threshold) if threshold >= 0 => seq![
                    LoginReply::SetCompression { threshold },
                    LoginReply::LoginSuccess,
                ],
                _ => seq![LoginReply::LoginSuccess],
            }
        },
{
    let mut replies: Vec<LoginReply> = Vec::new();
    if denied {
        replies.push(LoginReply::Disconnect);
        assert(replies@ =~= seq![LoginReply::Disconnect]);
        return (None, replies);
    }
    match enabled_threshold(compression_threshold) {
        Some(threshold) => {
            replies.push(LoginReply::SetCompression { threshold });
            replies.push(LoginReply::LoginSuccess);
            assert(replies@ =~= seq![
                LoginReply::SetCompression { threshold },
                LoginReply::LoginSuccess,
            ]);
        },
        None => {
            replies.push(LoginReply::LoginSuccess);
            assert(replies@ =~= seq![LoginReply::LoginSuccess]);
        },
    }
    (Some(LoginPhase::AwaitingLoginAck), replies)
}

/// Why a frame does not decode.
#[derive(Clone, Copy, Debug, PartialEq, Eq, Structural)]
pub enum FrameError {
    /// The frame is too large.
    FrameTooLarge,
    /// Too much is buffered.
    BufferOverflow,
    /// The length prefix does not parse.
    BadLengthVarInt,
    /// The length prefix is negative.
    NegativeLength,
    /// The packet number is not modelled.
    UnknownPacket,
    /// The body does not parse.
    MalformedBody,
    /// Bytes are left over.
    TrailingBytes,
    /// Another decode failure.
    OtherDecode,
    /// The compression is broken.
    Compression,
    /// Another failure of the frame.
    OtherFrame,
}

/// Whether a frame that does not decode is let pass: a packet that is not modelled, in
/// the login or the configuration.
pub fn is_ignorable_unknown_packet(state: ConnectionState, error: FrameError) -> (r: bool)
    ensures
        r == ((state is Login || state is Configuration) && error is UnknownPacket),
{
    let lenient = match state {
        ConnectionState::Login | ConnectionState::Configuration => true,
        _ => false,
    };
    lenient && match error {
        FrameError::UnknownPacket => true,
        _ => false,
    }
}

/// What the decoder has.
#[derive(Clone, Copy, Debug, PartialEq, Eq, Structural)]
pub enum LoginFrame {
    /// A packet.
    Packet(LoginPacket),
    /// No complete frame.
    Incomplete,
    /// A frame that does not decode.
    Error(FrameError),
}

/// What the exchange does with what the decoder has.
#[derive(Clone, Copy, Debug, PartialEq, Eq, Structural)]
pub enum LoginTurn {
    /// A packet is fed to the exchange.
    Advance(LoginStep),
    /// More is read from the peer.
    ReadMore,
    /// The frame is skipped.
    SkipFrame,
    /// The session ends.
    Fatal(FrameError),
}

/// Decides what the exchange does with what the decoder has.
pub fn run_login(phase: LoginPhase, frame: LoginFrame) -> (r: LoginTurn)
    ensures
        r == login_turn(phase, frame),
        r == match frame {
            LoginFrame::Packet(packet) => LoginTurn::Advance(login_rule(phase, packet)),
            LoginFrame::Incomplete => LoginTurn::ReadMore,
            LoginFrame::Error(error) => if (phase.protocol() is Login
                || phase.protocol() is Configuration) && error is UnknownPacket {
                LoginTurn::SkipFrame
            } else {
                LoginTurn::Fatal(error)
            },
        },
{
    match frame {
        LoginFrame::Packet(packet) => LoginTurn::Advance(advance(phase, packet)),
        LoginFrame::Incomplete => LoginTurn::ReadMore,
        LoginFrame::Error(error) => {
            if is_ignorable_unknown_packet(phase.connection_state(), error) {
                LoginTurn::SkipFrame
            } else {
                LoginTurn::Fatal(error)
            }
        },
    }
}

/// What the server list shows.
#[derive(Debug, PartialEq, Eq)]
pub struct StatusInfo {
    /// The version name.
    pub version: String,
    /// The protocol number.
    pub protocol: i32,
    /// The most players.
    pub max_players: u32,
    /// The players online.
    pub online: u32,
    /// The message.
    pub motd: String,
}

/// Builds what the server list shows: no players online, and a limit.
pub fn build_status_response(max_players: u32) -> (r: StatusInfo)
    ensures
        r.version@ == STATUS_VERSION_NAME@,
        r.protocol == STATUS_PROTOCOL_VERSION,
        r.max_players == max_players,
        r.online == 0,
        r.motd@ == STATUS_MOTD@,
{
    StatusInfo {
        version: STATUS_VERSION_NAME.to_owned(),
        protocol: STATUS_PROTOCOL_VERSION,
        max_players,
        online: 0,
        motd: STATUS_MOTD.to_owned(),
    }
}

/// Whether a rendered status response fits the wire.
pub fn status_fits(json: &str) -> (r: bool)
    ensures
        r == (json@.len() <= STATUS_JSON_MAX_CHARS),
{
    crate::text::characters(json).len() <= STATUS_JSON_MAX_CHARS
}

/// The status branch answers what it is asked: a status request gets the status and stays,
/// a ping gets its own payload back and closes. The decoder reads each phase's packets in the
/// protocol state that they belong to.
pub proof fn status_answers_its_questions(payload: i64, phase: LoginPhase)
    ensures
        login_rule(LoginPhase::Status, LoginPacket::StatusRequest) is SendStatus,
        LoginStep::SendStatus.phase_after(LoginPhase::Status) == Some(LoginPhase::Status),
        login_rule(LoginPhase::Status, LoginPacket::PingRequest { payload }) == (
        LoginStep::SendPong { payload }),
        phase.protocol() is Handshaking == has_place(
            phase,
            LoginPacket::Handshake { next_state: 0 },
        ),
        phase.protocol() is Status == has_place(phase, LoginPacket::StatusRequest),
        phase.protocol() is Login == (has_place(phase, LoginPacket::LoginStart) || has_place(
            phase,
            LoginPacket::LoginAcknowledged,
        )),
        phase.protocol() is Configuration == has_place(phase, LoginPacket::KnownPacks),
        !(phase.protocol() is Play),
{
}

/// What the exchange does with what the decoder has, by rule.
pub open spec fn login_turn(phase: LoginPhase, frame: LoginFrame) -> LoginTurn {
    match frame {
        LoginFrame::Packet(packet) => LoginTurn::Advance(login_rule(phase, packet)),
        LoginFrame::Incomplete => LoginTurn::ReadMore,
        LoginFrame::Error(error) => if (phase.protocol() is Login
            || phase.protocol() is Configuration) && error is UnknownPacket {
            LoginTurn::SkipFrame
        } else {
            LoginTurn::Fatal(error)
        },
    }
}

/// Only a packet that is not modelled is skipped, and only once the handshake has selected a
/// login; every other frame that does not decode ends the session with its own error. More is
/// read exactly where no frame is whole.
pub proof fn bad_frames_end_the_login(phase: LoginPhase, frame: LoginFrame)
    ensures
        match login_turn(phase, frame) {
            LoginTurn::Advance(step) => frame matches LoginFrame::Packet(packet) && step
                == login_rule(phase, packet),
            LoginTurn::ReadMore => frame is Incomplete,
            LoginTurn::SkipFrame => frame == LoginFrame::Error(FrameError::UnknownPacket) && !(
            phase is Handshaking) && !(phase is Status),
            LoginTurn::Fatal(error) => frame == LoginFrame::Error(error) && (phase is Handshaking
                || phase is Status || !(error is UnknownPacket)),
        },
{
}

/// What follows the access check, by rule.
pub open spec fn access_rule(denied: bool, compression_threshold: Option<i32>) -> (
    Option<LoginPhase>,
    Seq<LoginReply>,
) {
    if denied {
        (None, seq![LoginReply::Disconnect])
    } else {
        (
            Some(LoginPhase::AwaitingLoginAck),
            match compression_threshold {
                Some(threshold) if threshold >= 0 => seq![
                    LoginReply::SetCompression { threshold },
                    LoginReply::LoginSuccess,
                ],
                _ => seq![LoginReply::LoginSuccess],
            },
        )
    }
}

/// A denied player is told so and nothing else, and gets no further. An admitted one is told
/// of success, last; before it comes the compression threshold, as configured, exactly where
/// compression is on.
pub proof fn only_admitted_players_succeed(denied: bool, compression_threshold: Option<i32>)
    ensures
        ({
            let (next, replies) = access_rule(denied, compression_threshold);
            &&& next is Some == !denied
            &&& denied ==> replies.len() == 1 && replies[0] is Disconnect
            &&& !denied ==> replies.last() is LoginSuccess && next == Some(
                LoginPhase::AwaitingLoginAck,
            )
            &&& !denied && (compression_threshold matches Some(t) && t >= 0) ==> replies.len() == 2
                && replies[0] == (LoginReply::SetCompression {
                threshold: compression_threshold->Some_0,
            })
            &&& !denied && !(compression_threshold matches Some(t) && t >= 0) ==> replies.len() == 1
        }),
{
}

} // verus!
