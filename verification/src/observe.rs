//! Packet traces: stable names for packets and errors, and the trace of one packet.

use crate::login::{ConnectionState, FrameError};
use vstd::prelude::*;

verus! {

/// The protocol state that a trace names.
#[derive(Clone, Copy, Debug, PartialEq, Eq, Structural)]
pub enum PacketState {
    /// Before the handshake.
    Handshaking,
    /// The server-list ping.
    Status,
    /// The login.
    Login,
    /// The configuration.
    Configuration,
    /// Play.
    Play,
}

/// The protocol state that a trace names, by the connection's.
pub open spec fn traced_state(state: ConnectionState) -> PacketState {
    match state {
        ConnectionState::Handshaking => PacketState::Handshaking,
        ConnectionState::Status => PacketState::Status,
        ConnectionState::Login => PacketState::Login,
        ConnectionState::Configuration => PacketState::Configuration,
        ConnectionState::Play => PacketState::Play,
    }
}

/// Maps a connection's protocol state onto the one that a trace names.
pub fn state_of(state: ConnectionState) -> (r: PacketState)
    ensures
        r == traced_state(state),
{
    match state {
        ConnectionState::Handshaking => PacketState::Handshaking,
        ConnectionState::Status => PacketState::Status,
        ConnectionState::Login => PacketState::Login,
        ConnectionState::Configuration => PacketState::Configuration,
        ConnectionState::Play => PacketState::Play,
    }
}

/// A serverbound packet before play, or a raw play frame.
#[derive(Clone, Copy, Debug, PartialEq, Eq, Structural)]
pub enum InboundPacket {
    /// `handshake`.
    Handshake,
    /// `status_request`.
    StatusRequest,
    /// `ping_request`.
    PingRequest,
    /// `login_start`.
    LoginStart,
    /// `login_acknowledged`.
    LoginAcknowledged,
    /// `client_information`.
    ClientInformation,
    /// `ack_finish_configuration`.
    AckFinishConfiguration,
    /// `serverbound_known_packs`.
    ServerboundKnownPacks,
    /// `play_raw`.
    Play,
}

impl InboundPacket {
    /// The stable name of the packet.
    pub open spec fn label(self) -> Seq<char> {
        match self {
            InboundPacket::Handshake => "handshake"@,
            InboundPacket::StatusRequest => "status_request"@,
            InboundPacket::PingRequest => "ping_request"@,
            InboundPacket::LoginStart => "login_start"@,
            InboundPacket::LoginAcknowledged => "login_acknowledged"@,
            InboundPacket::ClientInformation => "client_information"@,
            InboundPacket::AckFinishConfiguration => "ack_finish_configuration"@,
            InboundPacket::ServerboundKnownPacks => "serverbound_known_packs"@,
            InboundPacket::Play => "play_raw"@,
        }
    }
}

/// A stable name for a serverbound packet before play.
pub fn inbound_name(packet: InboundPacket) -> (r: &'static str)
    ensures
        r@ == packet.label(),
{
    match packet {
        InboundPacket::Handshake => "handshake",
        InboundPacket::StatusRequest => "status_request",
        InboundPacket::PingRequest => "ping_request",
        InboundPacket::LoginStart => "login_start",
        InboundPacket::LoginAcknowledged => "login_acknowledged",
        InboundPacket::ClientInformation => "client_information",
        InboundPacket::AckFinishConfiguration => "ack_finish_configuration",
        InboundPacket::ServerboundKnownPacks => "serverbound_known_packs",
        InboundPacket::Play => "play_raw",
    }
}

impl InboundPacket {
    /// The protocol state that the packet belongs to.
    pub open spec fn protocol(self) -> ConnectionState {
        match self {
            InboundPacket::Handshake => ConnectionState::Handshaking,
            InboundPacket::StatusRequest => ConnectionState::Status,
            InboundPacket::PingRequest => ConnectionState::Status,
            InboundPacket::LoginStart => ConnectionState::Login,
            InboundPacket::LoginAcknowledged => ConnectionState::Login,
            InboundPacket::ClientInformation => ConnectionState::Configuration,
            InboundPacket::AckFinishConfiguration => ConnectionState::Configuration,
            InboundPacket::ServerboundKnownPacks => ConnectionState::Configuration,
            InboundPacket::Play => ConnectionState::Play,
        }
    }

    /// The protocol state that the packet belongs to.
    pub fn state(self) -> (r: ConnectionState)
        ensures
            r == self.protocol(),
    {
        match self {
            InboundPacket::Handshake => ConnectionState::Handshaking,
            InboundPacket::StatusRequest | InboundPacket::PingRequest => ConnectionState::Status,
            InboundPacket::LoginStart | InboundPacket::LoginAcknowledged => ConnectionState::Login,
            InboundPacket::ClientInformation
            | InboundPacket::AckFinishConfiguration
            | InboundPacket::ServerboundKnownPacks => ConnectionState::Configuration,
            InboundPacket::Play => ConnectionState::Play,
        }
    }
}

/// The packet number that a trace of a serverbound packet names; a raw play frame has
/// none.
pub fn inbound_id(packet: InboundPacket, packet_id: i32) -> (r: i32)
    ensures
        r == if packet is Play {
            -1
        } else {
            packet_id as int
        },
{
    match packet {
        InboundPacket::Play => -1,
        _ => packet_id,
    }
}

/// A clientbound packet before play, or a raw play frame.
#[derive(Clone, Copy, Debug, PartialEq, Eq, Structural)]
pub enum OutboundPacket {
    /// `status_response`.
    StatusResponse,
    /// `pong_response`.
    PongResponse,
    /// `login_disconnect`.
    LoginDisconnect,
    /// `login_success`.
    LoginSuccess,
    /// `set_compression`.
    SetCompression,
    /// `finish_configuration`.
    FinishConfiguration,
    /// `registry_data`.
    RegistryData,
    /// `clientbound_known_packs`.
    ClientboundKnownPacks,
    /// `play_raw`.
    Play,
}

impl OutboundPacket {
    /// The stable name of the packet.
    pub open spec fn label(self) -> Seq<char> {
        match self {
            OutboundPacket::StatusResponse => "status_response"@,
            OutboundPacket::PongResponse => "pong_response"@,
            OutboundPacket::LoginDisconnect => "login_disconnect"@,
            OutboundPacket::LoginSuccess => "login_success"@,
            OutboundPacket::SetCompression => "set_compression"@,
            OutboundPacket::FinishConfiguration => "finish_configuration"@,
            OutboundPacket::RegistryData => "registry_data"@,
            OutboundPacket::ClientboundKnownPacks => "clientbound_known_packs"@,
            OutboundPacket::Play => "play_raw"@,
        }
    }
}

/// A stable name for a clientbound packet before play.
pub fn outbound_name(packet: OutboundPacket) -> (r: &'static str)
    ensures
        r@ == packet.label(),
{
    match packet {
        OutboundPacket::StatusResponse => "status_response",
        OutboundPacket::PongResponse => "pong_response",
        OutboundPacket::LoginDisconnect => "login_disconnect",
        OutboundPacket::LoginSuccess => "login_success",
        OutboundPacket::SetCompression => "set_compression",
        OutboundPacket::FinishConfiguration => "finish_configuration",
        OutboundPacket::RegistryData => "registry_data",
        OutboundPacket::ClientboundKnownPacks => "clientbound_known_packs",
        OutboundPacket::Play => "play_raw",
    }
}

impl OutboundPacket {
    /// The protocol state that the packet belongs to.
    pub open spec fn protocol(self) -> ConnectionState {
        match self {
            OutboundPacket::StatusResponse => ConnectionState::Status,
            OutboundPacket::PongResponse => ConnectionState::Status,
            OutboundPacket::LoginDisconnect => ConnectionState::Login,
            OutboundPacket::LoginSuccess => ConnectionState::Login,
            OutboundPacket::SetCompression => ConnectionState::Login,
            OutboundPacket::FinishConfiguration => ConnectionState::Configuration,
            OutboundPacket::RegistryData => ConnectionState::Configuration,
            OutboundPacket::ClientboundKnownPacks => ConnectionState::Configuration,
            OutboundPacket::Play => ConnectionState::Play,
        }
    }

    /// The protocol state that the packet belongs to.
    pub fn state(self) -> (r: ConnectionState)
        ensures
            r == self.protocol(),
    {
        match self {
            OutboundPacket::StatusResponse | OutboundPacket::PongResponse => {
                ConnectionState::Status
            },
            OutboundPacket::LoginDisconnect
            | OutboundPacket::LoginSuccess
            | OutboundPacket::SetCompression => ConnectionState::Login,
            OutboundPacket::FinishConfiguration
            | OutboundPacket::RegistryData
            | OutboundPacket::ClientboundKnownPacks => ConnectionState::Configuration,
            OutboundPacket::Play => ConnectionState::Play,
        }
    }
}

/// The packet number that a trace of a clientbound packet names; a raw play frame has
/// none.
pub fn outbound_id(packet: OutboundPacket, packet_id: i32) -> (r: i32)
    ensures
        r == if packet is Play {
            -1
        } else {
            packet_id as int
        },
{
    match packet {
        OutboundPacket::Play => -1,
        _ => packet_id,
    }
}

/// A clientbound play packet.
#[derive(Clone, Copy, Debug, PartialEq, Eq, Structural)]
pub enum ClientboundPlayPacket {
    /// `spawn_entity`.
    SpawnEntity,
    /// `acknowledge_block_change`.
    AcknowledgeBlockChange,
    /// `block_update`.
    BlockUpdate,
    /// `unload_chunk`.
    UnloadChunk,
    /// `game_event`.
    GameEvent,
    /// `clientbound_keep_alive`.
    ClientboundKeepAlive,
    /// `chunk_data_and_light`.
    ChunkDataAndLight,
    /// `join_game`.
    JoinGame,
    /// `player_info_update`.
    PlayerInfoUpdate,
    /// `synchronize_player_position`.
    SynchronizePlayerPosition,
    /// `set_center_chunk`.
    SetCenterChunk,
    /// `set_default_spawn_position`.
    SetDefaultSpawnPosition,
    /// `system_chat`.
    SystemChat,
    /// `entity_teleport`.
    EntityTeleport,
    /// `update_entity_position`.
    UpdateEntityPosition,
    /// `update_entity_position_and_rotation`.
    UpdateEntityPositionAndRotation,
    /// `update_entity_rotation`.
    UpdateEntityRotation,
    /// `set_head_rotation`.
    SetHeadRotation,
    /// `remove_entities`.
    RemoveEntities,
    /// `remove_player_info`.
    RemovePlayerInfo,
    /// `commands`.
    Commands,
    /// `tab_complete_response`.
    TabCompleteResponse,
    /// `set_container_content`.
    SetContainerContent,
    /// `set_container_slot`.
    SetContainerSlot,
    /// `clientbound_set_held_item`.
    ClientboundSetHeldItem,
    /// `player_abilities`.
    PlayerAbilities,
    /// `set_equipment`.
    SetEquipment,
    /// `set_title_text`.
    SetTitleText,
    /// `set_subtitle_text`.
    SetSubtitleText,
    /// `set_action_bar_text`.
    SetActionBarText,
    /// `set_title_animation_times`.
    SetTitleAnimationTimes,
    /// `update_time`.
    UpdateTime,
    /// `sound_effect`.
    SoundEffect,
    /// `particle`.
    Particle,
    /// `update_objectives`.
    UpdateObjectives,
    /// `display_objective`.
    DisplayObjective,
    /// `update_score`.
    UpdateScore,
    /// `set_player_team`.
    SetPlayerTeam,
    /// `boss_bar`.
    BossBar,
    /// `block_entity_data`.
    BlockEntityData,
    /// `open_sign_editor`.
    OpenSignEditor,
    /// `open_screen`.
    OpenScreen,
}

impl ClientboundPlayPacket {
    /// The stable name of the packet.
    pub open spec fn label(self) -> Seq<char> {
        match self {
            ClientboundPlayPacket::SpawnEntity => "spawn_entity"@,
            ClientboundPlayPacket::AcknowledgeBlockChange => "acknowledge_block_change"@,
            ClientboundPlayPacket::BlockUpdate => "block_update"@,
            ClientboundPlayPacket::UnloadChunk => "unload_chunk"@,
            ClientboundPlayPacket::GameEvent => "game_event"@,
            ClientboundPlayPacket::ClientboundKeepAlive => "clientbound_keep_alive"@,
            ClientboundPlayPacket::ChunkDataAndLight => "chunk_data_and_light"@,
            ClientboundPlayPacket::JoinGame => "join_game"@,
            ClientboundPlayPacket::PlayerInfoUpdate => "player_info_update"@,
            ClientboundPlayPacket::SynchronizePlayerPosition => "synchronize_player_position"@,
            ClientboundPlayPacket::SetCenterChunk => "set_center_chunk"@,
            ClientboundPlayPacket::SetDefaultSpawnPosition => "set_default_spawn_position"@,
            ClientboundPlayPacket::SystemChat => "system_chat"@,
            ClientboundPlayPacket::EntityTeleport => "entity_teleport"@,
            ClientboundPlayPacket::UpdateEntityPosition => "update_entity_position"@,
            ClientboundPlayPacket::UpdateEntityPositionAndRotation => "update_entity_position_and_rotation"@,
            ClientboundPlayPacket::UpdateEntityRotation => "update_entity_rotation"@,
            ClientboundPlayPacket::SetHeadRotation => "set_head_rotation"@,
            ClientboundPlayPacket::RemoveEntities => "remove_entities"@,
            ClientboundPlayPacket::RemovePlayerInfo => "remove_player_info"@,
            ClientboundPlayPacket::Commands => "commands"@,
            ClientboundPlayPacket::TabCompleteResponse => "tab_complete_response"@,
            ClientboundPlayPacket::SetContainerContent => "set_container_content"@,
            ClientboundPlayPacket::SetContainerSlot => "set_container_slot"@,
            ClientboundPlayPacket::ClientboundSetHeldItem => "clientbound_set_held_item"@,
            ClientboundPlayPacket::PlayerAbilities => "player_abilities"@,
            ClientboundPlayPacket::SetEquipment => "set_equipment"@,
            ClientboundPlayPacket::SetTitleText => "set_title_text"@,
            ClientboundPlayPacket::SetSubtitleText => "set_subtitle_text"@,
            ClientboundPlayPacket::SetActionBarText => "set_action_bar_text"@,
            ClientboundPlayPacket::SetTitleAnimationTimes => "set_title_animation_times"@,
            ClientboundPlayPacket::UpdateTime => "update_time"@,
            ClientboundPlayPacket::SoundEffect => "sound_effect"@,
            ClientboundPlayPacket::Particle => "particle"@,
            ClientboundPlayPacket::UpdateObjectives => "update_objectives"@,
            ClientboundPlayPacket::DisplayObjective => "display_objective"@,
            ClientboundPlayPacket::UpdateScore => "update_score"@,
            ClientboundPlayPacket::SetPlayerTeam => "set_player_team"@,
            ClientboundPlayPacket::BossBar => "boss_bar"@,
            ClientboundPlayPacket::BlockEntityData => "block_entity_data"@,
            ClientboundPlayPacket::OpenSignEditor => "open_sign_editor"@,
            ClientboundPlayPacket::OpenScreen => "open_screen"@,
        }
    }
}

/// A stable name for a clientbound play packet.
pub fn clientbound_play_name(packet: ClientboundPlayPacket) -> (r: &'static str)
    ensures
        r@ == packet.label(),
{
    match packet {
        ClientboundPlayPacket::SpawnEntity => "spawn_entity",
        ClientboundPlayPacket::AcknowledgeBlockChange => "acknowledge_block_change",
        ClientboundPlayPacket::BlockUpdate => "block_update",
        ClientboundPlayPacket::UnloadChunk => "unload_chunk",
        ClientboundPlayPacket::GameEvent => "game_event",
        ClientboundPlayPacket::ClientboundKeepAlive => "clientbound_keep_alive",
        ClientboundPlayPacket::ChunkDataAndLight => "chunk_data_and_light",
        ClientboundPlayPacket::JoinGame => "join_game",
        ClientboundPlayPacket::PlayerInfoUpdate => "player_info_update",
        ClientboundPlayPacket::SynchronizePlayerPosition => "synchronize_player_position",
        ClientboundPlayPacket::SetCenterChunk => "set_center_chunk",
        ClientboundPlayPacket::SetDefaultSpawnPosition => "set_default_spawn_position",
        ClientboundPlayPacket::SystemChat => "system_chat",
        ClientboundPlayPacket::EntityTeleport => "entity_teleport",
        ClientboundPlayPacket::UpdateEntityPosition => "update_entity_position",
        ClientboundPlayPacket::UpdateEntityPositionAndRotation => "update_entity_position_and_rotation",
        ClientboundPlayPacket::UpdateEntityRotation => "update_entity_rotation",
        ClientboundPlayPacket::SetHeadRotation => "set_head_rotation",
        ClientboundPlayPacket::RemoveEntities => "remove_entities",
        ClientboundPlayPacket::RemovePlayerInfo => "remove_player_info",
        ClientboundPlayPacket::Commands => "commands",
        ClientboundPlayPacket::TabCompleteResponse => "tab_complete_response",
        ClientboundPlayPacket::SetContainerContent => "set_container_content",
        ClientboundPlayPacket::SetContainerSlot => "set_container_slot",
        ClientboundPlayPacket::ClientboundSetHeldItem => "clientbound_set_held_item",
        ClientboundPlayPacket::PlayerAbilities => "player_abilities",
        ClientboundPlayPacket::SetEquipment => "set_equipment",
        ClientboundPlayPacket::SetTitleText => "set_title_text",
        ClientboundPlayPacket::SetSubtitleText => "set_subtitle_text",
        ClientboundPlayPacket::SetActionBarText => "set_action_bar_text",
        ClientboundPlayPacket::SetTitleAnimationTimes => "set_title_animation_times",
        ClientboundPlayPacket::UpdateTime => "update_time",
        ClientboundPlayPacket::SoundEffect => "sound_effect",
        ClientboundPlayPacket::Particle => "particle",
        ClientboundPlayPacket::UpdateObjectives => "update_objectives",
        ClientboundPlayPacket::DisplayObjective => "display_objective",
        ClientboundPlayPacket::UpdateScore => "update_score",
        ClientboundPlayPacket::SetPlayerTeam => "set_player_team",
        ClientboundPlayPacket::BossBar => "boss_bar",
        ClientboundPlayPacket::BlockEntityData => "block_entity_data",
        ClientboundPlayPacket::OpenSignEditor => "open_sign_editor",
        ClientboundPlayPacket::OpenScreen => "open_screen",
    }
}

/// A serverbound play packet.
#[derive(Clone, Copy, Debug, PartialEq, Eq, Structural)]
pub enum ServerboundPlayPacket {
    /// `confirm_teleportation`.
    ConfirmTeleportation,
    /// `chat_command`.
    ChatCommand,
    /// `serverbound_keep_alive`.
    ServerboundKeepAlive,
    /// `set_player_position`.
    SetPlayerPosition,
    /// `set_player_position_and_rotation`.
    SetPlayerPositionAndRotation,
    /// `set_player_rotation`.
    SetPlayerRotation,
    /// `player_action`.
    PlayerAction,
    /// `use_item_on`.
    UseItemOn,
    /// `chat_message`.
    ChatMessage,
    /// `tab_complete_request`.
    TabCompleteRequest,
    /// `serverbound_set_held_item`.
    ServerboundSetHeldItem,
    /// `set_creative_slot`.
    SetCreativeSlot,
    /// `window_click`.
    WindowClick,
    /// `close_container`.
    CloseContainer,
    /// `update_sign`.
    UpdateSign,
}

impl ServerboundPlayPacket {
    /// The stable name of the packet.
    pub open spec fn label(self) -> Seq<char> {
        match self {
            ServerboundPlayPacket::ConfirmTeleportation => "confirm_teleportation"@,
            ServerboundPlayPacket::ChatCommand => "chat_command"@,
            ServerboundPlayPacket::ServerboundKeepAlive => "serverbound_keep_alive"@,
            ServerboundPlayPacket::SetPlayerPosition => "set_player_position"@,
            ServerboundPlayPacket::SetPlayerPositionAndRotation => "set_player_position_and_rotation"@,
            ServerboundPlayPacket::SetPlayerRotation => "set_player_rotation"@,
            ServerboundPlayPacket::PlayerAction => "player_action"@,
            ServerboundPlayPacket::UseItemOn => "use_item_on"@,
            ServerboundPlayPacket::ChatMessage => "chat_message"@,
            ServerboundPlayPacket::TabCompleteRequest => "tab_complete_request"@,
            ServerboundPlayPacket::ServerboundSetHeldItem => "serverbound_set_held_item"@,
            ServerboundPlayPacket::SetCreativeSlot => "set_creative_slot"@,
            ServerboundPlayPacket::WindowClick => "window_click"@,
            ServerboundPlayPacket::CloseContainer => "close_container"@,
            ServerboundPlayPacket::UpdateSign => "update_sign"@,
        }
    }
}

/// A stable name for a serverbound play packet.
pub fn serverbound_play_name(packet: ServerboundPlayPacket) -> (r: &'static str)
    ensures
        r@ == packet.label(),
{
    match packet {
        ServerboundPlayPacket::ConfirmTeleportation => "confirm_teleportation",
        ServerboundPlayPacket::ChatCommand => "chat_command",
        ServerboundPlayPacket::ServerboundKeepAlive => "serverbound_keep_alive",
        ServerboundPlayPacket::SetPlayerPosition => "set_player_position",
        ServerboundPlayPacket::SetPlayerPositionAndRotation => "set_player_position_and_rotation",
        ServerboundPlayPacket::SetPlayerRotation => "set_player_rotation",
        ServerboundPlayPacket::PlayerAction => "player_action",
        ServerboundPlayPacket::UseItemOn => "use_item_on",
        ServerboundPlayPacket::ChatMessage => "chat_message",
        ServerboundPlayPacket::TabCompleteRequest => "tab_complete_request",
        ServerboundPlayPacket::ServerboundSetHeldItem => "serverbound_set_held_item",
        ServerboundPlayPacket::SetCreativeSlot => "set_creative_slot",
        ServerboundPlayPacket::WindowClick => "window_click",
        ServerboundPlayPacket::CloseContainer => "close_container",
        ServerboundPlayPacket::UpdateSign => "update_sign",
    }
}

/// Why the protocol layer could not decode a play packet.
#[derive(Clone, Copy, Debug, PartialEq, Eq, Structural)]
pub enum ProtoError {
    /// The packet number is not modelled.
    UnknownPacketId,
    /// The packet's NBT does not parse.
    Nbt,
    /// Anything else.
    Other,
}

/// Classifies a play packet that does not decode: its label, and whether the session's
/// traces are dumped. A packet that is not modelled is expected, and only counted.
pub fn play_decode_error(error: ProtoError) -> (r: (&'static str, bool))
    ensures
        r.0@ == match error {
            ProtoError::UnknownPacketId => "unknown_play"@,
            ProtoError::Nbt => "malformed_play_nbt"@,
            ProtoError::Other => "malformed_play"@,
        },
        r.1 == !(error is UnknownPacketId),
{
    match error {
        ProtoError::UnknownPacketId => ("unknown_play", false),
        ProtoError::Nbt => ("malformed_play_nbt", true),
        ProtoError::Other => ("malformed_play", true),
    }
}

/// The label of a frame that does not decode.
pub open spec fn error_label(error: FrameError) -> Seq<char> {
    match error {
        FrameError::FrameTooLarge => "frame_too_large"@,
        FrameError::BufferOverflow => "buffer_overflow"@,
        FrameError::BadLengthVarInt => "bad_length_varint"@,
        FrameError::NegativeLength => "negative_length"@,
        FrameError::UnknownPacket => "unknown_packet"@,
        FrameError::MalformedBody => "malformed_body"@,
        FrameError::TrailingBytes => "trailing_bytes"@,
        FrameError::OtherDecode => "decode"@,
        FrameError::Compression => "compression"@,
        FrameError::OtherFrame => "frame_decode"@,
    }
}

/// Maps a frame that does not decode onto its stable label.
pub fn decode_error_label(error: FrameError) -> (r: &'static str)
    ensures
        r@ == error_label(error),
{
    match error {
        FrameError::FrameTooLarge => "frame_too_large",
        FrameError::BufferOverflow => "buffer_overflow",
        FrameError::BadLengthVarInt => "bad_length_varint",
        FrameError::NegativeLength => "negative_length",
        FrameError::UnknownPacket => "unknown_packet",
        FrameError::MalformedBody => "malformed_body",
        FrameError::TrailingBytes => "trailing_bytes",
        FrameError::OtherDecode => "decode",
        FrameError::Compression => "compression",
        FrameError::OtherFrame => "frame_decode",
    }
}

/// The trace of one packet.
#[derive(Clone, Copy, Debug)]
pub struct PacketTrace {
    /// Whether the server sent it.
    pub outbound: bool,
    /// The protocol state.
    pub state: PacketState,
    /// The packet number.
    pub id: i32,
    /// The packet's name.
    pub name: &'static str,
    /// The size, where it is known; else zero.
    pub size: usize,
    /// Whether frames are compressed.
    pub compressed: bool,
    /// The tick.
    pub tick: u64,
}

/// Builds the trace of a clientbound packet before play, with its size on the wire.
pub fn trace_outbound(
    packet: OutboundPacket,
    packet_id: i32,
    size: usize,
    compressed: bool,
    tick: u64,
) -> (r: PacketTrace)
    ensures
        r.outbound,
        r.state == traced_state(packet.protocol()),
        r.id == if packet is Play {
            -1
        } else {
            packet_id as int
        },
        r.name@ == packet.label(),
        r.size == size,
        r.compressed == compressed,
        r.tick == tick,
{
    PacketTrace {
        outbound: true,
        state: state_of(packet.state()),
        id: outbound_id(packet, packet_id),
        name: outbound_name(packet),
        size,
        compressed,
        tick,
    }
}

/// Builds the trace of a clientbound play packet, whose size is not known yet.
pub fn trace_outbound_play(
    packet: ClientboundPlayPacket,
    packet_id: i32,
    compressed: bool,
    tick: u64,
) -> (r: PacketTrace)
    ensures
        r.outbound,
        r.state is Play,
        r.id == packet_id,
        r.name@ == packet.label(),
        r.size == 0,
        r.compressed == compressed,
        r.tick == tick,
{
    PacketTrace {
        outbound: true,
        state: PacketState::Play,
        id: packet_id,
        name: clientbound_play_name(packet),
        size: 0,
        compressed,
        tick,
    }
}

/// Builds the trace of a serverbound packet before play, whose size is not known.
pub fn trace_inbound_login(packet: InboundPacket, packet_id: i32, compressed: bool, tick: u64) -> (r:
    PacketTrace)
    ensures
        !r.outbound,
        r.state == traced_state(packet.protocol()),
        r.id == if packet is Play {
            -1
        } else {
            packet_id as int
        },
        r.name@ == packet.label(),
        r.size == 0,
        r.compressed == compressed,
        r.tick == tick,
{
    PacketTrace {
        outbound: false,
        state: state_of(packet.state()),
        id: inbound_id(packet, packet_id),
        name: inbound_name(packet),
        size: 0,
        compressed,
        tick,
    }
}

/// Builds the trace of a serverbound play packet, with the size of its frame.
pub fn trace_inbound_play(
    packet: ServerboundPlayPacket,
    packet_id: i32,
    size: usize,
    compressed: bool,
    tick: u64,
) -> (r: PacketTrace)
    ensures
        !r.outbound,
        r.state is Play,
        r.id == packet_id,
        r.name@ == packet.label(),
        r.size == size,
        r.compressed == compressed,
        r.tick == tick,
{
    PacketTrace {
        outbound: false,
        state: PacketState::Play,
        id: packet_id,
        name: serverbound_play_name(packet),
        size,
        compressed,
        tick,
    }
}

/// Every serverbound packet before play goes by its own name, and no two by the same.
pub proof fn inbound_packets_go_by_their_names(packet: InboundPacket)
    ensures
        (packet == InboundPacket::Handshake) == (packet.label() == "handshake"@),
        (packet == InboundPacket::StatusRequest) == (packet.label() == "status_request"@),
        (packet == InboundPacket::PingRequest) == (packet.label() == "ping_request"@),
        (packet == InboundPacket::LoginStart) == (packet.label() == "login_start"@),
        (packet == InboundPacket::LoginAcknowledged) == (packet.label() == "login_acknowledged"@),
        (packet == InboundPacket::ClientInformation) == (packet.label() == "client_information"@),
        (packet == InboundPacket::AckFinishConfiguration) == (packet.label() == "ack_finish_configuration"@),
        (packet == InboundPacket::ServerboundKnownPacks) == (packet.label() == "serverbound_known_packs"@),
        (packet == InboundPacket::Play) == (packet.label() == "play_raw"@),
{
    reveal_strlit("handshake");
    reveal_strlit("status_request");
    reveal_strlit("ping_request");
    reveal_strlit("login_start");
    reveal_strlit("login_acknowledged");
    reveal_strlit("client_information");
    reveal_strlit("ack_finish_configuration");
    reveal_strlit("serverbound_known_packs");
    reveal_strlit("play_raw");
    assert("handshake"@.len() == 9);
    assert("status_request"@.len() == 14);
    assert("ping_request"@.len() == 12);
    assert("login_start"@.len() == 11);
    assert("login_acknowledged"@.len() == 18);
    assert("client_information"@.len() == 18);
    assert("ack_finish_configuration"@.len() == 24);
    assert("serverbound_known_packs"@.len() == 23);
    assert("play_raw"@.len() == 8);
    assert("client_information"@[0] == 'c');
    assert("login_acknowledged"@[0] == 'l');
}

/// Every clientbound packet before play goes by its own name, and no two by the same.
pub proof fn outbound_packets_go_by_their_names(packet: OutboundPacket)
    ensures
        (packet == OutboundPacket::StatusResponse) == (packet.label() == "status_response"@),
        (packet == OutboundPacket::PongResponse) == (packet.label() == "pong_response"@),
        (packet == OutboundPacket::LoginDisconnect) == (packet.label() == "login_disconnect"@),
        (packet == OutboundPacket::LoginSuccess) == (packet.label() == "login_success"@),
        (packet == OutboundPacket::SetCompression) == (packet.label() == "set_compression"@),
        (packet == OutboundPacket::FinishConfiguration) == (packet.label() == "finish_configuration"@),
        (packet == OutboundPacket::RegistryData) == (packet.label() == "registry_data"@),
        (packet == OutboundPacket::ClientboundKnownPacks) == (packet.label() == "clientbound_known_packs"@),
        (packet == OutboundPacket::Play) == (packet.label() == "play_raw"@),
{
    reveal_strlit("status_response");
    reveal_strlit("pong_response");
    reveal_strlit("login_disconnect");
    reveal_strlit("login_success");
    reveal_strlit("set_compression");
    reveal_strlit("finish_configuration");
    reveal_strlit("registry_data");
    reveal_strlit("clientbound_known_packs");
    reveal_strlit("play_raw");
    assert("status_response"@.len() == 15);
    assert("pong_response"@.len() == 13);
    assert("login_disconnect"@.len() == 16);
    assert("login_success"@.len() == 13);
    assert("set_compression"@.len() == 15);
    assert("finish_configuration"@.len() == 20);
    assert("registry_data"@.len() == 13);
    assert("clientbound_known_packs"@.len() == 23);
    assert("play_raw"@.len() == 8);
    assert("login_success"@[0] == 'l');
    assert("pong_response"@[0] == 'p');
    assert("registry_data"@[0] == 'r');
    assert("set_compression"@[1] == 'e');
    assert("status_response"@[1] == 't');
}

/// Every clientbound play packet goes by its own name, and no two by the same.
pub proof fn clientbound_packets_go_by_their_names(packet: ClientboundPlayPacket)
    ensures
        (packet == ClientboundPlayPacket::SpawnEntity) == (packet.label() == "spawn_entity"@),
        (packet == ClientboundPlayPacket::AcknowledgeBlockChange) == (packet.label() == "acknowledge_block_change"@),
        (packet == ClientboundPlayPacket::BlockUpdate) == (packet.label() == "block_update"@),
        (packet == ClientboundPlayPacket::UnloadChunk) == (packet.label() == "unload_chunk"@),
        (packet == ClientboundPlayPacket::GameEvent) == (packet.label() == "game_event"@),
        (packet == ClientboundPlayPacket::ClientboundKeepAlive) == (packet.label() == "clientbound_keep_alive"@),
        (packet == ClientboundPlayPacket::ChunkDataAndLight) == (packet.label() == "chunk_data_and_light"@),
        (packet == ClientboundPlayPacket::JoinGame) == (packet.label() == "join_game"@),
        (packet == ClientboundPlayPacket::PlayerInfoUpdate) == (packet.label() == "player_info_update"@),
        (packet == ClientboundPlayPacket::SynchronizePlayerPosition) == (packet.label() == "synchronize_player_position"@),
        (packet == ClientboundPlayPacket::SetCenterChunk) == (packet.label() == "set_center_chunk"@),
        (packet == ClientboundPlayPacket::SetDefaultSpawnPosition) == (packet.label() == "set_default_spawn_position"@),
        (packet == ClientboundPlayPacket::SystemChat) == (packet.label() == "system_chat"@),
        (packet == ClientboundPlayPacket::EntityTeleport) == (packet.label() == "entity_teleport"@),
        (packet == ClientboundPlayPacket::UpdateEntityPosition) == (packet.label() == "update_entity_position"@),
        (packet == ClientboundPlayPacket::UpdateEntityPositionAndRotation) == (packet.label() == "update_entity_position_and_rotation"@),
        (packet == ClientboundPlayPacket::UpdateEntityRotation) == (packet.label() == "update_entity_rotation"@),
        (packet == ClientboundPlayPacket::SetHeadRotation) == (packet.label() == "set_head_rotation"@),
        (packet == ClientboundPlayPacket::RemoveEntities) == (packet.label() == "remove_entities"@),
        (packet == ClientboundPlayPacket::RemovePlayerInfo) == (packet.label() == "remove_player_info"@),
        (packet == ClientboundPlayPacket::Commands) == (packet.label() == "commands"@),
        (packet == ClientboundPlayPacket::TabCompleteResponse) == (packet.label() == "tab_complete_response"@),
        (packet == ClientboundPlayPacket::SetContainerContent) == (packet.label() == "set_container_content"@),
        (packet == ClientboundPlayPacket::SetContainerSlot) == (packet.label() == "set_container_slot"@),
        (packet == ClientboundPlayPacket::ClientboundSetHeldItem) == (packet.label() == "clientbound_set_held_item"@),
        (packet == ClientboundPlayPacket::PlayerAbilities) == (packet.label() == "player_abilities"@),
        (packet == ClientboundPlayPacket::SetEquipment) == (packet.label() == "set_equipment"@),
        (packet == ClientboundPlayPacket::SetTitleText) == (packet.label() == "set_title_text"@),
        (packet == ClientboundPlayPacket::SetSubtitleText) == (packet.label() == "set_subtitle_text"@),
        (packet == ClientboundPlayPacket::SetActionBarText) == (packet.label() == "set_action_bar_text"@),
        (packet == ClientboundPlayPacket::SetTitleAnimationTimes) == (packet.label() == "set_title_animation_times"@),
        (packet == ClientboundPlayPacket::UpdateTime) == (packet.label() == "update_time"@),
        (packet == ClientboundPlayPacket::SoundEffect) == (packet.label() == "sound_effect"@),
        (packet == ClientboundPlayPacket::Particle) == (packet.label() == "particle"@),
        (packet == ClientboundPlayPacket::UpdateObjectives) == (packet.label() == "update_objectives"@),
        (packet == ClientboundPlayPacket::DisplayObjective) == (packet.label() == "display_objective"@),
        (packet == ClientboundPlayPacket::UpdateScore) == (packet.label() == "update_score"@),
        (packet == ClientboundPlayPacket::SetPlayerTeam) == (packet.label() == "set_player_team"@),
        (packet == ClientboundPlayPacket::BossBar) == (packet.label() == "boss_bar"@),
        (packet == ClientboundPlayPacket::BlockEntityData) == (packet.label() == "block_entity_data"@),
        (packet == ClientboundPlayPacket::OpenSignEditor) == (packet.label() == "open_sign_editor"@),
        (packet == ClientboundPlayPacket::OpenScreen) == (packet.label() == "open_screen"@),
{
    reveal_strlit("spawn_entity");
    reveal_strlit("acknowledge_block_change");
    reveal_strlit("block_update");
    reveal_strlit("unload_chunk");
    reveal_strlit("game_event");
    reveal_strlit("clientbound_keep_alive");
    reveal_strlit("chunk_data_and_light");
    reveal_strlit("join_game");
    reveal_strlit("player_info_update");
    reveal_strlit("synchronize_player_position");
    reveal_strlit("set_center_chunk");
    reveal_strlit("set_default_spawn_position");
    reveal_strlit("system_chat");
    reveal_strlit("entity_teleport");
    reveal_strlit("update_entity_position");
    reveal_strlit("update_entity_position_and_rotation");
    reveal_strlit("update_entity_rotation");
    reveal_strlit("set_head_rotation");
    reveal_strlit("remove_entities");
    reveal_strlit("remove_player_info");
    reveal_strlit("commands");
    reveal_strlit("tab_complete_response");
    reveal_strlit("set_container_content");
    reveal_strlit("set_container_slot");
    reveal_strlit("clientbound_set_held_item");
    reveal_strlit("player_abilities");
    reveal_strlit("set_equipment");
    reveal_strlit("set_title_text");
    reveal_strlit("set_subtitle_text");
    reveal_strlit("set_action_bar_text");
    reveal_strlit("set_title_animation_times");
    reveal_strlit("update_time");
    reveal_strlit("sound_effect");
    reveal_strlit("particle");
    reveal_strlit("update_objectives");
    reveal_strlit("display_objective");
    reveal_strlit("update_score");
    reveal_strlit("set_player_team");
    reveal_strlit("boss_bar");
    reveal_strlit("block_entity_data");
    reveal_strlit("open_sign_editor");
    reveal_strlit("open_screen");
    assert("spawn_entity"@.len() == 12);
    assert("acknowledge_block_change"@.len() == 24);
    assert("block_update"@.len() == 12);
    assert("unload_chunk"@.len() == 12);
    assert("game_event"@.len() == 10);
    assert("clientbound_keep_alive"@.len() == 22);
    assert("chunk_data_and_light"@.len() == 20);
    assert("join_game"@.len() == 9);
    assert("player_info_update"@.len() == 18);
    assert("synchronize_player_position"@.len() == 27);
    assert("set_center_chunk"@.len() == 16);
    assert("set_default_spawn_position"@.len() == 26);
    assert("system_chat"@.len() == 11);
    assert("entity_teleport"@.len() == 15);
    assert("update_entity_position"@.len() == 22);
    assert("update_entity_position_and_rotation"@.len() == 35);
    assert("update_entity_rotation"@.len() == 22);
    assert("set_head_rotation"@.len() == 17);
    assert("remove_entities"@.len() == 15);
    assert("remove_player_info"@.len() == 18);
    assert("commands"@.len() == 8);
    assert("tab_complete_response"@.len() == 21);
    assert("set_container_content"@.len() == 21);
    assert("set_container_slot"@.len() == 18);
    assert("clientbound_set_held_item"@.len() == 25);
    assert("player_abilities"@.len() == 16);
    assert("set_equipment"@.len() == 13);
    assert("set_title_text"@.len() == 14);
    assert("set_subtitle_text"@.len() == 17);
    assert("set_action_bar_text"@.len() == 19);
    assert("set_title_animation_times"@.len() == 25);
    assert("update_time"@.len() == 11);
    assert("sound_effect"@.len() == 12);
    assert("particle"@.len() == 8);
    assert("update_objectives"@.len() == 17);
    assert("display_objective"@.len() == 17);
    assert("update_score"@.len() == 12);
    assert("set_player_team"@.len() == 15);
    assert("boss_bar"@.len() == 8);
    assert("block_entity_data"@.len() == 17);
    assert("open_sign_editor"@.len() == 16);
    assert("open_screen"@.len() == 11);
    assert("block_entity_data"@[0] == 'b');
    assert("block_update"@[0] == 'b');
    assert("boss_bar"@[0] == 'b');
    assert("clientbound_keep_alive"@[0] == 'c');
    assert("clientbound_set_held_item"@[0] == 'c');
    assert("commands"@[0] == 'c');
    assert("display_objective"@[0] == 'd');
    assert("entity_teleport"@[0] == 'e');
    assert("open_screen"@[0] == 'o');
    assert("open_sign_editor"@[0] == 'o');
    assert("particle"@[0] == 'p');
    assert("player_abilities"@[0] == 'p');
    assert("player_info_update"@[0] == 'p');
    assert("remove_entities"@[0] == 'r');
    assert("remove_player_info"@[0] == 'r');
    assert("set_center_chunk"@[0] == 's');
    assert("set_container_content"@[0] == 's');
    assert("set_container_slot"@[0] == 's');
    assert("set_head_rotation"@[0] == 's');
    assert("set_head_rotation"@[4] == 'h');
    assert("set_player_team"@[0] == 's');
    assert("set_subtitle_text"@[0] == 's');
    assert("set_subtitle_text"@[4] == 's');
    assert("set_title_animation_times"@[0] == 's');
    assert("sound_effect"@[0] == 's');
    assert("sound_effect"@[1] == 'o');
    assert("spawn_entity"@[0] == 's');
    assert("spawn_entity"@[1] == 'p');
    assert("system_chat"@[0] == 's');
    assert("tab_complete_response"@[0] == 't');
    assert("unload_chunk"@[0] == 'u');
    assert("unload_chunk"@[1] == 'n');
    assert("update_entity_position"@[0] == 'u');
    assert("update_entity_position"@[14] == 'p');
    assert("update_entity_rotation"@[0] == 'u');
    assert("update_entity_rotation"@[14] == 'r');
    assert("update_objectives"@[0] == 'u');
    assert("update_score"@[0] == 'u');
    assert("update_score"@[1] == 'p');
    assert("update_time"@[0] == 'u');
}

/// Every serverbound play packet goes by its own name, and no two by the same.
pub proof fn serverbound_packets_go_by_their_names(packet: ServerboundPlayPacket)
    ensures
        (packet == ServerboundPlayPacket::ConfirmTeleportation) == (packet.label() == "confirm_teleportation"@),
        (packet == ServerboundPlayPacket::ChatCommand) == (packet.label() == "chat_command"@),
        (packet == ServerboundPlayPacket::ServerboundKeepAlive) == (packet.label() == "serverbound_keep_alive"@),
        (packet == ServerboundPlayPacket::SetPlayerPosition) == (packet.label() == "set_player_position"@),
        (packet == ServerboundPlayPacket::SetPlayerPositionAndRotation) == (packet.label() == "set_player_position_and_rotation"@),
        (packet == ServerboundPlayPacket::SetPlayerRotation) == (packet.label() == "set_player_rotation"@),
        (packet == ServerboundPlayPacket::PlayerAction) == (packet.label() == "player_action"@),
        (packet == ServerboundPlayPacket::UseItemOn) == (packet.label() == "use_item_on"@),
        (packet == ServerboundPlayPacket::ChatMessage) == (packet.label() == "chat_message"@),
        (packet == ServerboundPlayPacket::TabCompleteRequest) == (packet.label() == "tab_complete_request"@),
        (packet == ServerboundPlayPacket::ServerboundSetHeldItem) == (packet.label() == "serverbound_set_held_item"@),
        (packet == ServerboundPlayPacket::SetCreativeSlot) == (packet.label() == "set_creative_slot"@),
        (packet == ServerboundPlayPacket::WindowClick) == (packet.label() == "window_click"@),
        (packet == ServerboundPlayPacket::CloseContainer) == (packet.label() == "close_container"@),
        (packet == ServerboundPlayPacket::UpdateSign) == (packet.label() == "update_sign"@),
{
    reveal_strlit("confirm_teleportation");
    reveal_strlit("chat_command");
    reveal_strlit("serverbound_keep_alive");
    reveal_strlit("set_player_position");
    reveal_strlit("set_player_position_and_rotation");
    reveal_strlit("set_player_rotation");
    reveal_strlit("player_action");
    reveal_strlit("use_item_on");
    reveal_strlit("chat_message");
    reveal_strlit("tab_complete_request");
    reveal_strlit("serverbound_set_held_item");
    reveal_strlit("set_creative_slot");
    reveal_strlit("window_click");
    reveal_strlit("close_container");
    reveal_strlit("update_sign");
    assert("confirm_teleportation"@.len() == 21);
    assert("chat_command"@.len() == 12);
    assert("serverbound_keep_alive"@.len() == 22);
    assert("set_player_position"@.len() == 19);
    assert("set_player_position_and_rotation"@.len() == 32);
    assert("set_player_rotation"@.len() == 19);
    assert("player_action"@.len() == 13);
    assert("use_item_on"@.len() == 11);
    assert("chat_message"@.len() == 12);
    assert("tab_complete_request"@.len() == 20);
    assert("serverbound_set_held_item"@.len() == 25);
    assert("set_creative_slot"@.len() == 17);
    assert("window_click"@.len() == 12);
    assert("close_container"@.len() == 15);
    assert("update_sign"@.len() == 11);
    assert("chat_command"@[0] == 'c');
    assert("chat_command"@[5] == 'c');
    assert("chat_message"@[0] == 'c');
    assert("chat_message"@[5] == 'm');
    assert("set_player_position"@[11] == 'p');
    assert("set_player_rotation"@[11] == 'r');
    assert("update_sign"@[1] == 'p');
    assert("use_item_on"@[1] == 's');
    assert("window_click"@[0] == 'w');
}

/// Every failure of a frame goes by its own label, and no two by the same.
pub proof fn frame_errors_go_by_their_labels(error: FrameError)
    ensures
        (error == FrameError::FrameTooLarge) == (error_label(error) == "frame_too_large"@),
        (error == FrameError::BufferOverflow) == (error_label(error) == "buffer_overflow"@),
        (error == FrameError::BadLengthVarInt) == (error_label(error) == "bad_length_varint"@),
        (error == FrameError::NegativeLength) == (error_label(error) == "negative_length"@),
        (error == FrameError::UnknownPacket) == (error_label(error) == "unknown_packet"@),
        (error == FrameError::MalformedBody) == (error_label(error) == "malformed_body"@),
        (error == FrameError::TrailingBytes) == (error_label(error) == "trailing_bytes"@),
        (error == FrameError::OtherDecode) == (error_label(error) == "decode"@),
        (error == FrameError::Compression) == (error_label(error) == "compression"@),
        (error == FrameError::OtherFrame) == (error_label(error) == "frame_decode"@),
{
    reveal_strlit("frame_too_large");
    reveal_strlit("buffer_overflow");
    reveal_strlit("bad_length_varint");
    reveal_strlit("negative_length");
    reveal_strlit("unknown_packet");
    reveal_strlit("malformed_body");
    reveal_strlit("trailing_bytes");
    reveal_strlit("decode");
    reveal_strlit("compression");
    reveal_strlit("frame_decode");
    assert("frame_too_large"@.len() == 15);
    assert("buffer_overflow"@.len() == 15);
    assert("bad_length_varint"@.len() == 17);
    assert("negative_length"@.len() == 15);
    assert("unknown_packet"@.len() == 14);
    assert("malformed_body"@.len() == 14);
    assert("trailing_bytes"@.len() == 14);
    assert("decode"@.len() == 6);
    assert("compression"@.len() == 11);
    assert("frame_decode"@.len() == 12);
    assert("buffer_overflow"@[0] == 'b');
    assert("frame_too_large"@[0] == 'f');
    assert("malformed_body"@[0] == 'm');
    assert("negative_length"@[0] == 'n');
    assert("trailing_bytes"@[0] == 't');
    assert("unknown_packet"@[0] == 'u');
}

/// A trace names the state that the connection is in, and a packet is traced in the state that
/// it belongs to.
pub proof fn traces_name_the_state(
    state: ConnectionState,
    inbound: InboundPacket,
    outbound: OutboundPacket,
)
    ensures
        traced_state(state) is Handshaking == state is Handshaking,
        traced_state(state) is Status == state is Status,
        traced_state(state) is Login == state is Login,
        traced_state(state) is Configuration == state is Configuration,
        traced_state(state) is Play == state is Play,
        inbound.protocol() is Handshaking == inbound is Handshake,
        inbound.protocol() is Status == (inbound is StatusRequest || inbound is PingRequest),
        inbound.protocol() is Login == (inbound is LoginStart || inbound is LoginAcknowledged),
        inbound.protocol() is Play == inbound is Play,
        outbound.protocol() is Status == (outbound is StatusResponse || outbound is PongResponse),
        outbound.protocol() is Login == (outbound is LoginDisconnect || outbound is LoginSuccess
            || outbound is SetCompression),
        outbound.protocol() is Configuration == (outbound is FinishConfiguration
            || outbound is RegistryData || outbound is ClientboundKnownPacks),
        outbound.protocol() is Play == outbound is Play,
{
}

} // verus!
