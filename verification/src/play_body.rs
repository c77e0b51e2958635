//! One serverbound play frame: how it decodes, and where each packet goes.

use crate::chunk_stream::ChunkStream;
use crate::inventory::ItemStack;
use crate::math::{BlockPos, Rotation};
use crate::movement::{
    movement_verdict, validated_movement, MovementObservation, MovementPacket, MovementValidation,
};
use crate::wire::{as_signed, groups, is_var_int, read_var_int};
use vstd::prelude::*;

verus! {

/// The largest serverbound play packet number of the protocol.
pub const MAX_SERVERBOUND_PLAY_ID: i32 = 0x41;

/// A play packet, as far as its route depends on it.
#[derive(Clone, Copy, Debug, PartialEq, Eq, Structural)]
pub enum PlayPacket {
    /// A command.
    ChatCommand,
    /// A chat line.
    ChatMessage,
    /// A question for completions.
    TabCompleteRequest,
    /// The use of an item on a block.
    UseItemOn,
    /// A sign's new text.
    UpdateSign,
    /// A slot that a creative player fills.
    SetCreativeSlot,
    /// The selected hotbar slot.
    SetHeldItem,
    /// A click in a window.
    WindowClick,
    /// The end of a window.
    CloseContainer,
    /// The confirmation of a teleport.
    ConfirmTeleportation,
    /// The answer to a keep-alive.
    KeepAlive,
    /// A movement.
    Movement(MovementPacket),
    /// The break of a block.
    BlockBreak {
        /// Where.
        position: BlockPos,
        /// The block-action sequence.
        sequence: i32,
    },
    /// Anything else.
    Other,
}

/// What the protocol layer made of the bytes behind the packet number.
#[derive(Clone, Copy, Debug, PartialEq, Eq, Structural)]
pub enum ProtoOutcome {
    /// A packet, with so many bytes left over.
    Decoded {
        /// The packet.
        packet: PlayPacket,
        /// The bytes left over.
        remaining: usize,
    },
    /// The packet number is not modelled.
    UnknownId,
    /// The bytes are not a packet of that number.
    Malformed,
}

/// What the item codec made of the item in a creative-slot packet.
#[derive(Clone, Copy, Debug, PartialEq, Eq, Structural)]
pub enum ItemOutcome {
    /// An item, with so many bytes left over.
    Decoded {
        /// The stack, if it is one that is allowed.
        validated: Option<ItemStack>,
        /// The bytes left over.
        remaining: usize,
    },
    /// The bytes are no item.
    Malformed,
}

/// Why a play frame ends the session.
#[derive(Clone, Copy, Debug, PartialEq, Eq, Structural)]
pub enum DecodeError {
    /// The bytes are not what their packet number says.
    MalformedBody,
    /// The protocol has no such packet.
    UnknownPacket {
        /// The packet number.
        id: i32,
    },
    /// Bytes are left over.
    TrailingBytes {
        /// How many.
        trailing: usize,
    },
}

/// How a decode error is told to the peer.
#[derive(Clone, Copy, Debug, PartialEq, Eq, Structural)]
pub enum DisconnectClass {
    /// The packet does not parse.
    MalformedPacket,
    /// The packet breaks the protocol.
    ProtocolViolation,
}

impl DecodeError {
    /// How the error is told to the peer.
    pub fn disconnect_class(self) -> (r: DisconnectClass)
        ensures
            r == if self is MalformedBody {
                DisconnectClass::MalformedPacket
            } else {
                DisconnectClass::ProtocolViolation
            },
    {
        match self {
            DecodeError::MalformedBody => DisconnectClass::MalformedPacket,
            DecodeError::UnknownPacket { .. } => DisconnectClass::ProtocolViolation,
            DecodeError::TrailingBytes { .. } => DisconnectClass::ProtocolViolation,
        }
    }
}

/// A play frame that does not end the session.
#[derive(Clone, Copy, Debug, PartialEq, Eq, Structural)]
pub enum PlayBodyDecode {
    /// A packet, and the item of a creative-slot packet.
    Modelled {
        /// The packet.
        packet: PlayPacket,
        /// The item.
        creative_item: Option<ItemStack>,
    },
    /// A packet of the protocol that is not modelled.
    Unmodelled {
        /// The packet number.
        id: i32,
    },
}

/// Reads the packet number of a play frame: its value and its length.
pub fn play_packet_id(body: &[u8]) -> (r: Result<(i32, usize), DecodeError>)
    ensures
        match r {
            Ok((id, n)) => is_var_int(body@, n as int) && id == as_signed(groups(body@, n as int)),
            Err(error) => {
                &&& error is MalformedBody
                &&& forall|n: int| !#[trigger] is_var_int(body@, n)
            },
        },
{
    match read_var_int(body) {
        Some(found) => Ok(found),
        None => Err(DecodeError::MalformedBody),
    }
}

/// What a play frame decodes to, given what the protocol layer and the item codec
/// made of it.
pub open spec fn body_decode(id: i32, proto: ProtoOutcome, item: ItemOutcome) -> Result<
    PlayBodyDecode,
    DecodeError,
> {
    match proto {
        ProtoOutcome::UnknownId => if 0 <= id <= MAX_SERVERBOUND_PLAY_ID {
            Ok(PlayBodyDecode::Unmodelled { id })
        } else {
            Err(DecodeError::UnknownPacket { id })
        },
        ProtoOutcome::Malformed => Err(DecodeError::MalformedBody),
        ProtoOutcome::Decoded { packet, remaining } => if remaining > 0 {
            Err(DecodeError::TrailingBytes { trailing: remaining })
        } else if !(packet is SetCreativeSlot) {
            Ok(PlayBodyDecode::Modelled { packet, creative_item: None })
        } else {
            match item {
                ItemOutcome::Malformed => Err(DecodeError::MalformedBody),
                ItemOutcome::Decoded { validated, remaining } => if remaining > 0 {
                    Err(DecodeError::TrailingBytes { trailing: remaining })
                } else {
                    match validated {
                        Some(stack) => Ok(
                            PlayBodyDecode::Modelled { packet, creative_item: Some(stack) },
                        ),
                        None => Err(DecodeError::MalformedBody),
                    }
                },
            }
        },
    }
}

/// Decodes one complete play frame: every byte must be accounted for, in the frame and
/// in the item of a creative-slot packet, before anything acts on the packet. A packet
/// that the protocol has but that is not modelled is let pass.
pub fn decode_play_body(id: i32, proto: ProtoOutcome, item: ItemOutcome) -> (r: Result<
    PlayBodyDecode,
    DecodeError,
>)
    ensures
        r == body_decode(id, proto, item),
{
    let packet = match proto {
        ProtoOutcome::UnknownId => {
            if 0 <= id && id <= MAX_SERVERBOUND_PLAY_ID {
                return Ok(PlayBodyDecode::Unmodelled { id });
            }
            return Err(DecodeError::UnknownPacket { id });
        },
        ProtoOutcome::Malformed => {
            return Err(DecodeError::MalformedBody);
        },
        ProtoOutcome::Decoded { packet, remaining } => {
            if remaining > 0 {
                return Err(DecodeError::TrailingBytes { trailing: remaining });
            }
            packet
        },
    };
    match packet {
        PlayPacket::SetCreativeSlot => match item {
            ItemOutcome::Malformed => Err(DecodeError::MalformedBody),
            ItemOutcome::Decoded { validated, remaining } => {
                if remaining > 0 {
                    return Err(DecodeError::TrailingBytes { trailing: remaining });
                }
                match validated {
                    Some(stack) => Ok(
                        PlayBodyDecode::Modelled { packet, creative_item: Some(stack) },
                    ),
                    None => Err(DecodeError::MalformedBody),
                }
            },
        },
        _ => Ok(PlayBodyDecode::Modelled { packet, creative_item: None }),
    }
}

/// Where a play frame goes.
#[derive(Clone, Copy, Debug, PartialEq, Eq, Structural)]
pub enum PlayRoute {
    /// Nowhere; the frame is counted as an unknown packet.
    IgnoreUnmodelled {
        /// The packet number.
        id: i32,
    },
    /// The session ends.
    Fatal(DecodeError),
    /// Nowhere; the movement is unsafe and leaves no trace.
    DropMovement,
    /// To the simulation, and on admission to the connection's own mirrors.
    Movement(MovementObservation),
    /// To the command dispatch.
    Command,
    /// To the chat.
    Chat,
    /// To the completions.
    TabComplete,
    /// To the use of an item.
    UseItemOn,
    /// To the sign's shard.
    UpdateSign,
    /// To the inventory, with the validated item.
    CreativeSlot {
        /// The item.
        stack: ItemStack,
    },
    /// To the inventory.
    HeldItem,
    /// To the open window.
    WindowClick,
    /// To the open window.
    CloseContainer,
    /// Nowhere; it needs no answer.
    Accept,
    /// To the plugins, then to the simulation.
    BlockBreak {
        /// Where.
        position: BlockPos,
        /// The block-action sequence.
        sequence: i32,
    },
    /// To the simulation.
    Forward,
    /// The session ends: a creative-slot packet came without its item.
    MissingItem,
}

/// Where a play frame goes, by rule.
pub open spec fn play_route(decoded: Result<PlayBodyDecode, DecodeError>) -> PlayRoute {
    match decoded {
        Err(error) => PlayRoute::Fatal(error),
        Ok(PlayBodyDecode::Unmodelled { id }) => PlayRoute::IgnoreUnmodelled { id },
        Ok(PlayBodyDecode::Modelled { packet, creative_item }) => match packet {
            PlayPacket::ChatCommand => PlayRoute::Command,
            PlayPacket::ChatMessage => PlayRoute::Chat,
            PlayPacket::TabCompleteRequest => PlayRoute::TabComplete,
            PlayPacket::UseItemOn => PlayRoute::UseItemOn,
            PlayPacket::UpdateSign => PlayRoute::UpdateSign,
            PlayPacket::SetCreativeSlot => match creative_item {
                Some(stack) => PlayRoute::CreativeSlot { stack },
                None => PlayRoute::MissingItem,
            },
            PlayPacket::SetHeldItem => PlayRoute::HeldItem,
            PlayPacket::WindowClick => PlayRoute::WindowClick,
            PlayPacket::CloseContainer => PlayRoute::CloseContainer,
            PlayPacket::ConfirmTeleportation => PlayRoute::Accept,
            PlayPacket::KeepAlive => PlayRoute::Accept,
            PlayPacket::Movement(movement) => if movement is Other {
                PlayRoute::Forward
            } else if movement.components().safe() {
                PlayRoute::Movement(movement.components())
            } else {
                PlayRoute::DropMovement
            },
            PlayPacket::BlockBreak { position, sequence } => PlayRoute::BlockBreak {
                position,
                sequence,
            },
            PlayPacket::Other => PlayRoute::Forward,
        },
    }
}

/// Decides where a play frame goes.
pub fn handle_play_body(decoded: Result<PlayBodyDecode, DecodeError>) -> (r: PlayRoute)
    ensures
        r == play_route(decoded),
{
    let (packet, creative_item) = match decoded {
        Err(error) => {
            return PlayRoute::Fatal(error);
        },
        Ok(PlayBodyDecode::Unmodelled { id }) => {
            return PlayRoute::IgnoreUnmodelled { id };
        },
        Ok(PlayBodyDecode::Modelled { packet, creative_item }) => (packet, creative_item),
    };
    match packet {
        PlayPacket::ChatCommand => PlayRoute::Command,
        PlayPacket::ChatMessage => PlayRoute::Chat,
        PlayPacket::TabCompleteRequest => PlayRoute::TabComplete,
        PlayPacket::UseItemOn => PlayRoute::UseItemOn,
        PlayPacket::UpdateSign => PlayRoute::UpdateSign,
        PlayPacket::SetCreativeSlot => match creative_item {
            Some(stack) => PlayRoute::CreativeSlot { stack },
            None => PlayRoute::MissingItem,
        },
        PlayPacket::SetHeldItem => PlayRoute::HeldItem,
        PlayPacket::WindowClick => PlayRoute::WindowClick,
        PlayPacket::CloseContainer => PlayRoute::CloseContainer,
        PlayPacket::ConfirmTeleportation => PlayRoute::Accept,
        PlayPacket::KeepAlive => PlayRoute::Accept,
        PlayPacket::Movement(movement) => match validated_movement(movement) {
            MovementValidation::NotMovement => PlayRoute::Forward,
            MovementValidation::Valid(movement) => PlayRoute::Movement(movement),
            MovementValidation::Invalid => PlayRoute::DropMovement,
        },
        PlayPacket::BlockBreak { position, sequence } => PlayRoute::BlockBreak {
            position,
            sequence,
        },
        PlayPacket::Other => PlayRoute::Forward,
    }
}

/// A creative-slot packet that decodes always carries its validated item.
pub proof fn decoded_creative_slot_has_its_item(id: i32, proto: ProtoOutcome, item: ItemOutcome)
    ensures
        !(play_route(body_decode(id, proto, item)) is MissingItem),
{
}

/// The mirror of the player's look after a movement.
pub open spec fn look_after(look: Rotation, movement: MovementObservation) -> Rotation {
    Rotation {
        yaw: match movement.yaw {
            Some(yaw) => yaw,
            None => look.yaw,
        },
        pitch: match movement.pitch {
            Some(pitch) => pitch,
            None => look.pitch,
        },
    }
}

/// Mirrors the position of a safe movement once the simulation has answered, and returns
/// the block crossing to tell the plugins, if there is one. What the plugins emit is
/// routed next, and then [`mirror_look`] takes the look over.
///
/// A movement that was not admitted changes nothing.
pub fn mirror_movement(
    stream: &mut ChunkStream,
    movement: MovementObservation,
    admitted: bool,
) -> (r: Option<(BlockPos, BlockPos)>)
    requires
        old(stream).wf(),
        movement.safe(),
    ensures
        final(stream).wf(),
        old(stream).positions_are_safe() ==> final(stream).positions_are_safe(),
        !admitted ==> r is None && *final(stream) == *old(stream),
        admitted && movement.position is Some ==> *final(stream) == old(stream).moved_to(
            movement.position->Some_0,
        ) && r == old(stream).crossing(movement.position->Some_0),
        admitted ==> match movement.position {
            None => r is None && *final(stream) == *old(stream),
            Some(position) => {
                &&& *final(stream) == (ChunkStream {
                    pending_position: Some(position),
                    last_position: Some(position),
                    last_move_block: Some(position.block()),
                    ..*old(stream)
                })
                &&& r == match old(stream).last_move_block {
                    Some(from) if from != position.block() => Some((from, position.block())),
                    _ => None,
                }
            },
        },
{
    if !admitted {
        return None;
    }
    match movement.position {
        Some(position) => {
            stream.observe(position);
            stream.block_crossing(position)
        },
        None => None,
    }
}

/// Mirrors the look of a safe movement that was admitted, once what the plugins emitted
/// is routed.
pub fn mirror_look(look: &mut Rotation, movement: MovementObservation)
    ensures
        *final(look) == look_after(*old(look), movement),
{
    if let Some(yaw) = movement.yaw {
        look.yaw = yaw;
    }
    if let Some(pitch) = movement.pitch {
        look.pitch = pitch;
    }
}

/// A frame that decodes is the packet that the protocol layer made of it, with every byte
/// accounted for; a creative slot comes with the very item that was validated, and nothing
/// else does. A packet that is not modelled passes under its own number, where the protocol
/// has that number. What is refused is refused for what was found: a number that the protocol
/// does not have, bytes left over, or a body that is none.
pub proof fn frames_decode_to_what_was_found(id: i32, proto: ProtoOutcome, item: ItemOutcome)
    ensures
        match body_decode(id, proto, item) {
            Ok(PlayBodyDecode::Modelled { packet, creative_item }) => {
                &&& proto == (ProtoOutcome::Decoded { packet, remaining: 0 })
                &&& creative_item is Some == packet is SetCreativeSlot
                &&& creative_item is Some ==> item == (ItemOutcome::Decoded {
                    validated: creative_item,
                    remaining: 0,
                })
            },
            Ok(PlayBodyDecode::Unmodelled { id: passed }) => proto is UnknownId && passed == id
                && 0 <= id <= 65,
            Err(DecodeError::UnknownPacket { id: unknown }) => proto is UnknownId && unknown == id
                && !(0 <= id <= 65),
            Err(DecodeError::TrailingBytes { trailing }) => trailing > 0 && match proto {
                ProtoOutcome::Decoded { packet, remaining } => if remaining > 0 {
                    trailing == remaining
                } else {
                    &&& packet is SetCreativeSlot
                    &&& item matches ItemOutcome::Decoded { remaining, .. }
                    &&& trailing == remaining
                },
                _ => false,
            },
            Err(DecodeError::MalformedBody) => match proto {
                ProtoOutcome::Malformed => true,
                ProtoOutcome::Decoded { packet, remaining } => packet is SetCreativeSlot
                    && remaining == 0 && (item is Malformed || item == (ItemOutcome::Decoded {
                    validated: None,
                    remaining: 0,
                })),
                ProtoOutcome::UnknownId => false,
            },
        },
{
}

/// Every route tells which packet took it, and carries what the packet carries: an error
/// and a number pass as they are, an item is the packet's own, a break is where and under the
/// sequence that the packet says, and a movement is what validation observed of it.
pub proof fn routes_carry_their_packet(packet: PlayPacket, creative_item: Option<ItemStack>)
    ensures
        match play_route(Ok(PlayBodyDecode::Modelled { packet, creative_item })) {
            PlayRoute::IgnoreUnmodelled { .. } => false,
            PlayRoute::Fatal(_) => false,
            PlayRoute::DropMovement => packet matches PlayPacket::Movement(movement)
                && movement_verdict(movement) is Invalid,
            PlayRoute::Movement(observed) => packet matches PlayPacket::Movement(movement)
                && movement_verdict(movement) == MovementValidation::Valid(observed)
                && observed.safe(),
            PlayRoute::Command => packet is ChatCommand,
            PlayRoute::Chat => packet is ChatMessage,
            PlayRoute::TabComplete => packet is TabCompleteRequest,
            PlayRoute::UseItemOn => packet is UseItemOn,
            PlayRoute::UpdateSign => packet is UpdateSign,
            PlayRoute::CreativeSlot { stack } => packet is SetCreativeSlot && creative_item == Some(
                stack,
            ),
            PlayRoute::HeldItem => packet is SetHeldItem,
            PlayRoute::WindowClick => packet is WindowClick,
            PlayRoute::CloseContainer => packet is CloseContainer,
            PlayRoute::Accept => packet is ConfirmTeleportation || packet is KeepAlive,
            PlayRoute::BlockBreak { position, sequence } => packet == (PlayPacket::BlockBreak {
                position,
                sequence,
            }),
            PlayRoute::Forward => packet is Other || packet == PlayPacket::Movement(
                MovementPacket::Other,
            ),
            PlayRoute::MissingItem => packet is SetCreativeSlot && creative_item is None,
        },
{
}

/// A frame that does not decode ends the session with its own error, and one that is not
/// modelled is passed over under its own number.
pub proof fn undecoded_frames_are_told_apart(error: DecodeError, id: i32)
    ensures
        play_route(Err(error)) == PlayRoute::Fatal(error),
        play_route(Ok(PlayBodyDecode::Unmodelled { id })) == (PlayRoute::IgnoreUnmodelled { id }),
{
}

/// A movement changes what it carries and leaves the rest: a look that it carries becomes the
/// player's own, yaw as yaw and pitch as pitch, and a movement without one leaves it. The
/// same movement again changes nothing more.
pub proof fn looks_follow_movements(look: Rotation, movement: MovementObservation)
    ensures
        movement.yaw is None ==> look_after(look, movement).yaw == look.yaw,
        movement.pitch is None ==> look_after(look, movement).pitch == look.pitch,
        movement.yaw is Some ==> Some(look_after(look, movement).yaw) == movement.yaw,
        movement.pitch is Some ==> Some(look_after(look, movement).pitch) == movement.pitch,
        look_after(look_after(look, movement), movement) == look_after(look, movement),
{
}

} // verus!
