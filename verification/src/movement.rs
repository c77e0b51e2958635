//! Movement packets: one is accepted or refused as a whole.

use crate::ieee754::{double_unit, Single};
use crate::math::{Rotation, Vec3};
use vstd::prelude::*;

verus! {

/// The farthest a player may stand from the origin, along each axis.
pub const MAX_PLAYER_COORDINATE: i32 = 30_000_000;

/// Whether a player may stand at a position: every coordinate is finite and within
/// the world boundary, which is included.
pub open spec fn valid_position(position: Vec3) -> bool {
    &&& position.x.within(-MAX_PLAYER_COORDINATE as int, MAX_PLAYER_COORDINATE as int)
    &&& position.y.within(-MAX_PLAYER_COORDINATE as int, MAX_PLAYER_COORDINATE as int)
    &&& position.z.within(-MAX_PLAYER_COORDINATE as int, MAX_PLAYER_COORDINATE as int)
}

/// Whether a player may stand at a position.
pub fn is_valid_player_position(position: Vec3) -> (r: bool)
    ensures
        r == valid_position(position),
{
    position.x.is_within(-MAX_PLAYER_COORDINATE, MAX_PLAYER_COORDINATE) && position.y.is_within(
        -MAX_PLAYER_COORDINATE,
        MAX_PLAYER_COORDINATE,
    ) && position.z.is_within(-MAX_PLAYER_COORDINATE, MAX_PLAYER_COORDINATE)
}

/// What a serverbound packet says of the player's movement.
#[derive(Clone, Copy, Debug, PartialEq, Eq, Structural)]
pub enum MovementPacket {
    /// A new position.
    Position(Vec3),
    /// A new position and look.
    PositionAndRotation(Vec3, Rotation),
    /// A new look.
    Rotation(Rotation),
    /// Nothing: the packet is of another kind.
    Other,
}

/// The components that a movement packet carries.
#[derive(Clone, Copy, Debug, PartialEq, Eq, Structural)]
pub struct MovementObservation {
    /// The position, where the packet carries one.
    pub position: Option<Vec3>,
    /// The horizontal look, where the packet carries one.
    pub yaw: Option<Single>,
    /// The vertical look, where the packet carries one.
    pub pitch: Option<Single>,
}

/// The verdict on one packet as a movement.
#[derive(Clone, Copy, Debug, PartialEq, Eq, Structural)]
pub enum MovementValidation {
    /// The packet is no movement.
    NotMovement,
    /// Every carried component is finite and any position is in range.
    Valid(MovementObservation),
    /// At least one carried component is unsafe; the whole packet is refused.
    Invalid,
}

impl MovementPacket {
    /// The components that the packet carries; none for another kind of packet.
    pub open spec fn components(self) -> MovementObservation {
        match self {
            MovementPacket::Position(position) => MovementObservation {
                position: Some(position),
                yaw: None,
                pitch: None,
            },
            MovementPacket::PositionAndRotation(position, look) => MovementObservation {
                position: Some(position),
                yaw: Some(look.yaw),
                pitch: Some(look.pitch),
            },
            MovementPacket::Rotation(look) => MovementObservation {
                position: None,
                yaw: Some(look.yaw),
                pitch: Some(look.pitch),
            },
            MovementPacket::Other => MovementObservation {
                position: None,
                yaw: None,
                pitch: None,
            },
        }
    }
}

impl MovementObservation {
    /// Whether every carried component is safe to act on.
    pub open spec fn safe(self) -> bool {
        &&& self.position matches Some(position) ==> valid_position(position)
        &&& self.yaw matches Some(yaw) ==> yaw.finite()
        &&& self.pitch matches Some(pitch) ==> pitch.finite()
    }
}

/// Validates one decoded movement packet as a whole.
///
/// Look angles may be any finite degrees. A combined packet is all or nothing.
pub fn validated_movement(packet: MovementPacket) -> (r: MovementValidation)
    ensures
        r == movement_verdict(packet),
        r == if packet is Other {
            MovementValidation::NotMovement
        } else if packet.components().safe() {
            MovementValidation::Valid(packet.components())
        } else {
            MovementValidation::Invalid
        },
{
    let movement = match packet {
        MovementPacket::Position(position) => MovementObservation {
            position: Some(position),
            yaw: None,
            pitch: None,
        },
        MovementPacket::PositionAndRotation(position, look) => MovementObservation {
            position: Some(position),
            yaw: Some(look.yaw),
            pitch: Some(look.pitch),
        },
        MovementPacket::Rotation(look) => MovementObservation {
            position: None,
            yaw: Some(look.yaw),
            pitch: Some(look.pitch),
        },
        MovementPacket::Other => {
            return MovementValidation::NotMovement;
        },
    };
    let valid_position = match movement.position {
        Some(position) => is_valid_player_position(position),
        None => true,
    };
    let valid_yaw = match movement.yaw {
        Some(yaw) => yaw.is_finite(),
        None => true,
    };
    let valid_pitch = match movement.pitch {
        Some(pitch) => pitch.is_finite(),
        None => true,
    };
    if valid_position && valid_yaw && valid_pitch {
        MovementValidation::Valid(movement)
    } else {
        MovementValidation::Invalid
    }
}

/// The position that a packet reports, whether or not a player may stand there.
pub fn reported_position(packet: MovementPacket) -> (r: Option<Vec3>)
    ensures
        r == packet.components().position,
{
    match packet {
        MovementPacket::Position(position) => Some(position),
        MovementPacket::PositionAndRotation(position, _) => Some(position),
        _ => None,
    }
}

/// The hand that performs an interaction.
#[derive(Clone, Copy, Debug, PartialEq, Eq, Structural)]
pub enum InteractHand {
    /// The main hand.
    Main,
    /// The off hand.
    Off,
}

/// Maps the wire hand index of a use-item packet to the hand.
///
/// `0` is the main hand; any other value is the off hand, so a malformed index is
/// never taken for a main-hand action.
pub fn interact_hand(hand: i32) -> (r: InteractHand)
    ensures
        r == if hand == 0 {
            InteractHand::Main
        } else {
            InteractHand::Off
        },
{
    if hand == 0 {
        InteractHand::Main
    } else {
        InteractHand::Off
    }
}

/// A player may stand exactly within thirty million blocks of the origin along every one of
/// the three axes, the boundary included on both sides; a coordinate that is not a finite
/// number is never within.
pub proof fn valid_positions_are_bounded(position: Vec3)
    ensures
        valid_position(position) == ({
            let bound = 30_000_000 * double_unit();
            &&& position.x.finite() && -bound <= position.x.numerator() <= bound
            &&& position.y.finite() && -bound <= position.y.numerator() <= bound
            &&& position.z.finite() && -bound <= position.z.numerator() <= bound
        }),
{
    assert(-30_000_000 * (double_unit() as int) == -(30_000_000 * double_unit()))
        by (nonlinear_arith);
}

/// The verdict on a packet, by rule.
pub open spec fn movement_verdict(packet: MovementPacket) -> MovementValidation {
    if packet is Other {
        MovementValidation::NotMovement
    } else if packet.components().safe() {
        MovementValidation::Valid(packet.components())
    } else {
        MovementValidation::Invalid
    }
}

/// What a movement with a position and a look observes is what the position alone and the
/// look alone observe: the same position, and the look's own yaw as the yaw and its own
/// pitch as the pitch. It is accepted exactly where both are, so it is refused as a whole.
pub proof fn combined_movement_is_both(position: Vec3, look: Rotation)
    ensures
        ({
            let moved = movement_verdict(MovementPacket::Position(position));
            let turned = movement_verdict(MovementPacket::Rotation(look));
            let both = movement_verdict(MovementPacket::PositionAndRotation(position, look));
            &&& both is Valid == (moved is Valid && turned is Valid)
            &&& !(both is NotMovement) && !(moved is NotMovement) && !(turned is NotMovement)
            &&& moved is Valid == valid_position(position)
            &&& turned is Valid == (look.yaw.finite() && look.pitch.finite())
            &&& moved matches MovementValidation::Valid(m) ==> m.position == Some(position)
                && m.yaw is None && m.pitch is None
            &&& turned matches MovementValidation::Valid(t) ==> t.position is None && t.yaw
                == Some(look.yaw) && t.pitch == Some(look.pitch)
            &&& both matches MovementValidation::Valid(b) ==> b.position == Some(position) && b.yaw
                == Some(look.yaw) && b.pitch == Some(look.pitch)
            &&& movement_verdict(MovementPacket::Other) is NotMovement
        }),
{
}

} // verus!
