//! Which packets tell a client that an entity has moved.
//!
//! A client is told of a move by the distance moved since the position it
//! knows, and of a turn by the new angles. Distances and angles come in the
//! units of the protocol, worked out by the caller from the positions.

use vstd::prelude::*;

verus! {

/// How an entity has moved since the position that a client knows of it.
#[derive(Clone, Copy, Debug, PartialEq, Eq, Structural)]
pub struct MovementUpdate {
    /// Whether a coordinate of the position has changed.
    pub has_moved: bool,
    /// Whether an angle has changed, or whether the entity stands on the
    /// ground.
    pub has_looked: bool,
    /// The distance moved along each axis.
    pub delta_x: i16,
    pub delta_y: i16,
    pub delta_z: i16,
    /// The new angles.
    pub yaw: u8,
    pub pitch: u8,
    /// Whether the entity now stands on the ground.
    pub on_ground: bool,
}

/// A packet that tells of a move or a turn.
#[derive(Clone, Copy, Debug, PartialEq, Eq, Structural)]
pub enum MovementPacket {
    EntityLookAndRelativeMove {
        entity_id: i32,
        delta_x: i16,
        delta_y: i16,
        delta_z: i16,
        yaw: u8,
        pitch: u8,
        on_ground: bool,
    },
    EntityRelativeMove { entity_id: i32, delta_x: i16, delta_y: i16, delta_z: i16, on_ground: bool },
    EntityLook { entity_id: i32, yaw: u8, pitch: u8, on_ground: bool },
    EntityHeadLook { entity_id: i32, head_yaw: u8 },
}

/// The packets that tell a client of `update`: none where nothing has
/// changed or the move is too small to show; else one packet for the move,
/// the turn or both, and the turn of the head after it where the entity
/// has turned.
pub open spec fn movement_packets(entity_id: i32, update: MovementUpdate) -> Seq<MovementPacket> {
    let moves = update.delta_x != 0 || update.delta_y != 0 || update.delta_z != 0;
    let head = MovementPacket::EntityHeadLook { entity_id, head_yaw: update.yaw };
    if update.has_moved && update.has_looked {
        seq![
            MovementPacket::EntityLookAndRelativeMove {
                entity_id,
                delta_x: update.delta_x,
                delta_y: update.delta_y,
                delta_z: update.delta_z,
                yaw: update.yaw,
                pitch: update.pitch,
                on_ground: update.on_ground,
            },
            head,
        ]
    } else if update.has_moved {
        if moves {
            seq![
                MovementPacket::EntityRelativeMove {
                    entity_id,
                    delta_x: update.delta_x,
                    delta_y: update.delta_y,
                    delta_z: update.delta_z,
                    on_ground: update.on_ground,
                },
            ]
        } else {
            Seq::empty()
        }
    } else if update.has_looked {
        seq![
            MovementPacket::EntityLook {
                entity_id,
                yaw: update.yaw,
                pitch: update.pitch,
                on_ground: update.on_ground,
            },
            head,
        ]
    } else {
        Seq::empty()
    }
}

/// Returns the packets needed to notify a client
/// of a position update, from the old position to the new one.
pub fn packets_for_movement_update(entity_id: i32, update: &MovementUpdate) -> (r: Vec<
    MovementPacket,
>)
    ensures
        r@ == movement_packets(entity_id, *update),
{
    let mut packets: Vec<MovementPacket> = Vec::new();
    if !update.has_moved && !update.has_looked {
        return packets;
    }
    if update.has_moved {
        let (rx, ry, rz) = (update.delta_x, update.delta_y, update.delta_z);
        if (rx == 0 && ry == 0 && rz == 0) && !update.has_looked {
            // The physics system may report a move when the distance
            // moved is minuscule, which causes jittering on the client.
            // Don't send the packet if it has no effect.
            return packets;
        }
        if update.has_looked {
            packets.push(
                MovementPacket::EntityLookAndRelativeMove {
                    entity_id,
                    delta_x: rx,
                    delta_y: ry,
                    delta_z: rz,
                    yaw: update.yaw,
                    pitch: update.pitch,
                    on_ground: update.on_ground,
                },
            );
        } else {
            packets.push(
                MovementPacket::EntityRelativeMove {
                    entity_id,
                    delta_x: rx,
                    delta_y: ry,
                    delta_z: rz,
                    on_ground: update.on_ground,
                },
            );
        }
    } else {
        packets.push(
            MovementPacket::EntityLook {
                entity_id,
                yaw: update.yaw,
                pitch: update.pitch,
                on_ground: update.on_ground,
            },
        );
    }
    // Entity Head Look also needs to be sent if the entity turned its head
    if update.has_looked {
        packets.push(MovementPacket::EntityHeadLook { entity_id, head_yaw: update.yaw });
    }
    proof {
        assert(packets@ =~= movement_packets(entity_id, *update));
    }
    packets
}

} // verus!
