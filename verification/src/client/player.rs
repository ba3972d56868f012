//! What a player's clicks do to the world.

use vstd::prelude::*;
use crate::math::IVec3;
use crate::multiplayer::message::ClientMessage;
use crate::voxel::block::Block;
use crate::voxel::block::BlockType;
use crate::voxel::world::World;
use crate::voxel::world::WorldView;

verus! {

/// What the player of this client looks at.
#[derive(Clone, Copy, Debug, PartialEq, Eq, Structural)]
pub struct Player {
    /// The solid cell in the line of sight.
    pub looking_at_pos: Option<IVec3>,
    /// The empty cell in front of it, where a block would be placed.
    pub placing_at_pos: Option<IVec3>,
}

impl Default for Player {
    fn default() -> (p: Player)
        ensures
            p.looking_at_pos is None,
            p.placing_at_pos is None,
    {
        Player { looking_at_pos: None, placing_at_pos: None }
    }
}

/// The buttons that count for editing, as they stand in one tick.
#[derive(Clone, Copy, Debug, PartialEq, Eq, Structural)]
pub struct EditInput {
    /// Whether the pointer is held by the window; clicks count only then.
    pub cursor_grabbed: bool,
    /// Whether the button that breaks a block went down in this tick.
    pub break_pressed: bool,
    /// Whether the button that places a block went down in this tick.
    pub place_pressed: bool,
}

/// The edit that a tick's input asks for, as the message that tells the
/// server of it: breaking wins over placing, and nothing happens without a
/// target or while the pointer is free.
pub open spec fn requested_edit(raycast: Option<(IVec3, IVec3, Block)>, input: EditInput) -> Option<ClientMessage> {
    match raycast {
        Some((looking_at, placing_at, _)) => if !input.cursor_grabbed {
            None
        } else if input.break_pressed {
            Some(ClientMessage::BreakBlock(looking_at))
        } else if input.place_pressed {
            Some(ClientMessage::PlaceBlock(placing_at, BlockType::Stone))
        } else {
            None
        },
        None => None,
    }
}

/// The store after an edit has been applied to it.
pub open spec fn with_edit(w: WorldView, edit: Option<ClientMessage>) -> WorldView {
    match edit {
        Some(ClientMessage::BreakBlock(pos)) => w.edit_voxel(pos, BlockType::Void),
        Some(ClientMessage::PlaceBlock(pos, block_type)) => w.edit_voxel(pos, block_type),
        _ => w,
    }
}

/// Takes the outcome of the tick's ray cast and the tick's input: notes
/// what the player looks at, applies the edit that the input asks for to
/// the client's own store, and hands out the message that tells the server
/// of it.
pub fn player_handle_voxel_raycast(
    player: &mut Player,
    world: &mut World,
    raycast: Option<(IVec3, IVec3, Block)>,
    input: EditInput,
) -> (message: Option<ClientMessage>)
    requires
        old(world).wf(),
    ensures
        final(world).wf(),
        final(player).looking_at_pos == (match raycast {
            Some((looking_at, _, _)) => Some(looking_at),
            None => None,
        }),
        final(player).placing_at_pos == (match raycast {
            Some((_, placing_at, _)) => Some(placing_at),
            None => None,
        }),
        message == requested_edit(raycast, input),
        final(world)@ == with_edit(old(world)@, message),
{
    match raycast {
        Some((looking_at_pos, placing_at_pos, _)) => {
            player.looking_at_pos = Some(looking_at_pos);
            player.placing_at_pos = Some(placing_at_pos);
            if !input.cursor_grabbed {
                None
            } else if input.break_pressed {
                world.edit_voxel(&looking_at_pos, BlockType::Void);
                Some(ClientMessage::BreakBlock(looking_at_pos))
            } else if input.place_pressed {
                world.edit_voxel(&placing_at_pos, BlockType::Stone);
                Some(ClientMessage::PlaceBlock(placing_at_pos, BlockType::Stone))
            } else {
                None
            }
        },
        None => {
            player.looking_at_pos = None;
            player.placing_at_pos = None;
            None
        },
    }
}

} // verus!
