//! Scene bootstrap: the decisions taken when the test room is set up and
//! the player is spawned. Spawning meshes, colliders and materials is the
//! host engine's work; what is decided here is which components the
//! spawned entities carry and when the game state moves into the level.

use vstd::prelude::*;
use crate::meme::{ContainerActivity, ContainerType, MemeContainer};
use crate::player::{PlayerCamera, PlayerFacing, PlayerMovement};
use crate::state::GameState;

verus! {

/// Height of the camera above the player origin (one metre): the camera is
/// the player's child at this fixed offset, rotated by pitch alone.
pub const CAMERA_OFFSET_Y: i64 = 1000;

/// Sets up the test room: moves the game into the level and describes the
/// tagged floor plane — an electronic, passive meme container holding an
/// infohazard — for the engine to attach to the spawned geometry.
pub fn setup_test_room(state: &mut GameState) -> (floor_tag: MemeContainer)
    ensures
        *final(state) == GameState::InLevel,
        floor_tag == (MemeContainer {
            container_type: ContainerType::Electronic,
            container_activity: ContainerActivity::Passive,
            contains_infohazard: true,
        }),
{
    crate::state::enter_level(state);
    MemeContainer {
        container_type: ContainerType::Electronic,
        container_activity: ContainerActivity::Passive,
        contains_infohazard: true,
    }
}

/// Spawns the player's simulation state: exactly when the game is in the
/// level, one player at rest with a level, straight-ahead camera rig.
pub fn spawn_player(state: &GameState) -> (r: Option<(PlayerMovement, PlayerFacing, PlayerCamera)>)
    ensures
        r is Some <==> *state == GameState::InLevel,
        r matches Some(p) ==> {
            &&& p.0 == (PlayerMovement {
                time_accelerating: 0,
                desired_velocity: crate::math::MilliVec3 { x: 0, y: 0, z: 0 },
                grounded: false,
                locked_velocity: false,
            })
            &&& p.1 == (PlayerFacing { yaw: 0 })
            &&& p.2 == (PlayerCamera { pitch: 0 })
            &&& p.0.wf()
            &&& p.1.wf()
            &&& p.2.wf()
        },
{
    match state {
        GameState::InLevel => Some(
            (PlayerMovement::default(), PlayerFacing::default(), PlayerCamera::default()),
        ),
        GameState::MainMenu => None,
    }
}

} // verus!
