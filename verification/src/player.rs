//! The player entity and the keyboard-to-movement decision.

use vstd::prelude::*;
use crate::animation::is_idle_state;
use crate::animation::spec_animation_from_movement;
use crate::animation::lemma_idle_exactly_without_horizontal_push;
use crate::movement::Movement;
use crate::movement::Vec2;

verus! {

/// A player entity. Health is in thousandths of a hit point and speed in
/// thousandths of a world unit per millisecond; `animation_state` is the
/// numeric facing code and `is_local` marks the player this machine steers.
#[derive(Clone, Copy, PartialEq, Eq, Structural, Debug)]
pub struct Player {
    pub health: i64,
    pub speed: i64,
    pub animation_state: u32,
    pub is_local: bool,
}

/// A fresh local player: full health (100 hit points), half a unit per
/// millisecond, showing the first facing.
pub fn create_player() -> (p: Player)
    ensures
        p == (Player { health: 100_000, speed: 500, animation_state: 0, is_local: true }),
{
    Player { health: 100_000, speed: 500, animation_state: 0, is_local: true }
}

/// The pressed state of the four movement keys, sampled once per frame.
#[derive(Clone, Copy, PartialEq, Eq, Structural, Debug)]
pub struct KeyInput {
    pub left: bool,
    pub right: bool,
    pub up: bool,
    pub down: bool,
}

/// The horizontal direction sign the keys select; the left key wins over the
/// right one.
pub open spec fn spec_input_dir_x(k: KeyInput) -> int {
    if k.left {
        -1
    } else if k.right {
        1
    } else {
        0
    }
}

/// The vertical direction sign the keys select; the up key wins over the
/// down one.
pub open spec fn spec_input_dir_y(k: KeyInput) -> int {
    if k.up {
        1
    } else if k.down {
        -1
    } else {
        0
    }
}

/// Steer one entity by the keys: a local player's direction becomes the
/// selected signs and its velocity its speed on both axes; any other entity
/// is left alone.
pub fn apply_local_input(movement: &mut Movement, player: &Player, keys: KeyInput)
    ensures
        !player.is_local ==> *final(movement) == *old(movement),
        player.is_local ==> {
            &&& final(movement).dir.x == spec_input_dir_x(keys)
            &&& final(movement).dir.y == spec_input_dir_y(keys)
            &&& final(movement).velocity.x == player.speed
            &&& final(movement).velocity.y == player.speed
            &&& final(movement).last_moving_dir == old(movement).last_moving_dir
        },
{
    if !player.is_local {
        return;
    }
    movement.dir.x = if keys.left {
        -1
    } else if keys.right {
        1
    } else {
        0
    };
    movement.dir.y = if keys.up {
        1
    } else if keys.down {
        -1
    } else {
        0
    };
    movement.velocity = Vec2 { x: player.speed, y: player.speed };
}

/// Steer every entity by this frame's keys.
pub fn local_player_input_system(entities: &mut Vec<(Movement, Player)>, keys: KeyInput)
    ensures
        final(entities)@.len() == old(entities)@.len(),
        forall|i: int| 0 <= i < old(entities)@.len() ==> {
            let m0 = old(entities)@[i].0;
            let p0 = old(entities)@[i].1;
            let m1 = (#[trigger] final(entities)@[i]).0;
            &&& final(entities)@[i].1 == p0
            &&& !p0.is_local ==> m1 == m0
            &&& p0.is_local ==> {
                &&& m1.dir.x == spec_input_dir_x(keys)
                &&& m1.dir.y == spec_input_dir_y(keys)
                &&& m1.velocity.x == p0.speed
                &&& m1.velocity.y == p0.speed
                &&& m1.last_moving_dir == m0.last_moving_dir
            }
        },
{
    let n = entities.len();
    let mut i: usize = 0;
    while i < n
        invariant
            n == old(entities)@.len(),
            i <= n,
            entities@.len() == n,
            forall|j: int| i <= j < n ==> #[trigger] entities@[j] == old(entities)@[j],
            forall|j: int| 0 <= j < i ==> {
                let m0 = old(entities)@[j].0;
                let p0 = old(entities)@[j].1;
                let m1 = (#[trigger] entities@[j]).0;
                &&& entities@[j].1 == p0
                &&& !p0.is_local ==> m1 == m0
                &&& p0.is_local ==> {
                    &&& m1.dir.x == spec_input_dir_x(keys)
                    &&& m1.dir.y == spec_input_dir_y(keys)
                    &&& m1.velocity.x == p0.speed
                    &&& m1.velocity.y == p0.speed
                    &&& m1.last_moving_dir == m0.last_moving_dir
                }
            },
        decreases n - i,
    {
        let pair = &mut entities[i];
        let player = pair.1;
        apply_local_input(&mut pair.0, &player, keys);
        i = i + 1;
    }
}

/// A movement steered by the keys selects an idle pose exactly when neither
/// horizontal key is down.
pub proof fn lemma_keys_idle_exactly_without_horizontal_key(k: KeyInput, m: Movement)
    requires
        m.dir.x == spec_input_dir_x(k),
    ensures
        is_idle_state(spec_animation_from_movement(m)) <==> !(k.left || k.right),
{
    lemma_idle_exactly_without_horizontal_push(m);
}

} // verus!
