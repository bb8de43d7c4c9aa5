//! Movement state and per-frame position integration.

use vstd::prelude::*;

verus! {

/// A two-component integer vector.
///
/// Direction vectors hold plain signs (-1, 0 or 1 per axis); velocities hold
/// thousandths of a world unit per millisecond.
#[derive(Clone, Copy, PartialEq, Eq, Structural, Debug)]
pub struct Vec2 {
    pub x: i64,
    pub y: i64,
}

/// A three-component integer vector; positions are in thousandths of a
/// world unit.
#[derive(Clone, Copy, PartialEq, Eq, Structural, Debug)]
pub struct Vec3 {
    pub x: i64,
    pub y: i64,
    pub z: i64,
}

/// Where an entity stands in the world.
#[derive(Clone, Copy, PartialEq, Eq, Structural, Debug)]
pub struct Transform {
    pub translation: Vec3,
}

/// How an entity moves: the direction it is pushed in this frame, the last
/// direction it actually moved in (which picks the idle facing), and its
/// speed on each axis.
#[derive(Clone, Copy, PartialEq, Eq, Structural, Debug)]
pub struct Movement {
    pub dir: Vec2,
    pub last_moving_dir: Vec2,
    pub velocity: Vec2,
}

/// An entity is moving exactly when its direction has a nonzero component.
pub open spec fn is_moving(dir: Vec2) -> bool {
    dir.x != 0 || dir.y != 0
}

/// The displacement of one frame on one axis: elapsed milliseconds times
/// direction sign times velocity.
pub open spec fn axis_step(dt_millis: i64, dir: i64, velocity: i64) -> int {
    dt_millis * dir * velocity
}

/// Both axis products and both updated coordinates stay inside `i64`.
pub open spec fn movement_step_fits(t: Transform, m: Movement, dt_millis: i64) -> bool {
    &&& i64::MIN <= dt_millis * m.dir.x <= i64::MAX
    &&& i64::MIN <= dt_millis * m.dir.y <= i64::MAX
    &&& i64::MIN <= axis_step(dt_millis, m.dir.x, m.velocity.x) <= i64::MAX
    &&& i64::MIN <= axis_step(dt_millis, m.dir.y, m.velocity.y) <= i64::MAX
    &&& i64::MIN <= t.translation.x + axis_step(dt_millis, m.dir.x, m.velocity.x) <= i64::MAX
    &&& i64::MIN <= t.translation.y + axis_step(dt_millis, m.dir.y, m.velocity.y) <= i64::MAX
}

/// Integrate one frame of movement for one entity: remember the direction as
/// the last moving direction while the entity moves, and advance the
/// translation by elapsed time times direction times velocity on each axis.
pub fn move_entity(transform: &mut Transform, movement: &mut Movement, dt_millis: i64)
    requires
        movement_step_fits(*old(transform), *old(movement), dt_millis),
    ensures
        final(movement).dir == old(movement).dir,
        final(movement).velocity == old(movement).velocity,
        final(movement).last_moving_dir == (if is_moving(old(movement).dir) {
            old(movement).dir
        } else {
            old(movement).last_moving_dir
        }),
        final(transform).translation.x == old(transform).translation.x
            + axis_step(dt_millis, old(movement).dir.x, old(movement).velocity.x),
        final(transform).translation.y == old(transform).translation.y
            + axis_step(dt_millis, old(movement).dir.y, old(movement).velocity.y),
        final(transform).translation.z == old(transform).translation.z,
{
    if movement.dir.x != 0 || movement.dir.y != 0 {
        movement.last_moving_dir = movement.dir;
    }
    let step_x: i64 = dt_millis * movement.dir.x;
    let step_y: i64 = dt_millis * movement.dir.y;
    let dx: i64 = step_x * movement.velocity.x;
    let dy: i64 = step_y * movement.velocity.y;
    transform.translation.x = transform.translation.x + dx;
    transform.translation.y = transform.translation.y + dy;
}

/// Integrate one frame of movement for every entity in the world.
pub fn entity_movement_system(entities: &mut Vec<(Transform, Movement)>, dt_millis: i64)
    requires
        forall|i: int| 0 <= i < old(entities)@.len()
            ==> movement_step_fits((#[trigger] old(entities)@[i]).0, old(entities)@[i].1, dt_millis),
    ensures
        final(entities)@.len() == old(entities)@.len(),
        forall|i: int| 0 <= i < old(entities)@.len() ==> {
            let t0 = old(entities)@[i].0;
            let m0 = old(entities)@[i].1;
            let t1 = (#[trigger] final(entities)@[i]).0;
            let m1 = final(entities)@[i].1;
            &&& m1.dir == m0.dir
            &&& m1.velocity == m0.velocity
            &&& m1.last_moving_dir == (if is_moving(m0.dir) { m0.dir } else { m0.last_moving_dir })
            &&& t1.translation.x == t0.translation.x + axis_step(dt_millis, m0.dir.x, m0.velocity.x)
            &&& t1.translation.y == t0.translation.y + axis_step(dt_millis, m0.dir.y, m0.velocity.y)
            &&& t1.translation.z == t0.translation.z
        },
{
    let n = entities.len();
    let mut i: usize = 0;
    while i < n
        invariant
            n == old(entities)@.len(),
            i <= n,
            entities@.len() == n,
            forall|j: int| 0 <= j < n
                ==> movement_step_fits((#[trigger] old(entities)@[j]).0, old(entities)@[j].1, dt_millis),
            forall|j: int| i <= j < n ==> #[trigger] entities@[j] == old(entities)@[j],
            forall|j: int| 0 <= j < i ==> {
                let t0 = old(entities)@[j].0;
                let m0 = old(entities)@[j].1;
                let t1 = (#[trigger] entities@[j]).0;
                let m1 = entities@[j].1;
                &&& m1.dir == m0.dir
                &&& m1.velocity == m0.velocity
                &&& m1.last_moving_dir == (if is_moving(m0.dir) { m0.dir } else { m0.last_moving_dir })
                &&& t1.translation.x == t0.translation.x + axis_step(dt_millis, m0.dir.x, m0.velocity.x)
                &&& t1.translation.y == t0.translation.y + axis_step(dt_millis, m0.dir.y, m0.velocity.y)
                &&& t1.translation.z == t0.translation.z
            },
        decreases n - i,
    {
        let pair = &mut entities[i];
        move_entity(&mut pair.0, &mut pair.1, dt_millis);
        i = i + 1;
    }
}

/// A frame in which an entity has no direction leaves its translation, and
/// its remembered facing, exactly where they were.
pub proof fn lemma_no_direction_no_motion(t: Transform, m: Movement, dt_millis: i64)
    requires
        m.dir.x == 0,
        m.dir.y == 0,
    ensures
        t.translation.x + axis_step(dt_millis, m.dir.x, m.velocity.x) == t.translation.x,
        t.translation.y + axis_step(dt_millis, m.dir.y, m.velocity.y) == t.translation.y,
        !is_moving(m.dir),
{
    assert(dt_millis * m.dir.x * m.velocity.x == 0) by (nonlinear_arith)
        requires
            m.dir.x == 0,
    ;
    assert(dt_millis * m.dir.y * m.velocity.y == 0) by (nonlinear_arith)
        requires
            m.dir.y == 0,
    ;
}

} // verus!
