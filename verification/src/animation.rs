//! Sprite-sheet animation: clip data, the per-frame animation clock, and the
//! mapping from movement direction to an 8-way facing state.

use vstd::prelude::*;
use crate::movement::Movement;

verus! {

/// One frame of a sprite-sheet clip: a display name and how long the frame
/// stays on screen, in microseconds.
#[derive(Clone, Debug)]
pub struct AnimationFrame {
    pub name: String,
    pub duration_micros: u32,
}

/// A sprite-sheet animation.
///
/// The sheet named by `texture_atlas` is cut into `tile_size`-pixel cells;
/// each clip (column) holds `row_cnt` consecutive cells. `current_col_idx`
/// selects the clip that is playing, `frames` gives each clip's name and
/// duration, and `last_frame_time_micros` is the time the clock saw on its
/// last tick.
#[derive(Clone, Debug)]
pub struct Animation {
    pub texture_atlas: String,
    pub row_cnt: i32,
    pub tile_size: u32,
    pub frames: Vec<AnimationFrame>,
    pub current_col_idx: i32,
    pub last_frame_time_micros: u32,
}

/// The index of the sprite cell an entity currently shows.
#[derive(Clone, Copy, PartialEq, Eq, Structural, Debug)]
pub struct Sprite {
    pub index: usize,
}

/// The shape constraints an animation must satisfy: at least one clip, at
/// least one cell per clip, a selected clip that exists, and a cell count
/// whose band arithmetic stays inside `i32`.
pub open spec fn animation_fields_ok(row_cnt: i32, n_frames: int, current_col_idx: i32) -> bool {
    &&& 1 <= row_cnt
    &&& 1 <= n_frames <= i32::MAX
    &&& 0 <= current_col_idx < n_frames
    &&& n_frames * row_cnt <= i32::MAX
}

impl Animation {
    /// Well-formedness: see `animation_fields_ok`.
    pub open spec fn wf(&self) -> bool {
        animation_fields_ok(self.row_cnt, self.frames@.len() as int, self.current_col_idx)
    }

    /// The clock advances a frame when the elapsed time of this tick exceeds
    /// the current frame's duration.
    pub open spec fn frame_due(&self, delta_micros: u32) -> bool {
        delta_micros > self.frames@[self.current_col_idx as int].duration_micros
    }

    /// The clip after the current one, wrapping past the last clip to the
    /// first.
    pub open spec fn next_col(&self) -> int {
        if self.current_col_idx + 1 == self.frames@.len() {
            0
        } else {
            self.current_col_idx + 1
        }
    }

    /// The animation after one tick of the clock with `delta_micros` elapsed:
    /// either the clock advances to the next clip and resets, or it only
    /// records the elapsed time.
    pub open spec fn stepped(&self, delta_micros: u32) -> Animation {
        if self.frame_due(delta_micros) {
            Animation {
                texture_atlas: self.texture_atlas,
                row_cnt: self.row_cnt,
                tile_size: self.tile_size,
                frames: self.frames,
                current_col_idx: self.next_col() as i32,
                last_frame_time_micros: 0,
            }
        } else {
            Animation {
                texture_atlas: self.texture_atlas,
                row_cnt: self.row_cnt,
                tile_size: self.tile_size,
                frames: self.frames,
                current_col_idx: self.current_col_idx,
                last_frame_time_micros: delta_micros,
            }
        }
    }

    /// The sprite cell shown after one tick: unchanged while the clock only
    /// accumulates; snapped into the new clip's band when a frame advances.
    pub open spec fn stepped_sprite_index(&self, idx: int, delta_micros: u32) -> int {
        if self.frame_due(delta_micros) {
            clamped_to_band(idx, self.next_col(), self.row_cnt as int)
        } else {
            idx
        }
    }
}

/// The first cell of clip `col` on a sheet with `row_cnt` cells per clip.
pub open spec fn band_min(col: int, row_cnt: int) -> int {
    col * row_cnt
}

/// The last cell of clip `col`.
pub open spec fn band_max(col: int, row_cnt: int) -> int {
    col * row_cnt + row_cnt - 1
}

/// Where a sprite cell lands when clip `col` starts: a cell below the band
/// rises to the band's first cell; every other cell, including one already
/// inside the band, snaps to the band's last cell.
pub open spec fn clamped_to_band(idx: int, col: int, row_cnt: int) -> int {
    if idx < band_min(col, row_cnt) {
        band_min(col, row_cnt)
    } else {
        band_max(col, row_cnt)
    }
}

/// Why an animation description was rejected.
#[derive(Clone, Copy, PartialEq, Eq, Structural, Debug)]
pub enum AnimationError {
    /// The clip list is empty.
    NoFrames,
    /// The cells-per-clip count is below one.
    RowCountOutOfRange,
    /// The selected clip does not exist.
    ColumnOutOfRange,
    /// The sheet's cell count overflows the band arithmetic.
    TooManyCells,
}

/// The error reported for a malformed animation description: the first check
/// that fails, in the order frames, row count, selected clip, cell count.
pub open spec fn animation_rejection(row_cnt: i32, n_frames: int, current_col_idx: i32) -> AnimationError {
    if n_frames < 1 {
        AnimationError::NoFrames
    } else if row_cnt < 1 {
        AnimationError::RowCountOutOfRange
    } else if !(0 <= current_col_idx < n_frames) {
        AnimationError::ColumnOutOfRange
    } else {
        AnimationError::TooManyCells
    }
}

impl Animation {
    /// Build an animation from plain values, accepting exactly the
    /// well-formed descriptions.
    pub fn new(
        texture_atlas: String,
        row_cnt: i32,
        tile_size: u32,
        frames: Vec<AnimationFrame>,
        current_col_idx: i32,
        last_frame_time_micros: u32,
    ) -> (r: Result<Animation, AnimationError>)
        ensures
            r is Ok <==> animation_fields_ok(row_cnt, frames@.len() as int, current_col_idx),
            r matches Ok(a) ==> {
                &&& a.texture_atlas == texture_atlas
                &&& a.row_cnt == row_cnt
                &&& a.tile_size == tile_size
                &&& a.frames == frames
                &&& a.current_col_idx == current_col_idx
                &&& a.last_frame_time_micros == last_frame_time_micros
                &&& a.wf()
            },
            r matches Err(e) ==> e == animation_rejection(row_cnt, frames@.len() as int, current_col_idx),
    {
        if frames.len() < 1 {
            return Err(AnimationError::NoFrames);
        }
        if row_cnt < 1 {
            return Err(AnimationError::RowCountOutOfRange);
        }
        if current_col_idx < 0 || frames.len() <= current_col_idx as usize {
            return Err(AnimationError::ColumnOutOfRange);
        }
        let n_frames: usize = frames.len();
        proof {
            let nf = n_frames as int;
            let rc = row_cnt as int;
            assert(nf * rc <= u128::MAX && nf <= nf * rc) by (nonlinear_arith)
                requires
                    0 <= nf <= u64::MAX,
                    1 <= rc <= i32::MAX,
            ;
        }
        let cells: u128 = (n_frames as u128) * (row_cnt as u128);
        if cells > i32::MAX as u128 {
            return Err(AnimationError::TooManyCells);
        }
        Ok(Animation {
            texture_atlas,
            row_cnt,
            tile_size,
            frames,
            current_col_idx,
            last_frame_time_micros,
        })
    }
}

/// Tick the animation clock of one entity by `delta_micros` elapsed
/// microseconds and keep its sprite cell inside the playing clip's band.
pub fn advance_animation(sprite: &mut Sprite, animation: &mut Animation, delta_micros: u32)
    requires
        old(animation).wf(),
    ensures
        *final(animation) == old(animation).stepped(delta_micros),
        final(animation).wf(),
        final(sprite).index == old(animation).stepped_sprite_index(old(sprite).index as int, delta_micros),
{
    animation.last_frame_time_micros = delta_micros;
    let duration = animation.frames[animation.current_col_idx as usize].duration_micros;
    if animation.last_frame_time_micros > duration {
        animation.last_frame_time_micros = 0;
        animation.current_col_idx = animation.current_col_idx + 1;
        if animation.current_col_idx == animation.frames.len() as i32 {
            animation.current_col_idx = 0;
        }
        proof {
            let c = animation.current_col_idx as int;
            let r = animation.row_cnt as int;
            let n = animation.frames@.len() as int;
            assert(0 <= c * r && c * r + r <= n * r) by (nonlinear_arith)
                requires
                    0 <= c,
                    c < n,
                    1 <= r,
            ;
        }
        let band_lo = animation.current_col_idx * animation.row_cnt;
        let band_hi = band_lo + animation.row_cnt - 1;
        let min_u = band_lo as usize;
        let max_u = band_hi as usize;
        if sprite.index < min_u {
            sprite.index = min_u;
        } else {
            sprite.index = max_u;
        }
    }
}

/// Tick every entity's animation clock by the same elapsed time.
pub fn animate_sprite_system(entities: &mut Vec<(Sprite, Animation)>, delta_micros: u32)
    requires
        forall|i: int| 0 <= i < old(entities)@.len() ==> (#[trigger] old(entities)@[i]).1.wf(),
    ensures
        final(entities)@.len() == old(entities)@.len(),
        forall|i: int| 0 <= i < old(entities)@.len() ==> {
            let s0 = old(entities)@[i].0;
            let a0 = old(entities)@[i].1;
            &&& (#[trigger] final(entities)@[i]).1 == a0.stepped(delta_micros)
            &&& final(entities)@[i].0.index == a0.stepped_sprite_index(s0.index as int, delta_micros)
        },
{
    let n = entities.len();
    let mut i: usize = 0;
    while i < n
        invariant
            n == old(entities)@.len(),
            i <= n,
            entities@.len() == n,
            forall|j: int| 0 <= j < n ==> (#[trigger] old(entities)@[j]).1.wf(),
            forall|j: int| i <= j < n ==> #[trigger] entities@[j] == old(entities)@[j],
            forall|j: int| 0 <= j < i ==> {
                let s0 = old(entities)@[j].0;
                let a0 = old(entities)@[j].1;
                &&& (#[trigger] entities@[j]).1 == a0.stepped(delta_micros)
                &&& entities@[j].0.index == a0.stepped_sprite_index(s0.index as int, delta_micros)
            },
        decreases n - i,
    {
        let pair = &mut entities[i];
        advance_animation(&mut pair.0, &mut pair.1, delta_micros);
        i = i + 1;
    }
}

/// A ticked well-formed animation is well-formed again, and when a frame was
/// due the sprite cell lands inside the new clip's band.
pub proof fn lemma_step_stays_in_band(a: Animation, idx: int, delta_micros: u32)
    requires
        a.wf(),
    ensures
        a.stepped(delta_micros).wf(),
        a.frame_due(delta_micros) ==> band_min(a.next_col(), a.row_cnt as int)
            <= a.stepped_sprite_index(idx, delta_micros)
            <= band_max(a.next_col(), a.row_cnt as int),
{
    let c = a.next_col();
    let r = a.row_cnt as int;
    let n = a.frames@.len() as int;
    assert(0 <= c * r && c * r + r <= n * r) by (nonlinear_arith)
        requires
            0 <= c,
            c < n,
            1 <= r,
    ;
}

/// The eight facings an entity can show: four walking directions and the
/// matching idle poses.
#[derive(Clone, Copy, PartialEq, Eq, Structural, Debug)]
pub enum AnimationState {
    FrontLeft,
    FrontRight,
    BackLeft,
    BackRight,
    IdleFrontLeft,
    IdleFrontRight,
    IdleBackLeft,
    IdleBackRight,
}

/// The clip index of each facing, in declaration order: the walking facings
/// take 0 through 3, the idle facings 4 through 7.
pub open spec fn spec_animation_state_index(s: AnimationState) -> i32 {
    match s {
        AnimationState::FrontLeft => 0,
        AnimationState::FrontRight => 1,
        AnimationState::BackLeft => 2,
        AnimationState::BackRight => 3,
        AnimationState::IdleFrontLeft => 4,
        AnimationState::IdleFrontRight => 5,
        AnimationState::IdleBackLeft => 6,
        AnimationState::IdleBackRight => 7,
    }
}

/// Whether a facing is one of the four idle poses.
pub open spec fn is_idle_state(s: AnimationState) -> bool {
    ||| s is IdleFrontLeft
    ||| s is IdleFrontRight
    ||| s is IdleBackLeft
    ||| s is IdleBackRight
}

/// The clip index of a facing.
pub fn animation_state_index(s: AnimationState) -> (i: i32)
    ensures
        i == spec_animation_state_index(s),
{
    match s {
        AnimationState::FrontLeft => 0,
        AnimationState::FrontRight => 1,
        AnimationState::BackLeft => 2,
        AnimationState::BackRight => 3,
        AnimationState::IdleFrontLeft => 4,
        AnimationState::IdleFrontRight => 5,
        AnimationState::IdleBackLeft => 6,
        AnimationState::IdleBackRight => 7,
    }
}

/// Whether a numeric facing code is an idle pose.
pub fn is_animation_idle(state: u32) -> (r: bool)
    ensures
        r == (state > 3),
{
    state > 3
}

/// The facing codes above 3 are exactly the idle poses.
pub proof fn lemma_idle_states_have_high_codes(s: AnimationState)
    ensures
        is_idle_state(s) <==> spec_animation_state_index(s) > 3,
{
}

/// No two facings share a clip index, so pointing an animation at a facing's
/// clip never conflates two poses.
pub proof fn lemma_state_indices_distinct(s1: AnimationState, s2: AnimationState)
    ensures
        spec_animation_state_index(s1) == spec_animation_state_index(s2) ==> s1 == s2,
{
}

/// The facing a movement selects. While the entity is pushed horizontally it
/// walks: right of the two front clips when also pushed down or not pushed
/// vertically, right of the two back clips when pushed up, and likewise left.
/// Without a horizontal push the entity idles, facing where it last moved,
/// with the front-left idle pose as the fallback.
pub open spec fn spec_animation_from_movement(m: Movement) -> AnimationState {
    if m.dir.x > 0 {
        if m.dir.y <= 0 {
            AnimationState::FrontRight
        } else {
            AnimationState::BackRight
        }
    } else if m.dir.x < 0 {
        if m.dir.y <= 0 {
            AnimationState::FrontLeft
        } else {
            AnimationState::BackLeft
        }
    } else if m.last_moving_dir.x > 0 {
        if m.last_moving_dir.y <= 0 {
            AnimationState::IdleFrontRight
        } else {
            AnimationState::IdleBackRight
        }
    } else if m.last_moving_dir.x < 0 {
        if m.last_moving_dir.y <= 0 {
            AnimationState::IdleFrontLeft
        } else {
            AnimationState::IdleBackLeft
        }
    } else {
        AnimationState::IdleFrontLeft
    }
}

/// Select the facing for an entity's movement.
pub fn get_animation_from_movement(movement: &Movement) -> (s: AnimationState)
    ensures
        s == spec_animation_from_movement(*movement),
{
    if movement.dir.y <= 0 {
        if movement.dir.x > 0 {
            return AnimationState::FrontRight;
        } else if movement.dir.x < 0 {
            return AnimationState::FrontLeft;
        }
    } else {
        if movement.dir.x > 0 {
            return AnimationState::BackRight;
        } else if movement.dir.x < 0 {
            return AnimationState::BackLeft;
        }
    }

    if movement.last_moving_dir.y <= 0 {
        if movement.last_moving_dir.x > 0 {
            return AnimationState::IdleFrontRight;
        } else if movement.last_moving_dir.x < 0 {
            return AnimationState::IdleFrontLeft;
        }
    } else {
        if movement.last_moving_dir.x > 0 {
            return AnimationState::IdleBackRight;
        } else if movement.last_moving_dir.x < 0 {
            return AnimationState::IdleBackLeft;
        }
    }

    AnimationState::IdleFrontLeft
}

/// A movement selects an idle pose exactly when it has no horizontal push.
pub proof fn lemma_idle_exactly_without_horizontal_push(m: Movement)
    ensures
        is_idle_state(spec_animation_from_movement(m)) <==> m.dir.x == 0,
{
}

/// Point one entity's animation at the clip of the facing its movement
/// selects.
pub fn apply_movement_animation(animation: &mut Animation, movement: &Movement)
    requires
        old(animation).wf(),
        old(animation).frames@.len() >= 8,
    ensures
        final(animation).current_col_idx
            == spec_animation_state_index(spec_animation_from_movement(*movement)),
        final(animation).texture_atlas == old(animation).texture_atlas,
        final(animation).row_cnt == old(animation).row_cnt,
        final(animation).tile_size == old(animation).tile_size,
        final(animation).frames == old(animation).frames,
        final(animation).last_frame_time_micros == old(animation).last_frame_time_micros,
        final(animation).wf(),
{
    let state = get_animation_from_movement(movement);
    animation.current_col_idx = animation_state_index(state);
}

/// Point every entity's animation at the clip its movement selects.
pub fn entity_movement_animator_system(entities: &mut Vec<(Animation, Movement)>)
    requires
        forall|i: int| 0 <= i < old(entities)@.len() ==> {
            &&& (#[trigger] old(entities)@[i]).0.wf()
            &&& old(entities)@[i].0.frames@.len() >= 8
        },
    ensures
        final(entities)@.len() == old(entities)@.len(),
        forall|i: int| 0 <= i < old(entities)@.len() ==> {
            let a0 = old(entities)@[i].0;
            let m0 = old(entities)@[i].1;
            let a1 = (#[trigger] final(entities)@[i]).0;
            &&& final(entities)@[i].1 == m0
            &&& a1.current_col_idx == spec_animation_state_index(spec_animation_from_movement(m0))
            &&& a1.texture_atlas == a0.texture_atlas
            &&& a1.row_cnt == a0.row_cnt
            &&& a1.tile_size == a0.tile_size
            &&& a1.frames == a0.frames
            &&& a1.last_frame_time_micros == a0.last_frame_time_micros
            &&& a1.wf()
        },
{
    let n = entities.len();
    let mut i: usize = 0;
    while i < n
        invariant
            n == old(entities)@.len(),
            i <= n,
            entities@.len() == n,
            forall|j: int| 0 <= j < n ==> {
                &&& (#[trigger] old(entities)@[j]).0.wf()
                &&& old(entities)@[j].0.frames@.len() >= 8
            },
            forall|j: int| i <= j < n ==> #[trigger] entities@[j] == old(entities)@[j],
            forall|j: int| 0 <= j < i ==> {
                let a0 = old(entities)@[j].0;
                let m0 = old(entities)@[j].1;
                let a1 = (#[trigger] entities@[j]).0;
                &&& entities@[j].1 == m0
                &&& a1.current_col_idx == spec_animation_state_index(spec_animation_from_movement(m0))
                &&& a1.texture_atlas == a0.texture_atlas
                &&& a1.row_cnt == a0.row_cnt
                &&& a1.tile_size == a0.tile_size
                &&& a1.frames == a0.frames
                &&& a1.last_frame_time_micros == a0.last_frame_time_micros
                &&& a1.wf()
            },
        decreases n - i,
    {
        let pair = &mut entities[i];
        let movement = pair.1;
        apply_movement_animation(&mut pair.0, &movement);
        i = i + 1;
    }
}

} // verus!
