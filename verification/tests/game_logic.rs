use pixel_hero::animation::{
    advance_animation, animate_sprite_system, animation_state_index, apply_movement_animation,
    entity_movement_animator_system, get_animation_from_movement, is_animation_idle, Animation,
    AnimationError, AnimationFrame, AnimationState, Sprite,
};
use pixel_hero::movement::{entity_movement_system, move_entity, Movement, Transform, Vec2, Vec3};
use pixel_hero::player::{apply_local_input, create_player, local_player_input_system, KeyInput, Player};

fn movement(dx: i64, dy: i64, lx: i64, ly: i64) -> Movement {
    Movement {
        dir: Vec2 { x: dx, y: dy },
        last_moving_dir: Vec2 { x: lx, y: ly },
        velocity: Vec2 { x: 0, y: 0 },
    }
}

fn frame(duration_micros: u32) -> AnimationFrame {
    AnimationFrame { name: String::from("frame"), duration_micros }
}

fn eight_clip_animation(row_cnt: i32) -> Animation {
    let frames: Vec<AnimationFrame> = (0..8).map(|_| frame(100)).collect();
    Animation::new(String::from("atlas.png"), row_cnt, 16, frames, 0, 0).unwrap()
}

#[test]
fn facing_walk_right_down_or_level_is_front_right() {
    assert_eq!(get_animation_from_movement(&movement(1, 0, 0, 0)), AnimationState::FrontRight);
    assert_eq!(get_animation_from_movement(&movement(1, -1, 0, 0)), AnimationState::FrontRight);
}

#[test]
fn facing_walk_left_down_or_level_is_front_left() {
    assert_eq!(get_animation_from_movement(&movement(-1, 0, 0, 0)), AnimationState::FrontLeft);
    assert_eq!(get_animation_from_movement(&movement(-1, -1, 0, 0)), AnimationState::FrontLeft);
}

#[test]
fn facing_walk_up_picks_back_clips() {
    assert_eq!(get_animation_from_movement(&movement(1, 1, 0, 0)), AnimationState::BackRight);
    assert_eq!(get_animation_from_movement(&movement(-1, 1, 0, 0)), AnimationState::BackLeft);
}

#[test]
fn facing_idle_follows_last_moving_dir() {
    assert_eq!(
        get_animation_from_movement(&movement(0, 0, 1, 0)),
        AnimationState::IdleFrontRight
    );
    assert_eq!(
        get_animation_from_movement(&movement(0, 0, -1, -1)),
        AnimationState::IdleFrontLeft
    );
    assert_eq!(get_animation_from_movement(&movement(0, 0, 1, 1)), AnimationState::IdleBackRight);
    assert_eq!(get_animation_from_movement(&movement(0, 0, -1, 1)), AnimationState::IdleBackLeft);
}

#[test]
fn facing_fallback_is_idle_front_left() {
    assert_eq!(get_animation_from_movement(&movement(0, 0, 0, 0)), AnimationState::IdleFrontLeft);
    assert_eq!(get_animation_from_movement(&movement(0, 0, 0, 1)), AnimationState::IdleFrontLeft);
}

#[test]
fn facing_pure_vertical_push_still_idles() {
    // Without a horizontal push the entity idles even while pushed vertically.
    assert_eq!(
        get_animation_from_movement(&movement(0, 1, 1, 0)),
        AnimationState::IdleFrontRight
    );
    assert_eq!(
        get_animation_from_movement(&movement(0, -1, -1, 1)),
        AnimationState::IdleBackLeft
    );
}

#[test]
fn state_indices_are_declaration_order() {
    assert_eq!(animation_state_index(AnimationState::FrontLeft), 0);
    assert_eq!(animation_state_index(AnimationState::FrontRight), 1);
    assert_eq!(animation_state_index(AnimationState::BackLeft), 2);
    assert_eq!(animation_state_index(AnimationState::BackRight), 3);
    assert_eq!(animation_state_index(AnimationState::IdleFrontLeft), 4);
    assert_eq!(animation_state_index(AnimationState::IdleFrontRight), 5);
    assert_eq!(animation_state_index(AnimationState::IdleBackLeft), 6);
    assert_eq!(animation_state_index(AnimationState::IdleBackRight), 7);
}

#[test]
fn idle_codes_are_above_three() {
    assert!(!is_animation_idle(0));
    assert!(!is_animation_idle(3));
    assert!(is_animation_idle(4));
    assert!(is_animation_idle(7));
    assert!(is_animation_idle(100));
}

#[test]
fn animation_new_accepts_well_formed() {
    let a = Animation::new(
        String::from("warrior.png"),
        4,
        16,
        vec![frame(100), frame(150)],
        1,
        7,
    )
    .unwrap();
    assert_eq!(a.texture_atlas, "warrior.png");
    assert_eq!(a.row_cnt, 4);
    assert_eq!(a.tile_size, 16);
    assert_eq!(a.frames.len(), 2);
    assert_eq!(a.frames[1].duration_micros, 150);
    assert_eq!(a.current_col_idx, 1);
    assert_eq!(a.last_frame_time_micros, 7);
}

#[test]
fn animation_new_rejects_empty_frames() {
    let r = Animation::new(String::from("a"), 4, 16, Vec::new(), 0, 0);
    assert_eq!(r.unwrap_err(), AnimationError::NoFrames);
}

#[test]
fn animation_new_rejects_bad_row_count() {
    let r = Animation::new(String::from("a"), 0, 16, vec![frame(1)], 0, 0);
    assert_eq!(r.unwrap_err(), AnimationError::RowCountOutOfRange);
}

#[test]
fn animation_new_rejects_bad_column() {
    let r = Animation::new(String::from("a"), 4, 16, vec![frame(1)], 1, 0);
    assert_eq!(r.unwrap_err(), AnimationError::ColumnOutOfRange);
    let r = Animation::new(String::from("a"), 4, 16, vec![frame(1)], -1, 0);
    assert_eq!(r.unwrap_err(), AnimationError::ColumnOutOfRange);
}

#[test]
fn animation_new_rejects_overflowing_sheet() {
    let frames: Vec<AnimationFrame> = (0..3).map(|_| frame(1)).collect();
    let r = Animation::new(String::from("a"), i32::MAX, 16, frames, 0, 0);
    assert_eq!(r.unwrap_err(), AnimationError::TooManyCells);
}

#[test]
fn advance_waits_while_frame_not_due() {
    let mut a = Animation::new(String::from("a"), 4, 16, vec![frame(100), frame(200)], 0, 0)
        .unwrap();
    let mut sprite = Sprite { index: 1 };
    advance_animation(&mut sprite, &mut a, 100); // not strictly greater: stays
    assert_eq!(a.current_col_idx, 0);
    assert_eq!(a.last_frame_time_micros, 100);
    assert_eq!(sprite.index, 1);
}

#[test]
fn advance_moves_to_next_clip_and_clamps_sprite() {
    let mut a = Animation::new(String::from("a"), 4, 16, vec![frame(100), frame(200)], 0, 0)
        .unwrap();
    let mut sprite = Sprite { index: 0 };
    advance_animation(&mut sprite, &mut a, 101);
    assert_eq!(a.current_col_idx, 1);
    assert_eq!(a.last_frame_time_micros, 0);
    // clip 1 spans cells 4..=7; a cell below the band rises to its first cell
    assert_eq!(sprite.index, 4);
}

#[test]
fn advance_snaps_sprite_inside_band_to_last_cell() {
    let mut a = Animation::new(String::from("a"), 4, 16, vec![frame(100), frame(200)], 0, 0)
        .unwrap();
    let mut sprite = Sprite { index: 5 };
    advance_animation(&mut sprite, &mut a, 101);
    // cell 5 already lies in clip 1's band 4..=7, and still snaps to 7
    assert_eq!(sprite.index, 7);
}

#[test]
fn advance_wraps_to_first_clip() {
    let mut a = Animation::new(String::from("a"), 4, 16, vec![frame(100), frame(200)], 1, 0)
        .unwrap();
    let mut sprite = Sprite { index: 6 };
    advance_animation(&mut sprite, &mut a, 201);
    assert_eq!(a.current_col_idx, 0);
    // clip 0 spans cells 0..=3; cell 6 snaps to 3
    assert_eq!(sprite.index, 3);
}

#[test]
fn animate_sprite_system_ticks_every_entity() {
    let a0 = Animation::new(String::from("a"), 2, 16, vec![frame(100), frame(200)], 0, 0)
        .unwrap();
    let a1 = Animation::new(String::from("b"), 2, 16, vec![frame(50), frame(60)], 1, 0)
        .unwrap();
    let mut entities = vec![(Sprite { index: 0 }, a0), (Sprite { index: 0 }, a1)];
    animate_sprite_system(&mut entities, 70);
    // first: 70 <= 100, only the clock is recorded
    assert_eq!(entities[0].1.current_col_idx, 0);
    assert_eq!(entities[0].1.last_frame_time_micros, 70);
    assert_eq!(entities[0].0.index, 0);
    // second: 70 > 60, wraps from clip 1 to clip 0 (cells 0..=1)
    assert_eq!(entities[1].1.current_col_idx, 0);
    assert_eq!(entities[1].1.last_frame_time_micros, 0);
    assert_eq!(entities[1].0.index, 1);
}

#[test]
fn move_entity_integrates_position() {
    let mut t = Transform { translation: Vec3 { x: 10, y: 20, z: 5 } };
    let mut m = Movement {
        dir: Vec2 { x: 1, y: -1 },
        last_moving_dir: Vec2 { x: 0, y: 0 },
        velocity: Vec2 { x: 500, y: 500 },
    };
    move_entity(&mut t, &mut m, 16);
    assert_eq!(t.translation, Vec3 { x: 10 + 16 * 500, y: 20 - 16 * 500, z: 5 });
    assert_eq!(m.last_moving_dir, Vec2 { x: 1, y: -1 });
}

#[test]
fn move_entity_without_direction_keeps_everything() {
    let mut t = Transform { translation: Vec3 { x: 10, y: 20, z: 0 } };
    let mut m = Movement {
        dir: Vec2 { x: 0, y: 0 },
        last_moving_dir: Vec2 { x: -1, y: 1 },
        velocity: Vec2 { x: 500, y: 500 },
    };
    move_entity(&mut t, &mut m, 16);
    assert_eq!(t.translation, Vec3 { x: 10, y: 20, z: 0 });
    assert_eq!(m.last_moving_dir, Vec2 { x: -1, y: 1 });
}

#[test]
fn entity_movement_system_moves_every_entity() {
    let mut entities = vec![
        (
            Transform { translation: Vec3 { x: 0, y: 0, z: 0 } },
            Movement {
                dir: Vec2 { x: 1, y: 0 },
                last_moving_dir: Vec2 { x: 0, y: 0 },
                velocity: Vec2 { x: 2, y: 2 },
            },
        ),
        (
            Transform { translation: Vec3 { x: 100, y: 100, z: 1 } },
            Movement {
                dir: Vec2 { x: 0, y: -1 },
                last_moving_dir: Vec2 { x: 1, y: 0 },
                velocity: Vec2 { x: 3, y: 3 },
            },
        ),
    ];
    entity_movement_system(&mut entities, 10);
    assert_eq!(entities[0].0.translation, Vec3 { x: 20, y: 0, z: 0 });
    assert_eq!(entities[0].1.last_moving_dir, Vec2 { x: 1, y: 0 });
    assert_eq!(entities[1].0.translation, Vec3 { x: 100, y: 70, z: 1 });
    assert_eq!(entities[1].1.last_moving_dir, Vec2 { x: 0, y: -1 });
}

#[test]
fn create_player_starts_local_at_full_health() {
    let p = create_player();
    assert_eq!(
        p,
        Player { health: 100_000, speed: 500, animation_state: 0, is_local: true }
    );
}

#[test]
fn input_sets_direction_signs_and_velocity() {
    let p = create_player();
    let mut m = movement(9, 9, 2, 3);
    apply_local_input(
        &mut m,
        &p,
        KeyInput { left: false, right: true, up: true, down: false },
    );
    assert_eq!(m.dir, Vec2 { x: 1, y: 1 });
    assert_eq!(m.velocity, Vec2 { x: 500, y: 500 });
    assert_eq!(m.last_moving_dir, Vec2 { x: 2, y: 3 });
}

#[test]
fn input_left_and_up_win_over_right_and_down() {
    let p = create_player();
    let mut m = movement(0, 0, 0, 0);
    apply_local_input(
        &mut m,
        &p,
        KeyInput { left: true, right: true, up: true, down: true },
    );
    assert_eq!(m.dir, Vec2 { x: -1, y: 1 });
}

#[test]
fn input_ignores_remote_players() {
    let remote = Player { health: 1, speed: 9, animation_state: 2, is_local: false };
    let mut m = movement(4, 5, 6, 7);
    let before = m;
    apply_local_input(
        &mut m,
        &remote,
        KeyInput { left: true, right: false, up: false, down: false },
    );
    assert_eq!(m, before);
}

#[test]
fn local_player_input_system_steers_only_local_players() {
    let local = create_player();
    let remote = Player { health: 1, speed: 9, animation_state: 2, is_local: false };
    let mut entities = vec![(movement(0, 0, 0, 0), local), (movement(4, 5, 6, 7), remote)];
    local_player_input_system(
        &mut entities,
        KeyInput { left: false, right: false, up: false, down: true },
    );
    assert_eq!(entities[0].0.dir, Vec2 { x: 0, y: -1 });
    assert_eq!(entities[0].0.velocity, Vec2 { x: 500, y: 500 });
    assert_eq!(entities[1].0, movement(4, 5, 6, 7));
}

#[test]
fn animator_points_clip_at_selected_facing() {
    let mut a = eight_clip_animation(4);
    let m = movement(-1, 1, 0, 0);
    apply_movement_animation(&mut a, &m);
    assert_eq!(a.current_col_idx, 2); // BackLeft
    assert_eq!(a.frames.len(), 8);
}

#[test]
fn animator_system_updates_every_entity() {
    let mut entities = vec![
        (eight_clip_animation(4), movement(1, 0, 0, 0)),
        (eight_clip_animation(2), movement(0, 0, -1, 1)),
    ];
    entity_movement_animator_system(&mut entities);
    assert_eq!(entities[0].0.current_col_idx, 1); // FrontRight
    assert_eq!(entities[1].0.current_col_idx, 6); // IdleBackLeft
}

#[test]
fn walk_then_stop_idles_toward_last_direction() {
    // Walk up-right for one frame, release the keys, and the idle pose
    // matches the remembered direction.
    let p = create_player();
    let mut m = movement(0, 0, 0, 0);
    apply_local_input(&mut m, &p, KeyInput { left: false, right: true, up: true, down: false });
    let mut t = Transform { translation: Vec3 { x: 0, y: 0, z: 0 } };
    move_entity(&mut t, &mut m, 10);
    assert_eq!(get_animation_from_movement(&m), AnimationState::BackRight);
    apply_local_input(&mut m, &p, KeyInput { left: false, right: false, up: false, down: false });
    assert_eq!(get_animation_from_movement(&m), AnimationState::IdleBackRight);
    assert!(is_animation_idle(
        animation_state_index(get_animation_from_movement(&m)) as u32
    ));
}
