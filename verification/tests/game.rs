use dino_dodge::game::{
    clamp, move_mob, setup, Dino, DinoBox, GameState, InputState, Mob, World, HALF_HEIGHT,
    HALF_WIDTH, WINDOW_HEIGHT, WINDOW_WIDTH,
};
use dino_dodge::geometry::Vec2;

#[test]
fn the_walls_halve_the_window() {
    assert_eq!(2 * HALF_WIDTH, WINDOW_WIDTH);
    assert_eq!(2 * HALF_HEIGHT, WINDOW_HEIGHT);
}

fn no_keys() -> InputState {
    InputState { left: false, right: false, up: false, down: false, space: false, key_v: false }
}

#[test]
fn setup_places_everything() {
    let w = setup();
    assert_eq!(w.dino.pos, Vec2 { x: -250_000, y: -25_000 });
    assert!(!w.dino.flip_x);
    assert!(w.dino.visible);
    assert_eq!(w.dino_box.pos, w.dino.pos);
    assert!(!w.dino_box.visible);
    assert!(!w.state.game_over);
    assert_eq!(w.mobs.len(), 3);
    assert_eq!(w.mobs[0].pos, Vec2 { x: 100_000, y: -100_000 });
    assert_eq!(w.mobs[1].pos, Vec2 { x: 100_000, y: 0 });
    assert_eq!(w.mobs[2].pos, Vec2 { x: -100_000, y: 0 });
    for m in &w.mobs {
        assert_eq!(m.vel, Vec2 { x: 250, y: 0 });
        assert!(m.flip_x);
    }
}

#[test]
fn dino_moves_right_by_speed_times_delta() {
    let mut w = setup();
    let input = InputState { right: true, ..no_keys() };
    w.move_dino(input, 100);
    // 500 subpixels per millisecond over 100 ms: 50 pixels.
    assert_eq!(w.dino.pos, Vec2 { x: -200_000, y: -25_000 });
    assert_eq!(w.dino_box.pos, w.dino.pos);
    assert!(!w.dino.flip_x);
}

#[test]
fn dino_moves_diagonally() {
    let mut w = setup();
    let input = InputState { left: true, up: true, ..no_keys() };
    w.move_dino(input, 10);
    assert_eq!(w.dino.pos, Vec2 { x: -255_000, y: -20_000 });
    assert!(w.dino.flip_x);
}

#[test]
fn opposing_keys_cancel_and_right_wins_the_flip() {
    let mut w = setup();
    w.dino.flip_x = true;
    let input = InputState { left: true, right: true, ..no_keys() };
    w.move_dino(input, 100);
    assert_eq!(w.dino.pos, Vec2 { x: -250_000, y: -25_000 });
    assert!(!w.dino.flip_x);
}

#[test]
fn space_hides_and_v_shows_the_dino() {
    let mut w = setup();
    w.move_dino(InputState { space: true, ..no_keys() }, 16);
    assert!(!w.dino.visible);
    w.move_dino(InputState { key_v: true, ..no_keys() }, 16);
    assert!(w.dino.visible);
    // When both are held, showing wins.
    w.move_dino(InputState { space: true, key_v: true, ..no_keys() }, 16);
    assert!(w.dino.visible);
}

#[test]
fn mob_advances_without_a_wall() {
    let mut m = Mob { pos: Vec2 { x: 100_000, y: 0 }, vel: Vec2 { x: 250, y: 0 }, flip_x: true };
    move_mob(&mut m, 16);
    assert_eq!(m.pos, Vec2 { x: 104_000, y: 0 });
    assert_eq!(m.vel, Vec2 { x: 250, y: 0 });
    assert!(m.flip_x);
}

#[test]
fn mob_reflects_at_the_right_wall() {
    let mut m = Mob { pos: Vec2 { x: 399_000, y: 0 }, vel: Vec2 { x: 250, y: 0 }, flip_x: true };
    move_mob(&mut m, 16);
    // It would land on 403 000, past the wall at 400 000: the velocity sign
    // flips, the sprite flips, and the position is clamped to the wall.
    assert_eq!(m.pos, Vec2 { x: 400_000, y: 0 });
    assert_eq!(m.vel, Vec2 { x: -250, y: 0 });
    assert!(!m.flip_x);
}

#[test]
fn mob_reflects_at_the_bottom_wall_without_flipping() {
    let mut m =
        Mob { pos: Vec2 { x: 0, y: -299_000 }, vel: Vec2 { x: 0, y: -500 }, flip_x: false };
    move_mob(&mut m, 16);
    assert_eq!(m.pos, Vec2 { x: 0, y: -300_000 });
    assert_eq!(m.vel, Vec2 { x: 0, y: 500 });
    assert!(!m.flip_x);
}

#[test]
fn mob_stands_still_on_a_zero_delta() {
    let mut m = Mob { pos: Vec2 { x: 7, y: 8 }, vel: Vec2 { x: 250, y: -250 }, flip_x: true };
    move_mob(&mut m, 0);
    assert_eq!(m.pos, Vec2 { x: 7, y: 8 });
    assert_eq!(m.vel, Vec2 { x: 250, y: -250 });
}

#[test]
fn move_mobs_steps_every_mob() {
    let mut w = setup();
    w.move_mobs(16);
    assert_eq!(w.mobs.len(), 3);
    assert_eq!(w.mobs[0].pos, Vec2 { x: 104_000, y: -100_000 });
    assert_eq!(w.mobs[1].pos, Vec2 { x: 104_000, y: 0 });
    assert_eq!(w.mobs[2].pos, Vec2 { x: -96_000, y: 0 });
    assert!(!w.state.game_over);
}

#[test]
fn collision_sets_game_over_and_shows_the_box() {
    let mut w = setup();
    w.dino.pos = Vec2 { x: 100_000, y: -100_000 };
    w.collision_detection();
    assert!(w.state.game_over);
    assert!(w.dino_box.visible);
    assert_eq!(w.mobs.len(), 3);
}

#[test]
fn near_miss_keeps_the_game_running() {
    let mut w = setup();
    // Nearest mob centre is 150 pixels away on x; the boxes are 64 wide.
    w.collision_detection();
    assert!(!w.state.game_over);
    assert!(!w.dino_box.visible);
}

#[test]
fn touching_boxes_do_not_collide() {
    let mut w = setup();
    // Exactly 64 pixels left of mob 2: the boxes touch along an edge.
    w.dino.pos = Vec2 { x: -164_000, y: 0 };
    w.collision_detection();
    assert!(!w.state.game_over);
    // One pixel closer they overlap.
    w.dino.pos = Vec2 { x: -163_000, y: 0 };
    w.collision_detection();
    assert!(w.state.game_over);
}

#[test]
fn game_over_is_sticky() {
    let mut w = setup();
    w.dino.pos = Vec2 { x: 100_000, y: 0 };
    w.collision_detection();
    assert!(w.state.game_over);
    // The dino walks away; the flag stays, the overlay goes dark.
    w.dino.pos = Vec2 { x: -250_000, y: -25_000 };
    w.collision_detection();
    assert!(w.state.game_over);
    assert!(!w.dino_box.visible);
}

#[test]
fn no_mobs_leaves_the_overlay_alone() {
    let mut w = World {
        dino: Dino { pos: Vec2 { x: 0, y: 0 }, flip_x: false, visible: true },
        dino_box: DinoBox { pos: Vec2 { x: 0, y: 0 }, visible: true },
        mobs: Vec::new(),
        state: GameState { game_over: false },
    };
    w.collision_detection();
    assert!(w.dino_box.visible);
    assert!(!w.state.game_over);
}

#[test]
fn clamp_picks_the_nearer_bound() {
    assert_eq!(clamp(5, -10, 10), 5);
    assert_eq!(clamp(-11, -10, 10), -10);
    assert_eq!(clamp(11, -10, 10), 10);
    assert_eq!(clamp(10, -10, 10), 10);
}
