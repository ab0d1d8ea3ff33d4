//! The game world and its per-frame systems: player movement from key input,
//! obstacle movement with wall reflection and clamping, and collision
//! detection between the player and each obstacle.
//!
//! Coordinates are in subpixels (thousandths of a pixel); velocities are in
//! subpixels per millisecond, numerically the same as pixels per second; time
//! deltas are in milliseconds. The window is centred on the origin.

use vstd::prelude::*;

use crate::geometry::{
    make_rect, overlaps, spec_make_rect, Rect, RectModel, Vec2,
};

verus! {

/// Subpixels per pixel: the scale of all positions.
pub const SUBPIX: i64 = 1000;

/// Window width, in subpixels.
pub const WINDOW_WIDTH: i64 = 800 * SUBPIX;

/// Window height, in subpixels.
pub const WINDOW_HEIGHT: i64 = 600 * SUBPIX;

/// Half the window width: the walls stand at `x == -HALF_WIDTH` and
/// `x == HALF_WIDTH`.
pub const HALF_WIDTH: i64 = 400 * SUBPIX;

/// Half the window height: the walls stand at `y == -HALF_HEIGHT` and
/// `y == HALF_HEIGHT`.
pub const HALF_HEIGHT: i64 = 300 * SUBPIX;

/// Player speed while a direction key is held, in subpixels per millisecond.
pub const DINO_SPEED: i64 = 500;

/// Side of the player's bounding box, in subpixels.
pub const DINO_SIZE: i64 = 64 * SUBPIX;

/// Side of an obstacle's bounding box, in subpixels.
pub const MOB_SIZE: i64 = 64 * SUBPIX;

/// Largest accepted frame delta: one thousand seconds, in milliseconds.
pub const MAX_DT_MS: i64 = 1_000_000;

/// Largest accepted velocity component, in subpixels per millisecond.
pub const MAX_SPEED: i64 = 1_000_000;

/// Largest accepted position component: a million pixels from the origin,
/// in subpixels. Far beyond the window, but it keeps every sum inside `i64`.
pub const MAX_COORD: i64 = 1_000_000_000_000;

/// The keys read each frame: the four arrows move the player, space hides
/// its sprite and V shows it again.
#[derive(Clone, Copy, PartialEq, Eq, Structural, Debug)]
pub struct InputState {
    pub left: bool,
    pub right: bool,
    pub up: bool,
    pub down: bool,
    pub space: bool,
    pub key_v: bool,
}

/// The player: a position, which way the sprite is flipped, and whether it
/// is shown.
#[derive(Clone, Copy, PartialEq, Eq, Structural, Debug)]
pub struct Dino {
    pub pos: Vec2,
    pub flip_x: bool,
    pub visible: bool,
}

/// The debug hit-box overlay drawn over the player: it follows the player's
/// position and is shown only while a collision is on.
#[derive(Clone, Copy, PartialEq, Eq, Structural, Debug)]
pub struct DinoBox {
    pub pos: Vec2,
    pub visible: bool,
}

/// An obstacle: a position, a velocity, and which way its sprite is flipped.
#[derive(Clone, Copy, PartialEq, Eq, Structural, Debug)]
pub struct Mob {
    pub pos: Vec2,
    pub vel: Vec2,
    pub flip_x: bool,
}

/// The one piece of game state beyond the sprites: whether the player has
/// been hit.
#[derive(Clone, Copy, PartialEq, Eq, Structural, Debug)]
pub struct GameState {
    pub game_over: bool,
}

/// The whole world: the player, its overlay, the obstacles, and the flag.
pub struct World {
    pub dino: Dino,
    pub dino_box: DinoBox,
    pub mobs: Vec<Mob>,
    pub state: GameState,
}

/// `v` clamped into `[lo, hi]`.
pub open spec fn clamp_int(v: int, lo: int, hi: int) -> int {
    if v < lo {
        lo
    } else if v > hi {
        hi
    } else {
        v
    }
}

/// The signed direction read from a pair of opposing keys.
pub open spec fn dir_component(neg: bool, pos: bool) -> int {
    (if pos {
        1int
    } else {
        0int
    }) - (if neg {
        1int
    } else {
        0int
    })
}

/// How far the player moves along x in one frame.
pub open spec fn dino_displacement_x(input: InputState, dt: int) -> int {
    dir_component(input.left, input.right) * DINO_SPEED * dt
}

/// How far the player moves along y in one frame.
pub open spec fn dino_displacement_y(input: InputState, dt: int) -> int {
    dir_component(input.down, input.up) * DINO_SPEED * dt
}

/// How one frame changes the player. The sprite flips to face left while
/// only the left key is held; right wins when both are held. Space hides the
/// sprite, V shows it, and V wins when both are held.
pub open spec fn dino_stepped(d0: Dino, d1: Dino, input: InputState, dt: int) -> bool {
    &&& d1.pos.x == d0.pos.x + dino_displacement_x(input, dt)
    &&& d1.pos.y == d0.pos.y + dino_displacement_y(input, dt)
    &&& d1.flip_x == (if input.right {
        false
    } else if input.left {
        true
    } else {
        d0.flip_x
    })
    &&& d1.visible == (if input.key_v {
        true
    } else if input.space {
        false
    } else {
        d0.visible
    })
}

/// How one frame of player movement changes the world: the player steps, the
/// overlay moves by the same displacement, and everything else is untouched.
pub open spec fn world_dino_stepped(w0: World, w1: World, input: InputState, dt: int) -> bool {
    &&& dino_stepped(w0.dino, w1.dino, input, dt)
    &&& w1.dino_box.pos.x == w0.dino_box.pos.x + dino_displacement_x(input, dt)
    &&& w1.dino_box.pos.y == w0.dino_box.pos.y + dino_displacement_y(input, dt)
    &&& w1.dino_box.visible == w0.dino_box.visible
    &&& w1.mobs == w0.mobs
    &&& w1.state == w0.state
}

/// Where an obstacle would land along x, before clamping.
pub open spec fn mob_next_x(m: Mob, dt: int) -> int {
    m.pos.x + m.vel.x * dt
}

/// Where an obstacle would land along y, before clamping.
pub open spec fn mob_next_y(m: Mob, dt: int) -> int {
    m.pos.y + m.vel.y * dt
}

/// Whether an obstacle crosses a vertical wall this frame.
pub open spec fn mob_bounces_x(m: Mob, dt: int) -> bool {
    mob_next_x(m, dt) > HALF_WIDTH || mob_next_x(m, dt) < -HALF_WIDTH
}

/// Whether an obstacle crosses a horizontal wall this frame.
pub open spec fn mob_bounces_y(m: Mob, dt: int) -> bool {
    mob_next_y(m, dt) > HALF_HEIGHT || mob_next_y(m, dt) < -HALF_HEIGHT
}

/// How one frame changes an obstacle: it moves by its velocity, a wall
/// crossing flips the velocity sign on that axis (and, for a vertical wall,
/// the sprite), and the position is clamped into the window.
pub open spec fn mob_stepped(m0: Mob, m1: Mob, dt: int) -> bool {
    &&& m1.pos.x == clamp_int(mob_next_x(m0, dt), -HALF_WIDTH as int, HALF_WIDTH as int)
    &&& m1.pos.y == clamp_int(mob_next_y(m0, dt), -HALF_HEIGHT as int, HALF_HEIGHT as int)
    &&& m1.vel.x == (if mob_bounces_x(m0, dt) {
        -m0.vel.x
    } else {
        m0.vel.x as int
    })
    &&& m1.vel.y == (if mob_bounces_y(m0, dt) {
        -m0.vel.y
    } else {
        m0.vel.y as int
    })
    &&& m1.flip_x == (if mob_bounces_x(m0, dt) {
        !m0.flip_x
    } else {
        m0.flip_x
    })
}

/// An obstacle whose position and velocity are small enough that one frame
/// of arithmetic cannot overflow.
pub open spec fn mob_bounded(m: Mob) -> bool {
    &&& -MAX_COORD <= m.pos.x <= MAX_COORD
    &&& -MAX_COORD <= m.pos.y <= MAX_COORD
    &&& -MAX_SPEED <= m.vel.x <= MAX_SPEED
    &&& -MAX_SPEED <= m.vel.y <= MAX_SPEED
}

/// An obstacle whose position lies inside the window.
pub open spec fn mob_in_window(m: Mob) -> bool {
    &&& -HALF_WIDTH <= m.pos.x <= HALF_WIDTH
    &&& -HALF_HEIGHT <= m.pos.y <= HALF_HEIGHT
}

/// The player's bounding box.
pub open spec fn dino_rect(d: Dino) -> RectModel {
    spec_make_rect(d.pos.x as int, d.pos.y as int, DINO_SIZE as int)
}

/// An obstacle's bounding box.
pub open spec fn mob_rect(m: Mob) -> RectModel {
    spec_make_rect(m.pos.x as int, m.pos.y as int, MOB_SIZE as int)
}

/// Whether this obstacle's box overlaps the player's box.
pub open spec fn mob_hits_dino(m: Mob, d: Dino) -> bool {
    overlaps(mob_rect(m), dino_rect(d))
}

/// Whether some obstacle's box overlaps the player's box.
pub open spec fn any_collision(mobs: Seq<Mob>, d: Dino) -> bool {
    exists|i: int| 0 <= i < mobs.len() && mob_hits_dino(mobs[i], d)
}

/// `v` clamped into `[lo, hi]`.
pub fn clamp(v: i64, lo: i64, hi: i64) -> (r: i64)
    requires
        lo <= hi,
    ensures
        r == clamp_int(v as int, lo as int, hi as int),
{
    if v < lo {
        lo
    } else if v > hi {
        hi
    } else {
        v
    }
}

/// One frame's displacement along one axis for the player, given the signed
/// direction read from the keys.
fn axis_movement(direction: i64, dt_ms: i64) -> (r: i64)
    requires
        -1 <= direction <= 1,
        0 <= dt_ms <= MAX_DT_MS,
    ensures
        r == direction * DINO_SPEED * dt_ms,
        -(DINO_SPEED * MAX_DT_MS) <= r <= DINO_SPEED * MAX_DT_MS,
{
    let step: i64 = DINO_SPEED * dt_ms;
    if direction == 1 {
        proof {
            assert(direction * DINO_SPEED * dt_ms == DINO_SPEED * dt_ms) by (nonlinear_arith)
                requires
                    direction == 1,
            ;
        }
        step
    } else if direction == -1 {
        proof {
            assert(direction * DINO_SPEED * dt_ms == -(DINO_SPEED * dt_ms)) by (nonlinear_arith)
                requires
                    direction == -1,
            ;
        }
        -step
    } else {
        proof {
            assert(direction * DINO_SPEED * dt_ms == 0) by (nonlinear_arith)
                requires
                    direction == 0,
            ;
        }
        0
    }
}

/// The world as the game starts: the player at the lower left, its overlay
/// hidden on the same spot, three obstacles moving right, and the flag off.
pub fn setup() -> (w: World)
    ensures
        w.dino.pos.x == -250 * SUBPIX,
        w.dino.pos.y == -25 * SUBPIX,
        !w.dino.flip_x,
        w.dino.visible,
        w.dino_box.pos == w.dino.pos,
        !w.dino_box.visible,
        !w.state.game_over,
        w.mobs@.len() == 3,
        w.mobs@[0].pos.x == 100 * SUBPIX,
        w.mobs@[0].pos.y == -100 * SUBPIX,
        w.mobs@[1].pos.x == 100 * SUBPIX,
        w.mobs@[1].pos.y == 0,
        w.mobs@[2].pos.x == -100 * SUBPIX,
        w.mobs@[2].pos.y == 0,
        forall|i: int|
            0 <= i < w.mobs@.len() ==> w.mobs@[i].vel == (Vec2 { x: 250, y: 0 })
                && w.mobs@[i].flip_x,
        forall|i: int| 0 <= i < w.mobs@.len() ==> mob_bounded(w.mobs@[i]) && mob_in_window(
            w.mobs@[i],
        ),
{
    let dino = Dino { pos: Vec2 { x: -250 * SUBPIX, y: -25 * SUBPIX }, flip_x: false, visible: true };
    let dino_box = DinoBox { pos: Vec2 { x: -250 * SUBPIX, y: -25 * SUBPIX }, visible: false };
    let mut mobs: Vec<Mob> = Vec::new();
    mobs.push(Mob {
        pos: Vec2 { x: 100 * SUBPIX, y: -100 * SUBPIX },
        vel: Vec2 { x: 250, y: 0 },
        flip_x: true,
    });
    mobs.push(Mob { pos: Vec2 { x: 100 * SUBPIX, y: 0 }, vel: Vec2 { x: 250, y: 0 }, flip_x: true });
    mobs.push(Mob { pos: Vec2 { x: -100 * SUBPIX, y: 0 }, vel: Vec2 { x: 250, y: 0 }, flip_x: true });
    World { dino, dino_box, mobs, state: GameState { game_over: false } }
}

/// One frame for one obstacle: move by the velocity, reflect the velocity
/// sign on a wall crossing (flipping the sprite for a vertical wall), and
/// clamp the position into the window.
pub fn move_mob(m: &mut Mob, dt_ms: i64)
    requires
        0 <= dt_ms <= MAX_DT_MS,
        mob_bounded(*old(m)),
    ensures
        mob_stepped(*old(m), *final(m), dt_ms as int),
        mob_in_window(*final(m)),
        mob_bounded(*final(m)),
{
    proof {
        assert(-(MAX_SPEED * MAX_DT_MS) <= m.vel.x * dt_ms <= MAX_SPEED * MAX_DT_MS)
            by (nonlinear_arith)
            requires
                -MAX_SPEED <= m.vel.x <= MAX_SPEED,
                0 <= dt_ms <= MAX_DT_MS,
        ;
        assert(-(MAX_SPEED * MAX_DT_MS) <= m.vel.y * dt_ms <= MAX_SPEED * MAX_DT_MS)
            by (nonlinear_arith)
            requires
                -MAX_SPEED <= m.vel.y <= MAX_SPEED,
                0 <= dt_ms <= MAX_DT_MS,
        ;
    }
    let x: i64 = m.pos.x + m.vel.x * dt_ms;
    let y: i64 = m.pos.y + m.vel.y * dt_ms;

    if x > HALF_WIDTH || x < -HALF_WIDTH {
        m.flip_x = !m.flip_x;
        m.vel.x = -m.vel.x;
    }
    if y > HALF_HEIGHT || y < -HALF_HEIGHT {
        m.vel.y = -m.vel.y;
    }
    m.pos.x = clamp(x, -HALF_WIDTH, HALF_WIDTH);
    m.pos.y = clamp(y, -HALF_HEIGHT, HALF_HEIGHT);
}

impl World {
    /// One frame of player movement: the held arrow keys give a direction,
    /// the player and its overlay move by that direction times the player
    /// speed times the frame delta, the sprite faces the way it moves, and
    /// space or V hide or show it.
    pub fn move_dino(&mut self, input: InputState, dt_ms: i64)
        requires
            0 <= dt_ms <= MAX_DT_MS,
            -MAX_COORD <= old(self).dino.pos.x <= MAX_COORD,
            -MAX_COORD <= old(self).dino.pos.y <= MAX_COORD,
            -MAX_COORD <= old(self).dino_box.pos.x <= MAX_COORD,
            -MAX_COORD <= old(self).dino_box.pos.y <= MAX_COORD,
        ensures
            world_dino_stepped(*old(self), *final(self), input, dt_ms as int),
    {
        let mut direction_x: i64 = 0;
        let mut direction_y: i64 = 0;
        if input.left {
            if !self.dino.flip_x {
                self.dino.flip_x = true;
            }
            direction_x = direction_x - 1;
        }
        if input.right {
            if self.dino.flip_x {
                self.dino.flip_x = false;
            }
            direction_x = direction_x + 1;
        }
        if input.up {
            direction_y = direction_y + 1;
        }
        if input.down {
            direction_y = direction_y - 1;
        }

        if input.space {
            self.dino.visible = false;
        }
        if input.key_v {
            self.dino.visible = true;
        }

        let mov_x: i64 = axis_movement(direction_x, dt_ms);
        let mov_y: i64 = axis_movement(direction_y, dt_ms);
        self.dino.pos.x = self.dino.pos.x + mov_x;
        self.dino.pos.y = self.dino.pos.y + mov_y;
        self.dino_box.pos.x = self.dino_box.pos.x + mov_x;
        self.dino_box.pos.y = self.dino_box.pos.y + mov_y;
    }

    /// One frame of obstacle movement: every obstacle steps as `move_mob`
    /// says; nothing else changes.
    pub fn move_mobs(&mut self, dt_ms: i64)
        requires
            0 <= dt_ms <= MAX_DT_MS,
            forall|i: int| 0 <= i < old(self).mobs@.len() ==> mob_bounded(old(self).mobs@[i]),
        ensures
            final(self).mobs@.len() == old(self).mobs@.len(),
            forall|i: int|
                0 <= i < old(self).mobs@.len() ==> mob_stepped(
                    old(self).mobs@[i],
                    final(self).mobs@[i],
                    dt_ms as int,
                ),
            forall|i: int|
                0 <= i < final(self).mobs@.len() ==> mob_in_window(final(self).mobs@[i])
                    && mob_bounded(final(self).mobs@[i]),
            final(self).dino == old(self).dino,
            final(self).dino_box == old(self).dino_box,
            final(self).state == old(self).state,
    {
        let n: usize = self.mobs.len();
        let mut i: usize = 0;
        while i < n
            invariant
                i <= n,
                n == self.mobs.len(),
                n == old(self).mobs@.len(),
                0 <= dt_ms <= MAX_DT_MS,
                forall|j: int| 0 <= j < n ==> mob_bounded(old(self).mobs@[j]),
                forall|j: int| i <= j < n ==> self.mobs@[j] == old(self).mobs@[j],
                forall|j: int|
                    0 <= j < i ==> mob_stepped(old(self).mobs@[j], self.mobs@[j], dt_ms as int)
                        && mob_in_window(self.mobs@[j]) && mob_bounded(self.mobs@[j]),
                self.dino == old(self).dino,
                self.dino_box == old(self).dino_box,
                self.state == old(self).state,
            decreases n - i,
        {
            let mut m: Mob = self.mobs[i];
            move_mob(&mut m, dt_ms);
            self.mobs.set(i, m);
            i = i + 1;
        }
    }

    /// One frame of collision detection: if some obstacle's box overlaps the
    /// player's box, the game is over and the overlay is shown; otherwise the
    /// flag keeps its value, and the overlay is hidden when there is at least
    /// one obstacle. Positions are untouched.
    pub fn collision_detection(&mut self)
        requires
            -MAX_COORD <= old(self).dino.pos.x <= MAX_COORD,
            -MAX_COORD <= old(self).dino.pos.y <= MAX_COORD,
            forall|i: int| 0 <= i < old(self).mobs@.len() ==> mob_bounded(old(self).mobs@[i]),
        ensures
            final(self).state.game_over == (old(self).state.game_over || any_collision(
                old(self).mobs@,
                old(self).dino,
            )),
            final(self).dino_box.visible == (if any_collision(old(self).mobs@, old(self).dino) {
                true
            } else if old(self).mobs@.len() > 0 {
                false
            } else {
                old(self).dino_box.visible
            }),
            final(self).dino == old(self).dino,
            final(self).dino_box.pos == old(self).dino_box.pos,
            final(self).mobs == old(self).mobs,
    {
        let drect: Rect = make_rect(self.dino.pos, DINO_SIZE);
        let n: usize = self.mobs.len();
        let mut i: usize = 0;
        while i < n
            invariant
                i <= n,
                n == self.mobs.len(),
                self.dino == old(self).dino,
                self.state == old(self).state,
                self.mobs == old(self).mobs,
                self.dino_box.pos == old(self).dino_box.pos,
                -MAX_COORD <= self.dino.pos.x <= MAX_COORD,
                -MAX_COORD <= self.dino.pos.y <= MAX_COORD,
                forall|j: int| 0 <= j < n ==> mob_bounded(self.mobs@[j]),
                drect@ == dino_rect(self.dino),
                forall|j: int| 0 <= j < i ==> !mob_hits_dino(self.mobs@[j], self.dino),
                self.dino_box.visible == (if i > 0 {
                    false
                } else {
                    old(self).dino_box.visible
                }),
            decreases n - i,
        {
            let mrect: Rect = make_rect(self.mobs[i].pos, MOB_SIZE);
            let ri: Rect = mrect.intersect(&drect);
            if !ri.is_empty() {
                proof {
                    crate::geometry::lemma_intersect_empty_iff_no_overlap(mrect@, drect@);
                    assert(mob_hits_dino(self.mobs@[i as int], self.dino));
                }
                self.state.game_over = true;
                self.dino_box.visible = true;
                return;
            } else {
                proof {
                    crate::geometry::lemma_intersect_empty_iff_no_overlap(mrect@, drect@);
                }
                self.dino_box.visible = false;
            }
            i = i + 1;
        }
    }
}

/// At a wall crossing the velocity reverses exactly; otherwise it is kept.
/// Either way its magnitude never changes.
pub proof fn lemma_bounce_preserves_speed(m0: Mob, m1: Mob, dt: int)
    requires
        mob_stepped(m0, m1, dt),
    ensures
        m1.vel.x == m0.vel.x || m1.vel.x == -m0.vel.x,
        m1.vel.y == m0.vel.y || m1.vel.y == -m0.vel.y,
        mob_bounces_x(m0, dt) ==> m1.vel.x == -m0.vel.x,
        mob_bounces_y(m0, dt) ==> m1.vel.y == -m0.vel.y,
{
}

/// A stepped obstacle always lands inside the window, wherever it started.
pub proof fn lemma_step_stays_in_window(m0: Mob, m1: Mob, dt: int)
    requires
        mob_stepped(m0, m1, dt),
    ensures
        mob_in_window(m1),
{
}

/// While the overlay starts on the player, one frame of player movement
/// keeps it there: both move by the same displacement.
pub proof fn lemma_box_tracks_dino(w0: World, w1: World, input: InputState, dt: int)
    requires
        world_dino_stepped(w0, w1, input, dt),
        w0.dino_box.pos == w0.dino.pos,
    ensures
        w1.dino_box.pos == w1.dino.pos,
{
}

} // verus!
