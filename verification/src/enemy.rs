//! Fish: how they are spawned on a timer at a random depth and side, how
//! they swim across the water, what they are worth, and what an explosion
//! does to them.

use vstd::prelude::*;

use crate::rng::draw_in_range;
use crate::timer::{fires, spec_tick, GameTimer};
use crate::types::Dir;

verus! {

/// The kinds of fish that swim by. A basic fish is worth points; a turtle
/// is not, and killing one is a mistake.
#[derive(Clone, Copy, Debug, PartialEq, Eq, Structural)]
pub enum FishType {
    Basic,
    Turtle,
}

/// One fish in the water: its kind and the way it is headed.
#[derive(Clone, Copy, Debug, PartialEq, Eq, Structural)]
pub struct Fish {
    pub fish_type: FishType,
    pub direction: Dir,
}

/// What each kind of fish is worth: only the basic fish scores.
pub open spec fn spec_fish_points(ft: FishType) -> int {
    if ft == FishType::Basic {
        100
    } else {
        0
    }
}

/// The points a caught fish is worth: only the basic fish scores.
pub fn get_score_for_fish_type(ft: &FishType) -> (r: u32)
    ensures
        r == spec_fish_points(*ft),
{
    match ft {
        FishType::Basic => 100,
        _ => 0,
    }
}

/// The body color each kind of fish is drawn with, as 24-bit RGB.
pub open spec fn spec_fish_color(ft: FishType) -> int {
    if ft == FishType::Basic {
        0xfc6a03
    } else {
        0x3cb043
    }
}

/// Everything needed to put a new fish into the world.
#[derive(Clone, Copy, Debug, PartialEq, Eq, Structural)]
pub struct FishSpawn {
    /// Where the fish appears.
    pub x: i64,
    pub y: i64,
    /// The fish itself.
    pub fish: Fish,
    /// Its body color, 24-bit RGB.
    pub color_rgb: u32,
    /// The drawn quad, full extents.
    pub width: u32,
    pub height: u32,
    /// The collision box, half extents.
    pub collider_hx: u32,
    pub collider_hy: u32,
}

/// The timer that paces fish spawning: one fish every two seconds.
pub fn fish_spawn_timer() -> (r: GameTimer)
    ensures
        r.wf(),
        r.duration_ms == 2000,
        r.elapsed_ms == 0,
        r.repeating,
{
    GameTimer::new_repeating(2000)
}

/// Place a fish from the three random draws: its depth in the water, the
/// side it enters from, and the roll that decides its kind. A fish
/// entering from the left swims forward; one from the right swims
/// backward; either starts 20 pixels beyond the window's edge. One roll
/// in five makes a turtle.
pub fn fish_spawn_at(
    window_w: u32,
    window_h: u32,
    depth: i64,
    side_roll: i64,
    type_roll: i64,
) -> (r: FishSpawn)
    requires
        -((window_h / 2) as int) <= depth < 150,
        0 <= side_roll < 2,
        0 <= type_roll < 100,
    ensures
        r.fish.direction == (if side_roll == 0 { Dir::Backward } else { Dir::Forward }),
        r.x == (if side_roll == 0 {
            (window_w / 2) as int + 20
        } else {
            -((window_w / 2) as int) - 20
        }),
        r.y == depth,
        r.fish.fish_type == (if type_roll >= 80 { FishType::Turtle } else { FishType::Basic }),
        r.color_rgb == spec_fish_color(r.fish.fish_type),
        r.width == 15 && r.height == 10,
        r.collider_hx == 10 && r.collider_hy == 5,
{
    let half_w: i64 = (window_w / 2) as i64;
    let direction = if side_roll == 0 { Dir::Backward } else { Dir::Forward };
    let x: i64 = match direction {
        Dir::Forward => -half_w - 20,
        _ => half_w + 20,
    };
    let fish_type = if type_roll >= 80 { FishType::Turtle } else { FishType::Basic };
    let color_rgb: u32 = match fish_type {
        FishType::Basic => 0xfc6a03,
        FishType::Turtle => 0x3cb043,
    };
    FishSpawn {
        x,
        y: depth,
        fish: Fish { fish_type, direction },
        color_rgb,
        width: 15,
        height: 10,
        collider_hx: 10,
        collider_hy: 5,
    }
}

/// Whether a spawn is one the rules above could have produced for this
/// window: depth within the water's band, entry just past one edge with
/// the matching heading, and the color that belongs to the kind.
pub open spec fn spawn_within_rules(window_w: u32, window_h: u32, s: FishSpawn) -> bool {
    &&& -((window_h / 2) as int) <= s.y < 150
    &&& (s.fish.direction == Dir::Forward || s.fish.direction == Dir::Backward)
    &&& (s.fish.direction == Dir::Forward ==> s.x == -((window_w / 2) as int) - 20)
    &&& (s.fish.direction == Dir::Backward ==> s.x == (window_w / 2) as int + 20)
    &&& s.color_rgb == spec_fish_color(s.fish.fish_type)
    &&& s.width == 15 && s.height == 10
    &&& s.collider_hx == 10 && s.collider_hy == 5
}

/// One frame of the spawner: advance the pacing timer by the frame's
/// delta, and exactly when it fires, draw a depth, a side and a kind and
/// place a new fish. Which fish comes out is up to the random draws, but
/// every one obeys `spawn_within_rules`.
pub fn spawn_fish(
    window_w: u32,
    window_h: u32,
    config: &mut GameTimer,
    dt_ms: u32,
    rng: &mut rand::rngs::ThreadRng,
) -> (r: Option<FishSpawn>)
    requires
        old(config).wf(),
    ensures
        final(config).wf(),
        *final(config) == spec_tick(*old(config), dt_ms),
        r.is_some() == fires(*old(config), dt_ms),
        r matches Some(s) ==> spawn_within_rules(window_w, window_h, s),
{
    let just_finished = config.tick(dt_ms);
    if just_finished {
        let half_h: i64 = (window_h / 2) as i64;
        let depth = draw_in_range(rng, -half_h, 150);
        let side_roll = draw_in_range(rng, 0, 2);
        let type_roll = draw_in_range(rng, 0, 100);
        Some(fish_spawn_at(window_w, window_h, depth, side_roll, type_roll))
    } else {
        None
    }
}

/// How far a fish swims in one frame: 100 pixels per second.
pub open spec fn swim_delta(dt_ms: u32) -> int {
    100 * (dt_ms as int) / 1000
}

/// One frame of swimming: forward and backward fish cross the screen;
/// a fish headed up floats toward the surface and stops at the ground
/// line.
pub fn fish_swim_step(fish: &Fish, x: i64, y: i64, ground_y: i64, dt_ms: u32) -> (r: (i64, i64))
    requires
        x + swim_delta(dt_ms) <= i64::MAX,
        x - swim_delta(dt_ms) >= i64::MIN,
        y + swim_delta(dt_ms) <= i64::MAX,
    ensures
        fish.direction == Dir::Forward ==> r == (((x + swim_delta(dt_ms)) as i64, y)),
        fish.direction == Dir::Backward ==> r == (((x - swim_delta(dt_ms)) as i64, y)),
        fish.direction == Dir::Up && y <= ground_y ==> r == ((x, (y + swim_delta(dt_ms)) as i64)),
        fish.direction == Dir::Up && y > ground_y ==> r == ((x, y)),
{
    let delta: i64 = (100u64 * dt_ms as u64 / 1000) as i64;
    match fish.direction {
        Dir::Forward => (x + delta, y),
        Dir::Backward => (x - delta, y),
        Dir::Up => {
            if y <= ground_y {
                (x, y + delta)
            } else {
                (x, y)
            }
        },
    }
}

/// What an explosion's blast does to a fish it touches: a basic fish is
/// killed and floats up; a turtle is unmoved.
pub fn fish_hit_by_explosion(fish: &mut Fish)
    ensures
        final(fish).fish_type == old(fish).fish_type,
        old(fish).fish_type == FishType::Basic ==> final(fish).direction == Dir::Up,
        old(fish).fish_type == FishType::Turtle ==> final(fish).direction == old(fish).direction,
{
    match fish.fish_type {
        FishType::Basic => {
            fish.direction = Dir::Up;
        },
        FishType::Turtle => {},
    }
}

} // verus!
