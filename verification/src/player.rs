//! The player on the shore: walking and facing, the run animation, the
//! one bomb that can be in the air, the explosion it becomes, and fishing
//! straight down for whatever swims below.

use vstd::prelude::*;

use crate::enemy::{spec_fish_points, Fish};
use crate::score::Score;
use crate::timer::{fires, spec_tick, GameTimer};
use crate::types::Dir;

verus! {

/// The player character: where it stands and which way it faces.
#[derive(Clone, Copy, Debug, PartialEq, Eq, Structural)]
pub struct Player {
    pub x: i64,
    pub y: i64,
    pub facing: Dir,
}

/// Where the player starts: centered, standing on the ground line, which
/// sits 150 pixels under the window's top and carries the 32-pixel-tall
/// sprite.
pub fn player_setup(window_h: u32) -> (r: Player)
    ensures
        r.x == 0,
        r.y == (window_h / 2) as int - 150 + 32,
        r.facing == Dir::Forward,
{
    let y: i64 = (window_h / 2) as i64 - 150 + 32;
    Player { x: 0, y, facing: Dir::Forward }
}

/// The run animation: a band of sprite-sheet frames stepped on a timer.
#[derive(Clone, Copy, Debug, PartialEq, Eq, Structural)]
pub struct AnimationState {
    /// First and last frame of the band.
    pub first: u32,
    pub last: u32,
    /// The frame currently shown.
    pub index: u32,
    /// Paces the frame steps.
    pub timer: GameTimer,
}

impl AnimationState {
    /// The invariant: the shown frame stays inside the band, and the
    /// pacing timer keeps its own invariant.
    pub open spec fn wf(self) -> bool {
        &&& self.first <= self.index <= self.last
        &&& self.timer.wf()
    }
}

/// The player's run animation: the first eleven frames of the sheet,
/// stepped every tenth of a second.
pub fn player_animation() -> (r: AnimationState)
    ensures
        r.wf(),
        r.first == 0,
        r.last == 10,
        r.index == 0,
        r.timer.duration_ms == 100,
        r.timer.elapsed_ms == 0,
        r.timer.repeating,
{
    AnimationState { first: 0, last: 10, index: 0, timer: GameTimer::new_repeating(100) }
}

/// One frame of animation: advance the pacing timer; each time it fires,
/// step to the next frame, wrapping from the last back to the first.
pub fn animate_step(anim: &mut AnimationState, dt_ms: u32)
    requires
        old(anim).wf(),
    ensures
        final(anim).wf(),
        final(anim).first == old(anim).first,
        final(anim).last == old(anim).last,
        final(anim).timer == spec_tick(old(anim).timer, dt_ms),
        final(anim).index == (if fires(old(anim).timer, dt_ms) {
            if old(anim).index == old(anim).last {
                old(anim).first as int
            } else {
                old(anim).index + 1
            }
        } else {
            old(anim).index as int
        }),
{
    let stepped = anim.timer.tick(dt_ms);
    if stepped {
        anim.index = if anim.index == anim.last {
            anim.first
        } else {
            anim.index + 1
        };
    }
}

/// How far the player walks in one frame: 150 pixels per second.
pub open spec fn walk_delta(dt_ms: u32) -> int {
    150 * (dt_ms as int) / 1000
}

/// One frame of walking: the right arrow carries the player forward, the
/// left arrow backward, and both at once cancel out. Facing is handled
/// separately by `flip_player`.
pub fn player_movement(
    player: &mut Player,
    left_pressed: bool,
    right_pressed: bool,
    dt_ms: u32,
)
    requires
        old(player).x + walk_delta(dt_ms) <= i64::MAX,
        old(player).x - walk_delta(dt_ms) >= i64::MIN,
    ensures
        final(player).x == old(player).x + (if right_pressed {
            walk_delta(dt_ms)
        } else {
            0int
        }) - (if left_pressed {
            walk_delta(dt_ms)
        } else {
            0int
        }),
        final(player).y == old(player).y,
        final(player).facing == old(player).facing,
{
    let delta: i64 = (150u64 * dt_ms as u64 / 1000) as i64;
    if right_pressed {
        player.x = player.x + delta;
    }
    if left_pressed {
        player.x = player.x - delta;
    }
}

/// Turn the player around when a key points the other way: facing
/// forward, the left arrow turns the player backward; facing backward,
/// the right arrow turns it forward. Nothing else changes it.
pub fn flip_player(player: &mut Player, left_pressed: bool, right_pressed: bool)
    ensures
        final(player).x == old(player).x,
        final(player).y == old(player).y,
        final(player).facing == (if old(player).facing == Dir::Forward && left_pressed {
            Dir::Backward
        } else if old(player).facing == Dir::Backward && right_pressed {
            Dir::Forward
        } else {
            old(player).facing
        }),
{
    match player.facing {
        Dir::Forward => {
            if left_pressed {
                player.facing = Dir::Backward;
            }
        },
        Dir::Backward => {
            if right_pressed {
                player.facing = Dir::Forward;
            }
        },
        _ => {},
    }
}

/// Whether the sprite is drawn mirrored: exactly when the player faces
/// backward (the half-turn the renderer applies).
pub fn sprite_mirrored(facing: &Dir) -> (r: bool)
    ensures
        r == (*facing == Dir::Backward),
{
    match facing {
        Dir::Backward => true,
        _ => false,
    }
}

/// Everything needed to put a new bomb into the world.
#[derive(Clone, Copy, Debug, PartialEq, Eq, Structural)]
pub struct BombSpawn {
    /// Where the bomb appears: at the player.
    pub x: i64,
    pub y: i64,
    /// The drawn circle's radius.
    pub radius: u32,
    /// The collision ball's radius.
    pub collider_radius: u32,
}

/// What one press of the bomb key does.
#[derive(Clone, Copy, Debug, PartialEq, Eq, Structural)]
pub enum BombAction {
    /// The key was not pressed: nothing happens.
    Rest,
    /// No bomb was in the air: drop one from the player.
    Drop(BombSpawn),
    /// A bomb was already falling: detonate it where it is.
    Detonate { x: i64, y: i64 },
}

/// Decide what the bomb key does this frame. Only a fresh press acts; a
/// press drops a bomb from the player when none is in the air, and
/// detonates the one that is.
pub fn bomb_drop(
    space_just_pressed: bool,
    bomb: Option<(i64, i64)>,
    player: &Player,
) -> (r: BombAction)
    ensures
        !space_just_pressed ==> r == BombAction::Rest,
        bomb matches Some(p) ==> (space_just_pressed ==> r == (BombAction::Detonate {
            x: p.0,
            y: p.1,
        })),
        space_just_pressed && bomb.is_none() ==> r == BombAction::Drop(
            BombSpawn { x: player.x, y: player.y, radius: 12, collider_radius: 10 },
        ),
{
    if space_just_pressed {
        match bomb {
            Some((x, y)) => BombAction::Detonate { x, y },
            Option::None => BombAction::Drop(
                BombSpawn { x: player.x, y: player.y, radius: 12, collider_radius: 10 },
            ),
        }
    } else {
        BombAction::Rest
    }
}

/// How far the bomb falls in one frame: 150 pixels per second.
pub open spec fn fall_delta(dt_ms: u32) -> int {
    150 * (dt_ms as int) / 1000
}

/// One frame of the bomb sinking toward the water's floor.
pub fn bomb_movement(y: i64, dt_ms: u32) -> (r: i64)
    requires
        y - fall_delta(dt_ms) >= i64::MIN,
    ensures
        r == y - fall_delta(dt_ms),
{
    let delta: i64 = (150u64 * dt_ms as u64 / 1000) as i64;
    y - delta
}

/// A live explosion, gone again when its timer runs out.
#[derive(Clone, Copy, Debug, PartialEq, Eq, Structural)]
pub struct Explosion {
    pub timer: GameTimer,
}

impl Explosion {
    /// The invariant: an explosion burns down a once timer.
    pub open spec fn wf(self) -> bool {
        self.timer.wf() && !self.timer.repeating
    }
}

/// Everything needed to put a bomb's explosion into the world.
#[derive(Clone, Copy, Debug, PartialEq, Eq, Structural)]
pub struct ExplosionSpawn {
    /// Where the blast appears: where the bomb was.
    pub x: i64,
    pub y: i64,
    /// The drawn circle's radius.
    pub radius: u32,
    /// The collision ball's radius.
    pub collider_radius: u32,
    /// The blast itself, with a quarter second to live.
    pub explosion: Explosion,
}

/// Turn a bomb into its explosion: a blast at the bomb's position that
/// lasts a quarter of a second; the bomb itself is gone.
pub fn detonate_bomb(x: i64, y: i64) -> (r: ExplosionSpawn)
    ensures
        r.x == x,
        r.y == y,
        r.radius == 25,
        r.collider_radius == 23,
        r.explosion.wf(),
        r.explosion.timer.duration_ms == 250,
        r.explosion.timer.elapsed_ms == 0,
        !r.explosion.timer.repeating,
{
    ExplosionSpawn {
        x,
        y,
        radius: 25,
        collider_radius: 23,
        explosion: Explosion { timer: GameTimer::new_once(250) },
    }
}

/// One frame of a live explosion: run its timer and say whether the
/// blast is over and should be removed.
pub fn clear_explosion(explosion: &mut Explosion, dt_ms: u32) -> (despawn: bool)
    requires
        old(explosion).wf(),
    ensures
        final(explosion).wf(),
        final(explosion).timer == spec_tick(old(explosion).timer, dt_ms),
        despawn == (old(explosion).timer.elapsed_ms + dt_ms
            >= old(explosion).timer.duration_ms),
{
    explosion.timer.tick(dt_ms);
    explosion.timer.finished()
}

/// The ray the player fishes with: cast straight down from where the
/// player stands, reaching 32 pixels, hitting solid shapes.
#[derive(Clone, Copy, Debug, PartialEq, Eq, Structural)]
pub struct FishingRay {
    pub origin_x: i64,
    pub origin_y: i64,
    pub dir_x: i64,
    pub dir_y: i64,
    pub max_toi: u32,
    pub solid: bool,
}

/// Build the fishing ray for the player's current position.
pub fn fishing_ray(player: &Player) -> (r: FishingRay)
    ensures
        r.origin_x == player.x,
        r.origin_y == player.y,
        r.dir_x == 0,
        r.dir_y == -1,
        r.max_toi == 32,
        r.solid,
{
    FishingRay {
        origin_x: player.x,
        origin_y: player.y,
        dir_x: 0,
        dir_y: -1,
        max_toi: 32,
        solid: true,
    }
}

/// Decide a frame of fishing: when the fishing ray has hit a fish and
/// the catch key was just pressed, the fish is caught — its points are
/// added to the score and it is removed from the world. Otherwise
/// nothing changes.
pub fn check_for_fish(
    score: &mut Score,
    hit: Option<&Fish>,
    catch_just_pressed: bool,
) -> (caught: bool)
    requires
        hit matches Some(f) ==> (catch_just_pressed ==> old(score).val + spec_fish_points(
            f.fish_type,
        ) <= u32::MAX),
    ensures
        caught == (hit.is_some() && catch_just_pressed),
        hit matches Some(f) ==> (catch_just_pressed ==> final(score).val == old(score).val
            + spec_fish_points(f.fish_type)),
        !caught ==> final(score).val == old(score).val,
{
    match hit {
        Some(fish) => {
            if catch_just_pressed {
                let points = crate::enemy::get_score_for_fish_type(&fish.fish_type);
                score.val = score.val + points;
                true
            } else {
                false
            }
        },
        Option::None => false,
    }
}

} // verus!
