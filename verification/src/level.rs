//! The shoreline itself: where the ground and the water sit for a given
//! window, the blast zones that swallow whatever leaves the screen, and
//! which body a blast-zone contact removes.

use vstd::prelude::*;

verus! {

/// Where the ground strip and the water sit, for a given window. Both
/// are centered horizontally; extents are full widths and heights.
#[derive(Clone, Copy, Debug, PartialEq, Eq, Structural)]
pub struct GroundLayout {
    /// The ground strip: a band 150 pixels under the window's top.
    pub ground_x: i64,
    pub ground_y: i64,
    pub ground_w: u32,
    pub ground_h: u32,
    pub ground_rgb: u32,
    /// The water: filling the window's height below the ground line.
    pub water_x: i64,
    pub water_y: i64,
    pub water_w: u32,
    pub water_h: u32,
    pub water_rgb: u32,
}

/// Lay out the ground and the water for a window of the given size: the
/// ground line sits 150 pixels under the top edge, and a window-sized
/// body of water hangs centered under it.
pub fn ground_layout(window_w: u32, window_h: u32) -> (r: GroundLayout)
    ensures
        r.ground_x == 0,
        r.ground_y == (window_h / 2) as int - 150,
        r.ground_w == window_w,
        r.ground_h == 30,
        r.ground_rgb == 0xc4a484,
        r.water_x == 0,
        r.water_y == (window_h / 2) as int - 150 - (window_h / 2) as int,
        r.water_w == window_w,
        r.water_h == window_h,
        r.water_rgb == 0x2063a5,
{
    let top: i64 = (window_h / 2) as i64 - 150;
    let half_h: i64 = (window_h / 2) as i64;
    GroundLayout {
        ground_x: 0,
        ground_y: top,
        ground_w: window_w,
        ground_h: 30,
        ground_rgb: 0xc4a484,
        water_x: 0,
        water_y: top - half_h,
        water_w: window_w,
        water_h: window_h,
        water_rgb: 0x2063a5,
    }
}

/// One fixed blast-zone collider: a box that removes what touches it.
/// Extents are half-widths and half-heights, as the physics engine takes
/// them.
#[derive(Clone, Copy, Debug, PartialEq, Eq, Structural)]
pub struct BlastZone {
    pub x: i64,
    pub y: i64,
    pub half_w: u32,
    pub half_h: u32,
}

/// The three blast zones around the screen, and the collision groups
/// they watch.
#[derive(Clone, Copy, Debug, PartialEq, Eq, Structural)]
pub struct BlastZoneLayout {
    /// A wide floor far under the window.
    pub bottom: BlastZone,
    /// A tall wall past either side edge.
    pub left: BlastZone,
    pub right: BlastZone,
    /// The group the zones belong to, and the group they react to, as
    /// bit masks.
    pub membership_bits: u32,
    pub filter_bits: u32,
}

/// Lay out the blast zones for a window of the given size: a floor 400
/// pixels below the window's bottom edge, and a wall 150 pixels past
/// each side edge.
pub fn blast_zone_layout(window_w: u32, window_h: u32) -> (r: BlastZoneLayout)
    ensures
        r.bottom.x == 0 && r.bottom.y == -((window_h / 2) as int) - 400,
        r.bottom.half_w == window_w && r.bottom.half_h == 10,
        r.left.x == -((window_w / 2) as int) - 150 && r.left.y == 0,
        r.left.half_w == 10 && r.left.half_h == window_h,
        r.right.x == (window_w / 2) as int + 150 && r.right.y == 0,
        r.right.half_w == 10 && r.right.half_h == window_h,
        r.membership_bits == 0b0001,
        r.filter_bits == 0b0010,
{
    let half_w: i64 = (window_w / 2) as i64;
    let half_h: i64 = (window_h / 2) as i64;
    BlastZoneLayout {
        bottom: BlastZone { x: 0, y: -half_h - 400, half_w: window_w, half_h: 10 },
        left: BlastZone { x: -half_w - 150, y: 0, half_w: 10, half_h: window_h },
        right: BlastZone { x: half_w + 150, y: 0, half_w: 10, half_h: window_h },
        membership_bits: 0b0001,
        filter_bits: 0b0010,
    }
}

/// Given a contact pair and one of its two bodies, the other body: the
/// one a blast-zone contact removes, and the one an explosion's blast
/// reaches. Bodies are named by their engine-side ids.
pub fn other_collider(collider1: u64, collider2: u64, me: u64) -> (r: u64)
    ensures
        r == (if collider1 == me {
            collider2
        } else {
            collider1
        }),
{
    if collider1 == me {
        collider2
    } else {
        collider1
    }
}

} // verus!
