//! The walls around the tilt-driven sprite.
//!
//! The sprite's position and speed are fractional and kept by the host. Once
//! a frame the host moves the sprite, cuts the new position down to whole
//! pixels and asks [`axis_step`], one axis at a time, whether a wall was run
//! into. A wall puts the sprite back inside and turns it round at half the
//! speed.

use crate::framebuffer::ISCREEN_H;
use crate::framebuffer::ISCREEN_W;
use vstd::prelude::*;

verus! {

/// Edge length of the square sprite, in pixels.
pub const SPRITE_SIZE: i16 = 64;

/// What a wall does to the sprite on one axis.
#[derive(Clone, Copy, Debug, PartialEq, Eq, Structural)]
pub struct AxisStep {
    /// Where the sprite is put, if a wall was run into.
    pub clamp_to: Option<i32>,
    /// How often the speed is reversed and halved.
    pub bounces: u8,
}

/// The positions open to the sprite's top-left corner: `0..max_x` across and
/// `0..max_y` down.
#[derive(Clone, Copy, Debug, PartialEq, Eq, Structural)]
pub struct Bounds {
    pub max_x: i16,
    pub max_y: i16,
}

/// Whether the near wall, at zero, was run into.
pub open spec fn hits_low(ipos: i16) -> bool {
    ipos < 0
}

/// Whether the far wall was run into. The bound itself is past the wall.
pub open spec fn hits_high(ipos: i16, bound_max: i16) -> bool {
    ipos >= bound_max
}

/// Where a wall puts the sprite: the far wall one pixel short of the bound,
/// the near wall at zero, and the far wall has the last word.
pub open spec fn clamp_target(ipos: i16, bound_max: i16) -> Option<int> {
    if hits_high(ipos, bound_max) {
        Some(bound_max - 1)
    } else if hits_low(ipos) {
        Some(0)
    } else {
        None
    }
}

/// One bounce for each wall run into.
pub open spec fn bounce_count(ipos: i16, bound_max: i16) -> int {
    (if hits_low(ipos) { 1int } else { 0int }) + (if hits_high(ipos, bound_max) { 1int } else { 0int })
}

/// The whole-pixel position the sprite is left at.
pub open spec fn settled(ipos: i16, bound_max: i16) -> int {
    match clamp_target(ipos, bound_max) {
        Some(target) => target,
        None => ipos as int,
    }
}

/// The bounds of a square sprite of edge `size` on the screen.
pub fn screen_bounds(size: i16) -> (bounds: Bounds)
    requires
        ISCREEN_W - size <= i16::MAX,
    ensures
        bounds.max_x == ISCREEN_W - size,
        bounds.max_y == ISCREEN_H - size,
{
    Bounds { max_x: ISCREEN_W as i16 - size, max_y: ISCREEN_H as i16 - size }
}

/// What the walls do on one axis to a sprite moved to `ipos`, a position cut
/// down to whole pixels, where the positions open to it are `0..bound_max`.
pub fn axis_step(ipos: i16, bound_max: i16) -> (step: AxisStep)
    ensures
        match step.clamp_to {
            Some(target) => clamp_target(ipos, bound_max) == Some(target as int),
            None => clamp_target(ipos, bound_max) is None,
        },
        step.bounces == bounce_count(ipos, bound_max),
{
    let mut clamp_to: Option<i32> = None;
    let mut bounces: u8 = 0;
    if ipos < 0 {
        clamp_to = Some(0);
        bounces = bounces + 1;
    }
    if ipos >= bound_max {
        clamp_to = Some(bound_max as i32 - 1);
        bounces = bounces + 1;
    }
    AxisStep { clamp_to, bounces }
}

/// A sprite inside its bounds meets no wall: it is left where it is, at the
/// speed it has.
pub proof fn inside_is_untouched(ipos: i16, bound_max: i16)
    requires
        0 <= ipos < bound_max,
    ensures
        clamp_target(ipos, bound_max) is None,
        bounce_count(ipos, bound_max) == 0,
        settled(ipos, bound_max) == ipos,
{
}

/// A sprite driven to the far bound or past it is put one pixel short of the
/// bound and bounces once.
pub proof fn far_wall_reflects(ipos: i16, bound_max: i16)
    requires
        bound_max >= 1,
        ipos >= bound_max,
    ensures
        clamp_target(ipos, bound_max) == Some(bound_max - 1),
        bounce_count(ipos, bound_max) == 1,
{
}

/// A sprite driven below zero is put at zero and bounces once.
pub proof fn near_wall_reflects(ipos: i16, bound_max: i16)
    requires
        bound_max >= 1,
        ipos < 0,
    ensures
        clamp_target(ipos, bound_max) == Some(0int),
        bounce_count(ipos, bound_max) == 1,
{
}

/// Whatever the move, the sprite is left inside its bounds, as long as there
/// is a position open to it at all.
pub proof fn settles_inside(ipos: i16, bound_max: i16)
    requires
        bound_max >= 1,
    ensures
        0 <= settled(ipos, bound_max) < bound_max,
{
}

} // verus!
