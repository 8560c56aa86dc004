use vstd::prelude::*;
use crate::collision::{
    CollisionEdge, SpriteExtent, detect_collision, edge_of, gate_transition, transition,
};
use crate::color::{TintColor, is_bounce, logo_color_change, recolored, update_color, white};
use crate::geometry::{CameraTransform, WindowSize, viewport_of, window_to_rect};
use crate::motion::{
    HorizontalDirection, Position, VelocityDirection, VerticalDirection, can_step, directed, moved,
    translate_logo, update_direction,
};

verus! {

/// How many times the window's size is that of the sprite, in tenths.
pub const LOGO_RATIO_TENTHS: u64 = 55;

/// Everything that one bouncing sprite carries from frame to frame.
#[derive(Clone, Copy, Debug, PartialEq, Eq, Structural)]
pub struct BounceController {
    pub position: Position,
    pub direction: VelocityDirection,
    /// The edge found in the last frame that was processed.
    pub previous_edge: CollisionEdge,
    pub extent: SpriteExtent,
    pub tint: TintColor,
}

/// Half of the sprite's length along an axis whose window length is `length`.
pub open spec fn sprite_half(length: u32) -> u32 {
    ((length * 10) / (2 * LOGO_RATIO_TENTHS)) as u32
}

/// How far the starting position lies from the center along an axis whose
/// window length is `length`: half the length once the display scale
/// factor is taken out, less half the sprite.
pub open spec fn start_offset(length: u32, scale_factor: u32) -> int {
    (length * 1000 / scale_factor as int) / 2 - sprite_half(length)
}

/// The sprite as it is spawned: toward the top left corner, moving right
/// and down, white, and touching nothing.
pub open spec fn spawned(window: WindowSize, scale_factor: u32) -> BounceController {
    BounceController {
        position: Position {
            x: (-start_offset(window.width, scale_factor)) as i64,
            y: start_offset(window.height, scale_factor) as i64,
        },
        direction: VelocityDirection {
            horizontal: HorizontalDirection::Right,
            vertical: VerticalDirection::Down,
        },
        previous_edge: CollisionEdge::Inside,
        extent: SpriteExtent {
            half_width: sprite_half(window.width),
            half_height: sprite_half(window.height),
        },
        tint: white(),
    }
}

/// The state after one frame: detect the edge from the current position,
/// notify when it differs from the last frame's, turn and recolor on that
/// notification, then move. `hue` is the hue drawn for a bounce.
pub open spec fn next_state(
    s: BounceController,
    window: WindowSize,
    camera: CameraTransform,
    hue: u32,
) -> BounceController {
    let edge = edge_of(s.position.x as int, s.position.y as int, s.extent, viewport_of(window, camera));
    let event = transition(s.previous_edge, edge);
    let direction = directed(s.direction, event);
    BounceController {
        position: moved(s.position, direction),
        direction,
        previous_edge: edge,
        extent: s.extent,
        tint: recolored(s.tint, event, hue),
    }
}

fn sprite_half_of(length: u32) -> (r: u32)
    ensures
        r == sprite_half(length),
{
    ((length as u64 * 10) / (2 * LOGO_RATIO_TENTHS)) as u32
}

fn start_offset_of(length: u32, scale_factor: u32) -> (r: i64)
    requires
        scale_factor > 0,
    ensures
        r as int == start_offset(length, scale_factor),
{
    let logical = (length as u64 * 1000) / scale_factor as u64;
    assert(logical <= 4_294_967_295_000u64) by (nonlinear_arith)
        requires
            logical as int == (length as int * 1000) / (scale_factor as int),
            scale_factor >= 1,
            length <= 4_294_967_295int,
    ;
    (logical / 2) as i64 - sprite_half_of(length) as i64
}

impl BounceController {
    /// Spawns the sprite for a window of the given size, shown at the given
    /// display scale factor.
    pub fn setup(window: &WindowSize, scale_factor: u32) -> (r: BounceController)
        requires
            scale_factor > 0,
        ensures
            r == spawned(*window, scale_factor),
    {
        let offset_x = start_offset_of(window.width, scale_factor);
        let offset_y = start_offset_of(window.height, scale_factor);
        BounceController {
            position: Position { x: -offset_x, y: offset_y },
            direction: VelocityDirection {
                horizontal: HorizontalDirection::Right,
                vertical: VerticalDirection::Down,
            },
            previous_edge: CollisionEdge::Inside,
            extent: SpriteExtent {
                half_width: sprite_half_of(window.width),
                half_height: sprite_half_of(window.height),
            },
            tint: TintColor::white(),
        }
    }

    /// Finds this frame's edge and remembers it. Returns a notification when
    /// it differs from the edge of the frame before.
    pub fn detect_logo_win_collision(&mut self, window: &WindowSize, camera: &CameraTransform) -> (event:
        Option<CollisionEdge>)
        ensures
            final(self).previous_edge == edge_of(
                old(self).position.x as int,
                old(self).position.y as int,
                old(self).extent,
                viewport_of(*window, *camera),
            ),
            event == transition(old(self).previous_edge, final(self).previous_edge),
            final(self).position == old(self).position,
            final(self).direction == old(self).direction,
            final(self).extent == old(self).extent,
            final(self).tint == old(self).tint,
    {
        let rect = window_to_rect(window, camera);
        let edge = detect_collision(self.position.x, self.position.y, &self.extent, &rect);
        gate_transition(&mut self.previous_edge, edge)
    }

    /// Turns on the notification, then moves one frame's travel.
    pub fn steer_and_move(&mut self, event: Option<CollisionEdge>)
        requires
            can_step(old(self).position),
        ensures
            final(self).direction == directed(old(self).direction, event),
            final(self).position == moved(old(self).position, final(self).direction),
            final(self).previous_edge == old(self).previous_edge,
            final(self).extent == old(self).extent,
            final(self).tint == old(self).tint,
    {
        update_direction(&mut self.direction, event);
        translate_logo(&mut self.position, &self.direction);
    }

    /// Runs one frame, with `hue` as the hue of the new tint if the sprite
    /// bounces.
    pub fn frame_with_hue(&mut self, window: &WindowSize, camera: &CameraTransform, hue: u32)
        requires
            hue < 360,
            can_step(old(self).position),
        ensures
            *final(self) == next_state(*old(self), *window, *camera, hue),
    {
        let event = self.detect_logo_win_collision(window, camera);
        update_color(&mut self.tint, event, hue);
        self.steer_and_move(event);
    }

    /// Runs one frame, drawing the hue of the new tint at random if the
    /// sprite bounces.
    pub fn frame(&mut self, window: &WindowSize, camera: &CameraTransform)
        requires
            can_step(old(self).position),
        ensures
            exists|hue: u32| hue < 360 && *final(self) == next_state(*old(self), *window, *camera, hue),
    {
        let ghost start = *self;
        let event = self.detect_logo_win_collision(window, camera);
        logo_color_change(&mut self.tint, event);
        self.steer_and_move(event);
        proof {
            let hue: u32 = if is_bounce(event) { self.tint.hue } else { 0 };
            assert(self.tint == recolored(start.tint, event, hue));
            assert(*self == next_state(start, *window, *camera, hue));
        }
    }
}

} // verus!
