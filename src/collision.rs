use vstd::prelude::*;
use crate::geometry::ViewportRect;

verus! {

/// The wall that the sprite touches in a frame, or `Inside` when it is
/// fully within the viewport.
#[derive(Clone, Copy, Debug, PartialEq, Eq, Structural)]
pub enum CollisionEdge {
    Top,
    Bottom,
    Left,
    Right,
    Inside,
}

/// Half of the sprite's width and height.
#[derive(Clone, Copy, Debug, PartialEq, Eq, Structural)]
pub struct SpriteExtent {
    pub half_width: u32,
    pub half_height: u32,
}

/// The edge that a sprite centered at `(x, y)` touches. Each side counts
/// when both of its corners are out of the viewport; the first rule that
/// matches wins, in the order right, top, left, bottom.
pub open spec fn edge_of(x: int, y: int, extent: SpriteExtent, rect: ViewportRect) -> CollisionEdge {
    let hw = extent.half_width as int;
    let hh = extent.half_height as int;
    let bottom_left = rect.contains_spec(x - hw, y - hh);
    let bottom_right = rect.contains_spec(x + hw, y - hh);
    let top_left = rect.contains_spec(x - hw, y + hh);
    let top_right = rect.contains_spec(x + hw, y + hh);
    if !top_right && !bottom_right {
        CollisionEdge::Right
    } else if !top_left && !top_right {
        CollisionEdge::Top
    } else if !top_left && !bottom_left {
        CollisionEdge::Left
    } else if !bottom_left && !bottom_right {
        CollisionEdge::Bottom
    } else {
        CollisionEdge::Inside
    }
}

/// Finds the edge that the sprite centered at `(x, y)` touches in `rect`.
pub fn detect_collision(x: i64, y: i64, extent: &SpriteExtent, rect: &ViewportRect) -> (r:
    CollisionEdge)
    ensures
        r == edge_of(x as int, y as int, *extent, *rect),
{
    let left = x as i128 - extent.half_width as i128;
    let right = x as i128 + extent.half_width as i128;
    let bottom = y as i128 - extent.half_height as i128;
    let top = y as i128 + extent.half_height as i128;
    let bottom_left = rect.contains(left, bottom);
    let bottom_right = rect.contains(right, bottom);
    let top_left = rect.contains(left, top);
    let top_right = rect.contains(right, top);
    if !top_right && !bottom_right {
        CollisionEdge::Right
    } else if !top_left && !top_right {
        CollisionEdge::Top
    } else if !top_left && !bottom_left {
        CollisionEdge::Left
    } else if !bottom_left && !bottom_right {
        CollisionEdge::Bottom
    } else {
        CollisionEdge::Inside
    }
}

/// The notification that a frame produces: the new edge when it differs
/// from the previous frame's, nothing otherwise.
pub open spec fn transition(previous: CollisionEdge, current: CollisionEdge) -> Option<
    CollisionEdge,
> {
    if previous == current {
        None
    } else {
        Some(current)
    }
}

/// Compares this frame's edge with the previous one and remembers it.
/// Returns the notification of a change, if there is one.
pub fn gate_transition(previous: &mut CollisionEdge, current: CollisionEdge) -> (event: Option<
    CollisionEdge,
>)
    ensures
        *final(previous) == current,
        event == transition(*old(previous), current),
        event is Some <==> *old(previous) != current,
{
    if *previous == current {
        None
    } else {
        *previous = current;
        Some(current)
    }
}

/// A sprite that stays clear of every side of the viewport touches no edge.
pub proof fn lemma_inside_touches_nothing(x: int, y: int, extent: SpriteExtent, rect: ViewportRect)
    requires
        x - extent.half_width > rect.left,
        x + extent.half_width < rect.right,
        y + extent.half_height < rect.top,
        y - extent.half_height > rect.bottom,
    ensures
        edge_of(x, y, extent, rect) == CollisionEdge::Inside,
{
}

/// A sprite whose right side is past the viewport's right bound touches
/// the right edge, even where its top is also out of bounds.
pub proof fn lemma_right_before_top(x: int, y: int, extent: SpriteExtent, rect: ViewportRect)
    requires
        x + extent.half_width > rect.right,
        y + extent.half_height <= rect.top,
    ensures
        edge_of(x, y, extent, rect) == CollisionEdge::Right,
{
}

/// Two frames in a row with the same edge give no notification on the
/// second; a frame whose edge differs from the one before gives exactly
/// the new edge.
pub proof fn lemma_gate_is_edge_triggered(
    previous: CollisionEdge,
    first: CollisionEdge,
    second: CollisionEdge,
)
    ensures
        first == second ==> transition(first, second) is None,
        first != previous ==> transition(previous, first) == Some(first),
        first == previous ==> transition(previous, first) is None,
{
}

} // verus!
