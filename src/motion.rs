use vstd::prelude::*;
use crate::collision::CollisionEdge;

verus! {

/// Distance the sprite travels along each axis per frame.
pub const SPEED: i64 = 3500;

#[derive(Clone, Copy, Debug, PartialEq, Eq, Structural)]
pub enum HorizontalDirection {
    Left,
    Right,
}

#[derive(Clone, Copy, Debug, PartialEq, Eq, Structural)]
pub enum VerticalDirection {
    Up,
    Down,
}

/// The sign of the sprite's motion on each axis.
#[derive(Clone, Copy, Debug, PartialEq, Eq, Structural)]
pub struct VelocityDirection {
    pub horizontal: HorizontalDirection,
    pub vertical: VerticalDirection,
}

/// Center of the sprite in the world.
#[derive(Clone, Copy, Debug, PartialEq, Eq, Structural)]
pub struct Position {
    pub x: i64,
    pub y: i64,
}

/// The direction after a bounce off `edge`: away from that wall.
pub open spec fn turned(direction: VelocityDirection, edge: CollisionEdge) -> VelocityDirection {
    match edge {
        CollisionEdge::Right => VelocityDirection { horizontal: HorizontalDirection::Left, ..direction },
        CollisionEdge::Left => VelocityDirection { horizontal: HorizontalDirection::Right, ..direction },
        CollisionEdge::Top => VelocityDirection { vertical: VerticalDirection::Down, ..direction },
        CollisionEdge::Bottom => VelocityDirection { vertical: VerticalDirection::Up, ..direction },
        CollisionEdge::Inside => direction,
    }
}

/// The direction after this frame's notification, if any.
pub open spec fn directed(direction: VelocityDirection, event: Option<CollisionEdge>) -> VelocityDirection {
    match event {
        Some(edge) => turned(direction, edge),
        None => direction,
    }
}

/// Turns the direction away from the wall that the notification names.
pub fn update_direction(direction: &mut VelocityDirection, event: Option<CollisionEdge>)
    ensures
        *final(direction) == directed(*old(direction), event),
{
    if let Some(edge) = event {
        match edge {
            CollisionEdge::Right => direction.horizontal = HorizontalDirection::Left,
            CollisionEdge::Left => direction.horizontal = HorizontalDirection::Right,
            CollisionEdge::Top => direction.vertical = VerticalDirection::Down,
            CollisionEdge::Bottom => direction.vertical = VerticalDirection::Up,
            CollisionEdge::Inside => {},
        }
    }
}

pub open spec fn horizontal_step(direction: VelocityDirection) -> int {
    match direction.horizontal {
        HorizontalDirection::Left => -SPEED,
        HorizontalDirection::Right => SPEED as int,
    }
}

pub open spec fn vertical_step(direction: VelocityDirection) -> int {
    match direction.vertical {
        VerticalDirection::Down => -SPEED,
        VerticalDirection::Up => SPEED as int,
    }
}

/// A position from which one more step cannot leave the range of `i64`.
pub open spec fn can_step(position: Position) -> bool {
    i64::MIN + SPEED <= position.x <= i64::MAX - SPEED
        && i64::MIN + SPEED <= position.y <= i64::MAX - SPEED
}

/// The position one frame's travel further along `direction`.
pub open spec fn moved(position: Position, direction: VelocityDirection) -> Position {
    Position {
        x: (position.x + horizontal_step(direction)) as i64,
        y: (position.y + vertical_step(direction)) as i64,
    }
}

/// Advances the position by one frame's travel, signed by the direction.
pub fn translate_logo(position: &mut Position, direction: &VelocityDirection)
    requires
        can_step(*old(position)),
    ensures
        *final(position) == moved(*old(position), *direction),
        final(position).x == old(position).x + horizontal_step(*direction),
        final(position).y == old(position).y + vertical_step(*direction),
{
    position.x = match direction.horizontal {
        HorizontalDirection::Left => position.x - SPEED,
        HorizontalDirection::Right => position.x + SPEED,
    };
    position.y = match direction.vertical {
        VerticalDirection::Down => position.y - SPEED,
        VerticalDirection::Up => position.y + SPEED,
    };
}

/// Without a notification, or with one that names no wall, the direction
/// stays as it was.
pub proof fn lemma_no_edge_keeps_direction(direction: VelocityDirection, event: Option<CollisionEdge>)
    requires
        event is None || event == Some(CollisionEdge::Inside),
    ensures
        directed(direction, event) == direction,
{
}

} // verus!
