use vstd::prelude::*;
use crate::collision::CollisionEdge;
use rand::Rng;

verus! {

/// A hue, saturation and lightness color; the hue in whole degrees, the
/// other two in percent.
#[derive(Clone, Copy, Debug, PartialEq, Eq, Structural)]
pub struct TintColor {
    pub hue: u32,
    pub saturation: u32,
    pub lightness: u32,
}

/// Saturation of every tint picked on a bounce.
pub const BOUNCE_SATURATION: u32 = 100;

/// Lightness of every tint picked on a bounce.
pub const BOUNCE_LIGHTNESS: u32 = 50;

/// The tint a sprite has before its first bounce.
pub open spec fn white() -> TintColor {
    TintColor { hue: 0, saturation: 0, lightness: 100 }
}

impl TintColor {
    pub fn white() -> (r: TintColor)
        ensures
            r == white(),
    {
        TintColor { hue: 0, saturation: 0, lightness: 100 }
    }
}

/// The fully saturated, half-light tint of the given hue.
pub open spec fn bounce_tint(hue: u32) -> TintColor {
    TintColor { hue, saturation: BOUNCE_SATURATION, lightness: BOUNCE_LIGHTNESS }
}

/// Whether a notification reports a wall that was hit.
pub open spec fn is_bounce(event: Option<CollisionEdge>) -> bool {
    event is Some && event != Some(CollisionEdge::Inside)
}

/// The tint after this frame's notification, with `hue` as the drawn hue.
pub open spec fn recolored(tint: TintColor, event: Option<CollisionEdge>, hue: u32) -> TintColor {
    if is_bounce(event) {
        bounce_tint(hue)
    } else {
        tint
    }
}

/// Relies on rand's `thread_rng` and `Rng::gen_range`: a value drawn from
/// the half-open range it is given, which panics only on an empty range.
/// `thread_rng` panics only when the system's random source cannot seed it.
#[verifier::external_body]
fn random_hue() -> (r: u32)
    ensures
        r < 360,
{
    rand::thread_rng().gen_range(0..360)
}

/// Sets the tint to the bounce tint of `hue` when the notification reports
/// a wall; leaves it as it is otherwise.
pub fn update_color(tint: &mut TintColor, event: Option<CollisionEdge>, hue: u32)
    requires
        hue < 360,
    ensures
        *final(tint) == recolored(*old(tint), event, hue),
{
    if let Some(edge) = event {
        if edge != CollisionEdge::Inside {
            *tint = TintColor { hue, saturation: BOUNCE_SATURATION, lightness: BOUNCE_LIGHTNESS };
        }
    }
}

/// Like `update_color`, with a hue drawn at random, and only when one is
/// needed.
pub fn logo_color_change(tint: &mut TintColor, event: Option<CollisionEdge>)
    ensures
        !is_bounce(event) ==> *final(tint) == *old(tint),
        is_bounce(event) ==> *final(tint) == bounce_tint(final(tint).hue) && final(tint).hue < 360,
{
    if let Some(edge) = event {
        if edge != CollisionEdge::Inside {
            let hue = random_hue();
            update_color(tint, event, hue);
        }
    }
}

/// A notification that reports no wall leaves the tint alone; one that does
/// gives a tint whose hue is below 360 degrees.
pub proof fn lemma_tint_changes_only_on_bounce(
    tint: TintColor,
    event: Option<CollisionEdge>,
    hue: u32,
)
    requires
        hue < 360,
    ensures
        !is_bounce(event) ==> recolored(tint, event, hue) == tint,
        is_bounce(event) ==> 0 <= recolored(tint, event, hue).hue < 360,
{
}

} // verus!
