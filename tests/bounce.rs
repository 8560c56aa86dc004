use dvd_logo::collision::{CollisionEdge, SpriteExtent, detect_collision, gate_transition};
use dvd_logo::color::{TintColor, logo_color_change, update_color};
use dvd_logo::controller::BounceController;
use dvd_logo::geometry::{CameraTransform, ViewportRect, WindowSize, window_to_rect};
use dvd_logo::motion::{
    HorizontalDirection, Position, SPEED, VelocityDirection, VerticalDirection, translate_logo,
    update_direction,
};

fn window() -> WindowSize {
    WindowSize { width: 1_280_000, height: 720_000 }
}

fn camera() -> CameraTransform {
    CameraTransform { center_x: 0, center_y: 0, scale_x: 1000, scale_y: 1000 }
}

fn extent() -> SpriteExtent {
    SpriteExtent { half_width: 50_000, half_height: 30_000 }
}

#[test]
fn viewport_of_centered_camera() {
    let r = window_to_rect(&window(), &camera());
    assert_eq!(r, ViewportRect { left: -640_000, top: 360_000, right: 640_000, bottom: -360_000 });
}

#[test]
fn viewport_of_offset_scaled_camera() {
    let cam = CameraTransform { center_x: 10_000, center_y: -20_000, scale_x: 2000, scale_y: 500 };
    let r = window_to_rect(&window(), &cam);
    assert_eq!(r, ViewportRect { left: -1_270_000, top: 160_000, right: 1_290_000, bottom: -200_000 });
}

#[test]
fn viewport_of_mirrored_camera_covers_same_span() {
    let cam = CameraTransform { center_x: 0, center_y: 0, scale_x: -1000, scale_y: -1000 };
    assert_eq!(window_to_rect(&window(), &cam), window_to_rect(&window(), &camera()));
}

#[test]
fn contains_includes_border() {
    let r = window_to_rect(&window(), &camera());
    assert!(r.contains(640_000, 360_000));
    assert!(r.contains(-640_000, -360_000));
    assert!(!r.contains(640_001, 0));
    assert!(!r.contains(0, -360_001));
}

#[test]
fn inside_with_margin_touches_nothing() {
    let r = window_to_rect(&window(), &camera());
    assert_eq!(detect_collision(0, 0, &extent(), &r), CollisionEdge::Inside);
    assert_eq!(detect_collision(589_999, 329_999, &extent(), &r), CollisionEdge::Inside);
    assert_eq!(detect_collision(-589_999, -329_999, &extent(), &r), CollisionEdge::Inside);
}

#[test]
fn each_wall_is_detected() {
    let r = window_to_rect(&window(), &camera());
    assert_eq!(detect_collision(591_000, 0, &extent(), &r), CollisionEdge::Right);
    assert_eq!(detect_collision(-591_000, 0, &extent(), &r), CollisionEdge::Left);
    assert_eq!(detect_collision(0, 331_000, &extent(), &r), CollisionEdge::Top);
    assert_eq!(detect_collision(0, -331_000, &extent(), &r), CollisionEdge::Bottom);
}

#[test]
fn right_wins_over_top() {
    let r = window_to_rect(&window(), &camera());
    assert_eq!(detect_collision(591_000, 300_000, &extent(), &r), CollisionEdge::Right);
    assert_eq!(detect_collision(591_000, 331_000, &extent(), &r), CollisionEdge::Right);
    assert_eq!(detect_collision(-591_000, 331_000, &extent(), &r), CollisionEdge::Top);
    assert_eq!(detect_collision(-591_000, -331_000, &extent(), &r), CollisionEdge::Left);
}

#[test]
fn sprite_larger_than_viewport_is_right() {
    let r = window_to_rect(&window(), &camera());
    let huge = SpriteExtent { half_width: 2_000_000, half_height: 2_000_000 };
    assert_eq!(detect_collision(0, 0, &huge, &r), CollisionEdge::Right);
}

#[test]
fn gate_fires_once_per_change() {
    let mut previous = CollisionEdge::Inside;
    assert_eq!(gate_transition(&mut previous, CollisionEdge::Inside), None);
    assert_eq!(gate_transition(&mut previous, CollisionEdge::Right), Some(CollisionEdge::Right));
    assert_eq!(previous, CollisionEdge::Right);
    assert_eq!(gate_transition(&mut previous, CollisionEdge::Right), None);
    assert_eq!(gate_transition(&mut previous, CollisionEdge::Inside), Some(CollisionEdge::Inside));
    assert_eq!(previous, CollisionEdge::Inside);
}

#[test]
fn direction_turns_away_from_wall() {
    let start = VelocityDirection {
        horizontal: HorizontalDirection::Right,
        vertical: VerticalDirection::Up,
    };
    let mut d = start;
    update_direction(&mut d, Some(CollisionEdge::Right));
    assert_eq!(d.horizontal, HorizontalDirection::Left);
    assert_eq!(d.vertical, VerticalDirection::Up);
    update_direction(&mut d, Some(CollisionEdge::Top));
    assert_eq!(d.vertical, VerticalDirection::Down);
    update_direction(&mut d, Some(CollisionEdge::Left));
    assert_eq!(d.horizontal, HorizontalDirection::Right);
    update_direction(&mut d, Some(CollisionEdge::Bottom));
    assert_eq!(d, start);
}

#[test]
fn direction_unchanged_without_wall() {
    let start = VelocityDirection {
        horizontal: HorizontalDirection::Left,
        vertical: VerticalDirection::Down,
    };
    let mut d = start;
    update_direction(&mut d, None);
    assert_eq!(d, start);
    update_direction(&mut d, Some(CollisionEdge::Inside));
    assert_eq!(d, start);
}

#[test]
fn translate_moves_by_speed() {
    let mut p = Position { x: 0, y: 0 };
    let d = VelocityDirection { horizontal: HorizontalDirection::Left, vertical: VerticalDirection::Up };
    translate_logo(&mut p, &d);
    assert_eq!(p, Position { x: -3500, y: 3500 });
    assert_eq!(SPEED, 3500);
}

#[test]
fn color_only_on_bounce() {
    let white = TintColor::white();
    assert_eq!(white, TintColor { hue: 0, saturation: 0, lightness: 100 });
    let mut t = white;
    update_color(&mut t, None, 120);
    assert_eq!(t, white);
    update_color(&mut t, Some(CollisionEdge::Inside), 120);
    assert_eq!(t, white);
    update_color(&mut t, Some(CollisionEdge::Bottom), 120);
    assert_eq!(t, TintColor { hue: 120, saturation: 100, lightness: 50 });
}

#[test]
fn random_color_hue_in_range() {
    for _ in 0..500 {
        let mut t = TintColor::white();
        logo_color_change(&mut t, Some(CollisionEdge::Left));
        assert!(t.hue < 360);
        assert_eq!(t.saturation, 100);
        assert_eq!(t.lightness, 50);
        let before = t;
        logo_color_change(&mut t, None);
        assert_eq!(t, before);
        logo_color_change(&mut t, Some(CollisionEdge::Inside));
        assert_eq!(t, before);
    }
}

#[test]
fn random_hues_vary() {
    let mut seen = std::collections::HashSet::new();
    for _ in 0..200 {
        let mut t = TintColor::white();
        logo_color_change(&mut t, Some(CollisionEdge::Top));
        seen.insert(t.hue);
    }
    assert!(seen.len() > 1);
}

#[test]
fn setup_places_sprite() {
    let s = BounceController::setup(&window(), 1000);
    assert_eq!(s.extent, SpriteExtent { half_width: 116_363, half_height: 65_454 });
    assert_eq!(s.position, Position { x: -(640_000 - 116_363), y: 360_000 - 65_454 });
    assert_eq!(s.direction.horizontal, HorizontalDirection::Right);
    assert_eq!(s.direction.vertical, VerticalDirection::Down);
    assert_eq!(s.previous_edge, CollisionEdge::Inside);
    assert_eq!(s.tint, TintColor::white());
}

#[test]
fn setup_with_display_scale() {
    let s = BounceController::setup(&window(), 2000);
    assert_eq!(s.position, Position { x: -(320_000 - 116_363), y: 180_000 - 65_454 });
}

#[test]
fn right_edge_one_unit_past_bounces() {
    let mut s = BounceController::setup(&window(), 1000);
    // right edge at 641_000: one unit beyond the viewport's right bound
    s.position = Position { x: 641_000 - 116_363, y: 0 };
    let before = s.tint;
    s.frame(&window(), &camera());
    assert_eq!(s.direction.horizontal, HorizontalDirection::Left);
    assert_eq!(s.previous_edge, CollisionEdge::Right);
    assert_ne!(s.tint, before);
    assert_eq!(s.position.x, 641_000 - 116_363 - 3500);
}

#[test]
fn right_edge_bounce_with_given_hue() {
    let mut s = BounceController::setup(&window(), 1000);
    s.position = Position { x: 641_000 - 116_363, y: 0 };
    s.frame_with_hue(&window(), &camera(), 200);
    assert_eq!(s.direction.horizontal, HorizontalDirection::Left);
    assert_eq!(s.tint, TintColor { hue: 200, saturation: 100, lightness: 50 });
}

#[test]
fn hundred_frames_inside_move_steadily() {
    let mut s = BounceController::setup(&window(), 1000);
    s.position = Position { x: -200_000, y: 150_000 };
    let tint = s.tint;
    for frame in 1..=100i64 {
        let before = s.position;
        s.frame(&window(), &camera());
        assert_eq!(s.position.x, before.x + 3500);
        assert_eq!(s.position.y, before.y - 3500);
        assert_eq!(s.position.x, -200_000 + 3500 * frame);
        assert_eq!(s.tint, tint);
        assert_eq!(s.previous_edge, CollisionEdge::Inside);
    }
}

#[test]
fn staying_on_wall_bounces_once() {
    let mut s = BounceController::setup(&window(), 1000);
    s.position = Position { x: 700_000, y: 0 };
    s.frame_with_hue(&window(), &camera(), 10);
    assert_eq!(s.tint.hue, 10);
    assert_eq!(s.direction.horizontal, HorizontalDirection::Left);
    // still past the wall: no second notification, so nothing changes
    s.direction.horizontal = HorizontalDirection::Right;
    s.frame_with_hue(&window(), &camera(), 20);
    assert_eq!(s.tint.hue, 10);
    assert_eq!(s.direction.horizontal, HorizontalDirection::Right);
}
