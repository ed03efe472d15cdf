use snake_arena::entities::ColliderKind;
use snake_arena::geometry::{Rect, Vector};
use snake_arena::units::{
    to_shrunk_subunits, to_subunits, BOTTOM_WALL, LEFT_WALL, RIGHT_WALL, SUBUNITS_PER_UNIT,
    TOP_WALL, WALL_THICKNESS,
};
use snake_arena::walls::{WallBundle, WallLocation};

const ALL: [WallLocation; 4] =
    [WallLocation::Left, WallLocation::Right, WallLocation::Bottom, WallLocation::Top];

/// The edges of a rectangle in units: left, right, bottom, top.
fn edges(r: Rect) -> (f64, f64, f64, f64) {
    let unit = SUBUNITS_PER_UNIT as f64;
    (
        (r.center.x as f64 - r.size.x as f64 / 2.0) / unit,
        (r.center.x as f64 + r.size.x as f64 / 2.0) / unit,
        (r.center.y as f64 - r.size.y as f64 / 2.0) / unit,
        (r.center.y as f64 + r.size.y as f64 / 2.0) / unit,
    )
}

#[test]
fn units_are_660_subunits() {
    assert_eq!(SUBUNITS_PER_UNIT, 660);
    assert_eq!(to_subunits(1), 660);
    assert_eq!(to_subunits(100), 66_000);
    assert_eq!(to_subunits(-450), -297_000);
    assert_eq!(to_subunits(0), 0);
}

#[test]
fn a_shrunk_unit_is_240_subunits() {
    assert_eq!(to_shrunk_subunits(1), 240);
    assert_eq!(to_shrunk_subunits(20), 4_800);
    assert_eq!(to_shrunk_subunits(-20), -4_800);
    assert_eq!(to_shrunk_subunits(0), 0);
    // 20 units divided by 2.75.
    let units: f64 = 4_800.0 / 660.0;
    assert!((units - 20.0 / 2.75).abs() < 1e-9);
}

#[test]
fn wall_positions() {
    assert_eq!(WallLocation::Left.position(), Vector { x: -297_000, y: 0 });
    assert_eq!(WallLocation::Right.position(), Vector { x: 297_000, y: 0 });
    assert_eq!(WallLocation::Bottom.position(), Vector { x: 0, y: -198_000 });
    assert_eq!(WallLocation::Top.position(), Vector { x: 0, y: 198_000 });
}

#[test]
fn wall_sizes() {
    let upright = Vector { x: 10 * 660, y: 610 * 660 };
    let level = Vector { x: 910 * 660, y: 10 * 660 };
    assert_eq!(WallLocation::Left.size(), upright);
    assert_eq!(WallLocation::Right.size(), upright);
    assert_eq!(WallLocation::Bottom.size(), level);
    assert_eq!(WallLocation::Top.size(), level);
}

#[test]
fn wall_positions_follow_the_constants() {
    assert_eq!(WallLocation::Left.position().x, LEFT_WALL * SUBUNITS_PER_UNIT);
    assert_eq!(WallLocation::Right.position().x, RIGHT_WALL * SUBUNITS_PER_UNIT);
    assert_eq!(WallLocation::Bottom.position().y, BOTTOM_WALL * SUBUNITS_PER_UNIT);
    assert_eq!(WallLocation::Top.position().y, TOP_WALL * SUBUNITS_PER_UNIT);
    assert_eq!(WallLocation::Left.size().x, WALL_THICKNESS * SUBUNITS_PER_UNIT);
    assert_eq!(WallLocation::Top.size().y, WALL_THICKNESS * SUBUNITS_PER_UNIT);
}

#[test]
fn left_wall_spans_its_strip() {
    let wall = WallBundle::new(WallLocation::Left);
    assert_eq!(edges(wall.rect), (-455.0, -445.0, -305.0, 305.0));
}

#[test]
fn right_wall_spans_its_strip() {
    let wall = WallBundle::new(WallLocation::Right);
    assert_eq!(edges(wall.rect), (445.0, 455.0, -305.0, 305.0));
}

#[test]
fn bottom_wall_spans_its_strip() {
    let wall = WallBundle::new(WallLocation::Bottom);
    assert_eq!(edges(wall.rect), (-455.0, 455.0, -305.0, -295.0));
}

#[test]
fn top_wall_spans_its_strip() {
    let wall = WallBundle::new(WallLocation::Top);
    assert_eq!(edges(wall.rect), (-455.0, 455.0, 295.0, 305.0));
}

#[test]
fn wall_bundles_are_wall_colliders() {
    for location in ALL {
        let wall = WallBundle::new(location);
        assert_eq!(wall.collider, ColliderKind::Wall);
        assert_eq!(wall.rect.center, location.position());
        assert_eq!(wall.rect.size, location.size());
    }
}

#[test]
fn walls_cover_the_border_and_nothing_else() {
    let walls: Vec<(f64, f64, f64, f64)> =
        ALL.iter().map(|location| edges(WallBundle::new(*location).rect)).collect();
    // Every point of a grid of half units, out to well beyond the walls.
    let mut covered: u32 = 0;
    for i in -940i32..=940 {
        for j in -640i32..=640 {
            let x = i as f64 / 2.0;
            let y = j as f64 / 2.0;
            let on_wall = walls
                .iter()
                .any(|(left, right, bottom, top)| *left <= x && x <= *right && *bottom <= y && y <= *top);
            let outside = x < -455.0 || x > 455.0 || y < -305.0 || y > 305.0;
            let inside = -445.0 < x && x < 445.0 && -295.0 < y && y < 295.0;
            assert_eq!(on_wall, !outside && !inside, "at ({x}, {y})");
            if on_wall {
                covered += 1;
            }
        }
    }
    assert!(covered > 0);
}
