use snake_arena::geometry::{collide, Collision, Rect, Vector};

fn rect(x: i32, y: i32, width: i32, height: i32) -> Rect {
    Rect { center: Vector { x, y }, size: Vector { x: width, y: height } }
}

#[test]
fn collide_reports_the_left_side() {
    let hit = collide(rect(0, 0, 10, 10), rect(8, 2, 10, 10));
    assert_eq!(hit, Some(Collision::Left));
}

#[test]
fn collide_reports_the_right_side() {
    let hit = collide(rect(0, 0, 10, 10), rect(-8, 2, 10, 10));
    assert_eq!(hit, Some(Collision::Right));
}

#[test]
fn collide_reports_the_bottom_side() {
    let hit = collide(rect(0, 0, 10, 10), rect(2, 8, 10, 10));
    assert_eq!(hit, Some(Collision::Bottom));
}

#[test]
fn collide_reports_the_top_side() {
    let hit = collide(rect(0, 0, 10, 10), rect(2, -8, 10, 10));
    assert_eq!(hit, Some(Collision::Top));
}

#[test]
fn collide_reports_inside_when_no_side_sticks_out_alone() {
    assert_eq!(collide(rect(0, 0, 4, 4), rect(0, 0, 10, 10)), Some(Collision::Inside));
    assert_eq!(collide(rect(0, 0, 10, 10), rect(0, 0, 4, 4)), Some(Collision::Inside));
    assert_eq!(collide(rect(3, 3, 10, 10), rect(3, 3, 10, 10)), Some(Collision::Inside));
}

#[test]
fn collide_prefers_the_horizontal_side_on_equal_depth() {
    assert_eq!(collide(rect(0, 0, 10, 10), rect(8, 8, 10, 10)), Some(Collision::Left));
    assert_eq!(collide(rect(0, 0, 10, 10), rect(-8, -8, 10, 10)), Some(Collision::Right));
}

#[test]
fn collide_takes_the_only_axis_with_a_side() {
    // Inside along x, below along y.
    assert_eq!(collide(rect(0, 0, 4, 10), rect(0, 8, 10, 10)), Some(Collision::Bottom));
    // Inside along y, to the right along x.
    assert_eq!(collide(rect(8, 0, 10, 4), rect(0, 0, 10, 10)), Some(Collision::Right));
}

#[test]
fn collide_ignores_rectangles_that_only_touch() {
    assert_eq!(collide(rect(0, 0, 10, 10), rect(10, 0, 10, 10)), None);
    assert_eq!(collide(rect(0, 0, 10, 10), rect(0, -10, 10, 10)), None);
    assert_eq!(collide(rect(0, 0, 10, 10), rect(10, 10, 10, 10)), None);
    assert_eq!(collide(rect(0, 0, 10, 10), rect(40, 0, 10, 10)), None);
}

#[test]
fn collide_is_exact_on_odd_extents() {
    // Half of 3 is one and a half: the edges meet at x = 1.5.
    assert_eq!(collide(rect(0, 0, 3, 3), rect(3, 0, 3, 3)), None);
    assert_eq!(collide(rect(0, 0, 3, 3), rect(2, 0, 3, 3)), Some(Collision::Left));
}

#[test]
fn collide_does_not_overflow_at_the_ends_of_the_range() {
    let far = rect(i32::MAX, i32::MIN, i32::MAX, i32::MAX);
    assert_eq!(collide(far, far), Some(Collision::Inside));
    assert_eq!(collide(far, rect(i32::MIN, i32::MAX, i32::MAX, i32::MAX)), None);
}

#[test]
fn overlap_is_symmetric() {
    let centres: [i32; 5] = [-12, -5, 0, 5, 12];
    let extents: [i32; 3] = [1, 10, 24];
    let mut rects: Vec<Rect> = Vec::new();
    for x in centres {
        for y in centres {
            for w in extents {
                rects.push(rect(x, y, w, 10));
                rects.push(rect(x, y, 10, w));
            }
        }
    }
    let mut overlapping: u32 = 0;
    for a in &rects {
        for b in &rects {
            let ab = collide(*a, *b).is_some();
            let ba = collide(*b, *a).is_some();
            assert_eq!(ab, ba);
            if ab {
                overlapping += 1;
            }
        }
    }
    assert!(overlapping > 0);
    assert!((overlapping as usize) < rects.len() * rects.len());
}

#[test]
fn sides_mirror_when_the_rectangles_are_swapped() {
    let a = rect(0, 0, 10, 10);
    let b = rect(8, 2, 10, 10);
    assert_eq!(collide(a, b), Some(Collision::Left));
    assert_eq!(collide(b, a), Some(Collision::Right));
}
