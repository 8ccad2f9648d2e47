use pixel_engine::math::{bresenham_circle, checked_bresenham_circle, remap, Axis, Color, Dir, Rect, Vec2, Vec3, Vec4};

fn rect(x: i32, y: i32, w: i32, h: i32) -> Rect<i32> {
    Rect { pos: Vec2 { x, y }, size: Vec2 { x: w, y: h } }
}

#[test]
fn axis_other_swaps_axes() {
    assert_eq!(Axis::X.other(), Axis::Y);
    assert_eq!(Axis::Y.other(), Axis::X);
    assert_eq!(Axis::X.other().other(), Axis::X);
}

#[test]
fn axis_iter_gives_x_then_y() {
    assert_eq!(Axis::iter(), [Axis::X, Axis::Y]);
}

#[test]
fn dir_unit_vectors() {
    assert_eq!(Dir::Up.unit(), Vec2 { x: 0, y: -1 });
    assert_eq!(Dir::Down.unit(), Vec2 { x: 0, y: 1 });
    assert_eq!(Dir::Left.unit(), Vec2 { x: -1, y: 0 });
    assert_eq!(Dir::Right.unit(), Vec2 { x: 1, y: 0 });
}

#[test]
fn vector_builders() {
    let v = Vec2 { x: 1, y: 2 };
    assert_eq!(v.with_x(5), Vec2 { x: 5, y: 2 });
    assert_eq!(v.with_y(7), Vec2 { x: 1, y: 7 });
    assert_eq!(v.with_z(3), Vec3 { x: 1, y: 2, z: 3 });
    assert_eq!(Vec2::diagonal(4), Vec2 { x: 4, y: 4 });
    assert_eq!(Vec2::from_tuple((8, 9)).into_tuple(), (8, 9));
    assert_eq!(Vec3::from_tuple((1, 2, 3)), Vec3 { x: 1, y: 2, z: 3 });
    assert_eq!(Vec4::diagonal(0u8).into_tuple(), (0, 0, 0, 0));
    assert_eq!(v.get(Axis::X), 1);
    assert_eq!(v.get(Axis::Y), 2);
    let mut w = v;
    w.set(Axis::Y, 10);
    assert_eq!(w, Vec2 { x: 1, y: 10 });
}

#[test]
fn rect_with_pos_and_size() {
    let r = rect(1, 2, 3, 4);
    assert_eq!(r.with_pos(Vec2 { x: 9, y: 8 }), rect(9, 8, 3, 4));
    assert_eq!(r.with_size(Vec2 { x: 7, y: 6 }), rect(1, 2, 7, 6));
}

#[test]
fn rect_end_and_area() {
    let r = rect(1, 2, 3, 4);
    assert_eq!(r.end(), Vec2 { x: 4, y: 6 });
    assert_eq!(r.end_x(), 4);
    assert_eq!(r.end_y(), 6);
    assert_eq!(r.area(), 12);
    assert_eq!(rect(-3, -3, -2, 5).area(), -10);
}

#[test]
fn rect_contains_point_includes_edges() {
    let r = rect(0, 0, 10, 10);
    assert!(r.contains_point(Vec2 { x: 0, y: 0 }));
    assert!(r.contains_point(Vec2 { x: 10, y: 10 }));
    assert!(r.contains_point(Vec2 { x: 5, y: 5 }));
    assert!(!r.contains_point(Vec2 { x: 11, y: 5 }));
    assert!(!r.contains_point(Vec2 { x: -1, y: 5 }));
}

#[test]
fn rect_contains_point_checks_each_axis() {
    let r = rect(0, 0, 2, 2);
    assert!(r.contains_point(Vec2 { x: 1, y: 1 }));
    assert!(!r.contains_point(Vec2 { x: 1, y: 5 }));
    assert!(!r.contains_point(Vec2 { x: 3, y: 0 }));
    assert!(!r.contains_point(Vec2 { x: -1, y: 1 }));
    assert!(!rect(0, 0, 10, 10).contains_point(Vec2 { x: 5, y: 50 }));
    assert!(!rect(0, 0, 10, 10).contains_point(Vec2 { x: 0, y: -1 }));
}

#[test]
fn rect_expand_encloses_points() {
    let r = rect(0, 0, 10, 10);
    assert_eq!(r.expand(Vec2 { x: 15, y: 5 }), rect(0, 0, 15, 10));
    assert_eq!(r.expand(Vec2 { x: -5, y: 3 }), rect(-5, 0, 15, 10));
    assert_eq!(r.expand(Vec2 { x: 4, y: 20 }), rect(0, 0, 10, 20));
    assert_eq!(r.expand(Vec2 { x: 4, y: 4 }), r);
    let small = rect(0, 0, 2, 2);
    assert_eq!(small.expand(Vec2 { x: 5, y: 1 }), rect(0, 0, 5, 2));
    assert_eq!(small.expand(Vec2 { x: -3, y: 1 }), rect(-3, 0, 5, 2));
    assert_eq!(small.expand(Vec2 { x: 1, y: 1 }), small);
    let e = r.expand(Vec2 { x: 30, y: -7 });
    assert_eq!(e, rect(0, -7, 30, 17));
    assert!(e.contains_point(Vec2 { x: 10, y: 10 }));
    assert!(e.contains_point(Vec2 { x: 30, y: -7 }));
    assert_eq!(e.expand(Vec2 { x: 30, y: -7 }), e);
}

#[test]
fn rect_grow() {
    assert_eq!(rect(5, 5, 10, 10).grow(2), rect(3, 3, 14, 14));
    assert_eq!(rect(5, 5, 10, 10).grow(-1), rect(6, 6, 8, 8));
    assert_eq!(rect(5, 5, 10, 10).grow(2).grow(3), rect(5, 5, 10, 10).grow(5));
    assert_eq!(rect(5, 5, 10, 10).grow(2), rect(5, 5, 10, 10).grow_sides(2, 2, 2, 2));
}

#[test]
fn rect_grow_sides() {
    assert_eq!(rect(0, 0, 10, 10).grow_sides(1, 2, 3, 4), rect(-4, -1, 16, 14));
}

#[test]
fn rect_grow_side_moves_one_side() {
    let r = rect(0, 0, 10, 10);
    assert_eq!(r.grow_side(Dir::Left, 2), rect(-2, 0, 12, 10));
    assert_eq!(r.grow_side(Dir::Right, 2), rect(0, 0, 12, 10));
    assert_eq!(r.grow_side(Dir::Up, 3), rect(0, -3, 10, 13));
    assert_eq!(r.grow_side(Dir::Down, 3), rect(0, 0, 10, 13));
    assert_eq!(r.grow_side(Dir::Left, 2).end_x(), r.end_x());
    assert_eq!(
        r.grow_side(Dir::Up, 1).grow_side(Dir::Right, 2).grow_side(Dir::Down, 3).grow_side(Dir::Left, 4),
        r.grow_sides(1, 2, 3, 4)
    );
}

fn sorted(mut v: Vec<Vec2<i32>>) -> Vec<(i32, i32)> {
    let mut out: Vec<(i32, i32)> = v.drain(..).map(|p| (p.x, p.y)).collect();
    out.sort();
    out.dedup();
    out
}

#[test]
fn bresenham_circle_outlines_all_octants() {
    let points = bresenham_circle(Vec2 { x: 0, y: 0 }, 2);
    assert_eq!(points.len(), 16);
    let mut expected = vec![
        (2, 0), (-2, 0), (0, 2), (0, -2), (2, 1), (2, -1), (-2, 1), (-2, -1), (1, 2), (1, -2), (-1, 2), (-1, -2),
    ];
    expected.sort();
    assert_eq!(sorted(points), expected);
}

#[test]
fn bresenham_circle_radius_five() {
    let points = bresenham_circle(Vec2 { x: 0, y: 0 }, 5);
    assert_eq!(
        points[..8].to_vec(),
        vec![
            Vec2 { x: 5, y: 0 },
            Vec2 { x: 0, y: 5 },
            Vec2 { x: 0, y: 5 },
            Vec2 { x: -5, y: 0 },
            Vec2 { x: -5, y: 0 },
            Vec2 { x: 0, y: -5 },
            Vec2 { x: 0, y: -5 },
            Vec2 { x: 5, y: 0 },
        ]
    );
    for p in &points {
        let d = p.x * p.x + p.y * p.y;
        assert!(16 < d && d < 36);
    }
    assert!(points.len() <= 8 * 6);
}

#[test]
fn bresenham_circle_does_not_depend_on_the_centre() {
    let at_origin = bresenham_circle(Vec2 { x: 0, y: 0 }, 2);
    let shifted = bresenham_circle(Vec2 { x: 0, y: 5 }, 2);
    let far = bresenham_circle(Vec2 { x: 10, y: 0 }, 2);
    assert_eq!(shifted.len(), at_origin.len());
    for i in 0..at_origin.len() {
        assert_eq!(shifted[i], Vec2 { x: at_origin[i].x, y: at_origin[i].y + 5 });
        assert_eq!(far[i], Vec2 { x: at_origin[i].x + 10, y: at_origin[i].y });
    }
    assert!(!far.contains(&Vec2 { x: 12, y: 3 }));
}

#[test]
fn bresenham_circle_small_radii() {
    assert_eq!(bresenham_circle(Vec2 { x: 3, y: 4 }, 0), vec![Vec2 { x: 3, y: 4 }; 8]);
    assert_eq!(sorted(bresenham_circle(Vec2 { x: 0, y: 0 }, 1)), vec![(-1, 0), (0, -1), (0, 1), (1, 0)]);
    assert!(bresenham_circle(Vec2 { x: 0, y: 0 }, u32::MAX).is_empty());
}

#[test]
fn checked_bresenham_circle_refuses_overflow() {
    assert!(checked_bresenham_circle(Vec2 { x: i32::MAX, y: 0 }, 1).is_none());
    assert!(checked_bresenham_circle(Vec2 { x: 0, y: i32::MIN }, 1).is_none());
    assert_eq!(checked_bresenham_circle(Vec2 { x: 0, y: 0 }, 2), Some(bresenham_circle(Vec2 { x: 0, y: 0 }, 2)));
}

#[test]
fn remap_maps_between_ranges() {
    assert_eq!(remap(10, 0..10, 0..100), 100);
    assert_eq!(remap(20, 0..10, 5..15), 25);
    assert_eq!(remap(5, 0..10, 0..100), 50);
    assert_eq!(remap(5, 0..10, 100..200), 150);
    assert_eq!(remap(3, 0..10, 0..5), 1);
    assert_eq!(remap(-7, 0..2, 0..1), -3);
    assert_eq!(remap(7, 0..-2, 0..1), -3);
    assert_eq!(remap(-7, 0..-2, 0..1), 3);
}

#[test]
fn color_constructors() {
    assert_eq!(Color::black().rgba(), (0, 0, 0, 255));
    assert_eq!(Color::white().rgba(), (255, 255, 255, 255));
    assert_eq!(Color::red().rgb(), (255, 0, 0));
    assert_eq!(Color::green().rgb(), (0, 255, 0));
    assert_eq!(Color::blue().rgb(), (0, 0, 255));
    assert_eq!(Color::from_rgb(1, 2, 3).rgba(), (1, 2, 3, 255));
    assert_eq!(Color::from_rgba(1, 2, 3, 4).rgba(), (1, 2, 3, 4));
    assert_eq!(Color::from_value(9).rgba(), (9, 9, 9, 255));
    assert_eq!(Color::from_alpha(9).rgba(), (255, 255, 255, 9));
    assert_eq!(Color::from_rgb(1, 2, 3).to_u8(), Color::from_rgb(1, 2, 3));
}

#[test]
fn color_from_hex_numbers() {
    assert_eq!(Color::from_hex_rgb(0x123456).rgba(), (0x12, 0x34, 0x56, 255));
    assert_eq!(Color::from_hex_rgb(0xff123456).rgba(), (0x12, 0x34, 0x56, 255));
    assert_eq!(Color::from_hex_rgba(0x12345678).rgba(), (0x12, 0x34, 0x56, 0x78));
    assert_eq!(Color::from_hex_rgb(0xabcdef), Color::from_hex_rgba(0xabcdefff));
}

#[test]
fn color_from_hex_str() {
    assert_eq!(Color::from_hex_str("12ab5F").unwrap().rgba(), (0x12, 0xab, 0x5f, 255));
    assert_eq!(Color::from_hex_str("12ab5F80").unwrap().rgba(), (0x12, 0xab, 0x5f, 0x80));
    assert_eq!(Color::from_hex_str("1234567").unwrap().rgba(), (0x12, 0x34, 0x56, 255));
    assert!(Color::from_hex_str("+1+2+3").is_err());
    assert!(Color::from_hex_str("+f8000").is_err());
    assert!(Color::from_hex_str("gg0000").is_err());
    assert!(Color::from_hex_str("zz").is_err());
    assert!(Color::from_hex_str("ffgg").is_err());
    assert!(Color::from_hex_str("12345+").is_err());
    assert!(Color::from_hex_str("12zz56").is_err());
    assert!(Color::from_hex_str("123456zz").is_err());
    assert!(Color::from_hex_str("-10000").is_err());
}
