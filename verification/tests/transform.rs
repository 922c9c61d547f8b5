use nurep::Transform;

#[test]
fn square_screen_centres_the_extent() {
    let t = Transform::new(1000, 1000, (100, 100));
    assert_eq!(t.draw_size(), 1000);
    assert_eq!(t.offsets(), (25, 25));
    assert_eq!(t.radius(), 5);
    assert_eq!(t.apply((0, 0)), (25, 25));
    assert_eq!(t.apply((100, 100)), (975, 975));
    assert_eq!(t.apply((50, 50)), (500, 500));
}

#[test]
fn wide_screen_is_letterboxed() {
    // draw size 1080, longer side 200: the scale is 19 * 1080 / 4000 = 5.13.
    let t = Transform::new(1920, 1080, (200, 100));
    assert_eq!(t.draw_size(), 1080);
    // x: (1920 - 1080) / 2 + (1080 - 1026) / 2, y: 0 + (1080 - 513) / 2
    assert_eq!(t.offsets(), (447, 283));
    assert_eq!(t.radius(), 6);
    assert_eq!(t.apply((200, 100)), (1026 + 447, 513 + 283));
    assert_eq!(t.apply((0, 0)), (447, 283));
}

#[test]
fn tall_screen_is_letterboxed() {
    let t = Transform::new(600, 800, (10, 10));
    assert_eq!(t.draw_size(), 600);
    // scale 19 * 600 / 200 = 57; the extent fills 570 pixels.
    assert_eq!(t.offsets(), (15, 100 + 15));
    assert_eq!(t.apply((10, 10)), (585, 685));
}

#[test]
fn scaled_values_round_to_nearest_with_halves_away_from_zero() {
    // scale 19 * 100 / (20 * 10) = 9.5, offsets (100 - 95) / 2 = 2
    let t = Transform::new(100, 100, (10, 10));
    assert_eq!(t.offsets(), (2, 2));
    assert_eq!(t.apply((1, 2)), (10 + 2, 19 + 2));
    assert_eq!(t.apply((3, 4)), (29 + 2, 38 + 2));
    assert_eq!(t.apply((-1, -2)), (-10 + 2, -19 + 2));
    assert_eq!(t.apply((-3, -4)), (-29 + 2, -38 + 2));
    // scale 19 * 7 / (20 * 3) = 2.2166..: 1 -> 2.2, 2 -> 4.4, 3 -> 6.65, 4 -> 8.87
    let u = Transform::new(7, 7, (3, 3));
    assert_eq!(u.offsets(), (0, 0));
    assert_eq!(u.apply((1, 2)), (2, 4));
    assert_eq!(u.apply((3, 4)), (7, 9));
    assert_eq!(u.apply((-3, -4)), (-7, -9));
}

#[test]
fn transform_is_a_function_of_its_inputs() {
    let a = Transform::new(1366, 768, (321, 123));
    let b = Transform::new(1366, 768, (321, 123));
    assert_eq!(a, b);
    for x in -50..400 {
        assert_eq!(a.apply((x, 7 - x)), b.apply((x, 7 - x)));
        assert_eq!(a.apply((x, 7 - x)), a.apply((x, 7 - x)));
    }
}

#[test]
fn scaling_is_uniform() {
    let t = Transform::new(1366, 768, (321, 123));
    let (ox, oy) = t.offsets();
    for v in -400..400 {
        let (x, y) = t.apply((v, v));
        assert_eq!(x - ox as i64, y - oy as i64);
        let (x1, y1) = t.apply((v + 1, v + 1));
        assert_eq!(x1 - x, y1 - y);
        assert!(x1 >= x && y1 >= y);
    }
}

#[test]
fn extent_stays_on_screen() {
    for &(w, h) in &[(640u32, 480u32), (480, 640), (1920, 1080), (1, 1), (0, 0), (39, 41), (175, 175)] {
        for &(ew, eh) in &[(100u32, 100u32), (1, 1000), (1000, 1), (0, 0), (7, 3)] {
            let t = Transform::new(w, h, (ew, eh));
            let side = w.min(h) as i64;
            let r = t.radius() as i64;
            assert_eq!(r, side / 175);
            let left = (w as i64 - side) / 2;
            let top = (h as i64 - side) / 2;
            for &(x, y) in &[(0, 0), (ew as i32, eh as i32), (ew as i32, 0), (0, eh as i32), (ew as i32 / 2, eh as i32 / 2)] {
                let (px, py) = t.apply((x, y));
                assert!(left <= px - r && px + r <= left + side, "{w}x{h} {ew}x{eh} {x},{y}");
                assert!(top <= py - r && py + r <= top + side, "{w}x{h} {ew}x{eh} {x},{y}");
            }
        }
    }
}

#[test]
fn degenerate_extent_scales_as_a_unit_extent() {
    let t = Transform::new(200, 200, (0, 0));
    // side 1: scale 19 * 200 / 20 = 190; nothing to centre but the origin.
    assert_eq!(t.offsets(), (100, 100));
    assert_eq!(t.apply((0, 0)), (100, 100));
    assert_eq!(t.apply((1, -1)), (290, -90));
}

#[test]
fn extreme_inputs_do_not_overflow() {
    let t = Transform::new(u32::MAX, u32::MAX, (1, 1));
    let (ox, oy) = t.offsets();
    let (x, y) = t.apply((i32::MAX, i32::MIN));
    // scale 19 * (2^32 - 1) / 20
    let num = 19i128 * (u32::MAX as i128);
    let hi = (2 * (i32::MAX as i128) * num + 20) / 40;
    let lo = -((2 * (-(i32::MIN as i128)) * num + 20) / 40);
    assert_eq!(x as i128, hi + ox as i128);
    assert_eq!(y as i128, lo + oy as i128);
    let z = Transform::new(0, 0, (u32::MAX, u32::MAX));
    assert_eq!(z.apply((i32::MAX, i32::MIN)), (0, 0));
    assert_eq!(z.radius(), 0);
}
