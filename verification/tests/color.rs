use nurep::{background, pick_color, Color, NEUTRAL_OWNER, PALETTE_SIZE, UNKNOWN_OWNER};

fn rgb(r: u8, g: u8, b: u8) -> Color {
    Color { r, g, b }
}

#[test]
fn palette_entries() {
    assert_eq!(pick_color(0), rgb(0x80, 0x80, 0x80));
    assert_eq!(pick_color(1), rgb(0x00, 0xff, 0x00));
    assert_eq!(pick_color(2), rgb(0x00, 0xff, 0x80));
    assert_eq!(pick_color(3), rgb(0x00, 0xff, 0xff));
    assert_eq!(pick_color(4), rgb(0x00, 0x80, 0xff));
    assert_eq!(pick_color(5), rgb(0x00, 0x00, 0xff));
    assert_eq!(pick_color(6), rgb(0x80, 0x00, 0xff));
    assert_eq!(pick_color(7), rgb(0xff, 0x00, 0xc0));
    assert_eq!(pick_color(8), rgb(0xff, 0x00, 0x00));
    assert_eq!(pick_color(9), rgb(0xff, 0x80, 0x00));
    assert_eq!(pick_color(10), rgb(0xff, 0xff, 0x00));
    assert_eq!(pick_color(11), rgb(0x80, 0xff, 0x00));
}

#[test]
fn neutral_owner_is_gray() {
    assert_eq!(NEUTRAL_OWNER, 0);
    assert_eq!(pick_color(NEUTRAL_OWNER), rgb(0x80, 0x80, 0x80));
}

#[test]
fn unknown_and_out_of_palette_owners_fall_back_to_white() {
    let white = rgb(0xff, 0xff, 0xff);
    assert_eq!(UNKNOWN_OWNER, -1);
    assert_eq!(pick_color(UNKNOWN_OWNER), white);
    assert_eq!(pick_color(PALETTE_SIZE), white);
    assert_eq!(pick_color(12), white);
    assert_eq!(pick_color(13), white);
    assert_eq!(pick_color(-2), white);
    assert_eq!(pick_color(i32::MAX), white);
    assert_eq!(pick_color(i32::MIN), white);
}

#[test]
fn palette_colours_are_distinct() {
    let white = rgb(0xff, 0xff, 0xff);
    for a in 0..PALETTE_SIZE {
        assert_ne!(pick_color(a), white);
        for b in 0..PALETTE_SIZE {
            if a != b {
                assert_ne!(pick_color(a), pick_color(b));
            }
        }
    }
}

#[test]
fn pick_color_is_repeatable() {
    for id in -3..20 {
        assert_eq!(pick_color(id), pick_color(id));
    }
}

#[test]
fn background_is_black() {
    assert_eq!(background(), rgb(0, 0, 0));
}
