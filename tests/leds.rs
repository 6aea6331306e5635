use m5_go::leds::{Color, Leds, OutOfBounds, WithBrightness, LED_COUNT};

const BLACK: Color = Color { r: 0, g: 0, b: 0 };

#[test]
fn brightness_scales_each_channel() {
    let c = Color { r: 255, g: 128, b: 7 };
    assert_eq!(c.with_brightness(128u8), Color { r: 128, g: 64, b: 3 });
    assert_eq!(c.with_brightness(128u16), Color { r: 128, g: 64, b: 3 });
    assert_eq!(c.with_brightness(1u8), Color { r: 1, g: 0, b: 0 });
}

#[test]
fn brightness_formula_holds_for_all_levels() {
    let c = Color { r: 200, g: 99, b: 255 };
    for level in 0u16..=255 {
        let expected = Color {
            r: (200 * level / 255) as u8,
            g: (99 * level / 255) as u8,
            b: (255 * level / 255) as u8,
        };
        assert_eq!(c.with_brightness(level), expected);
        assert_eq!(c.with_brightness(level as u8), expected);
    }
}

#[test]
fn full_brightness_keeps_and_zero_turns_off() {
    let c = Color { r: 12, g: 200, b: 255 };
    assert_eq!(c.with_brightness(255u8), c);
    assert_eq!(c.with_brightness(255u16), c);
    assert_eq!(c.with_brightness(0u8), BLACK);
    assert_eq!(c.with_brightness(0u16), BLACK);
}

#[test]
fn new_strip_is_dark() {
    let leds = Leds::new();
    assert_eq!(leds.read_all(), vec![BLACK; LED_COUNT]);
    assert_eq!(Color::black(), BLACK);
}

#[test]
fn fill_then_read_all() {
    let mut leds = Leds::new();
    let c = Color { r: 1, g: 2, b: 3 };
    leds.fill(c);
    let all = leds.read_all();
    assert_eq!(all.len(), 10);
    assert!(all.iter().all(|x| *x == c));
}

#[test]
fn set_color_changes_only_that_index() {
    let mut leds = Leds::new();
    let base = Color { r: 9, g: 9, b: 9 };
    let c = Color { r: 255, g: 0, b: 0 };
    leds.fill(base);
    assert_eq!(leds.set_color_at_index(3, c), Ok(()));
    let all = leds.read_all();
    for (i, x) in all.iter().enumerate() {
        assert_eq!(*x, if i == 3 { c } else { base });
    }
    assert_eq!(leds.set_color_at_index(9, c), Ok(()));
    assert_eq!(leds.read_all()[9], c);
}

#[test]
fn set_color_out_of_range_fails() {
    let mut leds = Leds::new();
    let c = Color { r: 255, g: 0, b: 0 };
    assert_eq!(leds.set_color_at_index(10, c), Err(OutOfBounds { index: 10 }));
    assert_eq!(leds.set_color_at_index(usize::MAX, c), Err(OutOfBounds { index: usize::MAX }));
    assert_eq!(leds.read_all(), vec![BLACK; 10]);
}

#[test]
fn off_turns_every_light_black() {
    let mut leds = Leds::new();
    leds.fill(Color { r: 5, g: 6, b: 7 });
    leds.off();
    assert_eq!(leds.read_all(), vec![BLACK; 10]);
}

#[test]
fn frames_follow_index_order() {
    let mut leds = Leds::new();
    leds.set_color_at_index(0, Color { r: 1, g: 2, b: 3 }).unwrap();
    leds.set_color_at_index(9, Color { r: 7, g: 8, b: 9 }).unwrap();
    let frames = leds.frames();
    assert_eq!(frames.len(), 10);
    assert_eq!(frames[0], [1, 2, 3]);
    assert_eq!(frames[5], [0, 0, 0]);
    assert_eq!(frames[9], [7, 8, 9]);
    assert_eq!(Color { r: 4, g: 5, b: 6 }.frame(), [4, 5, 6]);
}
