use raze_core::style::{MODE_DEFAULT, MODE_INDEXED, MODE_RGB};
use raze_core::{Color, Rect, Style};

#[test]
fn ansi_keeps_index_in_red_channel() {
    for index in 0..=255u8 {
        let c = Color::ansi(index);
        assert_eq!(c.mode, 1);
        assert_eq!(c.r, index);
        assert_eq!(c.g, 0);
        assert_eq!(c.b, 0);
    }
}

#[test]
fn rgb_keeps_channels() {
    let c = Color::rgb(12, 200, 255);
    assert_eq!(c.mode, 2);
    assert_eq!(c.r, 12);
    assert_eq!(c.g, 200);
    assert_eq!(c.b, 255);
    let black = Color::rgb(0, 0, 0);
    assert_eq!(black.mode, 2);
    assert_ne!(black, Color::default_color());
}

#[test]
fn default_color_is_mode_zero() {
    let c = Color::default_color();
    assert_eq!(c.mode, 0);
    assert_eq!((c.r, c.g, c.b), (0, 0, 0));
    assert_eq!(MODE_DEFAULT, 0);
    assert_eq!(MODE_INDEXED, 1);
    assert_eq!(MODE_RGB, 2);
}

#[test]
fn rect_new_keeps_fields() {
    let r = Rect::new(3, 7, 65535, 0);
    assert_eq!(r.x, 3);
    assert_eq!(r.y, 7);
    assert_eq!(r.width, 65535);
    assert_eq!(r.height, 0);
}

#[test]
fn defaults_equal_explicit_forms() {
    assert_eq!(Rect::default(), Rect::new(0, 0, 0, 0));
    assert_eq!(Color::default(), Color::default_color());
    assert_eq!(
        Style::default(),
        Style {
            fg: Color::default_color(),
            bg: Color::default_color(),
            bold: false,
            italic: false,
            underline: false,
        }
    );
}

#[test]
fn style_fields_read_back() {
    let s = Style { fg: Color::ansi(9), bg: Color::rgb(1, 2, 3), bold: true, italic: false, underline: true };
    assert_eq!(s.fg, Color::ansi(9));
    assert_eq!(s.bg, Color::rgb(1, 2, 3));
    assert!(s.bold);
    assert!(!s.italic);
    assert!(s.underline);
}
