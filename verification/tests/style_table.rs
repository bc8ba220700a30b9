use termstatus::Color;
use termstatus::Effect;
use termstatus::Style;
use termstatus::VariantDef;
use termstatus::render;
use termstatus::style::reset_code;

#[test]
fn color_nums_follow_ansi_order() {
    assert_eq!(Color::Black.num(), 0);
    assert_eq!(Color::Red.num(), 1);
    assert_eq!(Color::Green.num(), 2);
    assert_eq!(Color::Yellow.num(), 3);
    assert_eq!(Color::Blue.num(), 4);
    assert_eq!(Color::Magenta.num(), 5);
    assert_eq!(Color::Cyan.num(), 6);
    assert_eq!(Color::White.num(), 7);
}

#[test]
fn effect_nums_follow_ansi_order() {
    assert_eq!(Effect::Bold.num(), 1);
    assert_eq!(Effect::Dim.num(), 2);
    assert_eq!(Effect::Italic.num(), 3);
    assert_eq!(Effect::Underlined.num(), 4);
    assert_eq!(Effect::Blink.num(), 5);
    assert_eq!(Effect::BlinkFast.num(), 6);
    assert_eq!(Effect::Reverse.num(), 7);
    assert_eq!(Effect::Hidden.num(), 8);
    assert_eq!(Effect::Strikethrough.num(), 9);
}

#[test]
fn every_table_name_resolves_to_its_escape() {
    let cases: &[(&str, &str)] = &[
        ("black", "\x1b[30m"),
        ("red", "\x1b[31m"),
        ("green", "\x1b[32m"),
        ("yellow", "\x1b[33m"),
        ("blue", "\x1b[34m"),
        ("magenta", "\x1b[35m"),
        ("cyan", "\x1b[36m"),
        ("white", "\x1b[37m"),
        ("on_black", "\x1b[40m"),
        ("on_red", "\x1b[41m"),
        ("on_green", "\x1b[42m"),
        ("on_yellow", "\x1b[43m"),
        ("on_blue", "\x1b[44m"),
        ("on_magenta", "\x1b[45m"),
        ("on_cyan", "\x1b[46m"),
        ("on_white", "\x1b[47m"),
        ("bold", "\x1b[1m"),
        ("dim", "\x1b[2m"),
        ("italic", "\x1b[3m"),
        ("underlined", "\x1b[4m"),
        ("blink", "\x1b[5m"),
        ("blinkfast", "\x1b[6m"),
        ("reverse", "\x1b[7m"),
        ("hidden", "\x1b[8m"),
        ("strikethrough", "\x1b[9m"),
    ];
    for (name, escape) in cases {
        let style = Style::from_name(name).unwrap();
        assert_eq!(style.escape_code(), *escape);
    }
}

#[test]
fn names_outside_the_table_do_not_resolve() {
    for name in ["", "Red", "on_", "on_gold", "blinking", "bold ", "strike"] {
        assert!(Style::from_name(name).is_none());
    }
}

#[test]
fn foreground_and_background_use_distinct_codes() {
    let fg = Style::Color(Color::Green).escape_code();
    let bg = Style::Background(Color::Green).escape_code();
    assert_eq!(fg, "\x1b[32m");
    assert_eq!(bg, "\x1b[42m");
    assert_ne!(fg, bg);
}

#[test]
fn reset_is_the_zero_code() {
    assert_eq!(reset_code(), "\x1b[0m");
}

#[test]
fn render_pads_then_wraps() {
    let v = VariantDef {
        identifier: String::from("Go"),
        display_text: String::from("Go"),
        styles: vec![Style::Effect(Effect::Bold)],
    };
    assert_eq!(render(&v, 5), "   \x1b[1mGo\x1b[0m");
}

#[test]
fn render_without_styles_is_padding_and_text() {
    let v = VariantDef {
        identifier: String::from("Idle"),
        display_text: String::from("Idle"),
        styles: Vec::new(),
    };
    assert_eq!(render(&v, 6), "  Idle");
    assert_eq!(render(&v, 4), "Idle");
}

#[test]
fn width_counts_characters_not_bytes() {
    let v = VariantDef {
        identifier: String::from("Over"),
        display_text: String::from("u\u{308}ber"),
        styles: Vec::new(),
    };
    // Five scalar values: 'u', the combining diaeresis, 'b', 'e', 'r'.
    assert_eq!(render(&v, 7), "  u\u{308}ber");
}
