use owo_colors::colors::{Blue, BrightWhite, CustomColor};
use owo_colors::Effect::{Strikethrough, Underline};
use owo_colors::{style, AnsiColors, DynColors, Effect, OwoColorize, Rgb, Style, XtermColors};

#[test]
fn test_it() {
    let style = Style::new()
        .bright_white()
        .on_blue()
        .bold()
        .dimmed()
        .italic()
        .underline()
        .blink()
        //.blink_fast()
        //.reversed()
        //.hidden()
        .strikethrough();
    let s = style.style("TEST");
    let s2 = s.to_string();
    println!("{}", &s2);
    assert_eq!(&s2, "\u{1b}[97m\u{1b}[44m\u{1b}[1m\u{1b}[2m\u{1b}[3m\u{1b}[4m\u{1b}[5m\u{1b}[9mTEST\u{1b}[0m");
}

#[test]
fn test_effects() {
    let style = Style::new().effects(&[Strikethrough, Underline]);

    let s = style.style("TEST");
    let s2 = s.to_string();
    println!("{}", &s2);
    assert_eq!(&s2, "\u{1b}[4m\u{1b}[9mTEST\u{1b}[0m");
}

#[test]
fn test_color() {
    let style = Style::new()
        .color(AnsiColors::White)
        .on_color(AnsiColors::Black);

    let s = style.style("TEST");
    let s2 = s.to_string();
    println!("{}", &s2);
    assert_eq!(&s2, "\u{1b}[37m\u{1b}[40mTEST\u{1b}[0m");
}

#[test]
fn test_truecolor() {
    let style = Style::new().truecolor(255, 255, 255).on_truecolor(0, 0, 0);

    let s = style.style("TEST");
    let s2 = s.to_string();
    println!("{}", &s2);
    assert_eq!(
        &s2,
        "\u{1b}[38;2;255;255;255m\u{1b}[48;2;0;0;0mTEST\u{1b}[0m"
    );
}

#[test]
fn test_string_reference() {
    let style = Style::new().truecolor(255, 255, 255).on_truecolor(0, 0, 0);

    let string = String::from("TEST");
    let s = style.style(&string);
    let s2 = s.to_string();
    println!("{}", &s2);
    assert_eq!(
        &s2,
        "\u{1b}[38;2;255;255;255m\u{1b}[48;2;0;0;0mTEST\u{1b}[0m"
    );
}

#[test]
fn test_owocolorize() {
    let style = Style::new().bright_white().on_blue();

    let s = "TEST".style(style);
    let s2 = s.to_string();
    println!("{}", &s2);
    assert_eq!(&s2, "\u{1b}[97m\u{1b}[44mTEST\u{1b}[0m");
}

#[test]
fn fresh_style_writes_nothing() {
    assert_eq!(Style::new().style("x").to_string(), "x");
    assert_eq!(style().style("x").to_string(), "x");
    assert_eq!(Style::default().style("").to_string(), "");
    assert!(Style::new().is_plain());
    assert_eq!(Style::new().style("x").prefix(), "");
    assert_eq!(Style::new().style("x").suffix(), "");
}

#[test]
fn effects_come_out_in_fixed_order() {
    let a = Style::new().strikethrough().underline();
    let b = Style::new().underline().strikethrough();
    assert_eq!(a.style("t").to_string(), "\x1b[4m\x1b[9mt\x1b[0m");
    assert_eq!(b.style("t").to_string(), "\x1b[4m\x1b[9mt\x1b[0m");
}

#[test]
fn every_effect_has_its_code() {
    let all = Style::new().effects(&[
        Effect::Strikethrough,
        Effect::Hidden,
        Effect::Reversed,
        Effect::BlinkFast,
        Effect::Blink,
        Effect::Underline,
        Effect::Italic,
        Effect::Dimmed,
        Effect::Bold,
    ]);
    assert_eq!(
        all.style("t").to_string(),
        "\x1b[1m\x1b[2m\x1b[3m\x1b[4m\x1b[5m\x1b[6m\x1b[7m\x1b[8m\x1b[9mt\x1b[0m"
    );
    assert_eq!(Style::new().blink_fast().style("t").to_string(), "\x1b[6mt\x1b[0m");
    assert_eq!(Style::new().reversed().style("t").to_string(), "\x1b[7mt\x1b[0m");
    assert_eq!(Style::new().hidden().style("t").to_string(), "\x1b[8mt\x1b[0m");
}

#[test]
fn effects_can_be_removed() {
    let s = Style::new().bold().italic().underline();
    assert_eq!(s.remove_effect(Effect::Italic).style("t").to_string(), "\x1b[1m\x1b[4mt\x1b[0m");
    assert_eq!(
        s.remove_effects(&[Effect::Underline, Effect::Bold]).style("t").to_string(),
        "\x1b[3mt\x1b[0m"
    );
    assert_eq!(s.remove_all_effects().style("t").to_string(), "t");
    assert_eq!(s.red().remove_all_effects().style("t").to_string(), "\x1b[31mt\x1b[0m");
    assert_eq!(s.effect(Effect::Bold).style("t").to_string(), s.style("t").to_string());
    assert_eq!(Style::new().effect(Effect::Dimmed).style("t").to_string(), "\x1b[2mt\x1b[0m");
    assert_eq!(Style::new().effects(&[]).style("t").to_string(), "t");
}

#[test]
fn last_color_of_a_channel_wins_in_a_style() {
    let s = Style::new().green().yellow().red().on_blue();
    assert_eq!(s.style("t").to_string(), "\x1b[31m\x1b[44mt\x1b[0m");
    let s = Style::new().on_blue().red();
    assert_eq!(s.style("t").to_string(), "\x1b[31m\x1b[44mt\x1b[0m");
    let s = Style::new().on_green().on_blue();
    assert_eq!(s.style("t").to_string(), "\x1b[44mt\x1b[0m");
}

#[test]
fn style_takes_colors_of_every_family() {
    let s = Style::new().fg::<BrightWhite>().bg::<Blue>();
    assert_eq!(s.style("t").to_string(), "\x1b[97m\x1b[44mt\x1b[0m");
    let s = Style::new().fg::<CustomColor<1, 2, 3>>();
    assert_eq!(s.style("t").to_string(), "\x1b[38;2;1;2;3mt\x1b[0m");
    let s = Style::new().fg_rgb::<1, 2, 3>().bg_rgb::<40, 50, 60>();
    assert_eq!(s.style("t").to_string(), "\x1b[38;2;1;2;3m\x1b[48;2;40;50;60mt\x1b[0m");
    let s = Style::new().color(XtermColors(200)).on_color(Rgb(0, 10, 100));
    assert_eq!(s.style("t").to_string(), "\x1b[38;5;200m\x1b[48;2;0;10;100mt\x1b[0m");
    let s = Style::new().color(DynColors::Ansi(AnsiColors::Cyan)).on_color("bright red");
    assert_eq!(s.style("t").to_string(), "\x1b[36m\x1b[101mt\x1b[0m");
    let s = Style::new().purple().on_bright_purple();
    assert_eq!(s.style("t").to_string(), "\x1b[35m\x1b[105mt\x1b[0m");
}

#[test]
fn styled_wraps_a_text_of_another_notation() {
    let s = Style::new().red().bold().style(10);
    assert_eq!(s.wrap(&format!("{:#x}", 10)), "\x1b[31m\x1b[1m0xa\x1b[0m");
    assert_eq!(s.prefix(), "\x1b[31m\x1b[1m");
    assert_eq!(s.suffix(), "\x1b[0m");
}

#[test]
fn styled_values_nest() {
    let inner = Style::new().bold().style("in");
    let outer = Style::new().red().style(&inner);
    assert_eq!(outer.to_string(), "\x1b[31m\x1b[1min\x1b[0m\x1b[0m");
}
