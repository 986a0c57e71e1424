use owo_colors::colors::{Black, CustomColor};
use owo_colors::{AnsiColors, DynColors, OwoColorize, Render};

fn assert_str<T: Render>(lhs: T, rhs: &str) {
    let lhs = lhs.render();

    assert_eq!(lhs, rhs);
}

#[test]
fn test_assert_str() {
    assert_str("TEST", "TEST");
}

#[test]
#[should_panic]
fn test_assert_str_neq() {
    assert_str("TEST123", "TEST");
}

#[test]
fn test_fg() {
    assert_str("test".fg::<Black>(), "\x1b[30mtest\x1b[39m");
    assert_str("blah blah".red(), "\x1b[31mblah blah\x1b[39m");
}

#[test]
fn test_bg() {
    assert_str("test".bg::<Black>(), "\x1b[40mtest\x1b[49m");
    assert_str("blah blah".on_red(), "\x1b[41mblah blah\x1b[49m");
}

#[test]
fn test_dyn_fg() {
    assert_str("test".color(AnsiColors::Black), "\x1b[30mtest\x1b[39m");
    assert_str(
        "blah blah".color(AnsiColors::Red),
        "\x1b[31mblah blah\x1b[39m",
    );
}

#[test]
fn test_dyn_bg() {
    assert_str("test".on_color(AnsiColors::Black), "\x1b[40mtest\x1b[49m");
    assert_str(
        "blah blah".on_color(AnsiColors::Red),
        "\x1b[41mblah blah\x1b[49m",
    );
}

#[test]
fn test_hex() {
    assert_str(
        0xa.red().wrap(&format!("{:08X}", 0xa)),
        "\x1b[31m0000000A\x1b[39m",
    );
}

#[test]
fn test_css_name() {
    assert_str(
        "test".fg::<CustomColor<230, 230, 250>>(),
        "\x1b[38;2;230;230;250mtest\x1b[39m",
    );
}

#[test]
fn test_parse() {
    assert_eq!(DynColors::Ansi(AnsiColors::Yellow), "yellow".parse().unwrap());
    assert_eq!(DynColors::Ansi(AnsiColors::Blue), "blue".parse().unwrap());
    assert_eq!(DynColors::Rgb(235, 64, 52), "#eb4034".parse().unwrap());
}

#[test]
fn nested_wrappers_keep_their_own_resets() {
    let inner = "default color".blue();
    let text = format!("red red red {} no color", inner.to_string());
    assert_str(
        text.red(),
        "\x1b[31mred red red \x1b[34mdefault color\x1b[39m no color\x1b[39m",
    );
    assert_str("x".red().on_color(AnsiColors::Blue), "\x1b[44m\x1b[31mx\x1b[39m\x1b[49m");
}
