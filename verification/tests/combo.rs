use owo_colors::colors::{Blue, Green, Red, Yellow};
use owo_colors::OwoColorize;

#[test]
fn fg_bg_combo() {
    let test = "test".red().on_blue();
    assert_eq!(test.to_string(), "\x1b[31;44mtest\x1b[0m");
}

#[test]
fn bg_fg_combo() {
    let test = "test".on_blue().red();
    assert_eq!(test.to_string(), "\x1b[31;44mtest\x1b[0m");
}

#[test]
fn fg_overide() {
    let test = "test".green().yellow().red().on_blue();
    assert_eq!(test.to_string(), "\x1b[31;44mtest\x1b[0m");
}

#[test]
fn bg_overide() {
    let test = "test".on_green().on_yellow().on_blue().red();
    assert_eq!(test.to_string(), "\x1b[31;44mtest\x1b[0m");
}

#[test]
fn multiple_overide() {
    let test = "test"
        .on_green()
        .on_yellow()
        .on_red()
        .green()
        .on_blue()
        .red();
    assert_eq!(test.to_string(), "\x1b[31;44mtest\x1b[0m");
}

#[test]
fn generic_colors_replace_like_named_ones() {
    let test = "test".fg::<Green>().fg::<Yellow>().bg::<Blue>().fg::<Red>();
    assert_eq!(test.to_string(), "\x1b[31;44mtest\x1b[0m");
    let test = "test".bg::<Green>().bg::<Blue>();
    assert_eq!(test.to_string(), "\x1b[44mtest\x1b[49m");
    let test = "test".fg::<Green>().fg::<Red>();
    assert_eq!(test.to_string(), "\x1b[31mtest\x1b[39m");
}

#[test]
fn combo_of_bright_colors() {
    let test = "test".bright_white().on_bright_black();
    assert_eq!(test.to_string(), "\x1b[97;100mtest\x1b[0m");
    let test = "test".purple().on_bright_purple();
    assert_eq!(test.to_string(), "\x1b[35;105mtest\x1b[0m");
}

#[test]
fn combo_prefix_and_suffix() {
    let test = "test".red().on_blue();
    assert_eq!(test.prefix(), "\x1b[31;44m");
    assert_eq!(test.suffix(), "\x1b[0m");
    assert_eq!(test.wrap("0x0A"), "\x1b[31;44m0x0A\x1b[0m");
}

#[test]
fn combo_writes_the_reset_around_empty_text() {
    assert_eq!("".red().on_blue().to_string(), "\x1b[31;44m\x1b[0m");
    assert_eq!("".red().to_string(), "\x1b[31m\x1b[39m");
}
