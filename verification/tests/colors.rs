use owo_colors::ansi::{decimal_string, digit_str, sgr_string};
use owo_colors::colors::custom::{digits3, escape_text, generate_lookup, rgb_to_ansi, rgb_to_ansi_color};
use owo_colors::colors::dynamic::{lookup_name, same_text};
use owo_colors::colors::{
    Black, Blue, BrightBlack, BrightBlue, BrightCyan, BrightGreen, BrightMagenta, BrightRed,
    BrightWhite, BrightYellow, Cyan, CustomColor, Green, Magenta, Red, White, Yellow,
};
use owo_colors::{AnsiColors, Color, DynColor, DynColors, OwoColorize, Rgb, XtermColors};

const ALL: [AnsiColors; 16] = [
    AnsiColors::Black,
    AnsiColors::Red,
    AnsiColors::Green,
    AnsiColors::Yellow,
    AnsiColors::Blue,
    AnsiColors::Magenta,
    AnsiColors::Cyan,
    AnsiColors::White,
    AnsiColors::BrightBlack,
    AnsiColors::BrightRed,
    AnsiColors::BrightGreen,
    AnsiColors::BrightYellow,
    AnsiColors::BrightBlue,
    AnsiColors::BrightMagenta,
    AnsiColors::BrightCyan,
    AnsiColors::BrightWhite,
];

#[test]
fn named_colors_have_their_codes() {
    let fg = [30, 31, 32, 33, 34, 35, 36, 37, 90, 91, 92, 93, 94, 95, 96, 97];
    for (color, code) in ALL.iter().zip(fg.iter()) {
        assert_eq!(color.fg_number(), *code);
        assert_eq!(color.bg_number(), *code + 10);
        assert_eq!(color.fmt_ansi_fg(), format!("\x1b[{}m", code));
        assert_eq!(color.fmt_ansi_bg(), format!("\x1b[{}m", code + 10));
        assert_eq!(color.fmt_raw_ansi_fg(), format!("{}", code));
        assert_eq!(color.fmt_raw_ansi_bg(), format!("{}", code + 10));
        assert_eq!(color.get_dyncolors_fg(), DynColors::Ansi(*color));
        assert_eq!(color.get_dyncolors_bg(), DynColors::Ansi(*color));
    }
}

#[test]
fn named_escapes_are_all_different() {
    let mut seen: Vec<String> = Vec::new();
    for color in ALL.iter() {
        seen.push(color.fmt_ansi_fg());
        seen.push(color.fmt_ansi_bg());
    }
    for i in 0..seen.len() {
        for j in 0..seen.len() {
            assert_eq!(seen[i] == seen[j], i == j);
        }
    }
}

#[test]
fn canonical_names_parse_back() {
    let names = [
        "black",
        "red",
        "green",
        "yellow",
        "blue",
        "magenta",
        "cyan",
        "white",
        "bright black",
        "bright red",
        "bright green",
        "bright yellow",
        "bright blue",
        "bright magenta",
        "bright cyan",
        "bright white",
    ];
    for (color, name) in ALL.iter().zip(names.iter()) {
        assert_eq!(color.canonical_name(), *name);
        assert_eq!(DynColors::parse(color.canonical_name()), Ok(DynColors::Ansi(*color)));
        assert_eq!(lookup_name(name), Some(*color));
        assert_eq!(AnsiColors::from_name(name), *color);
    }
}

#[test]
fn color_types_match_the_color_values() {
    assert_eq!(Black::ansi_fg(), "\x1b[30m");
    assert_eq!(Black::ansi_bg(), "\x1b[40m");
    assert_eq!(Red::raw_ansi_fg(), "31");
    assert_eq!(Red::raw_ansi_bg(), "41");
    assert_eq!(Green::ansi_fg(), "\x1b[32m");
    assert_eq!(Yellow::ansi_fg(), "\x1b[33m");
    assert_eq!(Blue::ansi_bg(), "\x1b[44m");
    assert_eq!(Magenta::ansi_fg(), "\x1b[35m");
    assert_eq!(Cyan::ansi_fg(), "\x1b[36m");
    assert_eq!(White::ansi_bg(), "\x1b[47m");
    assert_eq!(BrightBlack::ansi_fg(), "\x1b[90m");
    assert_eq!(BrightRed::ansi_fg(), "\x1b[91m");
    assert_eq!(BrightGreen::ansi_fg(), "\x1b[92m");
    assert_eq!(BrightYellow::ansi_fg(), "\x1b[93m");
    assert_eq!(BrightBlue::ansi_fg(), "\x1b[94m");
    assert_eq!(BrightMagenta::ansi_bg(), "\x1b[105m");
    assert_eq!(BrightCyan::ansi_bg(), "\x1b[106m");
    assert_eq!(BrightWhite::ansi_bg(), "\x1b[107m");
    assert_eq!(Black::into_dyncolors(), DynColors::Ansi(AnsiColors::Black));
    assert_eq!(BrightWhite::into_dyncolors(), DynColors::Ansi(AnsiColors::BrightWhite));
}

#[test]
fn palette_entries() {
    assert_eq!(XtermColors(0).fmt_ansi_fg(), "\x1b[30m");
    assert_eq!(XtermColors(1).fmt_ansi_fg(), "\x1b[31m");
    assert_eq!(XtermColors(7).fmt_ansi_bg(), "\x1b[47m");
    assert_eq!(XtermColors(8).fmt_ansi_fg(), "\x1b[90m");
    assert_eq!(XtermColors(9).fmt_ansi_fg(), "\x1b[91m");
    assert_eq!(XtermColors(15).fmt_ansi_bg(), "\x1b[107m");
    assert_eq!(XtermColors(16).fmt_ansi_fg(), "\x1b[38;5;16m");
    assert_eq!(XtermColors(200).fmt_ansi_fg(), "\x1b[38;5;200m");
    assert_eq!(XtermColors(255).fmt_ansi_bg(), "\x1b[48;5;255m");
    assert_eq!(XtermColors(99).fmt_raw_ansi_fg(), "38;5;99");
    assert_eq!(XtermColors(99).fmt_raw_ansi_bg(), "48;5;99");
    assert_eq!(XtermColors::from(42), XtermColors(42));
    assert_eq!(XtermColors(42).get_dyncolors_fg(), DynColors::Xterm(XtermColors(42)));
    assert_eq!("x".color(XtermColors(200)).to_string(), "\x1b[38;5;200mx\x1b[39m");
}

#[test]
fn rgb_values_are_written_without_padding() {
    assert_eq!(Rgb(5, 64, 255).fmt_ansi_fg(), "\x1b[38;2;5;64;255m");
    assert_eq!(Rgb(5, 64, 255).fmt_ansi_bg(), "\x1b[48;2;5;64;255m");
    assert_eq!(Rgb(0, 0, 0).fmt_raw_ansi_fg(), "38;2;0;0;0");
    assert_eq!(Rgb(100, 10, 9).fmt_raw_ansi_bg(), "48;2;100;10;9");
    assert_eq!(Rgb(1, 2, 3).get_dyncolors_fg(), DynColors::Rgb(1, 2, 3));
    assert_eq!(Rgb(1, 2, 3).get_dyncolors_bg(), DynColors::Rgb(1, 2, 3));
    assert_eq!("x".truecolor(141, 59, 212).to_string(), "\x1b[38;2;141;59;212mx\x1b[39m");
    assert_eq!("x".on_truecolor(1, 0, 99).to_string(), "\x1b[48;2;1;0;99mx\x1b[49m");
    assert_eq!(DynColors::Rgb(9, 99, 199).fmt_ansi_fg(), "\x1b[38;2;9;99;199m");
}

#[test]
fn rgb_types_are_written_in_fixed_width() {
    assert_eq!(&rgb_to_ansi(5, 64, 255, true), b"\x1b[38;2;005;064;255m");
    assert_eq!(&rgb_to_ansi(5, 64, 255, false), b"\x1b[48;2;005;064;255m");
    assert_eq!(&rgb_to_ansi_color(0, 9, 10, true), b"38;2;000;009;010");
    assert_eq!(&rgb_to_ansi_color(99, 100, 199, false), b"48;2;099;100;199");
    assert_eq!(CustomColor::<5, 64, 255>::ansi_fg(), "\x1b[38;2;005;064;255m");
    assert_eq!(CustomColor::<5, 64, 255>::ansi_bg(), "\x1b[48;2;005;064;255m");
    assert_eq!(CustomColor::<5, 64, 255>::raw_ansi_fg(), "38;2;005;064;255");
    assert_eq!(CustomColor::<5, 64, 255>::raw_ansi_bg(), "48;2;005;064;255");
    assert_eq!(CustomColor::<5, 64, 255>::into_dyncolors(), DynColors::Rgb(5, 64, 255));
    assert_eq!("x".fg_rgb::<5, 64, 255>().to_string(), "\x1b[38;2;005;064;255mx\x1b[39m");
    assert_eq!("x".bg_rgb::<0, 0, 7>().to_string(), "\x1b[48;2;000;000;007mx\x1b[49m");
    assert_eq!(
        "x".fg_rgb::<1, 2, 3>().bg::<CustomColor<4, 5, 6>>().to_string(),
        "\x1b[38;2;001;002;003;48;2;004;005;006mx\x1b[0m"
    );
}

#[test]
fn lookup_table_of_numerals() {
    let table = generate_lookup();
    assert_eq!(&table[0], b"000");
    assert_eq!(&table[7], b"007");
    assert_eq!(&table[42], b"042");
    assert_eq!(&table[100], b"100");
    assert_eq!(&table[255], b"255");
    for n in 0..=255u8 {
        assert_eq!(table[n as usize], digits3(n));
        assert_eq!(&table[n as usize][..], format!("{:03}", n).as_bytes());
    }
}

#[test]
fn escape_bytes_become_text() {
    assert_eq!(escape_text(b"\x1b[38;2;001;002;003m"), "\x1b[38;2;001;002;003m");
    assert_eq!(escape_text(b"0123456789;m["), "0123456789;m[");
    assert_eq!(escape_text(b""), "");
}

#[test]
fn numerals_and_sequences() {
    assert_eq!(decimal_string(0), "0");
    assert_eq!(decimal_string(9), "9");
    assert_eq!(decimal_string(10), "10");
    assert_eq!(decimal_string(99), "99");
    assert_eq!(decimal_string(100), "100");
    assert_eq!(decimal_string(255), "255");
    for n in 0..=255u8 {
        assert_eq!(decimal_string(n), n.to_string());
    }
    for d in 0..10u8 {
        assert_eq!(digit_str(d), d.to_string());
    }
    assert_eq!(sgr_string("1;31"), "\x1b[1;31m");
    assert_eq!(sgr_string(""), "\x1b[m");
}

#[test]
fn texts_are_compared_character_by_character() {
    assert!(same_text("red", "red"));
    assert!(same_text("", ""));
    assert!(!same_text("red", "rad"));
    assert!(!same_text("red", "reds"));
    assert!(!same_text("", "r"));
    assert!(same_text("grün", "grün"));
    assert!(!same_text("grün", "grun"));
}

#[test]
fn a_text_is_the_color_it_names() {
    assert_eq!("red".fmt_ansi_fg(), "\x1b[31m");
    assert_eq!("bright blue".fmt_ansi_bg(), "\x1b[104m");
    assert_eq!("purple".fmt_raw_ansi_fg(), "35");
    assert_eq!("no such color".fmt_ansi_fg(), "\x1b[37m");
    assert_eq!("Red".get_dyncolors_fg(), DynColors::Ansi(AnsiColors::White));
    assert_eq!("cyan".get_dyncolors_bg(), DynColors::Ansi(AnsiColors::Cyan));
    assert_eq!("x".color("green").to_string(), "\x1b[32mx\x1b[39m");
    assert_eq!("x".on_color("bright green").to_string(), "\x1b[102mx\x1b[49m");
    assert_eq!(AnsiColors::from_name("purple"), AnsiColors::Magenta);
    assert_eq!(AnsiColors::from_name("brightred"), AnsiColors::White);
    assert_eq!(lookup_name("brightred"), None);
}

#[test]
fn single_wrappers_have_prefix_and_suffix() {
    let fg = "x".red();
    assert_eq!(fg.prefix(), "\x1b[31m");
    assert_eq!(fg.suffix(), "\x1b[39m");
    assert_eq!(fg.wrap("y"), "\x1b[31my\x1b[39m");
    let bg = "x".on_red();
    assert_eq!(bg.prefix(), "\x1b[41m");
    assert_eq!(bg.suffix(), "\x1b[49m");
    assert_eq!(bg.wrap("y"), "\x1b[41my\x1b[49m");
    let fg = "x".color(Rgb(1, 2, 3));
    assert_eq!(fg.prefix(), "\x1b[38;2;1;2;3m");
    assert_eq!(fg.suffix(), "\x1b[39m");
    assert_eq!(fg.wrap("y"), "\x1b[38;2;1;2;3my\x1b[39m");
    let bg = "x".on_color(Rgb(1, 2, 3));
    assert_eq!(bg.prefix(), "\x1b[48;2;1;2;3m");
    assert_eq!(bg.suffix(), "\x1b[49m");
    assert_eq!(bg.wrap("y"), "\x1b[48;2;1;2;3my\x1b[49m");
}

#[test]
fn numbers_and_truth_values_have_a_text() {
    use_render();
}

fn use_render() {
    use_numbers(0u8, "0");
    use_numbers(255u8, "255");
    use_numbers(65535u16, "65535");
    use_numbers(4294967295u32, "4294967295");
    use_numbers(u64::MAX, "18446744073709551615");
    use_numbers(12usize, "12");
    use_numbers(-128i8, "-128");
    use_numbers(127i8, "127");
    use_numbers(-1i16, "-1");
    use_numbers(0i32, "0");
    use_numbers(-2147483648i32, "-2147483648");
    use_numbers(i64::MIN, "-9223372036854775808");
    use_numbers(i64::MAX, "9223372036854775807");
    use_numbers(-7isize, "-7");
    use_numbers(true, "true");
    use_numbers(false, "false");
    use_numbers(String::from("text"), "text");
    assert_eq!(10.red().to_string(), "\x1b[31m10\x1b[39m");
    assert_eq!((-10).on_red().to_string(), "\x1b[41m-10\x1b[49m");
    assert_eq!(true.red().on_blue().to_string(), "\x1b[31;44mtrue\x1b[0m");
}

fn use_numbers<T: owo_colors::Render>(value: T, text: &str) {
    assert_eq!(value.render(), text);
}
