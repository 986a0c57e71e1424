use owo_colors::tty_display::IsTty;
use owo_colors::{
    AtomicOverride, Override, OwoColorize, StdErr, StdOut, Stream, Style, SupportsColorsDisplay,
    TtyDisplay,
};

#[test]
fn tty_display_styles_only_on_a_terminal() {
    let shown = "text".if_stdout_tty(|text| text.bright_cyan());
    assert_eq!(shown.render_if(true), "\x1b[96mtext\x1b[39m");
    assert_eq!(shown.render_if(false), "text");
    let shown = "text".if_stderr_tty(|text| text.style(Style::new().bright_red().underline()));
    assert_eq!(shown.render_if(true), "\x1b[91m\x1b[4mtext\x1b[0m");
    assert_eq!(shown.render_if(false), "text");
}

#[test]
fn tty_display_gives_one_of_the_two_texts() {
    let shown = "text".if_stdout_tty(|text| text.red());
    let out = shown.to_string();
    assert!(out == "text" || out == "\x1b[31mtext\x1b[39m");
    let shown = "text".if_stderr_tty(|text| text.red());
    let out = shown.to_string();
    assert!(out == "text" || out == "\x1b[31mtext\x1b[39m");
}

#[test]
fn tty_display_can_be_made_directly() {
    let text = String::from("text");
    let shown = TtyDisplay::new(&text, |t: &String| t.on_blue(), StdOut);
    assert_eq!(shown.render_if(true), "\x1b[44mtext\x1b[49m");
    let shown = TtyDisplay::new(&text, |t: &String| t.on_blue(), StdErr);
    assert_eq!(shown.render_if(false), "text");
}

#[test]
fn streams_of_the_stream_types() {
    assert_eq!(StdOut::tty(), Stream::Stdout);
    assert_eq!(StdErr::tty(), Stream::Stderr);
}

#[test]
fn supports_display_follows_the_overrides() {
    let cell = AtomicOverride::none();
    let shown = "text".if_supports_color(&cell, Stream::Stderr, |text| text.green());
    assert_eq!(shown.render_if(true), "\x1b[32mtext\x1b[39m");
    assert_eq!(shown.render_if(false), "text");
    cell.store(Override::enable());
    assert_eq!(shown.to_string(), "\x1b[32mtext\x1b[39m");
    cell.store(Override::disable());
    assert_eq!(shown.to_string(), "text");
    cell.store(Override::none());
    let out = shown.to_string();
    assert!(out == "text" || out == "\x1b[32mtext\x1b[39m");
}

#[test]
fn supports_display_can_be_made_directly() {
    let cell = AtomicOverride::none();
    cell.store(Override::enable());
    let text = String::from("text");
    let shown = SupportsColorsDisplay::new(&text, |t: &String| t.bold_red(), Stream::Stdout, &cell);
    assert_eq!(shown.to_string(), "\x1b[31m\x1b[1mtext\x1b[0m");
}

trait BoldRed {
    fn bold_red(&self) -> owo_colors::Styled<&Self>;
}

impl<T> BoldRed for T {
    fn bold_red(&self) -> owo_colors::Styled<&Self> {
        self.style(Style::new().red().bold())
    }
}
