use owo_colors::colors::Black;
use owo_colors::supports_colors::should_style;
use owo_colors::{
    override_ansi, override_set, override_status, override_truecolor, override_xterm,
    set_override, supports, unset_override, with_override, AtomicOverride, ColorLevel,
    ColorOverride, OwoColorize, Override, Stream,
};

fn tiers(o: Override) -> (ColorOverride, ColorOverride, ColorOverride) {
    (o.ansi(), o.xterm(), o.truecolor())
}

fn answers(l: ColorLevel) -> (bool, bool, bool) {
    (l.ansi(), l.xterm(), l.truecolor())
}

#[test]
fn tiers_are_packed_two_bits_each() {
    assert_eq!(ColorOverride::Inherit.to_num(), 0b00);
    assert_eq!(ColorOverride::Enable.to_num(), 0b01);
    assert_eq!(ColorOverride::Disable.to_num(), 0b10);
    assert_eq!(ColorOverride::from_num(0), ColorOverride::Inherit);
    assert_eq!(ColorOverride::from_num(1), ColorOverride::Enable);
    assert_eq!(ColorOverride::from_num(2), ColorOverride::Disable);
    assert_eq!(ColorOverride::from_num(3), ColorOverride::Inherit);
    assert_eq!(ColorOverride::from_num(200), ColorOverride::Inherit);
    assert_eq!(Override::none().to_num(), 0);
    assert_eq!(Override::enable().to_num(), 0b01_01_01);
    assert_eq!(Override::disable().to_num(), 0b10_10_10);
    assert_eq!(Override::default().to_num(), 0);
    assert_eq!(Override::none().with_ansi(ColorOverride::Enable).to_num(), 0b01_00_00);
    assert_eq!(Override::none().with_xterm(ColorOverride::Disable).to_num(), 0b00_10_00);
    assert_eq!(Override::none().with_truecolor(ColorOverride::Enable).to_num(), 0b00_00_01);
}

#[test]
fn unpacking_inverts_packing() {
    let all = [ColorOverride::Inherit, ColorOverride::Enable, ColorOverride::Disable];
    for a in all {
        for x in all {
            for t in all {
                let o = Override::none().with_ansi(a).with_xterm(x).with_truecolor(t);
                assert!(o.to_num() < 64);
                assert_eq!(tiers(Override::from_num(o.to_num())), (a, x, t));
                assert_eq!(tiers(Override::from_num(o.to_num() | 0b1100_0000)), (a, x, t));
            }
        }
    }
    assert_eq!(
        tiers(Override::from_num(0b01_10_11)),
        (ColorOverride::Enable, ColorOverride::Disable, ColorOverride::Inherit)
    );
}

#[test]
fn overrides_come_before_detection() {
    assert!(ColorOverride::Enable.to_bool(false));
    assert!(ColorOverride::Enable.to_bool(true));
    assert!(!ColorOverride::Disable.to_bool(false));
    assert!(!ColorOverride::Disable.to_bool(true));
    assert!(!ColorOverride::Inherit.to_bool(false));
    assert!(ColorOverride::Inherit.to_bool(true));
    assert_eq!(answers(Override::none().to_level(false)), (false, false, false));
    assert_eq!(answers(Override::none().to_level(true)), (true, true, true));
    assert_eq!(answers(Override::enable().to_level(false)), (true, true, true));
    assert_eq!(answers(Override::disable().to_level(true)), (false, false, false));
    let mixed = Override::none().with_ansi(ColorOverride::Enable).with_truecolor(
        ColorOverride::Disable,
    );
    assert_eq!(answers(mixed.to_level(false)), (true, false, false));
    assert_eq!(answers(mixed.to_level(true)), (true, true, false));
    assert_eq!(answers(mixed.resolve(ColorLevel::new(false, true, true))), (true, true, false));
    assert_eq!(answers(mixed.resolve(ColorLevel::none())), (true, false, false));
    assert_eq!(
        answers(Override::none().resolve(ColorLevel::new(true, false, true))),
        (true, false, true)
    );
    assert_eq!(answers(ColorLevel::none()), (false, false, false));
}

#[test]
fn the_cell_holds_what_was_stored() {
    let cell = AtomicOverride::none();
    assert_eq!(override_status(&cell).to_num(), 0);
    override_set(&cell, Override::enable());
    assert_eq!(cell.load().to_num(), Override::enable().to_num());
    override_set(&cell, Override::none());
    override_ansi(&cell, ColorOverride::Disable);
    assert_eq!(
        tiers(override_status(&cell)),
        (ColorOverride::Disable, ColorOverride::Inherit, ColorOverride::Inherit)
    );
    override_xterm(&cell, ColorOverride::Enable);
    assert_eq!(
        tiers(override_status(&cell)),
        (ColorOverride::Disable, ColorOverride::Enable, ColorOverride::Inherit)
    );
    override_truecolor(&cell, ColorOverride::Enable);
    assert_eq!(
        tiers(override_status(&cell)),
        (ColorOverride::Disable, ColorOverride::Enable, ColorOverride::Enable)
    );
    set_override(&cell, true);
    assert_eq!(override_status(&cell).ansi(), ColorOverride::Enable);
    set_override(&cell, false);
    assert_eq!(override_status(&cell).ansi(), ColorOverride::Disable);
    unset_override(&cell);
    assert_eq!(
        tiers(override_status(&cell)),
        (ColorOverride::Inherit, ColorOverride::Enable, ColorOverride::Enable)
    );
    cell.store_ansi(ColorOverride::Enable);
    cell.store_xterm(ColorOverride::Disable);
    cell.store_truecolor(ColorOverride::Inherit);
    assert_eq!(cell.load().to_num(), 0b01_10_00);
    cell.store(Override::disable());
    assert_eq!(cell.load().to_num(), 0b10_10_10);
}

#[test]
fn scoped_override_is_put_back() {
    let cell = AtomicOverride::none();
    set_override(&cell, false);
    let shown = |cell: &AtomicOverride| {
        "example".if_supports_color(cell, Stream::Stdout, |value| value.bg::<Black>()).to_string()
    };
    assert_eq!(shown(&cell), "example");

    let inside = with_override(&cell, Override::enable(), || shown(&cell));
    assert_eq!(inside, "\x1b[40mexample\x1b[49m");

    assert_eq!(shown(&cell), "example");
    assert_eq!(override_status(&cell).ansi(), ColorOverride::Disable);
    unset_override(&cell);
}

#[test]
fn scoped_overrides_nest() {
    let cell = AtomicOverride::none();
    let seen = with_override(&cell, Override::enable(), || {
        let inner = with_override(&cell, Override::disable(), || cell.load().to_num());
        (inner, cell.load().to_num())
    });
    assert_eq!(seen, (Override::disable().to_num(), Override::enable().to_num()));
    assert_eq!(cell.load().to_num(), 0);
}

#[test]
fn a_dropped_scope_restores_what_it_replaced() {
    let cell = AtomicOverride::none();
    cell.store_xterm(ColorOverride::Enable);
    {
        let _scope = cell.replace(Override::disable());
        assert_eq!(cell.load().to_num(), Override::disable().to_num());
    }
    assert_eq!(cell.load().to_num(), 0b00_01_00);
}

#[test]
fn forced_tiers_do_not_ask_the_stream() {
    let cell = AtomicOverride::none();
    override_set(&cell, Override::enable());
    assert_eq!(answers(supports(&cell, Stream::Stdout)), (true, true, true));
    assert_eq!(answers(supports(&cell, Stream::Stderr)), (true, true, true));
    override_set(&cell, Override::disable());
    assert_eq!(answers(supports(&cell, Stream::Stdout)), (false, false, false));
    assert_eq!(answers(supports(&cell, Stream::Stderr)), (false, false, false));
}

#[test]
fn detected_levels_are_cumulative() {
    let cell = AtomicOverride::none();
    for stream in [Stream::Stdout, Stream::Stderr] {
        let level = supports(&cell, stream);
        assert!(!level.truecolor() || level.xterm());
        assert!(!level.xterm() || level.ansi());
        let again = supports(&cell, stream);
        assert_eq!(answers(level), answers(again));
    }
}

#[test]
fn styling_follows_the_override_of_the_named_colors() {
    let basic = Some(ColorLevel::new(true, false, false));
    let nothing = Some(ColorLevel::new(false, true, true));
    assert!(should_style(Override::none(), basic));
    assert!(!should_style(Override::none(), nothing));
    assert!(!should_style(Override::none(), None));
    assert!(should_style(Override::enable(), None));
    assert!(should_style(Override::enable(), basic));
    assert!(!should_style(Override::disable(), basic));
    assert!(!should_style(Override::disable(), None));
    let only_palette = Override::none().with_xterm(ColorOverride::Enable);
    assert!(!should_style(only_palette, None));
    assert!(should_style(only_palette, basic));
    let only_ansi_off = Override::enable().with_ansi(ColorOverride::Disable);
    assert!(!should_style(only_ansi_off, basic));
}
