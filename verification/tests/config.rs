use timg::config::split_at;
use timg::{
    base16_to_unum, exit_code, num_to_rgb, parse_color, parse_number, parse_palette,
    parse_term_size, pixel_area, Tint, ConfigError, Failure, Position, Scale, Settings, ONE_RAW,
};

#[test]
fn hex_decoding() {
    assert_eq!(base16_to_unum("abfF14"), Some(0xabff14));
    assert_eq!(base16_to_unum(""), Some(0));
    assert_eq!(base16_to_unum("0"), Some(0));
    assert_eq!(base16_to_unum("0123456789"), Some(0x23456789));
    assert_eq!(base16_to_unum("ffffffff"), Some(0xffffffff));
    assert_eq!(base16_to_unum("gg"), None);
    assert_eq!(base16_to_unum("12 4"), None);
    assert_eq!(base16_to_unum("-1"), None);
}

#[test]
fn number_to_rgb() {
    assert_eq!(num_to_rgb(0xff0084), [0xff, 0x00, 0x84]);
    assert_eq!(num_to_rgb(0), [0, 0, 0]);
    assert_eq!(num_to_rgb(0x12abcdef), [0xab, 0xcd, 0xef]);
}

#[test]
fn color_parsing() {
    assert_eq!(parse_color("abfF14"), Ok([0xab, 0xff, 0x14]));
    assert_eq!(parse_color("abfF1"), Err(ConfigError::StrLen(5)));
    assert_eq!(parse_color("abfF140"), Err(ConfigError::StrLen(7)));
    assert_eq!(parse_color(""), Err(ConfigError::StrLen(0)));
    assert_eq!(parse_color("ggggg"), Err(ConfigError::StrLen(5)));
    assert_eq!(parse_color("12gg56"), Err(ConfigError::StrToHex));
}

#[test]
fn palette_parsing() {
    assert_eq!(
        parse_palette("000000,888888,ffffff"),
        Ok(vec![
            Tint::Unset,
            Tint::Rgb([0, 0, 0]),
            Tint::Rgb([0x88, 0x88, 0x88]),
            Tint::Rgb([0xff, 0xff, 0xff])
        ])
    );
    assert_eq!(parse_palette("0a0B0c"), Ok(vec![Tint::Unset, Tint::Rgb([10, 11, 12])]));
    assert_eq!(parse_palette(""), Err(ConfigError::StrLen(0)));
    assert_eq!(parse_palette("000000,"), Err(ConfigError::StrLen(0)));
    assert_eq!(parse_palette("000000,88gg88,fff"), Err(ConfigError::StrToHex));
    assert_eq!(parse_palette("000000,fff,88gg88"), Err(ConfigError::StrLen(3)));
}

#[test]
fn splitting() {
    let pieces: Vec<String> = split_at("a,,bc,", ',').iter().map(|p| p.iter().collect()).collect();
    assert_eq!(pieces, vec!["a", "", "bc", ""]);
    assert_eq!(split_at("", ',').len(), 1);
    assert_eq!(split_at("abc", ',').len(), 1);
}

#[test]
fn number_parsing() {
    assert_eq!(parse_number("60"), Some(60));
    assert_eq!(parse_number("0"), Some(0));
    assert_eq!(parse_number("+7"), Some(7));
    assert_eq!(parse_number("007"), Some(7));
    assert_eq!(parse_number("4294967295"), Some(u32::MAX));
    assert_eq!(parse_number("4294967296"), None);
    assert_eq!(parse_number("99999999999999999999999"), None);
    assert_eq!(parse_number(""), None);
    assert_eq!(parse_number("+"), None);
    assert_eq!(parse_number("-1"), None);
    assert_eq!(parse_number("++1"), None);
    assert_eq!(parse_number("1 "), None);
    assert_eq!(parse_number("12a"), None);
    for text in ["60", "+7", "", "+", "-1", "4294967296", "1_0", "0x10"] {
        assert_eq!(parse_number(text), text.parse::<u32>().ok());
    }
}

#[test]
fn term_size_parsing() {
    assert_eq!(parse_term_size("80,40"), Ok(Position::new(80, 40)));
    assert_eq!(parse_term_size("80"), Err(ConfigError::Arity(1)));
    assert_eq!(parse_term_size("80,40,3"), Err(ConfigError::Arity(3)));
    assert_eq!(parse_term_size("80,x,3"), Err(ConfigError::StrToInt));
    assert_eq!(parse_term_size(""), Err(ConfigError::StrToInt));
    assert_eq!(parse_term_size("80,"), Err(ConfigError::StrToInt));
    assert_eq!(parse_term_size("80, 40"), Err(ConfigError::StrToInt));
}

#[test]
fn pixel_areas() {
    assert_eq!(pixel_area(Position::new(80, 40)), Some(Position::new(80, 78)));
    assert_eq!(pixel_area(Position::new(80, 1)), Some(Position::new(80, 0)));
    assert_eq!(pixel_area(Position::new(80, 0)), None);
    assert_eq!(pixel_area(Position::new(0, 0x7fff_ffff)), Some(Position::new(0, 0xffff_fffc)));
    assert_eq!(pixel_area(Position::new(0, 0x8000_0000)), None);
}

#[test]
fn settings_ranges() {
    let zoom = Scale::from_ratio(4, 5).unwrap();
    let short = Scale::from_ratio(1, 4).unwrap();
    let long = Scale::from_ratio(3, 4).unwrap();
    let ok = Settings::checked(zoom, short, long, 4, 60).unwrap();
    assert_eq!(ok.zoom_ratio, zoom);
    assert_eq!(ok.short_move, short);
    assert_eq!(ok.long_move, long);
    assert_eq!(ok.palette_len, 4);
    assert_eq!(ok.opt_level, 60);
    assert!(Settings::checked(zoom, short, long, 1, 0).is_ok());
    let one = Scale::unit();
    let zero = Scale { raw: 0 };
    assert_eq!(Settings::checked(one, short, long, 4, 60), Err(ConfigError::NumberOutOfRange));
    assert_eq!(Settings::checked(zero, short, long, 4, 60), Err(ConfigError::NumberOutOfRange));
    assert_eq!(Settings::checked(zoom, zero, long, 4, 60), Err(ConfigError::NumberOutOfRange));
    assert_eq!(Settings::checked(zoom, short, zero, 4, 60), Err(ConfigError::NumberOutOfRange));
    assert_eq!(Settings::checked(zoom, short, long, 0, 60), Err(ConfigError::NumberOutOfRange));
    assert!(Settings::checked(Scale { raw: ONE_RAW - 1 }, one, one, 4, 60).is_ok());
}

#[test]
fn exit_codes() {
    assert_eq!(exit_code(Failure::MissingInput), 1);
    assert_eq!(exit_code(Failure::Io), 2);
    assert_eq!(exit_code(Failure::Config(ConfigError::StrToHex)), 3);
    assert_eq!(exit_code(Failure::Config(ConfigError::StrLen(5))), 3);
    assert_eq!(exit_code(Failure::Config(ConfigError::NumberOutOfRange)), 3);
    assert_eq!(exit_code(Failure::Lookup), 4);
}
