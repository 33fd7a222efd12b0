use timg::{
    help_text, scroll_up, status_line, Annotation, Command, Position, Scale, Settings, Tint,
    Viewport, CLEAR_SCREEN, CURSOR_HOME, LINE_START, RESET,
};

fn fresh() -> Viewport {
    let settings = Settings::checked(
        Scale::from_ratio(4, 5).unwrap(),
        Scale::from_ratio(1, 4).unwrap(),
        Scale::from_ratio(3, 4).unwrap(),
        4,
        60,
    )
    .unwrap();
    Viewport::new(settings, Position::new(80, 60), Position::new(240, 740)).unwrap()
}

#[test]
fn annotations() {
    assert_eq!(Annotation::Boundary.render(), "\x07 \x1b[101mRB\x1b[0m");
    assert_eq!(Annotation::Clamped.render(), "\x07 \x1b[101mRC\x1b[0m");
    assert_eq!(Annotation::FloorViolation.render(), "\x07 \x1b[101mFV\x1b[0m");
    assert_eq!(Annotation::InvalidInput(b'q').render(), "\x07 \x1b[101mEI:'q'\x1b[0m");
    assert_eq!(Annotation::InvalidInput(b'\n').render(), "\x07 \x1b[101mEI:'\\n'\x1b[0m");
    assert_eq!(Annotation::InvalidInput(b'\'').render(), "\x07 \x1b[101mEI:'\\''\x1b[0m");
    assert_eq!(Annotation::InvalidInput(27).render(), "\x07 \x1b[101mEI:'\\u{1b}'\x1b[0m");
    assert_eq!(Annotation::InvalidInput(0xe9).render(), "\x07 \x1b[101mEI:'\u{e9}'\x1b[0m");
    for key in 0..=255u8 {
        assert_eq!(
            Annotation::InvalidInput(key).render(),
            format!("\x07 \x1b[101mEI:{:?}\x1b[0m", key as char)
        );
    }
}

#[test]
fn status_lines() {
    let mut v = fresh();
    assert_eq!(
        status_line(&v, Position::new(240, 740), None),
        "\x1b[7mImgSize[240x740] Pos[0,0] Ratio[12.33] Opt[60] Fl[4] Help(H) Quit(Q)\x1b[0m\x1b[s\x1b[K\x1b[u"
    );
    v.apply(Command::ZoomIn);
    v.apply(Command::NextFilter);
    let out = v.apply(Command::LowerOpt(100));
    assert_eq!(
        status_line(&v, Position::new(240, 740), out.annotation),
        "\x1b[7mImgSize[240x740] Pos[98,74] Ratio[9.87] Opt[0] Fl[0] Help(H) Quit(Q)\x1b[0m\x1b[s\x07 \x1b[101mFV\x1b[0m\x1b[K\x1b[u"
    );
    v.scale = Scale { raw: 1 };
    v.win_pos = Position::new(u32::MAX, 7);
    assert_eq!(
        status_line(&v, Position::new(0, 1), Some(Annotation::InvalidInput(b'9'))),
        "\x1b[7mImgSize[0x1] Pos[4294967295,7] Ratio[0.00] Opt[0] Fl[0] Help(H) Quit(Q)\x1b[0m\x1b[s\x07 \x1b[101mEI:'9'\x1b[0m\x1b[K\x1b[u"
    );
    v.scale = Scale { raw: u64::MAX };
    assert!(status_line(&v, Position::new(0, 1), None).contains("Ratio[4294967296.00]"));
    v.scale = Scale { raw: 42_949_673 };
    assert!(status_line(&v, Position::new(0, 1), None).contains("Ratio[0.01]"));
    v.scale = Scale { raw: 21_474_836 };
    assert!(status_line(&v, Position::new(0, 1), None).contains("Ratio[0.00]"));
    v.scale = Scale { raw: 21_474_837 };
    assert!(status_line(&v, Position::new(0, 1), None).contains("Ratio[0.01]"));
}

#[test]
fn help_page() {
    let v = fresh();
    let palette = vec![Tint::Unset, Tint::Rgb([0, 0, 0]), Tint::Rgb([0x88, 0x88, 0x88])];
    let rule = "-".repeat(38);
    let want = [
        format!("{rule}Help{rule}"),
        String::from(
            "Move: move px:`hjkl`, move 1/4 term: `aswd`, move 3/4 term: `ASWD`, s/l ratio: (0.25,0.75)",
        ),
        String::from("Opt: add opt: `oO`, sub opt: `iI`"),
        String::from("Zoom: `cx` or `+-`, ratio: 1.2500,0.8000"),
        String::from("ReDraw: `r`"),
        String::from("ReInit: `R`"),
        String::from(
            "SwitchBackground: `z` [None, \x1b[48;2;0;0;0m#\x1b[49m000000, \x1b[48;2;136;136;136m#\x1b[49m888888]",
        ),
        String::from("InitBackground: `Z`"),
        String::from("SetFilter: `f`, (Lanczos3) [Nearest, Triangle, CatmullRom, Gaussian, Lanczos3]"),
        String::from("FlipImage: `gG`"),
        String::from("Rotate: `yY`"),
        String::from("Invert: `m`"),
        String::from("Grayscale: `M`"),
        String::from("ThisHelpInfo: `H?`"),
        String::from("InitRatio: `X`"),
        String::from("UnitRatio: `C`"),
        String::from("Quit: `Q` or `Ctrl-C`"),
    ];
    let mut text = String::from("\x1b[2J\x1b[H\n");
    for line in want {
        text.push_str("\x1b[G");
        text.push_str(&line);
        text.push_str("\n\x1b[G");
    }
    text.push_str("\x1b[31H");
    assert_eq!(help_text(&v, &palette), text);

    let mut narrow = v;
    narrow.term_size = Position::new(3, 0);
    narrow.filter = 1;
    let page = help_text(&narrow, &vec![]);
    assert!(page.starts_with("\x1b[2J\x1b[H\n\x1b[GHelp\n\x1b[G"));
    assert!(page.contains("SwitchBackground: `z` []"));
    assert!(page.contains("SetFilter: `f`, (Triangle) ["));
    assert!(page.ends_with("\x1b[1H"));
}

#[test]
fn control_sequences() {
    assert_eq!(CLEAR_SCREEN, "\x1b[2J");
    assert_eq!(CURSOR_HOME, "\x1b[H");
    assert_eq!(LINE_START, "\x1b[G");
    assert_eq!(RESET, "\x1b[0m");
    assert_eq!(scroll_up(40), "\x1b[40S");
    assert_eq!(scroll_up(0), "\x1b[0S");
    assert_eq!(scroll_up(u32::MAX), "\x1b[4294967295S");
}
