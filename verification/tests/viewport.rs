use timg::{
    get_scale, Action, Annotation, Command, Direction, Filter, FramePlan, ImageOp, Outcome,
    Position, Scale, Settings, Stride, Viewport, DEFAULT_FILTER, ONE_RAW,
};

fn settings() -> Settings {
    Settings::checked(
        Scale::from_ratio(4, 5).unwrap(),
        Scale::from_ratio(1, 4).unwrap(),
        Scale::from_ratio(3, 4).unwrap(),
        4,
        60,
    )
    .unwrap()
}

fn fresh() -> Viewport {
    Viewport::new(settings(), Position::new(80, 60), Position::new(240, 740)).unwrap()
}

fn plain(action: Action) -> Outcome {
    Outcome { action, annotation: None }
}

#[test]
fn fresh_viewport() {
    let v = fresh();
    let full = get_scale(Position::new(80, 60), Position::new(240, 740)).unwrap();
    assert_eq!(v.full_scale, full);
    assert_eq!(v.scale, full);
    assert_eq!(v.win_pos, Position::new(0, 0));
    assert_eq!(v.background, 0);
    assert_eq!(v.filter, DEFAULT_FILTER);
    assert_eq!(v.filter, 4);
    assert_eq!(v.opt_level, 60);
    assert!(!v.inverted && !v.grayscale && !v.flipped_h && !v.flipped_v);
    assert_eq!(v.quarter_turns, 0);
    assert_eq!(v.view(), Position::new(986, 740));
    assert_eq!(Viewport::new(settings(), Position::new(0, 60), Position::new(240, 740)), None);
    assert_eq!(Viewport::new(settings(), Position::new(80, 60), Position::new(0, 0)), None);
}

#[test]
fn keys() {
    assert_eq!(Command::from_key(b'r'), Command::Redraw);
    assert_eq!(Command::from_key(b'R'), Command::Reinit);
    assert_eq!(Command::from_key(b'Q'), Command::Quit);
    assert_eq!(Command::from_key(3), Command::Quit);
    assert_eq!(Command::from_key(b'h'), Command::Pan(Direction::Left, Stride::Pixel));
    assert_eq!(Command::from_key(b'j'), Command::Pan(Direction::Down, Stride::Pixel));
    assert_eq!(Command::from_key(b'k'), Command::Pan(Direction::Up, Stride::Pixel));
    assert_eq!(Command::from_key(b'l'), Command::Pan(Direction::Right, Stride::Pixel));
    assert_eq!(Command::from_key(b'a'), Command::Pan(Direction::Left, Stride::Short));
    assert_eq!(Command::from_key(b's'), Command::Pan(Direction::Down, Stride::Short));
    assert_eq!(Command::from_key(b'w'), Command::Pan(Direction::Up, Stride::Short));
    assert_eq!(Command::from_key(b'd'), Command::Pan(Direction::Right, Stride::Short));
    assert_eq!(Command::from_key(b'A'), Command::Pan(Direction::Left, Stride::Long));
    assert_eq!(Command::from_key(b'S'), Command::Pan(Direction::Down, Stride::Long));
    assert_eq!(Command::from_key(b'W'), Command::Pan(Direction::Up, Stride::Long));
    assert_eq!(Command::from_key(b'D'), Command::Pan(Direction::Right, Stride::Long));
    assert_eq!(Command::from_key(b'+'), Command::ZoomIn);
    assert_eq!(Command::from_key(b'c'), Command::ZoomIn);
    assert_eq!(Command::from_key(b'-'), Command::ZoomOut);
    assert_eq!(Command::from_key(b'x'), Command::ZoomOut);
    assert_eq!(Command::from_key(b'o'), Command::RaiseOpt(1));
    assert_eq!(Command::from_key(b'O'), Command::RaiseOpt(10));
    assert_eq!(Command::from_key(b'i'), Command::LowerOpt(1));
    assert_eq!(Command::from_key(b'I'), Command::LowerOpt(10));
    assert_eq!(Command::from_key(b'z'), Command::NextBackground);
    assert_eq!(Command::from_key(b'Z'), Command::ResetBackground);
    assert_eq!(Command::from_key(b'f'), Command::NextFilter);
    assert_eq!(Command::from_key(b'g'), Command::Transform(ImageOp::FlipHorizontal));
    assert_eq!(Command::from_key(b'G'), Command::Transform(ImageOp::FlipVertical));
    assert_eq!(Command::from_key(b'y'), Command::Transform(ImageOp::Rotate90));
    assert_eq!(Command::from_key(b'Y'), Command::Transform(ImageOp::Rotate270));
    assert_eq!(Command::from_key(b'm'), Command::ToggleInvert);
    assert_eq!(Command::from_key(b'M'), Command::ToggleGrayscale);
    assert_eq!(Command::from_key(b'X'), Command::ResetView);
    assert_eq!(Command::from_key(b'C'), Command::UnitRatio);
    assert_eq!(Command::from_key(b'H'), Command::Help);
    assert_eq!(Command::from_key(b'?'), Command::Help);
    for key in [b'q', b' ', 0, 27, 255, b'1', b'\n'] {
        assert_eq!(Command::from_key(key), Command::Invalid(key));
    }
}

#[test]
fn pan_left_from_the_edge_stays_and_tells() {
    let mut v = fresh();
    for stride in [Stride::Pixel, Stride::Short, Stride::Long] {
        for _ in 0..5 {
            let out = v.apply(Command::Pan(Direction::Left, stride));
            assert_eq!(out.action, Action::Render);
            assert_eq!(out.annotation, Some(Annotation::Boundary));
            assert_eq!(v, fresh());
            let out = v.apply(Command::Pan(Direction::Up, stride));
            assert_eq!(out.annotation, Some(Annotation::Boundary));
            assert_eq!(v, fresh());
        }
    }
}

#[test]
fn pan_lengths() {
    let mut v = fresh();
    // at the full scale of 12.33 one terminal pixel is 13 image pixels
    assert_eq!(v.apply(Command::from_key(b'l')), plain(Action::Render));
    assert_eq!(v.win_pos, Position::new(13, 0));
    assert_eq!(v.apply(Command::from_key(b'j')), plain(Action::Render));
    assert_eq!(v.win_pos, Position::new(13, 13));
    assert_eq!(v.apply(Command::from_key(b'h')), plain(Action::Render));
    assert_eq!(v.win_pos, Position::new(0, 13));
    assert_eq!(v.apply(Command::from_key(b'k')), plain(Action::Render));
    assert_eq!(v.win_pos, Position::new(0, 0));
    // a quarter and three quarters of the view of 986 by 740, rounded up
    v.apply(Command::from_key(b'd'));
    assert_eq!(v.win_pos, Position::new(247, 0));
    v.apply(Command::from_key(b's'));
    assert_eq!(v.win_pos, Position::new(247, 185));
    v.apply(Command::from_key(b'D'));
    assert_eq!(v.win_pos, Position::new(247 + 740, 185));
    v.apply(Command::from_key(b'S'));
    assert_eq!(v.win_pos, Position::new(987, 185 + 555));
    assert_eq!(v.apply(Command::from_key(b'A')), plain(Action::Render));
    assert_eq!(v.win_pos, Position::new(247, 740));
    let out = v.apply(Command::from_key(b'A'));
    assert_eq!(out.annotation, Some(Annotation::Boundary));
    assert_eq!(v.win_pos, Position::new(0, 740));
    assert_eq!(v.apply(Command::from_key(b'W')), plain(Action::Render));
    assert_eq!(v.win_pos, Position::new(0, 185));
    assert_eq!(v.apply(Command::from_key(b'w')), plain(Action::Render));
    assert_eq!(v.win_pos, Position::new(0, 0));
}

#[test]
fn pan_right_stops_at_the_largest_coordinate() {
    let mut v = fresh();
    v.win_pos = Position::new(u32::MAX - 3, u32::MAX);
    assert_eq!(v.apply(Command::from_key(b'l')), plain(Action::Render));
    assert_eq!(v.win_pos, Position::new(u32::MAX, u32::MAX));
    assert_eq!(v.apply(Command::from_key(b'j')), plain(Action::Render));
    assert_eq!(v.win_pos, Position::new(u32::MAX, u32::MAX));
}

#[test]
fn zoom_in_keeps_the_middle() {
    let mut v = fresh();
    assert_eq!(v.apply(Command::ZoomIn), plain(Action::Render));
    assert_eq!(v.scale.raw, 42_377_010_656);
    assert_eq!(v.view(), Position::new(789, 592));
    assert_eq!(v.win_pos, Position::new(98, 74));
    assert_eq!(v.full_scale, fresh().full_scale);
    // one step back out is below the full scale by the fractions lost
    assert_eq!(v.apply(Command::ZoomOut), plain(Action::Render));
    assert_eq!(v.scale.raw, 52_971_263_316);
    assert_eq!(v.view(), Position::new(986, 739));
    assert_eq!(v.win_pos, Position::new(0, 1));
}

#[test]
fn zoom_out_is_pinned_at_the_full_scale() {
    let mut v = fresh();
    let full = v.full_scale;
    for _ in 0..10 {
        let out = v.apply(Command::ZoomOut);
        assert_eq!(out, Outcome { action: Action::Render, annotation: Some(Annotation::Clamped) });
        assert_eq!(v.scale, full);
        assert_eq!(v, fresh());
    }
    v.apply(Command::ZoomIn);
    v.apply(Command::ZoomIn);
    for _ in 0..10 {
        v.apply(Command::ZoomOut);
        assert!(v.scale.raw <= full.raw);
    }
    assert_eq!(v.scale, full);
    assert_eq!(v.view(), Position::new(986, 740));
}

#[test]
fn zoom_out_never_moves_before_the_origin() {
    let mut v = fresh();
    v.apply(Command::ZoomIn);
    v.win_pos = Position::new(5, 200);
    v.apply(Command::ZoomOut);
    // the view grows from 789 by 592 to 986 by 739: back by 98 and by 73
    assert_eq!(v.win_pos, Position::new(0, 127));
}

#[test]
fn unit_ratio() {
    let mut v = fresh();
    assert_eq!(v.apply(Command::UnitRatio), plain(Action::Render));
    assert_eq!(v.scale.raw, ONE_RAW);
    assert_eq!(v.view(), Position::new(80, 60));
    assert_eq!(v.win_pos, Position::new(453, 340));
    // an image smaller than the terminal: the unit ratio is above the full scale
    let mut small = Viewport::new(settings(), Position::new(80, 60), Position::new(40, 30)).unwrap();
    assert_eq!(small.view(), Position::new(40, 30));
    small.win_pos = Position::new(3, 50);
    small.apply(Command::UnitRatio);
    assert_eq!(small.scale.raw, ONE_RAW);
    assert_eq!(small.win_pos, Position::new(0, 35));
    let out = small.apply(Command::ZoomOut);
    assert_eq!(out.annotation, Some(Annotation::Clamped));
    assert_eq!(small.scale, small.full_scale);
    assert_eq!(small.win_pos, Position::new(20, 50));
}

#[test]
fn reset_view() {
    let mut v = fresh();
    v.apply(Command::ZoomIn);
    v.apply(Command::from_key(b'l'));
    v.apply(Command::from_key(b'z'));
    assert_eq!(v.apply(Command::ResetView), plain(Action::Render));
    assert_eq!(v.scale, v.full_scale);
    assert_eq!(v.win_pos, Position::new(0, 0));
    assert_eq!(v.background, 1);
}

#[test]
fn optimization_level_floor() {
    let mut v = fresh();
    assert_eq!(v.apply(Command::RaiseOpt(1)), plain(Action::Render));
    assert_eq!(v.opt_level, 61);
    assert_eq!(v.apply(Command::RaiseOpt(10)), plain(Action::Render));
    assert_eq!(v.opt_level, 71);
    assert_eq!(v.apply(Command::LowerOpt(10)), plain(Action::Render));
    assert_eq!(v.opt_level, 61);
    assert_eq!(v.apply(Command::LowerOpt(1)), plain(Action::Render));
    assert_eq!(v.opt_level, 60);
    v.opt_level = 5;
    let out = v.apply(Command::LowerOpt(10));
    assert_eq!(out.annotation, Some(Annotation::FloorViolation));
    assert_eq!(v.opt_level, 0);
    for cmd in [Command::LowerOpt(1), Command::LowerOpt(10), Command::from_key(b'i')] {
        let out = v.apply(cmd);
        assert_eq!(out, Outcome { action: Action::Render, annotation: Some(Annotation::FloorViolation) });
        assert_eq!(v.opt_level, 0);
    }
    v.opt_level = 10;
    assert_eq!(v.apply(Command::LowerOpt(10)), plain(Action::Render));
    assert_eq!(v.opt_level, 0);
    v.opt_level = u32::MAX - 3;
    assert_eq!(v.apply(Command::RaiseOpt(10)), plain(Action::Render));
    assert_eq!(v.opt_level, u32::MAX);
}

#[test]
fn cycles() {
    let mut v = fresh();
    for want in [1, 2, 3, 0, 1] {
        assert_eq!(v.apply(Command::NextBackground), plain(Action::Render));
        assert_eq!(v.background, want);
    }
    assert_eq!(v.apply(Command::ResetBackground), plain(Action::Render));
    assert_eq!(v.background, 0);
    for want in [0, 1, 2, 3, 4, 0] {
        assert_eq!(v.apply(Command::NextFilter), plain(Action::Render));
        assert_eq!(v.filter, want);
    }
}

#[test]
fn transforms_and_flags() {
    let mut v = fresh();
    for want in [1, 2, 3, 0] {
        let out = v.apply(Command::Transform(ImageOp::Rotate90));
        assert_eq!(out, plain(Action::Transform(ImageOp::Rotate90)));
        assert_eq!(v.quarter_turns, want);
    }
    assert_eq!(v, fresh());
    let out = v.apply(Command::Transform(ImageOp::Rotate270));
    assert_eq!(out, plain(Action::Transform(ImageOp::Rotate270)));
    assert_eq!(v.quarter_turns, 3);
    v.apply(Command::Transform(ImageOp::Rotate90));
    assert_eq!(v, fresh());
    assert_eq!(
        v.apply(Command::Transform(ImageOp::FlipHorizontal)),
        plain(Action::Transform(ImageOp::FlipHorizontal))
    );
    assert!(v.flipped_h && !v.flipped_v);
    v.apply(Command::Transform(ImageOp::FlipVertical));
    assert!(v.flipped_h && v.flipped_v);
    v.apply(Command::Transform(ImageOp::FlipHorizontal));
    v.apply(Command::Transform(ImageOp::FlipVertical));
    assert_eq!(v, fresh());
    assert_eq!(v.apply(Command::ToggleInvert), plain(Action::Render));
    assert!(v.inverted && !v.grayscale);
    assert_eq!(v.apply(Command::ToggleGrayscale), plain(Action::Render));
    assert!(v.inverted && v.grayscale);
    v.apply(Command::ToggleInvert);
    v.apply(Command::ToggleGrayscale);
    assert_eq!(v, fresh());
}

#[test]
fn commands_that_leave_the_viewport() {
    let mut v = fresh();
    assert_eq!(v.apply(Command::Redraw), plain(Action::Redraw));
    assert_eq!(v.apply(Command::Reinit), plain(Action::Reinit));
    assert_eq!(v.apply(Command::Quit), plain(Action::Quit));
    assert_eq!(v.apply(Command::Help), plain(Action::Help));
    assert_eq!(
        v.apply(Command::Invalid(b'q')),
        Outcome { action: Action::Render, annotation: Some(Annotation::InvalidInput(b'q')) }
    );
    assert_eq!(v, fresh());
}

#[test]
fn frame_plans() {
    let mut v = fresh();
    assert_eq!(
        v.frame_plan(),
        FramePlan {
            crop_at: Position::new(0, 0),
            crop_size: Position::new(986, 740),
            target: Position::new(80, 60),
            filter: Filter::Lanczos3,
            invert: false,
            grayscale: false,
        }
    );
    v.apply(Command::ZoomIn);
    v.apply(Command::NextFilter);
    v.apply(Command::ToggleInvert);
    v.apply(Command::NextFilter);
    assert_eq!(
        v.frame_plan(),
        FramePlan {
            crop_at: Position::new(98, 74),
            crop_size: Position::new(789, 592),
            target: Position::new(80, 60),
            filter: Filter::Triangle,
            invert: true,
            grayscale: false,
        }
    );
    assert_eq!(Filter::at(0), Filter::Nearest);
    assert_eq!(Filter::at(2), Filter::CatmullRom);
    assert_eq!(Filter::at(3), Filter::Gaussian);
    assert_eq!(Filter::at(3).name(), "Gaussian");
    assert_eq!(Filter::at(0).name(), "Nearest");
}
