//! The viewport: which part of the image is shown and how, and the change
//! that each key command makes to it.

use crate::position::{sat_add, sat_sub, Position};
use crate::scale::{clamp_raw, clamp_u32, get_scale, has_full_scale, full_scale_raw, mul_ceil, mul_floor, Scale, ONE_RAW};
use vstd::prelude::*;

verus! {

/// The number of resampling filters that [`Command::NextFilter`] cycles
/// through, from the cheapest to the best.
pub const FILTER_COUNT: usize = 5;

/// The filter a fresh viewport starts with: the best one.
pub const DEFAULT_FILTER: usize = 4;

/// A resampling filter.
#[derive(Debug, Clone, Copy, PartialEq, Eq, Structural)]
pub enum Filter {
    Nearest,
    Triangle,
    CatmullRom,
    Gaussian,
    Lanczos3,
}

/// The filter at each index, from the cheapest to the best; past the last
/// index the best one.
pub open spec fn filter_of(index: usize) -> Filter {
    if index == 0 {
        Filter::Nearest
    } else if index == 1 {
        Filter::Triangle
    } else if index == 2 {
        Filter::CatmullRom
    } else if index == 3 {
        Filter::Gaussian
    } else {
        Filter::Lanczos3
    }
}

impl Filter {
    /// The filter at `index`.
    pub fn at(index: usize) -> (f: Filter)
        ensures
            f == filter_of(index),
    {
        match index {
            0 => Filter::Nearest,
            1 => Filter::Triangle,
            2 => Filter::CatmullRom,
            3 => Filter::Gaussian,
            _ => Filter::Lanczos3,
        }
    }

    /// The filter's name.
    pub open spec fn label(self) -> Seq<char> {
        match self {
            Filter::Nearest => "Nearest"@,
            Filter::Triangle => "Triangle"@,
            Filter::CatmullRom => "CatmullRom"@,
            Filter::Gaussian => "Gaussian"@,
            Filter::Lanczos3 => "Lanczos3"@,
        }
    }

    pub fn name(self) -> (s: &'static str)
        ensures
            s@ == self.label(),
    {
        match self {
            Filter::Nearest => "Nearest",
            Filter::Triangle => "Triangle",
            Filter::CatmullRom => "CatmullRom",
            Filter::Gaussian => "Gaussian",
            Filter::Lanczos3 => "Lanczos3",
        }
    }
}

/// What is asked of the image for one frame: the region to cut out, the
/// extent to fit it into, and how.
#[derive(Debug, Clone, Copy, PartialEq, Eq, Structural)]
pub struct FramePlan {
    /// The upper left corner of the region, in image pixels.
    pub crop_at: Position,
    /// The extent of the region, in image pixels.
    pub crop_size: Position,
    /// The extent that the region is resized to fit, its proportions kept.
    pub target: Position,
    pub filter: Filter,
    pub invert: bool,
    pub grayscale: bool,
}

/// The direction of a pan.
#[derive(Debug, Clone, Copy, PartialEq, Eq, Structural)]
pub enum Direction {
    Left,
    Down,
    Up,
    Right,
}

/// The length of a pan.
#[derive(Debug, Clone, Copy, PartialEq, Eq, Structural)]
pub enum Stride {
    /// One terminal pixel's worth of image pixels.
    Pixel,
    /// The short share of the viewport.
    Short,
    /// The long share of the viewport.
    Long,
}

/// A change made to the stored image itself.
#[derive(Debug, Clone, Copy, PartialEq, Eq, Structural)]
pub enum ImageOp {
    FlipHorizontal,
    FlipVertical,
    Rotate90,
    Rotate270,
}

/// What a key asks for.
#[derive(Debug, Clone, Copy, PartialEq, Eq, Structural)]
pub enum Command {
    Redraw,
    Reinit,
    Quit,
    Pan(Direction, Stride),
    ZoomIn,
    ZoomOut,
    RaiseOpt(u32),
    LowerOpt(u32),
    NextBackground,
    ResetBackground,
    NextFilter,
    Transform(ImageOp),
    ToggleInvert,
    ToggleGrayscale,
    ResetView,
    UnitRatio,
    Help,
    Invalid(u8),
}

/// A correction that the user is told of once.
#[derive(Debug, Clone, Copy, PartialEq, Eq, Structural)]
pub enum Annotation {
    /// A pan met the left or upper edge.
    Boundary,
    /// A zoom met the full scale.
    Clamped,
    /// The optimization level met zero.
    FloorViolation,
    /// The key has no command.
    InvalidInput(u8),
}

/// What the caller does after a command, before the next frame.
#[derive(Debug, Clone, Copy, PartialEq, Eq, Structural)]
pub enum Action {
    /// Draw the next frame.
    Render,
    /// Clear the screen, then draw the next frame in full.
    Redraw,
    /// Measure the terminal again and start from a fresh viewport.
    Reinit,
    /// Leave.
    Quit,
    /// Show the help page until a key is pressed, then redraw.
    Help,
    /// Apply the operation to the stored image, then draw the next frame.
    Transform(ImageOp),
}

/// The result of a command besides the new viewport.
#[derive(Debug, Clone, Copy, PartialEq, Eq, Structural)]
pub struct Outcome {
    pub action: Action,
    pub annotation: Option<Annotation>,
}

/// What a session is configured with.
#[derive(Debug, Clone, Copy, PartialEq, Eq, Structural)]
pub struct Settings {
    /// The factor of one zoom step inwards, between zero and one.
    pub zoom_ratio: Scale,
    /// The share of the viewport that a short pan moves by.
    pub short_move: Scale,
    /// The share of the viewport that a long pan moves by.
    pub long_move: Scale,
    /// The number of backgrounds to cycle through.
    pub palette_len: usize,
    /// The optimization level a fresh viewport starts with.
    pub opt_level: u32,
}

impl Settings {
    pub open spec fn wf(self) -> bool {
        &&& 0 < self.zoom_ratio.raw < ONE_RAW
        &&& self.short_move.wf()
        &&& self.long_move.wf()
        &&& self.palette_len > 0
    }
}

/// The viewport of one session.
#[derive(Debug, Clone, Copy, PartialEq, Eq, Structural)]
pub struct Viewport {
    pub settings: Settings,
    /// The terminal's pixel area.
    pub term_size: Position,
    /// The scale at which the whole image fits the terminal.
    pub full_scale: Scale,
    /// Image pixels per terminal pixel.
    pub scale: Scale,
    /// The image pixel at the viewport's upper left corner.
    pub win_pos: Position,
    /// The index of the background in use.
    pub background: usize,
    /// The index of the filter in use.
    pub filter: usize,
    pub inverted: bool,
    pub grayscale: bool,
    /// Whether an odd number of horizontal flips was made.
    pub flipped_h: bool,
    /// Whether an odd number of vertical flips was made.
    pub flipped_v: bool,
    /// The quarter turns made, modulo four.
    pub quarter_turns: u8,
    /// The similarity tolerance in use.
    pub opt_level: u32,
}

/// The command of each key.
pub open spec fn command_of(key: u8) -> Command {
    if key == 'r' as u8 {
        Command::Redraw
    } else if key == 'R' as u8 {
        Command::Reinit
    } else if key == 'Q' as u8 || key == 3 {
        Command::Quit
    } else if key == 'h' as u8 {
        Command::Pan(Direction::Left, Stride::Pixel)
    } else if key == 'j' as u8 {
        Command::Pan(Direction::Down, Stride::Pixel)
    } else if key == 'k' as u8 {
        Command::Pan(Direction::Up, Stride::Pixel)
    } else if key == 'l' as u8 {
        Command::Pan(Direction::Right, Stride::Pixel)
    } else if key == 'a' as u8 {
        Command::Pan(Direction::Left, Stride::Short)
    } else if key == 's' as u8 {
        Command::Pan(Direction::Down, Stride::Short)
    } else if key == 'w' as u8 {
        Command::Pan(Direction::Up, Stride::Short)
    } else if key == 'd' as u8 {
        Command::Pan(Direction::Right, Stride::Short)
    } else if key == 'A' as u8 {
        Command::Pan(Direction::Left, Stride::Long)
    } else if key == 'S' as u8 {
        Command::Pan(Direction::Down, Stride::Long)
    } else if key == 'W' as u8 {
        Command::Pan(Direction::Up, Stride::Long)
    } else if key == 'D' as u8 {
        Command::Pan(Direction::Right, Stride::Long)
    } else if key == '+' as u8 || key == 'c' as u8 {
        Command::ZoomIn
    } else if key == '-' as u8 || key == 'x' as u8 {
        Command::ZoomOut
    } else if key == 'o' as u8 {
        Command::RaiseOpt(1)
    } else if key == 'O' as u8 {
        Command::RaiseOpt(10)
    } else if key == 'i' as u8 {
        Command::LowerOpt(1)
    } else if key == 'I' as u8 {
        Command::LowerOpt(10)
    } else if key == 'z' as u8 {
        Command::NextBackground
    } else if key == 'Z' as u8 {
        Command::ResetBackground
    } else if key == 'f' as u8 {
        Command::NextFilter
    } else if key == 'g' as u8 {
        Command::Transform(ImageOp::FlipHorizontal)
    } else if key == 'G' as u8 {
        Command::Transform(ImageOp::FlipVertical)
    } else if key == 'y' as u8 {
        Command::Transform(ImageOp::Rotate90)
    } else if key == 'Y' as u8 {
        Command::Transform(ImageOp::Rotate270)
    } else if key == 'm' as u8 {
        Command::ToggleInvert
    } else if key == 'M' as u8 {
        Command::ToggleGrayscale
    } else if key == 'X' as u8 {
        Command::ResetView
    } else if key == 'C' as u8 {
        Command::UnitRatio
    } else if key == 'H' as u8 || key == '?' as u8 {
        Command::Help
    } else {
        Command::Invalid(key)
    }
}

impl Command {
    /// The command that the key `key` stands for.
    pub fn from_key(key: u8) -> (cmd: Command)
        ensures
            cmd == command_of(key),
    {
        match key {
            114 => Command::Redraw,
            82 => Command::Reinit,
            81 | 3 => Command::Quit,
            104 => Command::Pan(Direction::Left, Stride::Pixel),
            106 => Command::Pan(Direction::Down, Stride::Pixel),
            107 => Command::Pan(Direction::Up, Stride::Pixel),
            108 => Command::Pan(Direction::Right, Stride::Pixel),
            97 => Command::Pan(Direction::Left, Stride::Short),
            115 => Command::Pan(Direction::Down, Stride::Short),
            119 => Command::Pan(Direction::Up, Stride::Short),
            100 => Command::Pan(Direction::Right, Stride::Short),
            65 => Command::Pan(Direction::Left, Stride::Long),
            83 => Command::Pan(Direction::Down, Stride::Long),
            87 => Command::Pan(Direction::Up, Stride::Long),
            68 => Command::Pan(Direction::Right, Stride::Long),
            43 | 99 => Command::ZoomIn,
            45 | 120 => Command::ZoomOut,
            111 => Command::RaiseOpt(1),
            79 => Command::RaiseOpt(10),
            105 => Command::LowerOpt(1),
            73 => Command::LowerOpt(10),
            122 => Command::NextBackground,
            90 => Command::ResetBackground,
            102 => Command::NextFilter,
            103 => Command::Transform(ImageOp::FlipHorizontal),
            71 => Command::Transform(ImageOp::FlipVertical),
            121 => Command::Transform(ImageOp::Rotate90),
            89 => Command::Transform(ImageOp::Rotate270),
            109 => Command::ToggleInvert,
            77 => Command::ToggleGrayscale,
            88 => Command::ResetView,
            67 => Command::UnitRatio,
            72 | 63 => Command::Help,
            _ => Command::Invalid(key),
        }
    }
}

/// The coordinate that keeps the middle of the view where it was when the
/// view's extent goes from `old` to `new`: half of what the extent lost is
/// added, half of what it gained is taken away, and the result stays within
/// `0..=u32::MAX`.
pub open spec fn recentered(pos: u32, old: u32, new: u32) -> u32 {
    if new <= old {
        sat_add(pos, ((old - new) / 2) as u32)
    } else {
        sat_sub(pos, ((new - old) / 2) as u32)
    }
}

fn recenter(pos: u32, old: u32, new: u32) -> (r: u32)
    ensures
        r == recentered(pos, old, new),
{
    if new <= old {
        pos.saturating_add((old - new) / 2)
    } else {
        pos.saturating_sub((new - old) / 2)
    }
}

impl Viewport {
    pub open spec fn wf(self) -> bool {
        &&& self.settings.wf()
        &&& self.full_scale.wf()
        &&& self.scale.wf()
        &&& self.background < self.settings.palette_len
        &&& self.filter < FILTER_COUNT
        &&& self.quarter_turns < 4
    }

    /// The viewport that a session starts with.
    pub open spec fn initial(settings: Settings, term_size: Position, full_scale: Scale) -> Viewport {
        Viewport {
            settings,
            term_size,
            full_scale,
            scale: full_scale,
            win_pos: Position { x: 0, y: 0 },
            background: 0,
            filter: DEFAULT_FILTER,
            inverted: false,
            grayscale: false,
            flipped_h: false,
            flipped_v: false,
            quarter_turns: 0,
            opt_level: settings.opt_level,
        }
    }

    /// A fresh viewport on an image of `img_size` pixels in a terminal area
    /// of `term_size` pixels: the whole image in view. Nothing where the
    /// area is empty or the image has no extent.
    pub fn new(settings: Settings, term_size: Position, img_size: Position) -> (v: Option<Viewport>)
        requires
            settings.wf(),
        ensures
            v is Some <==> has_full_scale(term_size, img_size),
            v matches Some(vp) ==> vp.wf() && vp == Viewport::initial(
                settings,
                term_size,
                Scale { raw: full_scale_raw(term_size, img_size) as u64 },
            ),
    {
        match get_scale(term_size, img_size) {
            Some(full_scale) => Some(
                Viewport {
                    settings,
                    term_size,
                    full_scale,
                    scale: full_scale,
                    win_pos: Position { x: 0, y: 0 },
                    background: 0,
                    filter: DEFAULT_FILTER,
                    inverted: false,
                    grayscale: false,
                    flipped_h: false,
                    flipped_v: false,
                    quarter_turns: 0,
                    opt_level: settings.opt_level,
                },
            ),
            None => None,
        }
    }

    /// The extent of the image region in view.
    pub open spec fn view_size(self) -> Position {
        self.term_size.scaled(self.scale)
    }

    /// The length of a pan by one terminal pixel: the scale rounded up, at
    /// least one image pixel.
    pub open spec fn pixel_stride(self) -> u32 {
        let c = clamp_u32(mul_ceil(1, self.scale.raw as int));
        if c == 0 {
            1
        } else {
            c as u32
        }
    }

    /// The length of a pan along `dir`.
    pub open spec fn stride(self, dir: Direction, stride: Stride) -> u32 {
        let extent = match dir {
            Direction::Left | Direction::Right => self.view_size().x,
            Direction::Down | Direction::Up => self.view_size().y,
        };
        match stride {
            Stride::Pixel => self.pixel_stride(),
            Stride::Short => clamp_u32(mul_ceil(extent as int, self.settings.short_move.raw as int)) as u32,
            Stride::Long => clamp_u32(mul_ceil(extent as int, self.settings.long_move.raw as int)) as u32,
        }
    }

    /// The viewport at another scale, its middle kept in place.
    pub open spec fn rescaled(self, scale: Scale) -> Viewport {
        let old = self.view_size();
        let new = self.term_size.scaled(scale);
        Viewport {
            scale,
            win_pos: Position {
                x: recentered(self.win_pos.x, old.x, new.x),
                y: recentered(self.win_pos.y, old.y, new.y),
            },
            ..self
        }
    }

    /// The scale one zoom step inwards.
    pub open spec fn zoomed_in(self) -> Scale {
        Scale {
            raw: clamp_raw(mul_floor(self.scale.raw as int, self.settings.zoom_ratio.raw as int)) as u64,
        }
    }

    /// The scale one zoom step outwards, the full scale not yet regarded.
    pub open spec fn zoomed_out(self) -> Scale {
        Scale {
            raw: clamp_raw((self.scale.raw as int) * 0x1_0000_0000 / (self.settings.zoom_ratio.raw as int)) as u64,
        }
    }

    /// The viewport after `cmd`.
    pub open spec fn step(self, cmd: Command) -> Viewport {
        match cmd {
            Command::Pan(dir, stride) => {
                let len = self.stride(dir, stride);
                let p = self.win_pos;
                let win_pos = match dir {
                    Direction::Left => Position { x: sat_sub(p.x, len), y: p.y },
                    Direction::Right => Position { x: sat_add(p.x, len), y: p.y },
                    Direction::Up => Position { x: p.x, y: sat_sub(p.y, len) },
                    Direction::Down => Position { x: p.x, y: sat_add(p.y, len) },
                };
                Viewport { win_pos, ..self }
            },
            Command::ZoomIn => self.rescaled(self.zoomed_in()),
            Command::ZoomOut => if self.zoomed_out().raw > self.full_scale.raw {
                self.rescaled(self.full_scale)
            } else {
                self.rescaled(self.zoomed_out())
            },
            Command::RaiseOpt(n) => Viewport { opt_level: sat_add(self.opt_level, n), ..self },
            Command::LowerOpt(n) => Viewport { opt_level: sat_sub(self.opt_level, n), ..self },
            Command::NextBackground => Viewport {
                background: ((self.background + 1) % (self.settings.palette_len as int)) as usize,
                ..self
            },
            Command::ResetBackground => Viewport { background: 0, ..self },
            Command::NextFilter => Viewport {
                filter: ((self.filter + 1) % (FILTER_COUNT as int)) as usize,
                ..self
            },
            Command::Transform(op) => match op {
                ImageOp::FlipHorizontal => Viewport { flipped_h: !self.flipped_h, ..self },
                ImageOp::FlipVertical => Viewport { flipped_v: !self.flipped_v, ..self },
                ImageOp::Rotate90 => Viewport {
                    quarter_turns: ((self.quarter_turns + 1) % 4) as u8,
                    ..self
                },
                ImageOp::Rotate270 => Viewport {
                    quarter_turns: ((self.quarter_turns + 3) % 4) as u8,
                    ..self
                },
            },
            Command::ToggleInvert => Viewport { inverted: !self.inverted, ..self },
            Command::ToggleGrayscale => Viewport { grayscale: !self.grayscale, ..self },
            Command::ResetView => Viewport {
                scale: self.full_scale,
                win_pos: Position { x: 0, y: 0 },
                ..self
            },
            Command::UnitRatio => self.rescaled(Scale { raw: ONE_RAW }),
            Command::Redraw | Command::Reinit | Command::Quit | Command::Help | Command::Invalid(
                _,
            ) => self,
        }
    }

    /// What the user is told after `cmd`, if anything.
    pub open spec fn annotation(self, cmd: Command) -> Option<Annotation> {
        match cmd {
            Command::Pan(Direction::Left, stride) => if self.stride(Direction::Left, stride)
                > self.win_pos.x {
                Some(Annotation::Boundary)
            } else {
                None
            },
            Command::Pan(Direction::Up, stride) => if self.stride(Direction::Up, stride)
                > self.win_pos.y {
                Some(Annotation::Boundary)
            } else {
                None
            },
            Command::ZoomOut => if self.zoomed_out().raw > self.full_scale.raw {
                Some(Annotation::Clamped)
            } else {
                None
            },
            Command::LowerOpt(n) => if n > self.opt_level {
                Some(Annotation::FloorViolation)
            } else {
                None
            },
            Command::Invalid(key) => Some(Annotation::InvalidInput(key)),
            _ => None,
        }
    }

    /// What the caller does after `cmd`.
    pub open spec fn action(cmd: Command) -> Action {
        match cmd {
            Command::Redraw => Action::Redraw,
            Command::Reinit => Action::Reinit,
            Command::Quit => Action::Quit,
            Command::Help => Action::Help,
            Command::Transform(op) => Action::Transform(op),
            _ => Action::Render,
        }
    }

    /// What the next frame asks of the image.
    pub open spec fn plan(self) -> FramePlan {
        FramePlan {
            crop_at: self.win_pos,
            crop_size: self.view_size(),
            target: self.term_size,
            filter: filter_of(self.filter),
            invert: self.inverted,
            grayscale: self.grayscale,
        }
    }

    /// What the next frame asks of the image.
    pub fn frame_plan(&self) -> (plan: FramePlan)
        ensures
            plan == self.plan(),
    {
        FramePlan {
            crop_at: self.win_pos,
            crop_size: self.view(),
            target: self.term_size,
            filter: Filter::at(self.filter),
            invert: self.inverted,
            grayscale: self.grayscale,
        }
    }

    /// The image region in view: its extent in image pixels.
    pub fn view(&self) -> (p: Position)
        ensures
            p == self.view_size(),
    {
        self.term_size.mul_scale(self.scale)
    }

    fn stride_len(&self, dir: Direction, stride: Stride) -> (len: u32)
        ensures
            len == self.stride(dir, stride),
    {
        let view = self.view();
        let extent = match dir {
            Direction::Left | Direction::Right => view.x,
            Direction::Down | Direction::Up => view.y,
        };
        match stride {
            Stride::Pixel => {
                let c = self.scale.ceil();
                if c == 0 {
                    1
                } else {
                    c
                }
            },
            Stride::Short => self.settings.short_move.mul_ceil(extent),
            Stride::Long => self.settings.long_move.mul_ceil(extent),
        }
    }

    fn rescale(&self, scale: Scale) -> (v: Viewport)
        ensures
            v == self.rescaled(scale),
    {
        let old = self.view();
        let new = self.term_size.mul_scale(scale);
        let mut v = *self;
        v.scale = scale;
        v.win_pos = Position {
            x: recenter(self.win_pos.x, old.x, new.x),
            y: recenter(self.win_pos.y, old.y, new.y),
        };
        v
    }

    /// Carries out `cmd`: the viewport changes as `step` says, and the
    /// result names what the caller does next and what the user is told.
    pub fn apply(&mut self, cmd: Command) -> (out: Outcome)
        requires
            old(self).wf(),
        ensures
            *final(self) == old(self).step(cmd),
            out.action == Viewport::action(cmd),
            out.annotation == old(self).annotation(cmd),
            final(self).wf(),
    {
        let mut annotation: Option<Annotation> = None;
        let mut action = Action::Render;
        match cmd {
            Command::Pan(dir, stride) => {
                let len = self.stride_len(dir, stride);
                match dir {
                    Direction::Left => {
                        if len > self.win_pos.x {
                            annotation = Some(Annotation::Boundary);
                        }
                        self.win_pos.x = self.win_pos.x.saturating_sub(len);
                    },
                    Direction::Right => {
                        self.win_pos.x = self.win_pos.x.saturating_add(len);
                    },
                    Direction::Up => {
                        if len > self.win_pos.y {
                            annotation = Some(Annotation::Boundary);
                        }
                        self.win_pos.y = self.win_pos.y.saturating_sub(len);
                    },
                    Direction::Down => {
                        self.win_pos.y = self.win_pos.y.saturating_add(len);
                    },
                }
            },
            Command::ZoomIn => {
                let scale = self.scale.scaled_by(self.settings.zoom_ratio);
                *self = self.rescale(scale);
            },
            Command::ZoomOut => {
                let wider = self.scale.divided_by(self.settings.zoom_ratio);
                if wider.exceeds(self.full_scale) {
                    annotation = Some(Annotation::Clamped);
                    *self = self.rescale(self.full_scale);
                } else {
                    *self = self.rescale(wider);
                }
            },
            Command::RaiseOpt(n) => {
                self.opt_level = self.opt_level.saturating_add(n);
            },
            Command::LowerOpt(n) => {
                if n > self.opt_level {
                    annotation = Some(Annotation::FloorViolation);
                }
                self.opt_level = self.opt_level.saturating_sub(n);
            },
            Command::NextBackground => {
                self.background = (self.background + 1) % self.settings.palette_len;
            },
            Command::ResetBackground => {
                self.background = 0;
            },
            Command::NextFilter => {
                self.filter = (self.filter + 1) % FILTER_COUNT;
            },
            Command::Transform(op) => {
                action = Action::Transform(op);
                match op {
                    ImageOp::FlipHorizontal => {
                        self.flipped_h = !self.flipped_h;
                    },
                    ImageOp::FlipVertical => {
                        self.flipped_v = !self.flipped_v;
                    },
                    ImageOp::Rotate90 => {
                        self.quarter_turns = (self.quarter_turns + 1) % 4;
                    },
                    ImageOp::Rotate270 => {
                        self.quarter_turns = (self.quarter_turns + 3) % 4;
                    },
                }
            },
            Command::ToggleInvert => {
                self.inverted = !self.inverted;
            },
            Command::ToggleGrayscale => {
                self.grayscale = !self.grayscale;
            },
            Command::ResetView => {
                self.scale = self.full_scale;
                self.win_pos = Position { x: 0, y: 0 };
            },
            Command::UnitRatio => {
                *self = self.rescale(Scale::unit());
            },
            Command::Redraw => {
                action = Action::Redraw;
            },
            Command::Reinit => {
                action = Action::Reinit;
            },
            Command::Quit => {
                action = Action::Quit;
            },
            Command::Help => {
                action = Action::Help;
            },
            Command::Invalid(key) => {
                annotation = Some(Annotation::InvalidInput(key));
            },
        }
        Outcome { action, annotation }
    }
}

impl Viewport {
    /// The viewport after `cmd` was given `n` times in a row.
    pub open spec fn repeat(self, cmd: Command, n: nat) -> Viewport
        decreases n,
    {
        if n == 0 {
            self
        } else {
            self.step(cmd).repeat(cmd, (n - 1) as nat)
        }
    }
}

/// No command leaves a viewport that is not well formed, and none changes
/// the settings, the terminal's area or the full scale.
pub proof fn lemma_step_keeps_wf(s: Viewport, cmd: Command)
    requires
        s.wf(),
    ensures
        s.step(cmd).wf(),
        s.step(cmd).settings == s.settings,
        s.step(cmd).term_size == s.term_size,
        s.step(cmd).full_scale == s.full_scale,
{
}

/// One zoom step outwards never gives a smaller scale.
pub proof fn lemma_zoomed_out_grows(s: Viewport)
    requires
        s.wf(),
    ensures
        s.zoomed_out().raw >= s.scale.raw,
{
    let raw = s.scale.raw as int;
    let r = s.settings.zoom_ratio.raw as int;
    assert(raw * 0x1_0000_0000 / r >= raw) by (nonlinear_arith)
        requires
            0 < r < 0x1_0000_0000,
            raw >= 0,
    ;
}

/// A pan to the left or upwards never moves the position to the right or
/// downwards: the coordinate does not wrap around.
pub proof fn lemma_pan_back_never_wraps(s: Viewport, stride: Stride)
    requires
        s.wf(),
    ensures
        s.step(Command::Pan(Direction::Left, stride)).win_pos.x <= s.win_pos.x,
        s.step(Command::Pan(Direction::Left, stride)).win_pos.y == s.win_pos.y,
        s.step(Command::Pan(Direction::Up, stride)).win_pos.y <= s.win_pos.y,
        s.step(Command::Pan(Direction::Up, stride)).win_pos.x == s.win_pos.x,
{
}

/// Panning left from the left edge, however often, leaves the viewport as
/// it is. Each such pan by a length above zero raises the boundary
/// annotation, and a pan by one terminal pixel always has such a length.
pub proof fn lemma_pan_left_at_edge(s: Viewport, stride: Stride, n: nat)
    requires
        s.wf(),
        s.win_pos.x == 0,
    ensures
        s.repeat(Command::Pan(Direction::Left, stride), n) == s,
        s.stride(Direction::Left, stride) > 0 ==> s.annotation(
            Command::Pan(Direction::Left, stride),
        ) == Some(Annotation::Boundary),
        s.stride(Direction::Left, Stride::Pixel) > 0,
    decreases n,
{
    if n > 0 {
        assert(s.step(Command::Pan(Direction::Left, stride)) == s);
        lemma_pan_left_at_edge(s, stride, (n - 1) as nat);
    }
}

/// Panning upwards from the upper edge, however often, leaves the viewport
/// as it is, with the boundary annotation as for a pan to the left.
pub proof fn lemma_pan_up_at_edge(s: Viewport, stride: Stride, n: nat)
    requires
        s.wf(),
        s.win_pos.y == 0,
    ensures
        s.repeat(Command::Pan(Direction::Up, stride), n) == s,
        s.stride(Direction::Up, stride) > 0 ==> s.annotation(Command::Pan(Direction::Up, stride))
            == Some(Annotation::Boundary),
        s.stride(Direction::Up, Stride::Pixel) > 0,
    decreases n,
{
    if n > 0 {
        assert(s.step(Command::Pan(Direction::Up, stride)) == s);
        lemma_pan_up_at_edge(s, stride, (n - 1) as nat);
    }
}

/// After any number of zoom steps outwards, at least one, the scale is at
/// most the full scale. From the full scale, zooming out leaves the scale
/// at the full scale, and the clamp annotation is raised exactly when the
/// step would have passed it.
pub proof fn lemma_zoom_out_ceiling(s: Viewport, n: nat)
    requires
        s.wf(),
    ensures
        n > 0 ==> s.repeat(Command::ZoomOut, n).scale.raw <= s.full_scale.raw,
        s.scale == s.full_scale ==> s.repeat(Command::ZoomOut, n).scale == s.full_scale,
        s.repeat(Command::ZoomOut, n).full_scale == s.full_scale,
        s.step(Command::ZoomOut).scale.raw <= s.full_scale.raw,
        s.annotation(Command::ZoomOut) == Some(Annotation::Clamped) <==> s.zoomed_out().raw
            > s.full_scale.raw,
    decreases n,
{
    lemma_zoomed_out_grows(s);
    lemma_step_keeps_wf(s, Command::ZoomOut);
    let t = s.step(Command::ZoomOut);
    assert(t.scale.raw <= s.full_scale.raw);
    if s.scale == s.full_scale {
        assert(t.scale == s.full_scale);
    }
    if n > 0 {
        lemma_zoom_out_ceiling(t, (n - 1) as nat);
        if n == 1 {
            assert(t.repeat(Command::ZoomOut, 0) == t);
        }
    }
}

/// Lowering the optimization level from zero, however often, leaves it at
/// zero, and each attempt to lower it by more than nothing raises the
/// floor annotation. No lowering wraps around.
pub proof fn lemma_opt_floor(s: Viewport, amount: u32, n: nat)
    requires
        s.wf(),
    ensures
        s.step(Command::LowerOpt(amount)).opt_level <= s.opt_level,
        s.opt_level == 0 ==> s.repeat(Command::LowerOpt(amount), n) == s,
        s.opt_level == 0 && amount > 0 ==> s.annotation(Command::LowerOpt(amount)) == Some(
            Annotation::FloorViolation,
        ),
    decreases n,
{
    if n > 0 && s.opt_level == 0 {
        assert(s.step(Command::LowerOpt(amount)) == s);
        lemma_opt_floor(s, amount, (n - 1) as nat);
    }
}

/// Four quarter turns the same way, and two flips of the same kind, leave
/// the record of transforms as it was.
pub proof fn lemma_transforms_cycle(s: Viewport)
    requires
        s.wf(),
    ensures
        s.repeat(Command::Transform(ImageOp::Rotate90), 4) == s,
        s.repeat(Command::Transform(ImageOp::Rotate270), 4) == s,
        s.repeat(Command::Transform(ImageOp::FlipHorizontal), 2) == s,
        s.repeat(Command::Transform(ImageOp::FlipVertical), 2) == s,
        s.step(Command::Transform(ImageOp::Rotate90)).step(
            Command::Transform(ImageOp::Rotate270),
        ) == s,
{
    reveal_with_fuel(Viewport::repeat, 5);
}

/// Cycling through all backgrounds, or through all filters, comes back to
/// the one it started from; every index on the way is a valid one.
pub proof fn lemma_cycles_stay_in_range(s: Viewport)
    requires
        s.wf(),
    ensures
        s.step(Command::NextBackground).background < s.settings.palette_len,
        s.step(Command::NextBackground).background == (if s.background + 1
            == s.settings.palette_len {
            0
        } else {
            s.background + 1
        }),
        s.step(Command::NextFilter).filter == (if s.filter + 1 == FILTER_COUNT {
            0
        } else {
            s.filter + 1
        }),
        s.repeat(Command::NextFilter, 5) == s,
{
    reveal_with_fuel(Viewport::repeat, 6);
    let m = s.settings.palette_len as int;
    let b = s.background as int;
    if b + 1 == m {
        assert((b + 1) % m == 0) by (nonlinear_arith)
            requires
                b + 1 == m,
                m > 0,
        ;
    } else {
        assert((b + 1) % m == b + 1) by (nonlinear_arith)
            requires
                0 <= b + 1 < m,
        ;
    }
}

} // verus!
