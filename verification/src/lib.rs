//! Terminal image viewing: half-block rendering of pixel grids as ANSI
//! truecolor text, and the viewport state that key commands navigate.
//!
//! - [`color`]: blending a pixel over a background, and when two colours
//!   pass for one.
//! - [`render`]: the encoder, from a grid of colours to the text of a frame.
//! - [`screen`]: incremental output through a `term_lattice` screen buffer.
//! - [`viewport`]: scale, position and view settings, and what each key
//!   does to them.
//! - [`scale`], [`position`]: ratios in fixed point, and points.
//! - [`config`], [`hex`]: reading and checking what a session is
//!   configured with.
//! - [`status`], [`help`], [`text`]: the status line, the help page, and
//!   the building of text.
//!
//! Scales and ratios are 32.32 fixed-point numbers, so that every result
//! is an exact function of its inputs.

pub mod color;
pub mod config;
pub mod help;
pub mod hex;
pub mod position;
pub mod render;
pub mod scale;
pub mod screen;
pub mod status;
pub mod text;
pub mod viewport;

pub use color::{rgba_to_rgb, similar, Tint, FmtColor, IsAlpha, Rgb, Rgba};
pub use config::{
    exit_code, parse_color, parse_number, parse_palette, parse_term_size, pixel_area,
    ConfigError, Failure,
};
pub use help::help_text;
pub use hex::{base16_to_unum, num_to_rgb};
pub use position::{Position, SizeType};
pub use render::{Cache, Canvas, Cell, ColorTable, Encoder, Mode, Remap, CR, ESC};
pub use scale::{get_scale, Scale, ONE_RAW};
pub use screen::Screen;
pub use status::{scroll_up, status_line, CLEAR_SCREEN, CURSOR_HOME, LINE_START, RESET};
pub use viewport::{
    Action, Annotation, Command, Direction, Filter, FramePlan, ImageOp, Outcome, Settings, Stride,
    Viewport,
    DEFAULT_FILTER, FILTER_COUNT,
};
