//! Parsers for small CSS-inspired value mini-languages.
//!
//! Four string grammars are covered, each with a typed result:
//! angles (`"45deg"`, `"1.5rad"`, bare radians), single dimension values
//! (`"auto"`, `"12px"`, `"50%"`, viewport units), colors (named colors, hex
//! notation, `rgb`/`rgba`/`hsl`/`hsla` function notation), and four-sided
//! rectangle shorthands (`"1px 2px 3px 4px"` and the shorter CSS forms).
//!
//! Numeric literals are kept exactly as parsed: a sign and the decimal digit
//! strings on either side of the point. Turning such a literal into a
//! machine float is a concern of the embedding, not of the grammars.

pub mod angle;
pub mod color;
pub mod color_names;
pub mod num;
pub mod rect;
pub mod text;
pub mod val;

pub use color::Color;
pub use color::color_parser;
pub use color::color_string_parser;
pub use color::css_color_lookup;
pub use color::from_hex;
pub use color::from_half_hex;
pub use rect::UiRect;
pub use rect::rect_parser;
pub use rect::rect_string_parser;
pub use val::Val;
pub use val::val_parser;
pub use val::val_string_parser;

pub use angle::Angle;
pub use angle::angle_parser;
pub use angle::angle_string_parser;

pub use text::is_ws;
pub use text::is_digit;
pub use text::is_hex;
