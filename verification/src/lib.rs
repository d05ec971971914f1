//! Ranges of text between two positions, over several ways of measuring a
//! position: a byte offset, a row and a column in UTF-8 or UTF-16, or all of
//! them at once.

pub mod algebra;
pub mod composite_position;
pub mod format;
pub mod position;
pub mod range;
pub mod text;
pub mod utf16_position;
pub mod utf8_index;
pub mod utf8_position;

pub use composite_position::CompositePosition;
pub use position::PositionOrder;
pub use position::TextPosition;
pub use range::TextRange;
pub use utf16_position::Utf16Position;
pub use utf8_index::Utf8Index;
pub use utf8_position::Utf8Position;
