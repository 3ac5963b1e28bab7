//! Party-finder helpers: job taxonomy, role classification, slot glyphs and
//! duty accent colors.

pub mod duty;
pub mod job;
pub mod listing;
pub mod slot;
pub mod text;

pub use duty::get_color_from_duty;
pub use job::{Job, Role};
pub use listing::PFListing;
pub use slot::Slot;
pub use text::text_eq;
