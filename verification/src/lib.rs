//! Verified core of a water-meter receipt generator: billing records,
//! fixed-geometry receipt layout, pagination, font-resolution decisions
//! and a leveled logging context. Serialization and I/O live outside.

pub mod css;
pub mod dates;
pub mod document;
pub mod drawing;
pub mod fonts;
pub mod layout;
pub mod log;
pub mod model;
pub mod numfmt;

pub use model::BillRecord;
