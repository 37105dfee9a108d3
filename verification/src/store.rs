//! The object-store protocol: request descriptions, reply interpretation and
//! paginated listing.

pub mod bucket;
pub mod error;
pub mod head;
pub mod limit;
pub mod list;
pub mod object;
pub mod time;
pub mod walk;
