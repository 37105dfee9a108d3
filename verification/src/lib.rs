//! Selective backup of document collections into dated, gzip-compressed
//! objects of an object store: collection selection, object keys, the
//! per-collection chunk pipeline and the paginated store protocol.

pub mod cli;
pub mod key;
pub mod numeral;
pub mod pipeline;
pub mod run;
pub mod select;
pub mod settings;
pub mod store;
pub mod text;
