//! A byte buffer seen through four aligned projections: addresses, hex
//! bytes, printable text and disassembled instructions.

pub mod header;
pub mod decoder;
pub mod format;
pub mod geometry;
pub mod view;
pub mod index;
pub mod scroll;
pub mod session;
pub mod context;
pub mod report;
pub mod popup;
pub mod layout;
pub mod paths;
pub mod events;
