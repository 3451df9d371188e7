//! A terminal feed reader's engine: the feed catalog, the article archive,
//! the incremental synchronisation of a feed's articles, the selection
//! cursors over both lists and what a key press does.

pub mod archive;
pub mod catalog;
pub mod channel;
pub mod controls;
pub mod error_db;
pub mod model;
pub mod selection;
pub mod sync;
pub mod timestamp;
pub mod ui_state;
