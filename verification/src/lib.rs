//! Watching a directory tree for file changes, either with one watch per file
//! or with one recursive watch on the root, and the pieces both strategies
//! share: selecting files, filtering notifications, and handing them to a
//! consumer over a channel.

pub mod backend;
pub mod channel;
pub mod consume;
pub mod event;
pub mod filter;
pub mod mode;
pub mod registrar;
pub mod select;
pub mod strategy;
pub mod tree;
pub mod tree_laws;
pub mod watcher;
