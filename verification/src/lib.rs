//! The core of a file manager, verified with Verus.
//!
//! Two engines do the work. The search engine walks a directory tree to a
//! given depth and collects what matches in a session with a budget of
//! finds; a reader takes the finds out batch by batch, and the session can be
//! called off at any time. The transfer engine copies or moves a selection:
//! it first weighs everything, then copies it while it counts every step, so
//! that a poller always knows how far it is and a transfer ends as
//! terminated only when all that was counted has been copied.
//!
//! The library does not touch the disk. It holds the state of the engines
//! and takes every decision; whoever runs it lists the directories, moves
//! the bytes and hands in what happened.
//!
//! - [`extra`], [`search`], [`walk`], [`tree`]: matching names, the search
//!   session, the walk and what it can find.
//! - [`transfer`], [`copy`], [`clipboard`], [`msg`]: transfer states and
//!   sessions, the registry, the two passes of a transfer, the clipboard,
//!   and what pollers are told.
//! - [`backend`]: the state of one backend and the commands on it.
//! - [`path`], [`file`], [`drive`], [`trash`], [`sort`], [`size`],
//!   [`digits`], [`wire`]: paths, files, drives, the orders of a listing,
//!   and how sizes, numbers and paths are written.
//! - [`frontend`], [`tabs`], [`selection`], [`context`], [`settings`]: what
//!   the front end keeps between two events.
//! - [`fs`]: plain files with their metadata and weights.
//! - [`outside`]: everything that is taken on trust from other code.

pub mod backend;
pub mod clipboard;
pub mod context;
pub mod copy;
pub mod digits;
pub mod drive;
pub mod extra;
pub mod file;
pub mod frontend;
pub mod fs;
pub mod msg;
pub mod outside;
pub mod path;
pub mod search;
pub mod selection;
pub mod settings;
pub mod size;
pub mod sort;
pub mod tabs;
pub mod transfer;
pub mod trash;
pub mod tree;
pub mod walk;
pub mod wire;
