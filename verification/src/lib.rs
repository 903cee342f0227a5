//! Verified core of a single-host application updater.
//!
//! The library models the on-disk state the updater touches (the live
//! installation tree, the single backup generation, and the staged,
//! freshly expanded archive) and proves that the install-transition
//! pipeline never leaves that state worse than it found it: after any
//! run the installation is either the new tree or a structural copy of
//! the old one, with the backup available for recovery.
//!
//! All file, network and archive I/O stays outside the library; callers
//! probe the real filesystem, hand the results in as plain values, and
//! mirror the verified transitions back onto disk.

pub mod gate;
pub mod orchestrate;
pub mod resolve;
pub mod state;
pub mod tree;
