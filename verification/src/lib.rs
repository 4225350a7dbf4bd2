//! A USB gadget that stands in for keyboard and mouse.
//!
//! The crate holds what a remote keyboard-and-mouse needs to decide and to
//! compute, and leaves the doing to its caller:
//!
//! - [`hid`] keeps the state of keyboard and mouse, encodes the reports that
//!   go to the host, takes in the LED reports that come back, and holds the
//!   report descriptors.
//! - [`gadget`] and [`mass_storage`] describe a composite gadget and plan how
//!   it is written to ConfigFS and how it is taken down. A plan is a list of
//!   [`configfs::FsOp`], to be performed in order. [`gadget::tree`] models
//!   the tree that the plans work on, and [`gadget::lifecycle`] shows that a
//!   gadget that was brought up is gone once it was taken down.
//! - [`fs`] reads numbers and truth values out of the contents of attribute
//!   files.
//! - [`device`] puts together the gadget of the remote keyboard and mouse,
//!   and [`message`] decodes the events that a client sends.
//!
//! Every function comes with a contract. The contracts are proved, but for
//! those of the few calls into std and into other crates that have none of
//! their own: these are believed, and each says so where it stands.

pub mod bitset;
pub mod configfs;
pub mod device;
pub mod error;
pub mod fs;
pub mod gadget;
pub mod hid;
pub mod mass_storage;
pub mod message;
pub mod pattern;
pub mod text;
