//! A single file-reading command for a host application shell.
//!
//! The library holds the command's decision logic: which requests the
//! command issues to the host's filesystem capability, in what order, and
//! how the host's reports become the command's response. The host itself
//! performs the requests — growing its allow-list, reading the file — and
//! reports back; the surrounding shell carries values between the two.

pub mod reader;
pub mod scope;
