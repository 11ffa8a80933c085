//! A resumable HTTP file-transfer engine.
//!
//! Given the size of a partial local copy and the headers of a preliminary
//! probe response, the engine decides whether a prior download is already
//! complete, must restart, or can resume; it confirms a resume point by
//! comparing a trailing window of the bytes already on disk against the
//! leading bytes of the re-requested range; and it tracks appended bytes and
//! progress reports chunk by chunk. All decision logic is verified; the
//! network and filesystem calls that drive it live outside this crate and
//! hand it plain values.

pub mod archive;
pub mod driver;
pub mod logins;
pub mod negotiate;
pub mod outcome;
pub mod procs;
pub mod proxyconf;
pub mod text;
pub mod transfer;
