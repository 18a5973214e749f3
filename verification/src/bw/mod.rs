//! The Bitwarden back-end's logic: classifying `bw` failures, locating the
//! executable, the raw `bw list items` shape, and filtering it into popup
//! entries.

pub mod error;
pub mod exe;
pub mod filter;
pub mod invocation;
pub mod job;
pub mod model;
pub mod worker;
