//! Driving interactive programs: needles that recognise output, and the
//! engine that decides when one has matched.
//!
//! Nothing here reads or writes. A session holds what was read and decides
//! what to do next; whoever owns the terminal carries it out.

pub mod captures;
pub mod command;
pub mod control_code;
pub mod error;
pub mod expect;
pub mod interact;
pub mod pattern;
pub mod process;
pub mod search;
pub mod send;
pub mod session;
pub mod stream;

pub use captures::Captures;
pub use control_code::ControlCode;
pub use error::Error;
pub use expect::{Eof, Expect, Match, NBytes, Regex};
pub use process::WaitStatus;
pub use session::Session;
