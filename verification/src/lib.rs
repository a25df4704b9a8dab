//! Decision logic of a PAM module that runs several other PAM services side by
//! side and accepts the user as soon as one of them (mode `One`) or all of them
//! (mode `All`) have authenticated the user.
//!
//! Everything that talks to PAM, to the terminal or to other threads lives
//! outside this crate; what it decides lives here, with its contracts.

pub mod mode;
pub mod tally;
pub mod password;
pub mod text;
pub mod json_length;
pub mod conversation;
pub mod input;
pub mod session;
