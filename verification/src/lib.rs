//! Health probing of a local backend service, for a desktop shell.
//!
//! The shell asks one question of its backend: does a GET on the health
//! endpoint come back with a success status within the time allowed? This
//! crate holds everything about that question that is a decision rather than
//! an effect: which request is made, how each way the attempt can end is
//! classified, what the shell's bridge command hands to the front end, and
//! the one-shot sequence that looks for the backend after launch.
//!
//! The effects themselves (the HTTP exchange, the sleep, the write to the
//! error stream) belong to the caller, which reports what happened as plain
//! values of the types defined here.

pub mod health;
pub mod request;
pub mod status;
pub mod supervisor;
