//! The mail daemon: Postfix and Dovecot map entries, Sieve scripts, rate
//! limits, relays and the mail queue.

pub mod lines;
pub mod postfix;
pub mod queue;

use vstd::prelude::*;

verus! {

/// Why a mail daemon request was refused.
#[derive(Debug)]
pub enum MailError {
    /// The request is malformed (HTTP 400).
    BadRequest(String),
    /// The entry does not exist (HTTP 404).
    NotFound(String),
    /// The entry already exists (HTTP 409).
    Conflict(String),
}

} // verus!
