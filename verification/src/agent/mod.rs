//! The host agent: validation of requests and the files and commands it
//! derives from them.

pub mod php;
pub mod backup;
pub mod database;
pub mod dns;
pub mod journal;
pub mod metrics;
pub mod runtime;
pub mod sites;
pub mod webserver;

use vstd::prelude::*;

verus! {

/// Why an agent request was refused.
#[derive(Debug, Clone, PartialEq, Eq)]
pub enum AgentError {
    /// The request carried a value outside what the agent accepts.
    InvalidArgument(String),
    /// The agent could not complete the request.
    Internal(String),
}

/// The text an error carries.
pub open spec fn agent_error_text(e: AgentError) -> Seq<char> {
    match e {
        AgentError::InvalidArgument(m) => m@,
        AgentError::Internal(m) => m@,
    }
}

impl AgentError {
    /// The text the error carries.
    pub fn message(&self) -> (r: &str)
        ensures
            r@ == agent_error_text(*self),
    {
        match self {
            AgentError::InvalidArgument(m) => m.as_str(),
            AgentError::Internal(m) => m.as_str(),
        }
    }
}

} // verus!
