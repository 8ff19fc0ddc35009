//! What came back from one HTTP exchange, and what it amounts to.

use vstd::prelude::*;

verus! {

/// Why an exchange with the registry yielded nothing usable.
#[derive(Clone, Copy, Debug, PartialEq, Eq, Structural)]
pub enum Cause {
    /// The exchange itself failed: no response arrived.
    Transport,
    /// A response arrived, with a status that is not a success.
    Status(u16),
    /// The status was a success, but the body could not be read as the
    /// payload that was asked for.
    Body,
}

/// The outcome of one exchange, as the driver saw it. `T` is the payload
/// that the body was to be read as.
#[derive(Debug)]
pub enum Reply<T> {
    /// No response arrived.
    Unsent,
    /// A response arrived. `body` is `None` where it could not be read.
    Received { status: u16, body: Option<T> },
}

/// A status is a success when it lies in 200..=299.
pub open spec fn is_success(status: u16) -> bool {
    200 <= status <= 299
}

/// Tells whether `status` is a success.
pub fn status_is_success(status: u16) -> (ok: bool)
    ensures
        ok == is_success(status),
{
    200 <= status && status <= 299
}

impl<T> Reply<T> {
    /// The payload of a reply, or the first reason why there is none: the
    /// transport is judged before the status, the status before the body.
    pub open spec fn settled(self) -> Result<T, Cause> {
        match self {
            Reply::Unsent => Err(Cause::Transport),
            Reply::Received { status, body } => if !is_success(status) {
                Err(Cause::Status(status))
            } else {
                match body {
                    Some(payload) => Ok(payload),
                    None => Err(Cause::Body),
                }
            },
        }
    }

    /// Turns a reply into its payload or the cause of its failure.
    pub fn settle(self) -> (out: Result<T, Cause>)
        ensures
            out == self.settled(),
    {
        match self {
            Reply::Unsent => Err(Cause::Transport),
            Reply::Received { status, body } => {
                if !status_is_success(status) {
                    Err(Cause::Status(status))
                } else {
                    match body {
                        Some(payload) => Ok(payload),
                        None => Err(Cause::Body),
                    }
                }
            },
        }
    }
}

} // verus!
