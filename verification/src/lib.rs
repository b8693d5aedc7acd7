//! An in-memory, append-only log of text messages, served by a pool of
//! parallel workers.
//!
//! The log is a single lock-protected sequence of strings shared by every
//! worker; each worker carries a unique identity handed out once at startup
//! and a private request counter that no other worker ever touches. The
//! request handlers (view, append, clear, lookup) mutate that state and
//! build response records; the HTTP front end around them only routes
//! requests and serializes the records.

use vstd::prelude::*;

pub mod identity;
pub mod message_log;
pub mod numbers;
pub mod shared_log;
pub mod worker;

verus! {

/// Configuration for the message service: the port its HTTP front end
/// listens on.
#[derive(Debug)]
pub struct MessageApp {
    port: u16,
}

impl MessageApp {
    /// The configured port.
    pub closed spec fn spec_port(&self) -> u16 {
        self.port
    }

    pub fn new(port: u16) -> (app: Self)
        ensures
            app.spec_port() == port,
    {
        MessageApp { port }
    }

    pub fn port(&self) -> (p: u16)
        ensures
            p == self.spec_port(),
    {
        self.port
    }
}

} // verus!
