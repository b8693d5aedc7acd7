//! The single mutual-exclusion guard that every worker shares around the
//! message log.
//!
//! Each operation acquires the one lock for its whole duration, performs a
//! single whole operation on the locked [`MessageLog`], and releases; no
//! operation calls another locking operation while holding the lock, so no
//! caller can observe or hold a partial state. What each operation does to
//! the contents is stated exactly on [`MessageLog`]'s own methods; across
//! workers, appends are observed in the total order in which the lock was
//! acquired.

use vstd::prelude::*;
use vstd::rwlock::RwLock;

use crate::message_log::MessageLog;

verus! {

/// The message log behind its lock, shared by every worker instance
/// through a shared handle.
pub struct SharedMessageLog {
    lock: RwLock<MessageLog, spec_fn(MessageLog) -> bool>,
}

impl SharedMessageLog {
    /// The lock accepts every log value: the log needs no content
    /// invariant, only serialized access.
    #[verifier::type_invariant]
    closed spec fn wf(&self) -> bool {
        forall|l: MessageLog| self.lock.inv(l)
    }

    /// A freshly created shared log, holding no messages.
    pub fn new() -> (shared: Self) {
        let log = MessageLog::new();
        let lock = RwLock::new(log, Ghost(|l: MessageLog| true));
        SharedMessageLog { lock }
    }

    /// Acquires exclusive access, appends `text` at the end, and returns
    /// its zero-based position at the moment of the append.
    pub fn append(&self, text: String) -> (position: usize) {
        proof {
            use_type_invariant(self);
        }
        let (mut log, handle) = self.lock.acquire_write();
        let position = log.append(text);
        handle.release_write(log);
        position
    }

    /// Acquires shared access and returns an independent copy of the
    /// current contents: concurrent appends from other workers never
    /// mutate what this call has returned.
    pub fn snapshot(&self) -> (snap: Vec<String>) {
        proof {
            use_type_invariant(self);
        }
        let read_handle = self.lock.acquire_read();
        let snap = read_handle.borrow().snapshot();
        read_handle.release_read();
        snap
    }

    /// Acquires exclusive access and removes every entry.
    pub fn clear(&self) {
        proof {
            use_type_invariant(self);
        }
        let (mut log, handle) = self.lock.acquire_write();
        log.clear();
        handle.release_write(log);
    }

    /// Acquires shared access and returns the entry at `position` if one
    /// exists, `None` otherwise; never panics on an out-of-range position.
    pub fn get(&self, position: usize) -> (found: Option<String>) {
        proof {
            use_type_invariant(self);
        }
        let read_handle = self.lock.acquire_read();
        let found = read_handle.borrow().get(position);
        read_handle.release_read();
        found
    }
}

} // verus!
