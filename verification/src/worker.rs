//! Per-worker state and the four request handlers.
//!
//! A worker owns its identity and its private request counter exclusively
//! for its whole lifetime — no other worker's requests can touch them,
//! which is why the counter needs no synchronization — and shares one
//! handle to the single message log with every other worker. Each handler
//! first moves this worker's counter up by exactly 1, then performs its
//! effect on the shared log, then builds a response carrying this worker's
//! identity and the post-increment counter value.
//!
//! What a handler does to the log's contents while holding the lock is
//! stated exactly on [`crate::message_log::MessageLog`]; at this level only
//! the lock's acquisition order decides how the effects of concurrent
//! workers interleave.

use std::sync::Arc;
use vstd::prelude::*;

use crate::shared_log::SharedMessageLog;

verus! {

/// The largest accepted append payload, in bytes. The front end rejects a
/// larger body before it reaches [`WorkerState::handle_append`].
pub const PAYLOAD_LIMIT_BYTES: usize = 4096;

/// Response to `view` and `clear`: this worker's identity and counter,
/// and a list of messages.
pub struct IndexResponse {
    pub server_id: usize,
    pub request_count: usize,
    pub message: Vec<String>,
}

/// Response to a successful `append`: the appended text, echoed back.
pub struct PostResponse {
    pub server_id: usize,
    pub request_count: usize,
    pub message: String,
}

/// Response to a malformed or oversized `append` payload: a description
/// of the parse failure.
pub struct PostError {
    pub server_id: usize,
    pub request_count: usize,
    pub error: String,
}

/// Response to `lookup`: the text at the requested position, if any.
pub struct LookupResponse {
    pub server_id: usize,
    pub request_count: usize,
    pub result: Option<String>,
}

/// One worker instance's state: its identity, assigned once at creation
/// and immutable thereafter; its private request counter; and the shared
/// handle to the one message log.
pub struct WorkerState {
    server_id: usize,
    request_count: usize,
    messages: Arc<SharedMessageLog>,
}

impl WorkerState {
    /// The identity this worker was created with.
    pub closed spec fn spec_server_id(&self) -> usize {
        self.server_id
    }

    /// How many requests this worker has handled so far.
    pub closed spec fn spec_request_count(&self) -> usize {
        self.request_count
    }

    /// The shared log handle this worker was created with.
    pub closed spec fn spec_messages(&self) -> Arc<SharedMessageLog> {
        self.messages
    }

    /// A new worker instance: a freshly allocated identity, a counter at
    /// 0, and the shared handle to the log created before any worker.
    pub fn new(identity: usize, messages: Arc<SharedMessageLog>) -> (worker: Self)
        ensures
            worker.spec_server_id() == identity,
            worker.spec_request_count() == 0,
            worker.spec_messages() == messages,
    {
        WorkerState { server_id: identity, request_count: 0, messages }
    }

    /// The identity, as a response would report it.
    pub fn server_id(&self) -> (identity: usize)
        ensures
            identity == self.spec_server_id(),
    {
        self.server_id
    }

    /// The counter, as a response would report it.
    pub fn request_count(&self) -> (count: usize)
        ensures
            count == self.spec_request_count(),
    {
        self.request_count
    }

    /// `view`: counts the request, then reports a full snapshot of the
    /// shared log together with this worker's identity and counter.
    pub fn handle_view(&mut self) -> (response: IndexResponse)
        requires
            old(self).spec_request_count() < usize::MAX,
        ensures
            final(self).spec_server_id() == old(self).spec_server_id(),
            final(self).spec_request_count() == old(self).spec_request_count() + 1,
            final(self).spec_messages() == old(self).spec_messages(),
            response.server_id == old(self).spec_server_id(),
            response.request_count == final(self).spec_request_count(),
    {
        self.request_count = self.request_count + 1;
        let message = self.messages.snapshot();
        IndexResponse { server_id: self.server_id, request_count: self.request_count, message }
    }

    /// `append`: counts the request, appends `text` to the end of the
    /// shared log, and echoes exactly the appended text back.
    pub fn handle_append(&mut self, text: String) -> (response: PostResponse)
        requires
            old(self).spec_request_count() < usize::MAX,
        ensures
            final(self).spec_server_id() == old(self).spec_server_id(),
            final(self).spec_request_count() == old(self).spec_request_count() + 1,
            final(self).spec_messages() == old(self).spec_messages(),
            response.server_id == old(self).spec_server_id(),
            response.request_count == final(self).spec_request_count(),
            response.message@ == text@,
    {
        self.request_count = self.request_count + 1;
        let echoed = text.clone();
        self.messages.append(text);
        PostResponse {
            server_id: self.server_id,
            request_count: self.request_count,
            message: echoed,
        }
    }

    /// `clear`: counts the request, empties the shared log, and reports an
    /// empty message list.
    pub fn handle_clear(&mut self) -> (response: IndexResponse)
        requires
            old(self).spec_request_count() < usize::MAX,
        ensures
            final(self).spec_server_id() == old(self).spec_server_id(),
            final(self).spec_request_count() == old(self).spec_request_count() + 1,
            final(self).spec_messages() == old(self).spec_messages(),
            response.server_id == old(self).spec_server_id(),
            response.request_count == final(self).spec_request_count(),
            response.message.deep_view() == Seq::<Seq<char>>::empty(),
    {
        self.request_count = self.request_count + 1;
        self.messages.clear();
        let message: Vec<String> = Vec::new();
        proof {
            assert(message.deep_view() =~= Seq::<Seq<char>>::empty());
        }
        IndexResponse { server_id: self.server_id, request_count: self.request_count, message }
    }

    /// `lookup`: counts the request, then reports the log entry at
    /// `position` if one exists, and an absent result otherwise — an
    /// out-of-range position is not an error.
    pub fn handle_lookup(&mut self, position: usize) -> (response: LookupResponse)
        requires
            old(self).spec_request_count() < usize::MAX,
        ensures
            final(self).spec_server_id() == old(self).spec_server_id(),
            final(self).spec_request_count() == old(self).spec_request_count() + 1,
            final(self).spec_messages() == old(self).spec_messages(),
            response.server_id == old(self).spec_server_id(),
            response.request_count == final(self).spec_request_count(),
    {
        self.request_count = self.request_count + 1;
        let result = self.messages.get(position);
        LookupResponse { server_id: self.server_id, request_count: self.request_count, result }
    }

    /// A malformed or oversized `append` payload: the request is still
    /// counted, and the response carries this worker's identity, the
    /// post-increment counter, and the given description of the parse
    /// failure — the process continues.
    pub fn handle_append_error(&mut self, error: String) -> (response: PostError)
        requires
            old(self).spec_request_count() < usize::MAX,
        ensures
            final(self).spec_server_id() == old(self).spec_server_id(),
            final(self).spec_request_count() == old(self).spec_request_count() + 1,
            final(self).spec_messages() == old(self).spec_messages(),
            response.server_id == old(self).spec_server_id(),
            response.request_count == final(self).spec_request_count(),
            response.error@ == error@,
    {
        self.request_count = self.request_count + 1;
        PostError { server_id: self.server_id, request_count: self.request_count, error }
    }
}

} // verus!
