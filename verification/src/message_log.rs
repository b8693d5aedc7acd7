//! The contents of the shared message log: an ordered,
//! insertion-order-preserving sequence of text messages.
//!
//! Every operation here acts on the log while it is held exclusively; the
//! lock that serializes workers around it lives in [`crate::shared_log`].

use vstd::prelude::*;

verus! {

/// The ordered sequence of submitted messages. Its view is the sequence of
/// the messages' character sequences, oldest first.
pub struct MessageLog {
    entries: Vec<String>,
}

impl View for MessageLog {
    type V = Seq<Seq<char>>;

    closed spec fn view(&self) -> Seq<Seq<char>> {
        self.entries.deep_view()
    }
}

/// What one `append` call does to the log's contents: the new text goes
/// at the end, and nothing else moves.
pub open spec fn log_after_append(s: Seq<Seq<char>>, text: Seq<char>) -> Seq<Seq<char>> {
    s.push(text)
}

/// What one `clear` call leaves of the log's contents: nothing, whatever
/// it held before.
pub open spec fn log_after_clear(s: Seq<Seq<char>>) -> Seq<Seq<char>> {
    Seq::empty()
}

impl MessageLog {
    /// An empty log.
    pub fn new() -> (log: Self)
        ensures
            log@ == Seq::<Seq<char>>::empty(),
    {
        let log = MessageLog { entries: Vec::new() };
        proof {
            assert(log@ =~= Seq::<Seq<char>>::empty());
        }
        log
    }

    /// The number of messages currently in the log.
    pub fn len(&self) -> (n: usize)
        ensures
            n == self@.len(),
    {
        self.entries.len()
    }

    /// Appends `text` at the end of the log and returns its zero-based
    /// position. The log grows by exactly that one entry.
    pub fn append(&mut self, text: String) -> (position: usize)
        ensures
            final(self)@ == log_after_append(old(self)@, text@),
            position == old(self)@.len(),
    {
        let position = self.entries.len();
        self.entries.push(text);
        proof {
            assert(final(self)@ =~= old(self)@.push(text@));
        }
        position
    }

    /// Returns an independent copy of the current contents: the copy holds
    /// exactly the logged messages, and later mutation of the log leaves it
    /// unchanged.
    pub fn snapshot(&self) -> (snap: Vec<String>)
        ensures
            snap.deep_view() == self@,
    {
        let mut snap: Vec<String> = Vec::new();
        let mut i: usize = 0;
        while i < self.entries.len()
            invariant
                i <= self.entries@.len(),
                snap@.len() == i as int,
                forall|j: int| 0 <= j < i as int ==> snap@[j]@ == self@[j],
            decreases self.entries@.len() - i,
        {
            snap.push(self.entries[i].clone());
            i = i + 1;
        }
        proof {
            assert(snap.deep_view() =~= self@);
        }
        snap
    }

    /// Removes every entry.
    pub fn clear(&mut self)
        ensures
            final(self)@ == log_after_clear(old(self)@),
            final(self)@ == Seq::<Seq<char>>::empty(),
    {
        self.entries.clear();
        proof {
            assert(final(self)@ =~= Seq::<Seq<char>>::empty());
        }
    }

    /// The message at `position`, if the log has one: `Some` of the
    /// `position`-th appended text when `position` is inside the log,
    /// `None` for any position at or past its end.
    pub fn get(&self, position: usize) -> (found: Option<String>)
        ensures
            position < self@.len() ==> (found matches Some(text) && text@ == self@[position as int]),
            position >= self@.len() ==> found is None,
    {
        if position < self.entries.len() {
            Some(self.entries[position].clone())
        } else {
            None
        }
    }
}

/// The log contents reached from `s` by appending the texts `ts` one call
/// after another, in call order: each call moves the contents by
/// [`log_after_append`], as [`MessageLog::append`] ensures.
pub open spec fn after_appends(s: Seq<Seq<char>>, ts: Seq<Seq<char>>) -> Seq<Seq<char>>
    decreases ts.len(),
{
    if ts.len() == 0 {
        s
    } else {
        after_appends(log_after_append(s, ts[0]), ts.drop_first())
    }
}

/// Any run of `append` calls, from any starting contents and regardless of
/// which worker issued each call, leaves the log holding exactly the
/// starting contents followed by the appended texts in call order — so a
/// `snapshot` taken afterwards returns exactly those texts in that order.
pub proof fn lemma_snapshot_after_appends(s: Seq<Seq<char>>, ts: Seq<Seq<char>>)
    ensures
        after_appends(s, ts) == s + ts,
    decreases ts.len(),
{
    if ts.len() == 0 {
        assert(after_appends(s, ts) =~= s + ts);
    } else {
        lemma_snapshot_after_appends(s.push(ts[0]), ts.drop_first());
        assert(s.push(ts[0]) + ts.drop_first() =~= s + ts);
    }
}

/// `clear` followed by `snapshot` always yields an empty sequence,
/// whatever the log held before: `clear` moves the contents by
/// [`log_after_clear`], and `snapshot` returns exactly the contents.
pub proof fn lemma_clear_then_snapshot(before: Seq<Seq<char>>, cleared: Seq<Seq<char>>, snap: Seq<Seq<char>>)
    requires
        cleared == log_after_clear(before),
        snap == cleared,
    ensures
        snap.len() == 0,
        snap == Seq::<Seq<char>>::empty(),
{
}

} // verus!
