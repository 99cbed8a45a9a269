//! The chat-interaction logger: an append-only list of question/answer
//! pairs, read back only as a count.

use vstd::prelude::*;

verus! {

/// One reported chat interaction.
pub struct ChatLogRequest {
    pub question: String,
    pub answer: String,
}

/// The statistics handed to the dashboard; both counters equal the number
/// of logged interactions.
pub struct ChatStats {
    pub total_chats: i64,
    pub total_questions: i64,
}

/// The append-only chat log.
pub struct ChatLog {
    entries: Vec<ChatLogRequest>,
}

impl ChatLog {
    /// The logged interactions, oldest first.
    pub closed spec fn entries(&self) -> Seq<ChatLogRequest> {
        self.entries@
    }

    /// An empty log.
    pub fn new() -> (r: Self)
        ensures
            r.entries() == Seq::<ChatLogRequest>::empty(),
    {
        ChatLog { entries: Vec::new() }
    }

    /// Append one interaction; nothing is ever removed or rewritten.
    pub fn save(&mut self, entry: ChatLogRequest)
        ensures
            final(self).entries() == old(self).entries().push(entry),
    {
        self.entries.push(entry);
    }

    /// The counters for the dashboard: both equal the number of logged
    /// interactions.
    pub fn stats(&self) -> (r: ChatStats)
        requires
            self.entries().len() <= i64::MAX,
        ensures
            r.total_chats == self.entries().len(),
            r.total_questions == r.total_chats,
    {
        let count = self.entries.len() as i64;
        ChatStats { total_chats: count, total_questions: count }
    }
}

} // verus!
