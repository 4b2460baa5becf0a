//! Conversation state: each conversation's message history, and the store that
//! maps conversation identifiers to their contexts.
use vstd::prelude::*;
use crate::text::str_eq;

verus! {

/// Relies on `chrono::Utc::now` and `DateTime::timestamp_millis`: the current
/// time in milliseconds since the Unix epoch. Nothing is promised of the value.
#[verifier::external_body]
pub(crate) fn now_millis() -> (r: i64) {
    chrono::Utc::now().timestamp_millis()
}

/// One message of a conversation: who sent it (`"user"` or `"bot"`), its text,
/// and when it was added, in milliseconds since the Unix epoch.
pub struct Message {
    pub user: String,
    pub text: String,
    pub timestamp: i64,
}

/// The timestamps of `h` never decrease.
pub open spec fn ordered(h: Seq<Message>) -> bool {
    forall|i: int, j: int| 0 <= i <= j < h.len() ==> #[trigger] h[i].timestamp <= #[trigger] h[j].timestamp
}

/// `after` is `before` with one message from `user` with `text` added at the
/// end, stamped no earlier than the last message of `before`.
pub open spec fn appended(
    before: Seq<Message>,
    after: Seq<Message>,
    user: Seq<char>,
    text: Seq<char>,
) -> bool {
    &&& after.len() == before.len() + 1
    &&& after.subrange(0, before.len() as int) == before
    &&& after.last().user@ == user
    &&& after.last().text@ == text
    &&& before.len() > 0 ==> before.last().timestamp <= after.last().timestamp
}

/// The history of one conversation.
pub struct DialogContext {
    pub history: Vec<Message>,
}

impl DialogContext {
    /// An empty conversation.
    pub fn new() -> (r: Self)
        ensures
            r.history@.len() == 0,
    {
        DialogContext { history: Vec::new() }
    }

    /// Adds a message at the end, stamped with the current time, or with the
    /// last message's time where the clock reads earlier.
    pub fn add_message(&mut self, user: &str, text: &str)
        ensures
            appended(old(self).history@, final(self).history@, user@, text@),
            ordered(old(self).history@) ==> ordered(final(self).history@),
    {
        let now = now_millis();
        let n = self.history.len();
        let ts = if n > 0 && self.history[n - 1].timestamp > now {
            self.history[n - 1].timestamp
        } else {
            now
        };
        let ghost before = self.history@;
        self.history.push(Message { user: user.to_string(), text: text.to_string(), timestamp: ts });
        assert(self.history@.subrange(0, n as int) =~= before);
        assert(ordered(before) ==> ordered(self.history@)) by {
            if ordered(before) {
                assert forall|i: int, j: int| 0 <= i <= j < self.history@.len() implies #[trigger] self.history@[i].timestamp
                    <= #[trigger] self.history@[j].timestamp by {
                    if j == n {
                        if i < n {
                            assert(before[i].timestamp <= before[n - 1].timestamp);
                        }
                    } else {
                        assert(before[i] == self.history@[i] && before[j] == self.history@[j]);
                    }
                }
            }
        }
    }

    /// The most recent message from the user.
    pub fn last_user_input(&self) -> (r: Option<&Message>)
        ensures
            match r {
                Some(m) => exists|i: int|
                    0 <= i < self.history@.len() && self.history@[i] == *m && m.user@ == "user"@
                        && forall|j: int|
                        i < j < self.history@.len() ==> (#[trigger] self.history@[j]).user@
                            != "user"@,
                None => forall|j: int|
                    0 <= j < self.history@.len() ==> (#[trigger] self.history@[j]).user@
                        != "user"@,
            },
    {
        let mut i = self.history.len();
        while i > 0
            invariant
                i <= self.history@.len(),
                forall|j: int|
                    i <= j < self.history@.len() ==> (#[trigger] self.history@[j]).user@ != "user"@,
            decreases i,
        {
            if str_eq(self.history[i - 1].user.as_str(), "user") {
                return Some(&self.history[i - 1]);
            }
            i -= 1;
        }
        None
    }

    /// The history as lines of `sender: text`.
    pub fn summary(&self) -> (r: String)
        ensures
            r@ == history_lines(self.history@),
    {
        let mut out = String::new();
        let mut i: usize = 0;
        assert(self.history@.subrange(0, 0) =~= Seq::<Message>::empty());
        while i < self.history.len()
            invariant
                i <= self.history@.len(),
                out@ == history_lines(self.history@.subrange(0, i as int)),
            decreases self.history@.len() - i,
        {
            let ghost sub = self.history@.subrange(0, i + 1);
            assert(sub.drop_last() =~= self.history@.subrange(0, i as int));
            if i > 0 {
                out.append("\n");
            }
            out.append(self.history[i].user.as_str());
            out.append(": ");
            out.append(self.history[i].text.as_str());
            proof {
                if i == 0 {
                    assert(out@ =~= history_line(sub[0]));
                } else {
                    assert(out@ =~= history_lines(sub.drop_last()) + "\n"@ + history_line(sub.last()));
                }
            }
            i += 1;
        }
        assert(self.history@.subrange(0, self.history@.len() as int) =~= self.history@);
        out
    }
}

/// One message as a line.
pub open spec fn history_line(m: Message) -> Seq<char> {
    m.user@ + ": "@ + m.text@
}

/// The messages as lines separated by line feeds.
pub open spec fn history_lines(h: Seq<Message>) -> Seq<char>
    decreases h.len(),
{
    if h.len() == 0 {
        Seq::empty()
    } else if h.len() == 1 {
        history_line(h[0])
    } else {
        history_lines(h.drop_last()) + "\n"@ + history_line(h.last())
    }
}

/// After two turns, a conversation holds four more messages, from the user,
/// the assistant, the user and the assistant in that order, and their
/// timestamps do not decrease.
pub proof fn lemma_two_turns(
    h0: Seq<Message>,
    h1: Seq<Message>,
    h2: Seq<Message>,
    h3: Seq<Message>,
    h4: Seq<Message>,
    q1: Seq<char>,
    a1: Seq<char>,
    q2: Seq<char>,
    a2: Seq<char>,
)
    requires
        appended(h0, h1, "user"@, q1),
        appended(h1, h2, "bot"@, a1),
        appended(h2, h3, "user"@, q2),
        appended(h3, h4, "bot"@, a2),
    ensures
        h4.len() == h0.len() + 4,
        h4.subrange(0, h0.len() as int) == h0,
        h4[h0.len() as int].user@ == "user"@,
        h4[h0.len() as int + 1].user@ == "bot"@,
        h4[h0.len() as int + 2].user@ == "user"@,
        h4[h0.len() as int + 3].user@ == "bot"@,
        h4[h0.len() as int].timestamp <= h4[h0.len() as int + 1].timestamp,
        h4[h0.len() as int + 1].timestamp <= h4[h0.len() as int + 2].timestamp,
        h4[h0.len() as int + 2].timestamp <= h4[h0.len() as int + 3].timestamp,
{
    let n = h0.len() as int;
    assert(h4.subrange(0, n + 3) == h3);
    assert(h3.subrange(0, n + 2) == h2);
    assert(h2.subrange(0, n + 1) == h1);
    assert(h4[n + 2] == h3[n + 2]);
    assert(h4[n + 1] == h3[n + 1]);
    assert(h3[n + 1] == h2[n + 1]);
    assert(h4[n] == h3[n]);
    assert(h3[n] == h2[n]);
    assert(h2[n] == h1[n]);
    assert(h4.subrange(0, n) =~= h3.subrange(0, n));
    assert(h3.subrange(0, n) =~= h2.subrange(0, n));
    assert(h2.subrange(0, n) =~= h1.subrange(0, n));
}

/// The contexts of all conversations, by conversation identifier.
pub struct SessionStore {
    pub sessions: Vec<(i64, DialogContext)>,
}

/// No identifier is held twice.
pub open spec fn ids_unique(s: Seq<(i64, DialogContext)>) -> bool {
    forall|i: int, j: int| 0 <= i < j < s.len() ==> #[trigger] s[i].0 != #[trigger] s[j].0
}

impl SessionStore {
    pub fn new() -> (r: Self)
        ensures
            r.sessions@.len() == 0,
    {
        SessionStore { sessions: Vec::new() }
    }

    /// The place of a conversation's context.
    pub fn find(&self, id: i64) -> (r: Option<usize>)
        ensures
            match r {
                Some(i) => i < self.sessions@.len() && self.sessions@[i as int].0 == id,
                None => forall|i: int|
                    0 <= i < self.sessions@.len() ==> (#[trigger] self.sessions@[i]).0 != id,
            },
    {
        let mut i: usize = 0;
        while i < self.sessions.len()
            invariant
                i <= self.sessions@.len(),
                forall|j: int| 0 <= j < i ==> (#[trigger] self.sessions@[j]).0 != id,
            decreases self.sessions@.len() - i,
        {
            if self.sessions[i].0 == id {
                return Some(i);
            }
            i += 1;
        }
        None
    }

    /// The place of a conversation's context, made empty first where there is none.
    pub fn get_or_create(&mut self, id: i64) -> (r: usize)
        ensures
            r < final(self).sessions@.len(),
            final(self).sessions@[r as int].0 == id,
            ids_unique(old(self).sessions@) ==> ids_unique(final(self).sessions@),
            (exists|i: int| 0 <= i < old(self).sessions@.len() && old(self).sessions@[i].0 == id)
                ==> final(self).sessions@ == old(self).sessions@,
            !(exists|i: int| 0 <= i < old(self).sessions@.len() && old(self).sessions@[i].0 == id)
                ==> final(self).sessions@.len() == old(self).sessions@.len() + 1
                && final(self).sessions@.subrange(0, old(self).sessions@.len() as int)
                == old(self).sessions@ && final(self).sessions@.last().1.history@.len() == 0,
    {
        match self.find(id) {
            Some(i) => i,
            None => {
                let ghost before = self.sessions@;
                self.sessions.push((id, DialogContext::new()));
                assert(self.sessions@.subrange(0, before.len() as int) =~= before);
                assert(ids_unique(before) ==> ids_unique(self.sessions@)) by {
                    if ids_unique(before) {
                        assert forall|a: int, b: int| 0 <= a < b < self.sessions@.len() implies #[trigger] self.sessions@[a].0
                            != #[trigger] self.sessions@[b].0 by {
                            assert(before[a] == self.sessions@[a]);
                            if b < before.len() {
                                assert(before[b] == self.sessions@[b]);
                            }
                        }
                    }
                }
                self.sessions.len() - 1
            },
        }
    }

    /// Starts a conversation afresh: its context becomes empty.
    pub fn reset(&mut self, id: i64)
        ensures
            exists|i: int|
                0 <= i < final(self).sessions@.len() && final(self).sessions@[i].0 == id
                    && final(self).sessions@[i].1.history@.len() == 0,
            ids_unique(old(self).sessions@) ==> ids_unique(final(self).sessions@),
            forall|j: int|
                0 <= j < old(self).sessions@.len() && old(self).sessions@[j].0 != id
                    ==> #[trigger] final(self).sessions@[j] == old(self).sessions@[j],
    {
        let i = self.get_or_create(id);
        let ghost mid = self.sessions@;
        self.sessions.set(i, (id, DialogContext::new()));
        assert(ids_unique(mid) ==> ids_unique(self.sessions@)) by {
            if ids_unique(mid) {
                assert forall|a: int, b: int| 0 <= a < b < self.sessions@.len() implies #[trigger] self.sessions@[a].0
                    != #[trigger] self.sessions@[b].0 by {
                    assert(mid[a].0 == self.sessions@[a].0);
                    assert(mid[b].0 == self.sessions@[b].0);
                }
            }
        }
        assert(self.sessions@[i as int].0 == id);
        assert forall|j: int|
            0 <= j < old(self).sessions@.len() && old(self).sessions@[j].0 != id
                implies #[trigger] self.sessions@[j] == old(self).sessions@[j] by {
            if !(exists|k: int| 0 <= k < old(self).sessions@.len() && old(self).sessions@[k].0 == id) {
                assert(mid.subrange(0, old(self).sessions@.len() as int)[j] == mid[j]);
            }
        }
    }
}

} // verus!
