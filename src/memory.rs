//! What the assistant remembers: the last few phrases, and every fact.
use vstd::prelude::*;
use std::collections::VecDeque;
use crate::dialog::now_millis;
use crate::text::{chars_of, contains_str, has_sub};

verus! {

/// One remembered phrase or fact, with when it was remembered (milliseconds
/// since the Unix epoch) and where it came from (`"user"`, `"wiki"`, ...).
pub struct MemoryItem {
    pub content: String,
    pub created_at: i64,
    pub source: String,
}

/// Short-term memory holds the last `max_short_term` items; long-term memory
/// holds all of them.
pub struct Memory {
    pub short_term: VecDeque<MemoryItem>,
    pub long_term: Vec<MemoryItem>,
    pub max_short_term: usize,
}

/// The contents of `items`, in order.
pub open spec fn contents(items: Seq<MemoryItem>) -> Seq<Seq<char>> {
    items.map_values(|m: MemoryItem| m.content@)
}

/// The items whose content holds `keyword`, in order.
pub open spec fn matching(items: Seq<MemoryItem>, keyword: Seq<char>) -> Seq<MemoryItem>
    decreases items.len(),
{
    if items.len() == 0 {
        items
    } else if has_sub(items.last().content@, keyword) {
        matching(items.drop_last(), keyword).push(items.last())
    } else {
        matching(items.drop_last(), keyword)
    }
}

/// The short-term items as lines `- content [source]`.
pub open spec fn memory_lines(items: Seq<MemoryItem>) -> Seq<char>
    decreases items.len(),
{
    if items.len() == 0 {
        Seq::empty()
    } else if items.len() == 1 {
        memory_line(items[0])
    } else {
        memory_lines(items.drop_last()) + "\n"@ + memory_line(items.last())
    }
}

pub open spec fn memory_line(m: MemoryItem) -> Seq<char> {
    "- "@ + m.content@ + " ["@ + m.source@ + "]"@
}

impl Memory {
    /// An empty memory whose short-term part holds ten items.
    pub fn new() -> (r: Self)
        ensures
            r.short_term@.len() == 0,
            r.long_term@.len() == 0,
            r.max_short_term == 10,
    {
        Memory { short_term: VecDeque::new(), long_term: Vec::new(), max_short_term: 10 }
    }

    /// Remembers a phrase: it goes into both memories, and the oldest short-term
    /// item leaves when there are more than `max_short_term`.
    pub fn remember(&mut self, content: &str, source: &str)
        ensures
            contents(final(self).long_term@) == contents(old(self).long_term@).push(content@),
            final(self).long_term@.last().source@ == source@,
            final(self).max_short_term == old(self).max_short_term,
            old(self).short_term@.len() + 1 > old(self).max_short_term ==> contents(
                final(self).short_term@,
            ) == contents(old(self).short_term@.push(final(self).long_term@.last())).drop_first(),
            old(self).short_term@.len() + 1 <= old(self).max_short_term ==> contents(
                final(self).short_term@,
            ) == contents(old(self).short_term@.push(final(self).long_term@.last())),
    {
        let now = now_millis();
        let short = MemoryItem { content: content.to_string(), created_at: now, source: source.to_string() };
        let long = MemoryItem { content: content.to_string(), created_at: now, source: source.to_string() };
        let ghost before = self.short_term@;
        self.short_term.push_back(short);
        let ghost pushed = self.short_term@;
        if self.short_term.len() > self.max_short_term {
            self.short_term.pop_front();
            assert(self.short_term@ =~= pushed.drop_first());
        }
        let ghost lt = self.long_term@;
        self.long_term.push(long);
        assert(contents(self.long_term@) =~= contents(lt).push(content@));
        assert(contents(pushed) =~= contents(before.push(self.long_term@.last())));
        proof {
            if pushed.len() > self.max_short_term {
                assert(contents(pushed.drop_first()) =~= contents(pushed).drop_first());
            }
        }
    }

    /// The contents of the last `count` facts, newest first.
    pub fn last_facts(&self, count: usize) -> (r: Vec<String>)
        ensures
            r@.len() == if count < self.long_term@.len() {
                count as int
            } else {
                self.long_term@.len() as int
            },
            forall|i: int|
                0 <= i < r@.len() ==> #[trigger] r@[i]@ == self.long_term@[self.long_term@.len()
                    - 1 - i].content@,
    {
        let n = self.long_term.len();
        let mut out: Vec<String> = Vec::new();
        let mut i: usize = 0;
        while i < count && i < n
            invariant
                n == self.long_term@.len(),
                i <= n,
                i <= count,
                out@.len() == i,
                forall|j: int|
                    0 <= j < i ==> #[trigger] out@[j]@ == self.long_term@[n - 1 - j].content@,
            decreases n - i,
        {
            out.push(self.long_term[n - 1 - i].content.clone());
            i += 1;
        }
        out
    }

    /// The facts whose content holds the keyword.
    pub fn find(&self, keyword: &str) -> (r: Vec<&MemoryItem>)
        ensures
            r@.map_values(|m: &MemoryItem| *m) == matching(self.long_term@, keyword@),
    {
        let mut out: Vec<&MemoryItem> = Vec::new();
        let mut i: usize = 0;
        assert(self.long_term@.subrange(0, 0) =~= Seq::<MemoryItem>::empty());
        assert(out@.map_values(|m: &MemoryItem| *m) =~= Seq::<MemoryItem>::empty());
        while i < self.long_term.len()
            invariant
                i <= self.long_term@.len(),
                out@.map_values(|m: &MemoryItem| *m) == matching(
                    self.long_term@.subrange(0, i as int),
                    keyword@,
                ),
            decreases self.long_term@.len() - i,
        {
            let ghost sub = self.long_term@.subrange(0, i + 1);
            assert(sub.drop_last() =~= self.long_term@.subrange(0, i as int));
            let item = &self.long_term[i];
            let cv = chars_of(item.content.as_str());
            if contains_str(&cv, keyword) {
                let ghost prev = out@;
                out.push(item);
                assert(out@.map_values(|m: &MemoryItem| *m) =~= prev.map_values(
                    |m: &MemoryItem| *m,
                ).push(*item));
            }
            i += 1;
        }
        assert(self.long_term@.subrange(0, self.long_term@.len() as int) =~= self.long_term@);
        out
    }

    /// The short-term items as lines `- content [source]`.
    pub fn context_summary(&self) -> (r: String)
        ensures
            r@ == memory_lines(self.short_term@),
    {
        let mut out = String::new();
        let mut i: usize = 0;
        assert(self.short_term@.subrange(0, 0) =~= Seq::<MemoryItem>::empty());
        while i < self.short_term.len()
            invariant
                i <= self.short_term@.len(),
                out@ == memory_lines(self.short_term@.subrange(0, i as int)),
            decreases self.short_term@.len() - i,
        {
            let ghost sub = self.short_term@.subrange(0, i + 1);
            assert(sub.drop_last() =~= self.short_term@.subrange(0, i as int));
            if i > 0 {
                out.append("\n");
            }
            out.append("- ");
            out.append(self.short_term[i].content.as_str());
            out.append(" [");
            out.append(self.short_term[i].source.as_str());
            out.append("]");
            proof {
                if i == 0 {
                    assert(out@ =~= memory_line(sub[0]));
                } else {
                    assert(out@ =~= memory_lines(sub.drop_last()) + "\n"@ + memory_line(sub.last()));
                }
            }
            i += 1;
        }
        assert(self.short_term@.subrange(0, self.short_term@.len() as int) =~= self.short_term@);
        out
    }
}

} // verus!
