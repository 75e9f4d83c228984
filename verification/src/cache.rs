//! The redemption cache: a bounded, insertion-ordered record of the codes that
//! have already been redeemed, together with its line-oriented storage format.

use vstd::prelude::*;
use vstd::std_specs::iter::IteratorSpec;
use vstd::string::StringExecFns;

verus! {

/// The number of codes the cache remembers.
pub const CACHE_LIMIT: usize = 50;

/// The most recent `CACHE_LIMIT` entries of `entries`, in their order.
pub open spec fn latest(entries: Seq<Seq<char>>) -> Seq<Seq<char>> {
    if entries.len() <= CACHE_LIMIT {
        entries
    } else {
        entries.skip(entries.len() - CACHE_LIMIT)
    }
}

/// The cache contents after `values` have been pushed, one after the other,
/// onto a cache that held `entries`.
pub open spec fn pushed_all(entries: Seq<Seq<char>>, values: Seq<Seq<char>>) -> Seq<Seq<char>>
    decreases values.len(),
{
    if values.len() == 0 {
        entries
    } else {
        latest(pushed_all(entries, values.drop_last()).push(values.last()))
    }
}

/// The position of the first line feed in `text`, or `text.len()` if it has none.
pub open spec fn first_break(text: Seq<char>) -> nat
    decreases text.len(),
{
    if text.len() == 0 || text[0] == '\n' {
        0
    } else {
        1 + first_break(text.skip(1))
    }
}

/// `line` without one trailing carriage return.
pub open spec fn without_cr(line: Seq<char>) -> Seq<char> {
    if line.len() > 0 && line.last() == '\r' {
        line.drop_last()
    } else {
        line
    }
}

/// The lines of a stored cache file. Every line feed ends a line; a line ended
/// by a line feed loses one carriage return before it; what follows the last
/// line feed is a line of its own unless it is empty.
pub open spec fn lines(text: Seq<char>) -> Seq<Seq<char>>
    decreases text.len(),
{
    let k = first_break(text) as int;
    if text.len() == 0 {
        Seq::empty()
    } else if k >= text.len() {
        seq![text]
    } else {
        seq![without_cr(text.take(k))] + lines(text.skip(k + 1))
    }
}

/// The stored form of `entries`: one entry per line, a single line feed
/// between two entries and none after the last.
pub open spec fn joined(entries: Seq<Seq<char>>) -> Seq<char>
    decreases entries.len(),
{
    if entries.len() == 0 {
        Seq::empty()
    } else if entries.len() == 1 {
        entries[0]
    } else {
        entries[0] + seq!['\n'] + joined(entries.drop_first())
    }
}

/// Whether a file written from `entries` reads back as the same entries: no
/// entry holds a line feed or ends in a carriage return, and the last one is
/// not empty.
pub open spec fn storable(entries: Seq<Seq<char>>) -> bool {
    &&& forall|i: int| 0 <= i < entries.len() ==> !(#[trigger] entries[i]).contains('\n')
    &&& forall|i: int| 0 <= i < entries.len() ==> without_cr(#[trigger] entries[i]) == entries[i]
    &&& entries.len() > 0 ==> entries.last().len() > 0
}

/// `String::push` appends one character to the string.
pub assume_specification[ String::push ](s: &mut String, ch: char)
    ensures
        final(s)@ == old(s)@.push(ch),
;

/// The codes redeemed so far, oldest first, never more than `CACHE_LIMIT`.
#[derive(Debug)]
pub struct Cache {
    data: Vec<String>,
}

impl View for Cache {
    type V = Seq<Seq<char>>;

    closed spec fn view(&self) -> Seq<Seq<char>> {
        self.data@.map_values(|entry: String| entry@)
    }
}

impl Cache {
    #[verifier::type_invariant]
    spec fn bounded(&self) -> bool {
        self.data.len() <= CACHE_LIMIT
    }

    /// An empty cache.
    pub fn new() -> (cache: Cache)
        ensures
            cache@ == Seq::<Seq<char>>::empty(),
    {
        Cache { data: Vec::with_capacity(CACHE_LIMIT) }
    }

    /// The number of entries.
    pub fn len(&self) -> (n: usize)
        ensures
            n == self@.len(),
            n <= CACHE_LIMIT,
    {
        proof {
            use_type_invariant(self);
        }
        self.data.len()
    }

    /// Reads a cache from the contents of its file, as if every line had been
    /// pushed in turn.
    pub fn from_file(contents: &str) -> (cache: Cache)
        ensures
            cache@ == latest(lines(contents@)),
            cache@.len() <= CACHE_LIMIT,
    {
        broadcast use vstd::string::group_string_axioms;

        let mut cache = Cache::new();
        let mut line = String::new();
        let mut held_cr = false;
        let ghost text = contents@;
        let ghost mut done: Seq<Seq<char>> = Seq::empty();
        let ghost mut start: int = 0;
        let chars = contents.chars();
        assert(chars.remaining() == text);
        proof {
            assert(text.skip(0) == text);
            assert(text.subrange(0, 0) == Seq::<char>::empty());
        }
        for c in it: chars
            invariant
                it.seq() == text,
                0 <= start <= it.index(),
                lines(text) == done + lines(text.skip(start)),
                cache@ == latest(done),
                !text.subrange(start, it.index()).contains('\n'),
                line@ == without_cr(text.subrange(start, it.index())),
                held_cr == (start < it.index() && text[it.index() - 1] == '\r'),
        {
            let ghost i = it.index();
            let ghost open = text.subrange(start, i);
            proof {
                assert(text.subrange(start, i + 1) == open.push(c));
            }
            if c == '\n' {
                proof {
                    lemma_first_break_at(text.skip(start), i - start);
                    assert(text.skip(start).take(i - start) == open);
                    assert(text.skip(start).skip(i - start + 1) == text.skip(i + 1));
                    lemma_latest_push(done, line@);
                    assert(done + (seq![line@] + lines(text.skip(i + 1))) == done.push(line@)
                        + lines(text.skip(i + 1)));
                    done = done.push(line@);
                    start = i + 1;
                    assert(text.subrange(start, i + 1) == Seq::<char>::empty());
                }
                cache.push(line);
                line = String::new();
                held_cr = false;
            } else {
                proof {
                    let grown = open.push(c);
                    assert forall|j: int| 0 <= j < grown.len() implies #[trigger] grown[j]
                        != '\n' by {
                        if j < open.len() {
                            assert(open.contains(open[j]));
                        }
                    }
                    if open.len() > 0 {
                        assert(open.last() == text[i - 1]);
                    }
                    if c == '\r' {
                        assert(open.push(c).drop_last() == open);
                    }
                }
                if held_cr {
                    line.push('\r');
                }
                if c == '\r' {
                    held_cr = true;
                } else {
                    line.push(c);
                    held_cr = false;
                }
            }
        }
        let ghost rest = text.subrange(start, text.len() as int);
        proof {
            assert(text.skip(start) == rest);
            lemma_first_break_none(rest);
            if rest.len() > 0 {
                assert(rest.last() == text[text.len() - 1]);
            }
        }
        if held_cr {
            line.push('\r');
        }
        proof {
            assert(line@ == rest);
        }
        if line.as_str().unicode_len() > 0 {
            proof {
                lemma_latest_push(done, line@);
                assert(done + seq![rest] == done.push(rest));
            }
            cache.push(line);
        } else {
            proof {
                assert(done + Seq::<Seq<char>>::empty() == done);
            }
        }
        cache
    }

    /// Records `value` as redeemed. A full cache forgets its oldest entry
    /// first; the others keep their order.
    pub fn push(&mut self, value: String)
        ensures
            final(self)@ == latest(old(self)@.push(value@)),
            final(self)@.len() <= CACHE_LIMIT,
    {
        proof {
            use_type_invariant(&*self);
        }
        let ghost before = self@;
        let mut data: Vec<String> = Vec::new();
        core::mem::swap(&mut self.data, &mut data);
        if data.len() >= CACHE_LIMIT {
            data.remove(0);
        }
        data.push(value);
        self.data = data;
        assert(self@ == latest(before.push(value@)));
    }

    /// Whether exactly `value` has been recorded.
    pub fn contains(&self, value: &str) -> (found: bool)
        ensures
            found == self@.contains(value@),
    {
        let needle = value.to_owned();
        let mut i: usize = 0;
        while i < self.data.len()
            invariant
                i <= self.data.len(),
                needle@ == value@,
                forall|j: int| 0 <= j < i ==> self@[j] != value@,
            decreases self.data.len() - i,
        {
            if self.data[i] == needle {
                assert(self@[i as int] == value@);
                return true;
            }
            i += 1;
        }
        false
    }

    /// Forgets every entry.
    pub fn bust(&mut self)
        ensures
            final(self)@ == Seq::<Seq<char>>::empty(),
    {
        self.data = Vec::with_capacity(CACHE_LIMIT);
    }

    /// The contents of the cache's file: the entries, oldest first, one per line.
    pub fn write(&self) -> (text: String)
        ensures
            text@ == joined(self@),
    {
        let mut text = String::new();
        let mut i: usize = 0;
        while i < self.data.len()
            invariant
                i <= self.data.len(),
                text@ == joined(self@.take(i as int)),
            decreases self.data.len() - i,
        {
            proof {
                lemma_joined_push(self@.take(i as int), self@[i as int]);
                assert(self@.take(i + 1) == self@.take(i as int).push(self@[i as int]));
            }
            if i > 0 {
                text.push('\n');
            }
            text.append(self.data[i].as_str());
            i += 1;
        }
        assert(self@.take(i as int) == self@);
        text
    }
}

/// However many codes are pushed, the cache holds the most recent
/// `CACHE_LIMIT` of all it was ever given, in the order they were pushed: the
/// oldest leave first. Once `CACHE_LIMIT` codes have been pushed, the cache
/// holds exactly the last `CACHE_LIMIT` of them.
pub proof fn lemma_pushes_keep_latest(entries: Seq<Seq<char>>, values: Seq<Seq<char>>)
    requires
        entries.len() <= CACHE_LIMIT,
    ensures
        pushed_all(entries, values) == latest(entries + values),
        pushed_all(entries, values).len() <= CACHE_LIMIT,
        values.len() >= CACHE_LIMIT ==> pushed_all(entries, values) == values.skip(
            values.len() - CACHE_LIMIT,
        ),
    decreases values.len(),
{
    if values.len() == 0 {
        assert(entries + values == entries);
    } else {
        let front = values.drop_last();
        lemma_pushes_keep_latest(entries, front);
        lemma_latest_push(entries + front, values.last());
        assert((entries + front).push(values.last()) == entries + values);
    }
    if values.len() >= CACHE_LIMIT {
        assert(latest(entries + values) == values.skip(values.len() - CACHE_LIMIT));
    }
}

/// A code is found right after it was pushed. Pushing brings in nothing else:
/// a different string that was not in the cache before is not found after.
pub proof fn lemma_contains_after_push(entries: Seq<Seq<char>>, value: Seq<char>, other: Seq<char>)
    ensures
        latest(entries.push(value)).contains(value),
        other != value && !entries.contains(other) ==> !latest(entries.push(value)).contains(
            other,
        ),
{
    let grown = entries.push(value);
    let kept = latest(grown);
    assert(kept.last() == value);
    if kept.contains(other) && other != value {
        let i = choose|i: int| 0 <= i < kept.len() && kept[i] == other;
        let j = i + (grown.len() - kept.len());
        assert(grown[j] == other);
        assert(entries[j] == other);
    }
}

/// Entries that are `storable` survive being written and read back.
pub proof fn lemma_round_trip(entries: Seq<Seq<char>>)
    requires
        storable(entries),
    ensures
        lines(joined(entries)) == entries,
        entries.len() <= CACHE_LIMIT ==> latest(lines(joined(entries))) == entries,
    decreases entries.len(),
{
    if entries.len() == 0 {
    } else if entries.len() == 1 {
        lemma_first_break_none(entries[0]);
        assert(entries == seq![entries[0]]);
    } else {
        let head = entries[0];
        let rest = entries.drop_first();
        let text = joined(entries);
        assert(rest.last() == entries.last());
        assert forall|i: int| 0 <= i < rest.len() implies !(#[trigger] rest[i]).contains('\n')
            && without_cr(rest[i]) == rest[i] by {
            assert(rest[i] == entries[i + 1]);
        }
        lemma_round_trip(rest);
        assert(text.take(head.len() as int) == head);
        assert(text.skip(head.len() as int + 1) == joined(rest));
        lemma_first_break_at(text, head.len() as int);
        assert(seq![head] + rest == entries);
    }
}

/// A cache that was busted, saved and loaded again is empty.
pub proof fn lemma_busted_round_trip()
    ensures
        latest(lines(joined(Seq::<Seq<char>>::empty()))) == Seq::<Seq<char>>::empty(),
{
}

/// Where `text` has no line feed before position `k` and one at `k`, its
/// first line feed is at `k`.
proof fn lemma_first_break_at(text: Seq<char>, k: int)
    requires
        0 <= k < text.len(),
        text[k] == '\n',
        !text.take(k).contains('\n'),
    ensures
        first_break(text) == k,
    decreases k,
{
    if k > 0 {
        assert(text.take(k)[0] == text[0]);
        assert(text.take(k).contains(text[0]));
        let head = text.take(k);
        let tail = text.skip(1).take(k - 1);
        assert(tail == head.skip(1));
        assert forall|j: int| 0 <= j < tail.len() implies #[trigger] tail[j] != '\n' by {
            assert(head.contains(head[j + 1]));
        }
        lemma_first_break_at(text.skip(1), k - 1);
    }
}

/// A text without a line feed has its first break at its end.
proof fn lemma_first_break_none(text: Seq<char>)
    requires
        !text.contains('\n'),
    ensures
        first_break(text) == text.len(),
        lines(text) == if text.len() == 0 {
            Seq::<Seq<char>>::empty()
        } else {
            seq![text]
        },
    decreases text.len(),
{
    if text.len() > 0 {
        assert(text.contains(text[0]));
        let tail = text.skip(1);
        assert forall|j: int| 0 <= j < tail.len() implies #[trigger] tail[j] != '\n' by {
            assert(text.contains(text[j + 1]));
        }
        lemma_first_break_none(text.skip(1));
    }
}

/// Trimming before a push changes nothing once the result is trimmed.
proof fn lemma_latest_push(entries: Seq<Seq<char>>, value: Seq<char>)
    ensures
        latest(latest(entries).push(value)) == latest(entries.push(value)),
{
}

/// Appending an entry appends its line, after a line feed if it is not the first.
proof fn lemma_joined_push(entries: Seq<Seq<char>>, value: Seq<char>)
    ensures
        joined(entries.push(value)) == if entries.len() == 0 {
            value
        } else {
            joined(entries) + seq!['\n'] + value
        },
    decreases entries.len(),
{
    let all = entries.push(value);
    let feed = seq!['\n'];
    let rest = entries.drop_first();
    if entries.len() == 0 {
        assert(all[0] == value);
    } else if entries.len() == 1 {
        assert(all.drop_first() == seq![value]);
        assert(joined(all.drop_first()) == value);
        assert(all[0] == entries[0]);
    } else {
        assert(all.drop_first() == rest.push(value));
        assert(all[0] == entries[0]);
        lemma_joined_push(rest, value);
        assert(entries[0] + feed + (joined(rest) + feed + value) == entries[0] + feed + joined(
            rest,
        ) + feed + value);
    }
}

} // verus!
