//! Bounded transcript FIFO: the last three finalized lines, oldest first.
//!
//! The buffer always holds exactly three lines. It starts as three empty
//! strings; every publish evicts the oldest line and appends the new one,
//! so the size never changes.

use vstd::prelude::*;

verus! {

/// The three lines every buffer starts from: all empty.
pub open spec fn initial_lines() -> Seq<Seq<char>> {
    seq![Seq::<char>::empty(), Seq::<char>::empty(), Seq::<char>::empty()]
}

/// The state of a buffer after one publish: the oldest line is evicted,
/// the new line goes to the end.
pub open spec fn after_publish(s: Seq<Seq<char>>, line: Seq<char>) -> Seq<Seq<char>> {
    s.subrange(1, s.len() as int).push(line)
}

/// The state of a buffer after publishing each of `lines` in order.
pub open spec fn after_publishes(s: Seq<Seq<char>>, lines: Seq<Seq<char>>) -> Seq<Seq<char>>
    decreases lines.len(),
{
    if lines.len() == 0 {
        s
    } else {
        after_publishes(after_publish(s, lines[0]), lines.subrange(1, lines.len() as int))
    }
}

/// A fixed-size FIFO of the three most recent finalized transcript lines,
/// index 0 the oldest, index 2 the most recent.
pub struct TranscriptBuffer {
    lines: Vec<String>,
}

impl View for TranscriptBuffer {
    type V = Seq<Seq<char>>;

    closed spec fn view(&self) -> Seq<Seq<char>> {
        self.lines@.map_values(|s: String| s@)
    }
}

impl TranscriptBuffer {
    /// The structural invariant: exactly three lines, always.
    pub open spec fn wf(&self) -> bool {
        self@.len() == 3
    }

    /// A fresh buffer: three empty lines.
    pub fn new() -> (b: TranscriptBuffer)
        ensures
            b.wf(),
            b@ == initial_lines(),
    {
        let mut lines: Vec<String> = Vec::with_capacity(3);
        lines.push(String::new());
        lines.push(String::new());
        lines.push(String::new());
        let b = TranscriptBuffer { lines };
        proof {
            assert(b@ =~= initial_lines());
        }
        b
    }

    /// Evicts the oldest line and appends `line` as the newest, keeping
    /// exactly three entries.
    pub fn publish(&mut self, line: String)
        requires
            old(self).wf(),
        ensures
            final(self).wf(),
            final(self)@ == after_publish(old(self)@, line@),
    {
        self.lines.remove(0);
        self.lines.push(line);
        proof {
            assert(self@ =~= after_publish(old(self)@, line@));
        }
    }

    /// The number of lines held; three for any buffer built by `new` and
    /// grown only through `publish`.
    pub fn len(&self) -> (n: usize)
        ensures
            n == self@.len(),
    {
        self.lines.len()
    }

    /// An atomic copy of the three lines, oldest first, taken under one
    /// borrow of the buffer.
    pub fn snapshot(&self) -> (r: Vec<String>)
        requires
            self.wf(),
        ensures
            r@.len() == 3,
            forall|i: int| 0 <= i < 3 ==> r@[i]@ == self@[i],
    {
        let mut r: Vec<String> = Vec::with_capacity(3);
        r.push(self.lines[0].clone());
        r.push(self.lines[1].clone());
        r.push(self.lines[2].clone());
        r
    }
}

/// Starting from the three empty lines, any sequence of publishes leaves
/// the buffer with exactly three entries.
pub proof fn lemma_always_three(lines: Seq<Seq<char>>)
    ensures
        after_publishes(initial_lines(), lines).len() == 3,
    decreases lines.len(),
{
    lemma_publishes_keep_len(initial_lines(), lines);
}

/// Publishing any sequence of lines leaves the buffer's size unchanged at
/// three, whatever three-line state it starts from.
pub proof fn lemma_publishes_keep_len(s: Seq<Seq<char>>, lines: Seq<Seq<char>>)
    requires
        s.len() == 3,
    ensures
        after_publishes(s, lines).len() == 3,
    decreases lines.len(),
{
    if lines.len() > 0 {
        lemma_publishes_keep_len(after_publish(s, lines[0]), lines.subrange(1, lines.len() as int));
    }
}

/// The FIFO window: four publishes into a fresh buffer leave exactly the
/// last three published lines, oldest first — the first is evicted.
pub proof fn lemma_fifo_window(a: Seq<char>, b: Seq<char>, c: Seq<char>, d: Seq<char>)
    ensures
        after_publishes(initial_lines(), seq![a, b, c, d]) == seq![b, c, d],
{
    let s0 = initial_lines();
    let s1 = after_publish(s0, a);
    let s2 = after_publish(s1, b);
    let s3 = after_publish(s2, c);
    let s4 = after_publish(s3, d);
    assert(seq![a, b, c, d].subrange(1, 4) =~= seq![b, c, d]);
    assert(seq![b, c, d].subrange(1, 3) =~= seq![c, d]);
    assert(seq![c, d].subrange(1, 2) =~= seq![d]);
    assert(seq![d].subrange(1, 1) =~= Seq::<Seq<char>>::empty());
    assert(s1 =~= seq![Seq::<char>::empty(), Seq::<char>::empty(), a]);
    assert(s2 =~= seq![Seq::<char>::empty(), a, b]);
    assert(s3 =~= seq![a, b, c]);
    assert(s4 =~= seq![b, c, d]);
    assert(after_publishes(s0, seq![a, b, c, d]) == after_publishes(s1, seq![b, c, d]));
    assert(after_publishes(s1, seq![b, c, d]) == after_publishes(s2, seq![c, d]));
    assert(after_publishes(s2, seq![c, d]) == after_publishes(s3, seq![d]));
    assert(after_publishes(s3, seq![d]) == after_publishes(s4, Seq::<Seq<char>>::empty()));
    assert(after_publishes(s4, Seq::<Seq<char>>::empty()) == s4);
}

} // verus!
