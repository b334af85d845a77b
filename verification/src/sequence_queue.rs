use vstd::prelude::*;

verus! {

/// `s` is in ascending order.
pub open spec fn sorted(s: Seq<u16>) -> bool {
    forall|i: int, j: int| 0 <= i <= j < s.len() ==> s[i] <= s[j]
}

/// `s` with `x` put after every entry not greater than it.
pub open spec fn insert_sorted(s: Seq<u16>, x: u16) -> Seq<u16>
    decreases s.len(),
{
    if s.len() == 0 {
        seq![x]
    } else if s[0] <= x {
        seq![s[0]] + insert_sorted(s.drop_first(), x)
    } else {
        seq![x] + s
    }
}

/// Inserting at the end of the entries not greater than `x` is `insert_sorted`.
proof fn lemma_insert_sorted(s: Seq<u16>, x: u16, pos: int)
    requires
        0 <= pos <= s.len(),
        forall|i: int| 0 <= i < pos ==> s[i] <= x,
        pos < s.len() ==> x < s[pos],
    ensures
        insert_sorted(s, x) == s.insert(pos, x),
    decreases s.len(),
{
    if s.len() == 0 {
        assert(s.insert(pos, x) =~= seq![x]);
    } else if pos == 0 {
        assert(s.insert(pos, x) =~= seq![x] + s);
    } else {
        let u = s.drop_first();
        assert forall|i: int| 0 <= i < pos - 1 implies u[i] <= x by {
            assert(u[i] == s[i + 1]);
        }
        lemma_insert_sorted(u, x, pos - 1);
        assert(s.insert(pos, x) =~= seq![s[0]] + u.insert(pos - 1, x));
    }
}

/// `a - b` modulo 2^16, as `u16::wrapping_sub` computes it.
pub open spec fn wrapping_distance(a: u16, b: u16) -> int {
    if a >= b { a - b } else { a - b + 65536 }
}

/// Sequence number `seq` lies before `current` on the 16-bit wrapping
/// clock: it is more than half the clock behind.
pub open spec fn passed(seq: u16, current: u16) -> bool {
    wrapping_distance(seq, current) > 32767
}

/// What is left of the ascending sequence `s` after its smallest entries
/// are dropped for as long as they have been passed by `current`.
pub open spec fn drop_passed(s: Seq<u16>, current: u16) -> Seq<u16>
    decreases s.len(),
{
    if s.len() > 0 && passed(s[0], current) {
        drop_passed(s.drop_first(), current)
    } else {
        s
    }
}

/// An event numbered `current` is ignored when, after the passed entries
/// are dropped, the smallest entry left is `current` itself.
pub open spec fn is_ignored(s: Seq<u16>, current: u16) -> bool {
    let rest = drop_passed(s, current);
    rest.len() > 0 && rest[0] == current
}

/// Sequence numbers of requests whose resulting events are to be ignored,
/// kept as a min-queue: the smallest number is always the first one out.
pub struct SequenceQueue {
    seqs: Vec<u16>,
}

impl View for SequenceQueue {
    type V = Seq<u16>;

    /// The queued numbers in ascending order.
    closed spec fn view(&self) -> Seq<u16> {
        self.seqs@
    }
}

impl SequenceQueue {
    /// The queue keeps its numbers in ascending order.
    pub open spec fn wf(&self) -> bool {
        sorted(self@)
    }

    pub fn new() -> (q: SequenceQueue)
        ensures
            q.wf(),
            q@ == Seq::<u16>::empty(),
    {
        SequenceQueue { seqs: Vec::new() }
    }

    pub fn len(&self) -> (n: usize)
        ensures
            n == self@.len(),
    {
        self.seqs.len()
    }

    /// Adds `seq` to the queue.
    pub fn push(&mut self, seq: u16)
        requires
            old(self).wf(),
        ensures
            final(self).wf(),
            final(self)@ == insert_sorted(old(self)@, seq),
            final(self)@.to_multiset() == old(self)@.to_multiset().insert(seq),
    {
        let ghost s0 = self@;
        let mut pos: usize = 0;
        while pos < self.seqs.len() && self.seqs[pos] <= seq
            invariant
                self.seqs@ == s0,
                sorted(s0),
                0 <= pos <= s0.len(),
                forall|i: int| 0 <= i < pos ==> s0[i] <= seq,
            decreases s0.len() - pos,
        {
            pos = pos + 1;
        }
        self.seqs.insert(pos, seq);
        proof {
            s0.insert_ensures(pos as int, seq);
            vstd::seq_lib::to_multiset_insert(s0, pos as int, seq);
            lemma_insert_sorted(s0, seq, pos as int);
            assert(pos < s0.len() ==> seq < s0[pos as int]);
            assert(sorted(self@));
        }
    }

    /// The smallest queued number, if any.
    pub fn peek(&self) -> (r: Option<u16>)
        requires
            self.wf(),
        ensures
            r == (if self@.len() > 0 { Some(self@[0]) } else { None::<u16> }),
            r matches Some(m) ==> forall|i: int| 0 <= i < self@.len() ==> m <= #[trigger] self@[i],
    {
        if self.seqs.len() > 0 {
            Some(self.seqs[0])
        } else {
            None
        }
    }

    /// Removes and returns the smallest queued number, if any.
    pub fn pop(&mut self) -> (r: Option<u16>)
        requires
            old(self).wf(),
        ensures
            final(self).wf(),
            r == (if old(self)@.len() > 0 { Some(old(self)@[0]) } else { None::<u16> }),
            final(self)@ == (if old(self)@.len() > 0 { old(self)@.drop_first() } else { old(self)@ }),
    {
        if self.seqs.len() > 0 {
            let r = self.seqs.remove(0);
            assert(self@ =~= old(self)@.drop_first());
            Some(r)
        } else {
            None
        }
    }

    /// Whether an event numbered `current` would be ignored, without
    /// changing the queue.
    pub fn would_ignore(&self, current: u16) -> (ignore: bool)
        requires
            self.wf(),
        ensures
            ignore == is_ignored(self@, current),
    {
        let ghost s = self@;
        assert(s.skip(0) =~= s);
        let mut i: usize = 0;
        while i < self.seqs.len() && self.seqs[i].wrapping_sub(current) > 32767
            invariant
                self@ == s,
                0 <= i <= s.len(),
                drop_passed(s.skip(i as int), current) == drop_passed(s, current),
            decreases s.len() - i,
        {
            proof {
                assert(s.skip(i as int).drop_first() =~= s.skip(i + 1));
                assert(passed(s.skip(i as int)[0], current));
            }
            i = i + 1;
        }
        proof {
            if i < s.len() {
                assert(!passed(s.skip(i as int)[0], current));
            }
            assert(drop_passed(s.skip(i as int), current) == s.skip(i as int));
        }
        i < self.seqs.len() && self.seqs[i] == current
    }

    /// Decides whether the event numbered `current` is to be ignored: the
    /// queued numbers that `current` has passed are dropped, and the event is
    /// ignored when the smallest number left equals `current` (that number
    /// stays queued).
    pub fn check(&mut self, current: u16) -> (ignore: bool)
        requires
            old(self).wf(),
        ensures
            final(self).wf(),
            final(self)@ == drop_passed(old(self)@, current),
            ignore == is_ignored(old(self)@, current),
    {
        let ghost s0 = self@;
        loop
            invariant
                self.wf(),
                s0 == old(self)@,
                drop_passed(self@, current) == drop_passed(s0, current),
            decreases self@.len(),
        {
            match self.peek() {
                Some(to_ignore) => {
                    if to_ignore.wrapping_sub(current) <= 32767 {
                        assert(!passed(self@[0], current));
                        assert(drop_passed(self@, current) == self@);
                        return to_ignore == current;
                    }
                    assert(passed(self@[0], current));
                    self.pop();
                },
                None => {
                    assert(drop_passed(self@, current) == self@);
                    return false;
                },
            }
        }
    }
}

} // verus!
