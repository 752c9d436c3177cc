//! The message queues of one peer: what came in, and what is to go out. A
//! message to go out is sent on the next tick, or at once when it is
//! urgent. Each queue keeps its messages in arrival order.

use std::collections::VecDeque;
use vstd::prelude::*;

verus! {

broadcast use vstd::std_specs::vecdeque::group_vec_dequeue_axioms;

/// The entries of `s` whose flag in `keep` is `flag`, in their order.
pub open spec fn picked<T>(s: Seq<T>, keep: Seq<bool>, flag: bool) -> Seq<T>
    decreases s.len(),
{
    if s.len() == 0 {
        Seq::empty()
    } else {
        let rest = picked(s.drop_last(), keep, flag);
        if keep[s.len() - 1] == flag {
            rest.push(s.last())
        } else {
            rest
        }
    }
}

proof fn lemma_picked_agree<T>(s: Seq<T>, a: Seq<bool>, b: Seq<bool>, flag: bool)
    requires
        a.len() >= s.len(),
        b.len() >= s.len(),
        forall|i: int| 0 <= i < s.len() ==> a[i] == b[i],
    ensures
        picked(s, a, flag) == picked(s, b, flag),
    decreases s.len(),
{
    if s.len() > 0 {
        lemma_picked_agree(s.drop_last(), a, b, flag);
    }
}

/// `keep` holds, entry by entry, what `filter` answered on `s`.
pub open spec fn filter_picks<T, F: Fn(&T) -> bool>(filter: F, s: Seq<T>, keep: Seq<bool>) -> bool {
    &&& keep.len() == s.len()
    &&& forall|i: int| 0 <= i < keep.len() ==> filter.ensures((&s[i],), #[trigger] keep[i])
}

/// Removes from `queue` the messages that `filter` picks and returns them,
/// with the filter's answers; both parts keep their order.
fn drain_where<T, F: Fn(&T) -> bool>(queue: &mut VecDeque<T>, filter: &F) -> (r: (Vec<T>, Ghost<Seq<bool>>))
    requires
        forall|m: &T| #[trigger] filter.requires((m,)),
    ensures
        filter_picks(*filter, old(queue)@, r.1@),
        r.0@ == picked(old(queue)@, r.1@, true),
        final(queue)@ == picked(old(queue)@, r.1@, false),
{
    let ghost orig = queue@;
    let ghost mut keep: Seq<bool> = Seq::empty();
    let mut drained: Vec<T> = Vec::new();
    let mut i: usize = 0;
    while i < queue.len()
        invariant
            forall|m: &T| #[trigger] filter.requires((m,)),
            orig == old(queue)@,
            keep.len() <= orig.len(),
            queue@.len() == i + (orig.len() - keep.len()),
            forall|k: int| 0 <= k < keep.len() ==> filter.ensures((&orig[k],), #[trigger] keep[k]),
            drained@ == picked(orig.take(keep.len() as int), keep, true),
            queue@ == picked(orig.take(keep.len() as int), keep, false) + orig.skip(keep.len() as int),
            i == picked(orig.take(keep.len() as int), keep, false).len(),
        decreases orig.len() - keep.len(),
    {
        let ghost j = keep.len() as int;
        proof {
            assert(orig.skip(j) =~= seq![orig[j]] + orig.skip(j + 1));
            assert(queue@[i as int] == orig[j]);
            assert(orig.take(j + 1).drop_last() =~= orig.take(j));
        }
        let pick = filter(&queue[i]);
        proof {
            let grown = keep.push(pick);
            lemma_picked_agree(orig.take(j), keep, grown, true);
            lemma_picked_agree(orig.take(j), keep, grown, false);
            keep = grown;
        }
        if pick {
            let m = queue.remove(i);
            match m {
                Some(m) => {
                    drained.push(m);
                },
                None => {},
            }
            proof {
                assert(queue@ =~= picked(orig.take(j + 1), keep, false) + orig.skip(j + 1));
            }
        } else {
            i = i + 1;
            proof {
                assert(queue@ =~= picked(orig.take(j + 1), keep, false) + orig.skip(j + 1));
            }
        }
    }
    proof {
        assert(orig.take(orig.len() as int) =~= orig);
        assert(queue@ =~= picked(orig, keep, false));
    }
    (drained, Ghost(keep))
}

/// Moves every message of `queue` out, in order.
fn drain_all<T>(queue: &mut VecDeque<T>) -> (r: Vec<T>)
    ensures
        r@ == old(queue)@,
        final(queue)@ == Seq::<T>::empty(),
{
    let mut drained: Vec<T> = Vec::new();
    while queue.len() > 0
        invariant
            drained@ + queue@ == old(queue)@,
        decreases queue@.len(),
    {
        let ghost before = queue@;
        let m = queue.pop_front();
        match m {
            Some(m) => {
                drained.push(m);
                proof {
                    assert(drained@ + queue@ =~= old(queue)@) by {
                        assert(before =~= seq![m] + queue@);
                    }
                }
            },
            None => {},
        }
    }
    proof {
        assert(drained@ + queue@ =~= drained@);
    }
    drained
}

/// Moves every message of `from` to the back of `into`, in order.
fn append_all<T>(into: &mut Vec<T>, from: Vec<T>)
    ensures
        final(into)@ == old(into)@ + from@,
{
    let mut from = from;
    into.append(&mut from);
}

pub struct PostBox<In, Out> {
    inbox: VecDeque<In>,
    outgoing: VecDeque<Out>,
    immediate: VecDeque<Out>,
}

impl<In, Out> PostBox<In, Out> {
    /// The received messages, oldest first.
    pub closed spec fn inbox(&self) -> Seq<In> {
        self.inbox@
    }

    /// The messages to send on the next tick, oldest first.
    pub closed spec fn outgoing(&self) -> Seq<Out> {
        self.outgoing@
    }

    /// The messages to send at once, oldest first.
    pub closed spec fn immediate(&self) -> Seq<Out> {
        self.immediate@
    }

    pub fn new() -> (r: PostBox<In, Out>)
        ensures
            r.inbox() == Seq::<In>::empty(),
            r.outgoing() == Seq::<Out>::empty(),
            r.immediate() == Seq::<Out>::empty(),
    {
        PostBox { inbox: VecDeque::new(), outgoing: VecDeque::new(), immediate: VecDeque::new() }
    }

    /// Appends a received message.
    pub fn add_to_inbox(&mut self, event: In)
        ensures
            final(self).inbox() == old(self).inbox().push(event),
            final(self).outgoing() == old(self).outgoing(),
            final(self).immediate() == old(self).immediate(),
    {
        self.inbox.push_back(event);
    }

    /// Returns whether no received message waits.
    pub fn empty_inbox(&self) -> (r: bool)
        ensures
            r == (self.inbox().len() == 0),
    {
        self.inbox.len() == 0
    }

    /// Returns whether no message waits to be sent.
    pub fn empty_outgoing(&self) -> (r: bool)
        ensures
            r == (self.outgoing().len() == 0 && self.immediate().len() == 0),
    {
        self.outgoing.len() == 0 && self.immediate.len() == 0
    }

    /// Queues a message to be sent on the next tick.
    pub fn send(&mut self, event: Out)
        ensures
            final(self).outgoing() == old(self).outgoing().push(event),
            final(self).immediate() == old(self).immediate(),
            final(self).inbox() == old(self).inbox(),
    {
        self.outgoing.push_back(event);
    }

    /// Queues a message to be sent at once.
    pub fn send_immediate(&mut self, event: Out)
        ensures
            final(self).immediate() == old(self).immediate().push(event),
            final(self).outgoing() == old(self).outgoing(),
            final(self).inbox() == old(self).inbox(),
    {
        self.immediate.push_back(event);
    }

    /// Returns the messages to send on the next tick.
    pub fn get_outgoing(&self) -> (r: &VecDeque<Out>)
        ensures
            r@ == self.outgoing(),
    {
        &self.outgoing
    }

    /// Removes and returns the messages to send that `filter` picks, the
    /// urgent ones first; the others stay, in their order.
    pub fn drain_outgoing<F: Fn(&Out) -> bool>(&mut self, filter: F) -> (r: Vec<Out>)
        requires
            forall|m: &Out| #[trigger] filter.requires((m,)),
        ensures
            exists|urgent: Seq<bool>, keep: Seq<bool>| {
                &&& #[trigger] filter_picks(filter, old(self).immediate(), urgent)
                &&& #[trigger] filter_picks(filter, old(self).outgoing(), keep)
                &&& r@ == picked(old(self).immediate(), urgent, true) + picked(old(self).outgoing(), keep, true)
                &&& final(self).immediate() == picked(old(self).immediate(), urgent, false)
                &&& final(self).outgoing() == picked(old(self).outgoing(), keep, false)
            },
            final(self).inbox() == old(self).inbox(),
    {
        let (mut drained, Ghost(urgent)) = drain_where(&mut self.immediate, &filter);
        let (on_tick, Ghost(keep)) = drain_where(&mut self.outgoing, &filter);
        append_all(&mut drained, on_tick);
        assert(filter_picks(filter, old(self).immediate(), urgent));
        assert(filter_picks(filter, old(self).outgoing(), keep));
        drained
    }

    /// Removes and returns every urgent message, then the messages to send
    /// on the tick that `filter` picks; the others stay, in their order.
    pub fn drain_outgoing_with_priority<F: Fn(&Out) -> bool>(&mut self, filter: F) -> (r: Vec<Out>)
        requires
            forall|m: &Out| #[trigger] filter.requires((m,)),
        ensures
            exists|keep: Seq<bool>| {
                &&& #[trigger] filter_picks(filter, old(self).outgoing(), keep)
                &&& r@ == old(self).immediate() + picked(old(self).outgoing(), keep, true)
                &&& final(self).outgoing() == picked(old(self).outgoing(), keep, false)
            },
            final(self).immediate() == Seq::<Out>::empty(),
            final(self).inbox() == old(self).inbox(),
    {
        let mut drained = drain_all(&mut self.immediate);
        let (on_tick, Ghost(keep)) = drain_where(&mut self.outgoing, &filter);
        append_all(&mut drained, on_tick);
        assert(filter_picks(filter, old(self).outgoing(), keep));
        drained
    }

    /// Removes and returns the received messages that `filter` picks; the
    /// others stay, in their order.
    pub fn drain_inbox<F: Fn(&In) -> bool>(&mut self, filter: F) -> (r: Vec<In>)
        requires
            forall|m: &In| #[trigger] filter.requires((m,)),
        ensures
            exists|keep: Seq<bool>| {
                &&& #[trigger] filter_picks(filter, old(self).inbox(), keep)
                &&& r@ == picked(old(self).inbox(), keep, true)
                &&& final(self).inbox() == picked(old(self).inbox(), keep, false)
            },
            final(self).outgoing() == old(self).outgoing(),
            final(self).immediate() == old(self).immediate(),
    {
        let (drained, Ghost(keep)) = drain_where(&mut self.inbox, &filter);
        assert(filter_picks(filter, old(self).inbox(), keep));
        drained
    }

    /// Removes the received message at `index`, if there is one.
    pub fn remove_from_inbox(&mut self, index: usize)
        ensures
            final(self).inbox() == if index < old(self).inbox().len() {
                old(self).inbox().remove(index as int)
            } else {
                old(self).inbox()
            },
            final(self).outgoing() == old(self).outgoing(),
            final(self).immediate() == old(self).immediate(),
    {
        self.inbox.remove(index);
    }

    /// Returns each received message with its position.
    pub fn enumerate_inbox(&self) -> (r: Vec<(usize, &In)>)
        ensures
            r@.len() == self.inbox().len(),
            forall|k: int| 0 <= k < r@.len() ==> (#[trigger] r@[k]).0 == k && *r@[k].1 == self.inbox()[k],
    {
        let mut r: Vec<(usize, &In)> = Vec::new();
        let mut i: usize = 0;
        while i < self.inbox.len()
            invariant
                i <= self.inbox@.len(),
                r@.len() == i,
                forall|k: int| 0 <= k < i ==> (#[trigger] r@[k]).0 == k && *r@[k].1 == self.inbox@[k],
            decreases self.inbox@.len() - i,
        {
            r.push((i, &self.inbox[i]));
            i = i + 1;
        }
        r
    }
}

} // verus!
