//! The client's history of recent commands, used for prediction and replay.
//!
//! The buffer is bounded by a span of command frames rather than by a count
//! of entries, so that a burst of commands on one frame does not evict older
//! frames early. The front holds the newest entry, the back the oldest; many
//! entries may share a frame.

use crate::synchronisation::{CommandFrame, ComponentId, EntityId};
use std::collections::VecDeque;
use vstd::prelude::*;

verus! {

broadcast use vstd::std_specs::vecdeque::group_vec_dequeue_axioms;

/// A command together with the component change it caused.
pub struct ClientCommandBufferEntry<C> {
    pub command_frame: CommandFrame,
    pub command: C,
    pub unchanged_data: Vec<u8>,
    pub changed_data: Vec<u8>,
    pub entity_id: EntityId,
    pub component_type: ComponentId,
    pub is_sent: bool,
}

impl<C> ClientCommandBufferEntry<C> {
    pub fn new(
        command: C,
        command_frame: CommandFrame,
        unchanged_data: Vec<u8>,
        changed_data: Vec<u8>,
        entity_id: EntityId,
        component_type: ComponentId,
    ) -> (r: ClientCommandBufferEntry<C>)
        ensures
            r == (ClientCommandBufferEntry {
                command_frame,
                command,
                unchanged_data,
                changed_data,
                entity_id,
                component_type,
                is_sent: false,
            }),
    {
        ClientCommandBufferEntry {
            command,
            command_frame,
            unchanged_data,
            changed_data,
            is_sent: false,
            entity_id,
            component_type,
        }
    }
}

/// `s` without the entries at its back whose frame is `frame`.
pub open spec fn drop_back_frame<C>(s: Seq<ClientCommandBufferEntry<C>>, frame: CommandFrame) -> Seq<ClientCommandBufferEntry<C>>
    decreases s.len(),
{
    if s.len() > 0 && s.last().command_frame == frame {
        drop_back_frame(s.drop_last(), frame)
    } else {
        s
    }
}

/// `s` without the entries at its back whose frame is at most `threshold`.
pub open spec fn drop_back_upto<C>(s: Seq<ClientCommandBufferEntry<C>>, threshold: CommandFrame) -> Seq<ClientCommandBufferEntry<C>>
    decreases s.len(),
{
    if s.len() > 0 && s.last().command_frame <= threshold {
        drop_back_upto(s.drop_last(), threshold)
    } else {
        s
    }
}

/// Whether the frames of `s` never increase from front to back.
pub open spec fn newest_first<C>(s: Seq<ClientCommandBufferEntry<C>>) -> bool {
    forall|i: int, j: int| #![trigger s[i], s[j]] 0 <= i <= j < s.len() ==> s[j].command_frame <= s[i].command_frame
}

proof fn lemma_drop_back_frame<C>(s: Seq<ClientCommandBufferEntry<C>>, frame: CommandFrame)
    requires
        newest_first(s),
    ensures
        drop_back_frame(s, frame).len() <= s.len(),
        drop_back_frame(s, frame) == s.take(drop_back_frame(s, frame).len() as int),
        newest_first(drop_back_frame(s, frame)),
        drop_back_frame(s, frame).len() > 0 ==> drop_back_frame(s, frame).last().command_frame != frame,
        forall|k: int| drop_back_frame(s, frame).len() <= k < s.len() ==> s[k].command_frame == frame,
    decreases s.len(),
{
    if s.len() > 0 && s.last().command_frame == frame {
        lemma_drop_back_frame(s.drop_last(), frame);
        let r = drop_back_frame(s.drop_last(), frame);
        assert(s.drop_last().take(r.len() as int) =~= s.take(r.len() as int));
        assert forall|k: int| r.len() <= k < s.len() implies s[k].command_frame == frame by {
            if k < s.len() - 1 {
                assert(s.drop_last()[k] == s[k]);
            }
        }
    } else {
        assert(s.take(s.len() as int) =~= s);
    }
}

proof fn lemma_drop_back_upto<C>(s: Seq<ClientCommandBufferEntry<C>>, threshold: CommandFrame)
    requires
        newest_first(s),
    ensures
        drop_back_upto(s, threshold).len() <= s.len(),
        drop_back_upto(s, threshold) == s.take(drop_back_upto(s, threshold).len() as int),
        newest_first(drop_back_upto(s, threshold)),
        forall|k: int| 0 <= k < drop_back_upto(s, threshold).len() ==> #[trigger] drop_back_upto(s, threshold)[k].command_frame > threshold,
    decreases s.len(),
{
    if s.len() > 0 && s.last().command_frame <= threshold {
        lemma_drop_back_upto(s.drop_last(), threshold);
        let r = drop_back_upto(s.drop_last(), threshold);
        assert(s.drop_last().take(r.len() as int) =~= s.take(r.len() as int));
    } else {
        assert(s.take(s.len() as int) =~= s);
        if s.len() > 0 {
            assert forall|k: int| 0 <= k < s.len() implies #[trigger] s[k].command_frame > threshold by {
                assert(s[s.len() - 1].command_frame <= s[k].command_frame);
            }
        }
    }
}

proof fn lemma_prefix_in_order<C>(s: Seq<ClientCommandBufferEntry<C>>, n: int, last_seen: CommandFrame)
    requires
        newest_first(s),
        forall|i: int| 0 <= i < s.len() ==> #[trigger] s[i].command_frame <= last_seen,
        0 <= n <= s.len(),
    ensures
        newest_first(s.take(n)),
        forall|i: int| 0 <= i < n ==> #[trigger] s.take(n)[i].command_frame <= last_seen,
        n > 0 ==> s.take(n).last().command_frame >= s.last().command_frame,
{
    assert forall|i: int, j: int| #![trigger s.take(n)[i], s.take(n)[j]] 0 <= i <= j < n implies
        s.take(n)[j].command_frame <= s.take(n)[i].command_frame by {
        assert(s.take(n)[i] == s[i] && s.take(n)[j] == s[j]);
    }
    assert forall|i: int| 0 <= i < n implies #[trigger] s.take(n)[i].command_frame <= last_seen by {
        assert(s.take(n)[i] == s[i]);
    }
    if n > 0 {
        assert(s.take(n).last() == s[n - 1]);
        assert(s[s.len() - 1].command_frame <= s[n - 1].command_frame);
    }
}

pub struct ClientCommandBuffer<C> {
    commands: VecDeque<ClientCommandBufferEntry<C>>,
    max_command_frame_capacity: u32,
    last_seen_command_frame: CommandFrame,
    oldest_seen_command_frame: CommandFrame,
}

impl<C> ClientCommandBuffer<C> {
    /// The frames never increase from front to back, none lies past the last
    /// frame seen, and the oldest frame is that of the back entry.
    pub closed spec fn wf(&self) -> bool {
        let s = self.commands@;
        &&& newest_first(s)
        &&& forall|i: int| 0 <= i < s.len() ==> #[trigger] s[i].command_frame <= self.last_seen_command_frame
        &&& s.len() > 0 ==> self.oldest_seen_command_frame == s.last().command_frame
        &&& self.oldest_seen_command_frame <= self.last_seen_command_frame
    }

    /// The entries, newest first.
    pub closed spec fn entries(&self) -> Seq<ClientCommandBufferEntry<C>> {
        self.commands@
    }

    pub closed spec fn spec_capacity(&self) -> u32 {
        self.max_command_frame_capacity
    }

    pub closed spec fn spec_last_seen(&self) -> CommandFrame {
        self.last_seen_command_frame
    }

    pub closed spec fn spec_oldest_seen(&self) -> CommandFrame {
        self.oldest_seen_command_frame
    }

    /// The frames seen span fewer frames than the capacity: the buffer holds
    /// at most `capacity` distinct frames.
    pub open spec fn span_below_capacity(&self) -> bool {
        self.spec_last_seen() - self.spec_oldest_seen() < self.spec_capacity()
    }

    /// The entries that `iter_history(frames_in_history)` yields.
    pub open spec fn history(&self, frames_in_history: u32) -> Seq<ClientCommandBufferEntry<C>> {
        let reach = if frames_in_history > self.spec_last_seen() { self.spec_last_seen() } else { frames_in_history };
        let threshold = self.spec_last_seen() - reach;
        self.entries().filter(|e: ClientCommandBufferEntry<C>| e.command_frame >= threshold && !e.is_sent)
    }

    pub fn with_capacity(capacity: u32) -> (r: ClientCommandBuffer<C>)
        ensures
            r.wf(),
            r.entries() == Seq::<ClientCommandBufferEntry<C>>::empty(),
            r.spec_capacity() == capacity,
            r.spec_last_seen() == 0,
            r.spec_oldest_seen() == 0,
            capacity >= 1 ==> r.span_below_capacity(),
    {
        ClientCommandBuffer {
            commands: VecDeque::new(),
            max_command_frame_capacity: capacity,
            last_seen_command_frame: 0,
            oldest_seen_command_frame: 0,
        }
    }

    /// Widens the span of retained frames by `size`.
    pub fn grow(&mut self, size: u32)
        requires
            old(self).wf(),
            old(self).spec_capacity() + size <= u32::MAX,
        ensures
            final(self).wf(),
            final(self).spec_capacity() == old(self).spec_capacity() + size,
            final(self).entries() == old(self).entries(),
            final(self).spec_last_seen() == old(self).spec_last_seen(),
            final(self).spec_oldest_seen() == old(self).spec_oldest_seen(),
            old(self).span_below_capacity() ==> final(self).span_below_capacity(),
    {
        self.max_command_frame_capacity = self.max_command_frame_capacity + size;
    }

    /// Narrows the span of retained frames by `size`, evicting every entry
    /// whose frame falls outside the narrower span.
    pub fn shrink(&mut self, size: u32)
        requires
            old(self).wf(),
            size <= old(self).spec_capacity(),
        ensures
            final(self).wf(),
            final(self).spec_capacity() == old(self).spec_capacity() - size,
            final(self).spec_last_seen() == old(self).spec_last_seen(),
            final(self).entries() == if old(self).spec_last_seen() >= final(self).spec_capacity() {
                drop_back_upto(old(self).entries(), (old(self).spec_last_seen() - final(self).spec_capacity()) as u32)
            } else {
                old(self).entries()
            },
            forall|k: int| 0 <= k < final(self).entries().len() ==>
                #[trigger] final(self).entries()[k].command_frame + final(self).spec_capacity() > final(self).spec_last_seen(),
            final(self).spec_capacity() >= 1 ==> final(self).span_below_capacity(),
    {
        self.max_command_frame_capacity = self.max_command_frame_capacity - size;
        let capacity = self.max_command_frame_capacity;
        let last_seen = self.last_seen_command_frame;
        if last_seen >= capacity {
            let threshold = last_seen - capacity;
            let ghost orig = self.commands@;
            proof {
                lemma_drop_back_upto(orig, threshold);
            }
            while self.commands.len() > 0 && self.commands[self.commands.len() - 1].command_frame <= threshold
                invariant
                    newest_first(orig),
                    forall|i: int| 0 <= i < orig.len() ==> #[trigger] orig[i].command_frame <= last_seen,
                    self.last_seen_command_frame == last_seen,
                    self.max_command_frame_capacity == capacity,
                    drop_back_upto(self.commands@, threshold) == drop_back_upto(orig, threshold),
                    self.commands@ == orig.take(self.commands@.len() as int),
                    self.commands@.len() <= orig.len(),
                decreases self.commands@.len(),
            {
                self.commands.pop_back();
                proof {
                    assert(self.commands@ =~= orig.take(self.commands@.len() as int));
                }
            }
            proof {
                assert(self.commands@ == drop_back_upto(orig, threshold));
                lemma_prefix_in_order(orig, self.commands@.len() as int, last_seen);
            }
        } else {
            proof {
                assert forall|k: int| 0 <= k < self.commands@.len() implies
                    #[trigger] self.commands@[k].command_frame + capacity > last_seen by {
                    assert(self.commands@[k].command_frame <= last_seen);
                }
            }
        }
        self.reset_oldest();
    }

    /// Points the oldest frame at the back entry, or at the last frame seen
    /// when the buffer is empty.
    fn reset_oldest(&mut self)
        requires
            newest_first(old(self).commands@),
            forall|i: int| 0 <= i < old(self).commands@.len() ==> #[trigger] old(self).commands@[i].command_frame <= old(self).last_seen_command_frame,
        ensures
            final(self).commands@ == old(self).commands@,
            final(self).max_command_frame_capacity == old(self).max_command_frame_capacity,
            final(self).last_seen_command_frame == old(self).last_seen_command_frame,
            final(self).oldest_seen_command_frame == if old(self).commands@.len() > 0 {
                old(self).commands@.last().command_frame
            } else {
                old(self).last_seen_command_frame
            },
    {
        let len = self.commands.len();
        if len > 0 {
            self.oldest_seen_command_frame = self.commands[len - 1].command_frame;
        } else {
            self.oldest_seen_command_frame = self.last_seen_command_frame;
        }
    }

    /// Records a command issued on `command_frame` with the component bytes
    /// before and after it. When the frames seen reach the capacity, the
    /// oldest frame is evicted entirely first.
    pub fn push(
        &mut self,
        command: C,
        command_frame: CommandFrame,
        unchanged_data: Vec<u8>,
        changed_data: Vec<u8>,
        entity_id: EntityId,
        component_type: ComponentId,
    )
        requires
            old(self).wf(),
            command_frame >= old(self).spec_last_seen(),
        ensures
            final(self).wf(),
            ({
                let evicts = old(self).entries().len() > 0
                    && command_frame - old(self).spec_oldest_seen() == old(self).spec_capacity();
                let kept = if evicts {
                    drop_back_frame(old(self).entries(), old(self).spec_oldest_seen())
                } else {
                    old(self).entries()
                };
                &&& final(self).entries() == seq![
                    ClientCommandBufferEntry {
                        command_frame,
                        command,
                        unchanged_data,
                        changed_data,
                        entity_id,
                        component_type,
                        is_sent: false,
                    },
                ] + kept
                &&& final(self).spec_oldest_seen() == if kept.len() > 0 {
                    kept.last().command_frame
                } else {
                    command_frame
                }
            }),
            final(self).spec_last_seen() == command_frame,
            final(self).spec_capacity() == old(self).spec_capacity(),
            old(self).span_below_capacity() && (old(self).entries().len() > 0 ==> command_frame <= old(self).spec_last_seen() + 1)
                ==> final(self).span_below_capacity(),
    {
        let ghost old_oldest = self.oldest_seen_command_frame;
        self.last_seen_command_frame = command_frame;
        let len = self.commands.len();
        if len > 0 && command_frame - self.oldest_seen_command_frame == self.max_command_frame_capacity {
            let ghost orig = self.commands@;
            // The span is full: the oldest frame leaves, with all its entries.
            self.clear_back_frame(back_frame(&self.commands));
            proof {
                lemma_drop_back_frame(orig, old_oldest);
                lemma_prefix_in_order(orig, self.commands@.len() as int, old(self).last_seen_command_frame);
            }
            self.reset_oldest();
        } else if len == 0 {
            self.oldest_seen_command_frame = command_frame;
        }
        let entry = ClientCommandBufferEntry::new(
            command,
            command_frame,
            unchanged_data,
            changed_data,
            entity_id,
            component_type,
        );
        self.commands.push_front(entry);
        proof {
            let s = self.commands@;
            assert(s.last() == s[s.len() - 1]);
            assert forall|i: int, j: int| #![trigger s[i], s[j]] 0 <= i <= j < s.len() implies s[j].command_frame <= s[i].command_frame by {
                if i > 0 {
                    assert(s[i] == s.drop_first()[i - 1]);
                    assert(s[j] == s.drop_first()[j - 1]);
                }
            }
        }
    }

    /// Removes the entries at the back whose frame is `command_frame`.
    fn clear_back_frame(&mut self, command_frame: CommandFrame)
        requires
            newest_first(old(self).commands@),
        ensures
            final(self).commands@ == drop_back_frame(old(self).commands@, command_frame),
            final(self).max_command_frame_capacity == old(self).max_command_frame_capacity,
            final(self).last_seen_command_frame == old(self).last_seen_command_frame,
            final(self).oldest_seen_command_frame == old(self).oldest_seen_command_frame,
    {
        let ghost orig = self.commands@;
        proof {
            lemma_drop_back_frame(orig, command_frame);
        }
        while self.commands.len() > 0 && self.commands[self.commands.len() - 1].command_frame == command_frame
            invariant
                newest_first(orig),
                drop_back_frame(self.commands@, command_frame) == drop_back_frame(orig, command_frame),
                self.commands@ == orig.take(self.commands@.len() as int),
                self.commands@.len() <= orig.len(),
                self.max_command_frame_capacity == old(self).max_command_frame_capacity,
                self.last_seen_command_frame == old(self).last_seen_command_frame,
                self.oldest_seen_command_frame == old(self).oldest_seen_command_frame,
            decreases self.commands@.len(),
        {
            self.commands.pop_back();
            proof {
                assert(self.commands@ =~= orig.take(self.commands@.len() as int));
            }
        }
    }

    /// Removes the entries at the back whose frame is `command_frame`.
    pub fn clear_old(&mut self, command_frame: CommandFrame)
        requires
            old(self).wf(),
        ensures
            final(self).wf(),
            final(self).entries() == drop_back_frame(old(self).entries(), command_frame),
            final(self).spec_capacity() == old(self).spec_capacity(),
            final(self).spec_last_seen() == old(self).spec_last_seen(),
            old(self).span_below_capacity() ==> final(self).span_below_capacity(),
    {
        proof {
            lemma_drop_back_frame(self.commands@, command_frame);
        }
        self.clear_back_frame(command_frame);
        proof {
            lemma_prefix_in_order(old(self).commands@, self.commands@.len() as int, self.last_seen_command_frame);
        }
        self.reset_oldest();
    }

    /// Returns the entries whose frame lies within `frames_in_history` frames
    /// of the last frame seen and that were not sent, newest first.
    pub fn iter_history(&self, frames_in_history: u32) -> (r: Vec<&ClientCommandBufferEntry<C>>)
        ensures
            r@.unref() == self.history(frames_in_history),
    {
        let mut reach = frames_in_history;
        if reach > self.last_seen_command_frame {
            reach = self.last_seen_command_frame;
        }
        let threshold = self.last_seen_command_frame - reach;
        let ghost pred = |e: ClientCommandBufferEntry<C>| e.command_frame >= threshold && !e.is_sent;
        let mut r: Vec<&ClientCommandBufferEntry<C>> = Vec::new();
        let mut i: usize = 0;
        while i < self.commands.len()
            invariant
                i <= self.commands@.len(),
                pred == (|e: ClientCommandBufferEntry<C>| e.command_frame >= threshold && !e.is_sent),
                r@.unref() == self.commands@.take(i as int).filter(pred),
            decreases self.commands@.len() - i,
        {
            let entry = &self.commands[i];
            proof {
                assert(self.commands@.take(i as int + 1) =~= self.commands@.take(i as int).push(*entry));
                self.commands@.take(i as int).lemma_filter_push(*entry, pred);
            }
            if entry.command_frame >= threshold && !entry.is_sent {
                r.push(entry);
                proof {
                    assert(r@.unref() =~= self.commands@.take(i as int + 1).filter(pred));
                }
            }
            i = i + 1;
        }
        proof {
            assert(self.commands@.take(i as int) =~= self.commands@);
        }
        r
    }

    /// Returns every entry, newest first.
    pub fn iter(&self) -> (r: Vec<&ClientCommandBufferEntry<C>>)
        ensures
            r@.unref() == self.entries(),
    {
        let mut r: Vec<&ClientCommandBufferEntry<C>> = Vec::new();
        let mut i: usize = 0;
        while i < self.commands.len()
            invariant
                i <= self.commands@.len(),
                r@.unref() == self.commands@.take(i as int),
            decreases self.commands@.len() - i,
        {
            let entry = &self.commands[i];
            proof {
                assert(self.commands@.take(i as int + 1) =~= self.commands@.take(i as int).push(*entry));
            }
            r.push(entry);
            proof {
                assert(r@.unref() =~= self.commands@.take(i as int + 1));
            }
            i = i + 1;
        }
        proof {
            assert(self.commands@.take(i as int) =~= self.commands@);
        }
        r
    }

    /// Marks the entry at `index` (counted from the newest) as sent or not.
    pub fn set_sent(&mut self, index: usize, is_sent: bool)
        requires
            old(self).wf(),
            index < old(self).entries().len(),
        ensures
            final(self).wf(),
            final(self).entries() == old(self).entries().update(
                index as int,
                ClientCommandBufferEntry { is_sent, ..old(self).entries()[index as int] },
            ),
            final(self).spec_capacity() == old(self).spec_capacity(),
            final(self).spec_last_seen() == old(self).spec_last_seen(),
            final(self).spec_oldest_seen() == old(self).spec_oldest_seen(),
    {
        let ghost before = self.commands@;
        match self.commands.remove(index) {
            Some(mut entry) => {
                entry.is_sent = is_sent;
                self.commands.insert(index, entry);
            },
            None => {},
        }
        proof {
            assert(self.commands@ =~= before.update(
                index as int,
                ClientCommandBufferEntry { is_sent, ..before[index as int] },
            ));
            let s = self.commands@;
            assert forall|i: int, j: int| #![trigger s[i], s[j]] 0 <= i <= j < s.len() implies s[j].command_frame <= s[i].command_frame by {
                assert(s[i].command_frame == before[i].command_frame);
                assert(s[j].command_frame == before[j].command_frame);
            }
            assert forall|i: int| 0 <= i < s.len() implies #[trigger] s[i].command_frame <= self.last_seen_command_frame by {
                assert(s[i].command_frame == before[i].command_frame);
            }
            if s.len() > 0 {
                assert(s.last().command_frame == before.last().command_frame);
            }
        }
    }

    /// The number of entries held.
    pub fn len(&self) -> (r: usize)
        ensures
            r == self.entries().len(),
    {
        self.commands.len()
    }

    /// The span of command frames retained.
    pub fn capacity(&self) -> (r: u32)
        ensures
            r == self.spec_capacity(),
    {
        self.max_command_frame_capacity
    }

    pub fn last_seen(&self) -> (r: CommandFrame)
        ensures
            r == self.spec_last_seen(),
    {
        self.last_seen_command_frame
    }

    pub fn oldest_seen(&self) -> (r: CommandFrame)
        ensures
            r == self.spec_oldest_seen(),
    {
        self.oldest_seen_command_frame
    }
}

/// The frame of the back entry of a non-empty buffer.
fn back_frame<C>(commands: &VecDeque<ClientCommandBufferEntry<C>>) -> (r: CommandFrame)
    requires
        commands@.len() > 0,
    ensures
        r == commands@.last().command_frame,
{
    commands[commands.len() - 1].command_frame
}

/// Whenever the frames seen span fewer frames than the capacity, the last
/// frame seen is at most `capacity` frames ahead of the oldest one.
pub proof fn lemma_span_within_capacity<C>(buffer: &ClientCommandBuffer<C>)
    requires
        buffer.span_below_capacity(),
    ensures
        buffer.spec_last_seen() - buffer.spec_oldest_seen() <= buffer.spec_capacity(),
{
}

} // verus!
