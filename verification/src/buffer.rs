//! The ring of frames that a connection keeps in flight.
//!
//! A ring of `capacity` slots is walked by a write cursor and a read cursor.
//! The frames waiting in it are those from the read cursor up to, not
//! including, the write cursor: never more than `capacity - 1`. A push into a
//! ring that already waits on that many frames drops the oldest of them.
//!
//! Contracts speak of a ring through its view, the waiting frames from oldest
//! to newest, and through [`FrameBuffer::after_push`].

use vstd::prelude::*;
use vstd::arithmetic::div_mod::{lemma_mod_self_0, lemma_small_mod};
use crate::frame::Frame;

verus! {

/// The slot `offset` steps after slot `start`, in a ring of `capacity` slots.
spec fn slot_at(start: int, offset: int, capacity: int) -> int {
    if start + offset < capacity {
        start + offset
    } else {
        start + offset - capacity
    }
}

/// The cursor after `cursor`: one further, and from the last slot to the first.
proof fn lemma_next_cursor(cursor: usize, capacity: usize)
    requires
        cursor < capacity,
    ensures
        (cursor + 1) % (capacity as int) == slot_at(cursor as int, 1, capacity as int),
{
    if cursor + 1 < capacity {
        lemma_small_mod((cursor + 1) as nat, capacity as nat);
    } else {
        lemma_mod_self_0(capacity as int);
    }
}

/// A ring of frames with a fixed number of slots.
pub struct FrameBuffer {
    frames: Vec<Option<Frame>>,
    write_index: usize,
    read_index: usize,
    capacity: usize,
}

impl View for FrameBuffer {
    type V = Seq<Frame>;

    /// The frames that wait in the ring, oldest first.
    closed spec fn view(&self) -> Seq<Frame> {
        Seq::new(
            self.occupancy() as nat,
            |i: int|
                self.frames@[slot_at(self.read_index as int, i, self.capacity as int)].unwrap(),
        )
    }
}

impl FrameBuffer {
    /// The number of slots that the ring was made with.
    pub closed spec fn capacity(&self) -> nat {
        self.capacity as nat
    }

    /// Steps from the read cursor to the write cursor.
    spec fn occupancy(&self) -> int {
        if self.write_index >= self.read_index {
            self.write_index - self.read_index
        } else {
            self.capacity - self.read_index + self.write_index
        }
    }

    /// Whether the ring is in order: as many slots as its capacity, both
    /// cursors on a slot, and a frame in every slot from the read cursor up
    /// to the write cursor.
    pub closed spec fn well_formed(&self) -> bool {
        &&& self.frames@.len() == self.capacity
        &&& self.capacity == 0 ==> self.read_index == 0 && self.write_index == 0
        &&& self.capacity > 0 ==> self.read_index < self.capacity && self.write_index
            < self.capacity
        &&& forall|i: int|
            0 <= i < self.occupancy() ==> self.frames@[#[trigger] slot_at(
                self.read_index as int,
                i,
                self.capacity as int,
            )] is Some
    }

    /// The waiting frames after a push: the new frame joins at the end, and
    /// where that would make as many frames as the ring has slots, the oldest
    /// leaves.
    pub open spec fn after_push(capacity: nat, waiting: Seq<Frame>, frame: Frame) -> Seq<Frame> {
        if waiting.len() + 1 < capacity {
            waiting.push(frame)
        } else {
            waiting.push(frame).drop_first()
        }
    }

    /// The waiting frames after pushing `frames` one by one, first to last.
    pub open spec fn after_pushes(capacity: nat, waiting: Seq<Frame>, frames: Seq<Frame>) -> Seq<
        Frame,
    >
        decreases frames.len(),
    {
        if frames.len() == 0 {
            waiting
        } else {
            Self::after_push(
                capacity,
                Self::after_pushes(capacity, waiting, frames.drop_last()),
                frames.last(),
            )
        }
    }

    /// Fewer frames wait in a ring than it has slots.
    pub proof fn lemma_waiting_below_capacity(&self)
        requires
            self.well_formed(),
            self.capacity() >= 1,
        ensures
            self@.len() < self.capacity(),
    {
    }

    /// A ring of `capacity` slots, with no frame waiting.
    pub fn new(capacity: usize) -> (buffer: Self)
        ensures
            buffer.well_formed(),
            buffer.capacity() == capacity,
            buffer@ == Seq::<Frame>::empty(),
    {
        let mut frames: Vec<Option<Frame>> = Vec::with_capacity(capacity);
        let mut filled: usize = 0;
        while filled < capacity
            invariant
                filled <= capacity,
                frames@.len() == filled,
            decreases capacity - filled,
        {
            frames.push(None);
            filled += 1;
        }
        let buffer = FrameBuffer { frames, write_index: 0, read_index: 0, capacity };
        assert(buffer@ =~= Seq::<Frame>::empty());
        buffer
    }

    /// Puts a frame into the ring. Returns `true` where every frame that
    /// waited still waits, `false` where the oldest of them was dropped to
    /// make room.
    pub fn push(&mut self, frame: Frame) -> (kept_all: bool)
        requires
            old(self).well_formed(),
            old(self).capacity() >= 1,
        ensures
            final(self).well_formed(),
            final(self).capacity() == old(self).capacity(),
            final(self)@ == Self::after_push(old(self).capacity(), old(self)@, frame),
            kept_all <==> old(self)@.len() + 1 < old(self).capacity(),
    {
        let ghost before = *self;
        self.frames[self.write_index] = Some(frame);
        let prev_write = self.write_index;
        proof {
            lemma_next_cursor(self.write_index, self.capacity);
            lemma_next_cursor(self.read_index, self.capacity);
        }
        self.write_index = (self.write_index + 1) % self.capacity;

        if self.write_index == self.read_index && self.frames[prev_write].is_some() {
            self.read_index = (self.read_index + 1) % self.capacity;
            proof {
                assert forall|i: int| 0 <= i < self.occupancy() implies self.frames@[#[trigger] slot_at(
                    self.read_index as int,
                    i,
                    self.capacity as int,
                )] is Some by {
                    let slot = slot_at(before.read_index as int, i + 1, before.capacity as int);
                    assert(slot == slot_at(self.read_index as int, i, self.capacity as int));
                    if i + 1 < before.occupancy() {
                        assert(before.frames@[slot] is Some);
                    }
                }
                let expected = Self::after_push(before.capacity(), before@, frame);
                assert(self@.len() == expected.len());
                assert forall|i: int| 0 <= i < self@.len() implies self@[i] == expected[i] by {
                    let slot = slot_at(before.read_index as int, i + 1, before.capacity as int);
                    assert(slot == slot_at(self.read_index as int, i, self.capacity as int));
                }
                assert(self@ =~= expected);
            }
            return false;
        }
        proof {
            assert forall|i: int| 0 <= i < self.occupancy() implies self.frames@[#[trigger] slot_at(
                self.read_index as int,
                i,
                self.capacity as int,
            )] is Some by {
                let slot = slot_at(before.read_index as int, i, before.capacity as int);
                if i < before.occupancy() {
                    assert(before.frames@[slot] is Some);
                }
            }
            let expected = Self::after_push(before.capacity(), before@, frame);
            assert(self@.len() == expected.len());
            assert forall|i: int| 0 <= i < self@.len() implies self@[i] == expected[i] by {
                let slot = slot_at(before.read_index as int, i, before.capacity as int);
                assert(slot == slot_at(self.read_index as int, i, self.capacity as int));
            }
            assert(self@ =~= expected);
        }
        true
    }

    /// Takes the oldest waiting frame out of the ring; `None` where none waits.
    pub fn pop(&mut self) -> (frame: Option<Frame>)
        requires
            old(self).well_formed(),
        ensures
            final(self).well_formed(),
            final(self).capacity() == old(self).capacity(),
            match frame {
                Some(oldest) => old(self)@.len() > 0 && oldest == old(self)@[0] && final(self)@
                    == old(self)@.drop_first(),
                None => old(self)@.len() == 0 && final(self)@ == old(self)@,
            },
    {
        if self.read_index == self.write_index {
            return None;
        }
        let ghost before = *self;
        assert(before.frames@[slot_at(before.read_index as int, 0, before.capacity as int)] is Some);
        let frame = self.frames[self.read_index].take();
        proof {
            lemma_next_cursor(self.read_index, self.capacity);
        }
        self.read_index = (self.read_index + 1) % self.capacity;
        proof {
            assert forall|i: int| 0 <= i < self.occupancy() implies self.frames@[#[trigger] slot_at(
                self.read_index as int,
                i,
                self.capacity as int,
            )] is Some by {
                let slot = slot_at(before.read_index as int, i + 1, before.capacity as int);
                assert(slot == slot_at(self.read_index as int, i, self.capacity as int));
                assert(before.frames@[slot] is Some);
            }
            let expected = before@.drop_first();
            assert(self@.len() == expected.len());
            assert forall|i: int| 0 <= i < self@.len() implies self@[i] == expected[i] by {
                let slot = slot_at(before.read_index as int, i + 1, before.capacity as int);
                assert(slot == slot_at(self.read_index as int, i, self.capacity as int));
            }
            assert(self@ =~= expected);
        }
        frame
    }

    /// Whether no frame waits.
    pub fn is_empty(&self) -> (empty: bool)
        requires
            self.well_formed(),
        ensures
            empty <==> self@.len() == 0,
    {
        self.read_index == self.write_index
    }

    /// The number of waiting frames.
    pub fn len(&self) -> (waiting: usize)
        requires
            self.well_formed(),
        ensures
            waiting == self@.len(),
    {
        if self.write_index >= self.read_index {
            self.write_index - self.read_index
        } else {
            self.capacity - self.read_index + self.write_index
        }
    }

    /// Empties the ring: every slot is cleared and both cursors go back to
    /// the first slot.
    pub fn clear(&mut self)
        requires
            old(self).well_formed(),
        ensures
            final(self).well_formed(),
            final(self).capacity() == old(self).capacity(),
            final(self)@ == Seq::<Frame>::empty(),
    {
        let mut slot: usize = 0;
        while slot < self.capacity
            invariant
                self.capacity == old(self).capacity,
                self.frames@.len() == self.capacity,
            decreases self.capacity - slot,
        {
            self.frames[slot] = None;
            slot += 1;
        }
        self.read_index = 0;
        self.write_index = 0;
        assert(self@ =~= Seq::<Frame>::empty());
    }
}

/// One step in the life of a ring.
pub enum RingOp {
    Push(Frame),
    Pop,
}

/// What a run of steps on an empty ring leaves behind.
pub struct RingHistory {
    /// The frames that wait in the ring, oldest first.
    pub waiting: Seq<Frame>,
    /// Every frame that was pushed, in the order of the pushes.
    pub pushed: Seq<Frame>,
    /// Every frame that a pop returned, in the order of the pops.
    pub popped: Seq<Frame>,
    /// For each popped frame, its place among the pushed ones.
    pub popped_at: Seq<int>,
    /// How many frames were dropped to make room.
    pub dropped: nat,
}

/// The history of a ring of `capacity` slots that starts empty and goes
/// through `ops`, first to last. A pop on a ring in which nothing waits
/// returns nothing and changes nothing.
pub open spec fn history(capacity: nat, ops: Seq<RingOp>) -> RingHistory
    decreases ops.len(),
{
    if ops.len() == 0 {
        RingHistory {
            waiting: Seq::empty(),
            pushed: Seq::empty(),
            popped: Seq::empty(),
            popped_at: Seq::empty(),
            dropped: 0,
        }
    } else {
        let before = history(capacity, ops.drop_last());
        match ops.last() {
            RingOp::Push(frame) => RingHistory {
                waiting: FrameBuffer::after_push(capacity, before.waiting, frame),
                pushed: before.pushed.push(frame),
                dropped: if before.waiting.len() + 1 < capacity {
                    before.dropped
                } else {
                    before.dropped + 1
                },
                ..before
            },
            RingOp::Pop => if before.waiting.len() == 0 {
                before
            } else {
                RingHistory {
                    waiting: before.waiting.drop_first(),
                    popped: before.popped.push(before.waiting[0]),
                    popped_at: before.popped_at.push(before.pushed.len() - before.waiting.len()),
                    ..before
                }
            },
        }
    }
}

/// Pushing into an empty ring, or into any ring that waits on fewer than
/// `capacity - 1` frames, keeps every frame; pushing into a ring that waits
/// on `capacity - 1` frames drops exactly the oldest and keeps the others in
/// their order.
pub proof fn lemma_push_keeps_or_drops_oldest(capacity: nat, waiting: Seq<Frame>, frame: Frame)
    requires
        capacity >= 1,
        waiting.len() < capacity,
    ensures
        ({
            let after = FrameBuffer::after_push(capacity, waiting, frame);
            &&& after.len() < capacity
            &&& waiting.len() + 1 < capacity ==> after == waiting.push(frame)
            &&& waiting.len() + 1 == capacity ==> {
                &&& after.len() == waiting.len()
                &&& after == waiting.push(frame).subrange(1, waiting.len() + 1 as int)
                &&& forall|i: int| 0 <= i < waiting.len() - 1 ==> after[i] == waiting[i + 1]
                &&& capacity > 1 ==> after.last() == frame
            }
        }),
{
}

/// After `frames` are pushed into a ring that waits on `waiting`, the ring
/// waits on the newest `capacity - 1` of all these frames, or on all of them
/// where they are fewer, in the order in which they came.
pub proof fn lemma_pushes_keep_newest(capacity: nat, waiting: Seq<Frame>, frames: Seq<Frame>)
    requires
        capacity >= 1,
        waiting.len() < capacity,
    ensures
        ({
            let all = waiting + frames;
            let after = FrameBuffer::after_pushes(capacity, waiting, frames);
            let kept = if all.len() < capacity {
                all.len()
            } else {
                (capacity - 1) as nat
            };
            &&& after.len() == kept
            &&& after == all.subrange(all.len() - kept, all.len() as int)
        }),
    decreases frames.len(),
{
    let all = waiting + frames;
    let after = FrameBuffer::after_pushes(capacity, waiting, frames);
    if frames.len() == 0 {
        assert(all =~= waiting);
        assert(after =~= all.subrange(0, all.len() as int));
    } else {
        let earlier = frames.drop_last();
        lemma_pushes_keep_newest(capacity, waiting, earlier);
        let before = FrameBuffer::after_pushes(capacity, waiting, earlier);
        assert(waiting + earlier =~= all.drop_last());
        assert(all.last() == frames.last());
        let kept = if all.len() < capacity {
            all.len()
        } else {
            (capacity - 1) as nat
        };
        assert(after =~= all.subrange(all.len() - kept, all.len() as int));
    }
}

/// What holds after any run of pushes and pops on a ring that starts empty.
///
/// Fewer frames wait than the ring has slots. They are the frames pushed
/// last, in the order of the pushes, and as many as were pushed and neither
/// popped nor dropped. The frames popped so far came out in the order in
/// which they went in: each stood further along among the pushed frames than
/// the one popped before it, and all of them before the frames that wait.
pub proof fn lemma_history(capacity: nat, ops: Seq<RingOp>)
    requires
        capacity >= 1,
    ensures
        ({
            let h = history(capacity, ops);
            let first_waiting = h.pushed.len() - h.waiting.len();
            &&& h.waiting.len() < capacity
            &&& h.waiting.len() + h.popped.len() + h.dropped == h.pushed.len()
            &&& h.waiting == h.pushed.subrange(first_waiting, h.pushed.len() as int)
            &&& h.popped_at.len() == h.popped.len()
            &&& forall|k: int|
                0 <= k < h.popped.len() ==> 0 <= #[trigger] h.popped_at[k] < first_waiting
                    && h.popped[k] == h.pushed[h.popped_at[k]]
            &&& forall|j: int, k: int|
                0 <= j < k < h.popped.len() ==> h.popped_at[j] < h.popped_at[k]
        }),
    decreases ops.len(),
{
    let h = history(capacity, ops);
    if ops.len() == 0 {
        assert(h.waiting =~= h.pushed.subrange(0, 0));
    } else {
        lemma_history(capacity, ops.drop_last());
        let before = history(capacity, ops.drop_last());
        let first_waiting = h.pushed.len() - h.waiting.len();
        assert(h.waiting =~= h.pushed.subrange(first_waiting, h.pushed.len() as int));
    }
}

} // verus!
