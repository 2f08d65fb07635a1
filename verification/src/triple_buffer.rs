//! Wait-free single-producer/single-consumer handoff of completed display
//! frames: three slots whose roles rotate between "being written", "latest
//! complete" and "being read", so the producer and the consumer never touch
//! the same slot.
//!
//! This module models both endpoints in one value: the producer's operation is
//! [`TripleBuffer::send`], the consumer's is [`TripleBuffer::get`]. The role
//! indices are always pairwise distinct ([`tb_wf`]), which is what rules out
//! torn reads: the slot a `get` hands out is never the slot a `send` writes.

use vstd::prelude::*;

verus! {

/// Mathematical model of the triple buffer: slot contents, the three role
/// indices, the dirty flag, and the value of the most recent completed send.
#[verifier::ext_equal]
pub struct TbModel<T> {
    pub slots: Seq<T>,
    /// Slot the next send writes into.
    pub write: int,
    /// Slot holding the most recently published value.
    pub latest: int,
    /// Slot the consumer last took (and may still be reading).
    pub read: int,
    /// Whether a send has been published that no get has consumed yet.
    pub dirty: bool,
    /// The most recent completed send's value, if any send happened.
    pub published: Option<T>,
}

/// The invariant of every triple-buffer state: three slots, pairwise-distinct
/// role indices, and — whenever a value is pending — the latest slot holds
/// exactly the most recently sent value.
pub open spec fn tb_wf<T>(m: TbModel<T>) -> bool {
    &&& m.slots.len() == 3
    &&& 0 <= m.write < 3
    &&& 0 <= m.latest < 3
    &&& 0 <= m.read < 3
    &&& m.write != m.latest
    &&& m.write != m.read
    &&& m.latest != m.read
    &&& (m.dirty ==> m.published == Some(m.slots[m.latest]))
}

/// A send writes the value into the write slot, then swaps the write and
/// latest roles and marks a value pending.
pub open spec fn send_spec<T>(m: TbModel<T>, value: T) -> TbModel<T> {
    TbModel {
        slots: m.slots.update(m.write, value),
        write: m.latest,
        latest: m.write,
        dirty: true,
        published: Some(value),
        ..m
    }
}

/// A get swaps the read and latest roles and clears the pending flag if a
/// value is pending; otherwise it changes nothing.
pub open spec fn get_spec<T>(m: TbModel<T>) -> TbModel<T> {
    if m.dirty {
        TbModel { read: m.latest, latest: m.read, dirty: false, ..m }
    } else {
        m
    }
}

/// What a get on this state yields: the pending value, or nothing.
pub open spec fn get_result<T>(m: TbModel<T>) -> Option<T> {
    if m.dirty {
        Some(m.slots[m.latest])
    } else {
        None
    }
}

/// A reset replaces all three slots and leaves nothing pending.
pub open spec fn reset_spec<T>(m: TbModel<T>, v0: T, v1: T, v2: T) -> TbModel<T> {
    TbModel { slots: seq![v0, v1, v2], dirty: false, published: Option::None, ..m }
}

/// The triple buffer itself. Exactly one producer and one consumer use it; in
/// this sequential model both operate through the same value, and neither
/// operation ever waits.
pub struct TripleBuffer<T> {
    slots: Vec<T>,
    write_idx: u8,
    latest_idx: u8,
    read_idx: u8,
    dirty: bool,
    published: Ghost<Option<T>>,
}

impl<T> View for TripleBuffer<T> {
    type V = TbModel<T>;

    closed spec fn view(&self) -> TbModel<T> {
        TbModel {
            slots: self.slots@,
            write: self.write_idx as int,
            latest: self.latest_idx as int,
            read: self.read_idx as int,
            dirty: self.dirty,
            published: self.published@,
        }
    }
}

/// Build a triple buffer from three initial slot values. Nothing is pending
/// until the first send.
pub fn init<T>(v0: T, v1: T, v2: T) -> (tb: TripleBuffer<T>)
    ensures
        tb_wf(tb@),
        tb@.slots == seq![v0, v1, v2],
        !tb@.dirty,
        tb@.published == Option::<T>::None,
{
    let mut slots: Vec<T> = Vec::new();
    slots.push(v0);
    slots.push(v1);
    slots.push(v2);
    proof {
        assert(slots@ =~= seq![v0, v1, v2]);
    }
    TripleBuffer {
        slots,
        write_idx: 0,
        latest_idx: 1,
        read_idx: 2,
        dirty: false,
        published: Ghost(Option::None),
    }
}

impl<T> TripleBuffer<T> {
    /// Producer: publish a new value. Returns the now-stale slot content so
    /// the producer can reuse its allocation instead of allocating per frame.
    pub fn send(&mut self, value: T) -> (stale: T)
        requires
            tb_wf(old(self)@),
        ensures
            tb_wf(final(self)@),
            final(self)@ == send_spec(old(self)@, value),
            stale == old(self)@.slots[old(self)@.write],
            final(self)@.published == Some(value),
    {
        let ghost v = value;
        let mut tmp = value;
        self.slots.set_and_swap(self.write_idx as usize, &mut tmp);
        let w: u8 = self.write_idx;
        self.write_idx = self.latest_idx;
        self.latest_idx = w;
        self.dirty = true;
        proof {
            self.published@ = Some(v);
            assert(self@ =~= send_spec(old(self)@, v));
        }
        tmp
    }

    /// Consumer: take the most recent published value not yet seen, or nothing
    /// if no send completed since the last get. The reference handed out is to
    /// the read slot, which no concurrent send writes.
    pub fn get(&mut self) -> (r: Option<&T>)
        requires
            tb_wf(old(self)@),
        ensures
            tb_wf(final(self)@),
            final(self)@ == get_spec(old(self)@),
            r is Some <==> old(self)@.dirty,
            r is Some ==> Some(*r->Some_0) == old(self)@.published,
            r is Some ==> *r->Some_0 == final(self)@.slots[final(self)@.read],
    {
        if self.dirty {
            let l: u8 = self.latest_idx;
            self.latest_idx = self.read_idx;
            self.read_idx = l;
            self.dirty = false;
            proof {
                assert(self@ =~= get_spec(old(self)@));
            }
            Some(&self.slots[self.read_idx as usize])
        } else {
            proof {
                assert(self@ =~= get_spec(old(self)@));
            }
            None
        }
    }

    /// Exclusive access to all three slots at once: replace them all, e.g. to
    /// clear the screen when tearing down emulation state. Afterwards nothing
    /// is pending.
    pub fn reset(&mut self, v0: T, v1: T, v2: T)
        requires
            tb_wf(old(self)@),
        ensures
            tb_wf(final(self)@),
            final(self)@ == reset_spec(old(self)@, v0, v1, v2),
    {
        let ghost g0 = v0;
        let ghost g1 = v1;
        let ghost g2 = v2;
        self.slots.set(0, v0);
        self.slots.set(1, v1);
        self.slots.set(2, v2);
        self.dirty = false;
        proof {
            self.published@ = Option::None;
            assert(self@.slots =~= seq![g0, g1, g2]);
            assert(self@ =~= reset_spec(old(self)@, g0, g1, g2));
        }
    }
}

/// One producer or consumer step, for stating laws over whole histories.
pub enum TbOp<T> {
    DoSend(T),
    DoGet,
}

/// Apply one operation to the model.
pub open spec fn tb_step<T>(m: TbModel<T>, op: TbOp<T>) -> TbModel<T> {
    match op {
        TbOp::DoSend(v) => send_spec(m, v),
        TbOp::DoGet => get_spec(m),
    }
}

/// Apply a whole history of operations, oldest first.
pub open spec fn tb_run<T>(m: TbModel<T>, ops: Seq<TbOp<T>>) -> TbModel<T>
    decreases ops.len(),
{
    if ops.len() == 0 {
        m
    } else {
        tb_step(tb_run(m, ops.drop_last()), ops.last())
    }
}

/// The value of the most recent send in a history, falling back to what was
/// already published before it.
pub open spec fn last_sent<T>(init: Option<T>, ops: Seq<TbOp<T>>) -> Option<T>
    decreases ops.len(),
{
    if ops.len() == 0 {
        init
    } else {
        match ops.last() {
            TbOp::DoSend(v) => Some(v),
            TbOp::DoGet => last_sent(init, ops.drop_last()),
        }
    }
}

/// Triple-buffer freshness. For any interleaving of sends and gets from any
/// well-formed state, the state stays well-formed, and a get yields either
/// nothing or exactly the most recently completed send's value — never an
/// older one, and (by the distinctness of the role indices in [`tb_wf`]) never
/// a slot a send is writing.
/// No torn reads. In every well-formed state the three roles sit on three
/// different slots, so the slot a `get` hands to the consumer is never the
/// slot the next `send` writes into — and a `send` never writes the slot the
/// consumer still holds.
pub proof fn lemma_no_torn_reads<T>(m: TbModel<T>)
    requires
        tb_wf(m),
    ensures
        get_spec(m).read != get_spec(m).write,
        send_spec(m, m.slots[m.write]).write != m.read,
        m.read != m.write,
{
}

pub proof fn lemma_triple_buffer_freshness<T>(m: TbModel<T>, ops: Seq<TbOp<T>>)
    requires
        tb_wf(m),
    ensures
        tb_wf(tb_run(m, ops)),
        tb_run(m, ops).published == last_sent(m.published, ops),
        get_result(tb_run(m, ops)) is Some ==> get_result(tb_run(m, ops)) == last_sent(
            m.published,
            ops,
        ),
    decreases ops.len(),
{
    if ops.len() > 0 {
        lemma_triple_buffer_freshness(m, ops.drop_last());
    }
}

} // verus!
