//! Fixed-capacity FIFO ring buffer for audio samples.
//!
//! The capacity is rounded up to the next power of two. Items are stored in a
//! circular array; the buffer's abstract view is the sequence of items that
//! are waiting to be read, oldest first.
use vstd::arithmetic::power2::{lemma_pow2_unfold, pow2};
use vstd::prelude::*;

verus! {

/// Whether `c` is the power of two that `next_power_of_two` gives for `n`:
/// the smallest power of two that is at least `n` (one for zero).
pub open spec fn is_next_power_of_two(n: nat, c: nat) -> bool {
    &&& exists|k: nat| c == pow2(k)
    &&& c >= n
    &&& (c == 1 || c / 2 < n)
}

/// Items that `push_slice` writes: as many of `items_len` as there are free
/// slots.
pub open spec fn slice_push_count(held: nat, cap: nat, items_len: nat) -> nat {
    if items_len + held < cap {
        items_len
    } else {
        (cap - held) as nat
    }
}

/// Items that `pop_slice` reads: as many of the `held` items as the output
/// has room for.
pub open spec fn slice_pop_count(held: nat, out_len: nat) -> nat {
    if out_len < held {
        out_len
    } else {
        held
    }
}

/// Physical slot of the logical position `k`, for `k < 2 * cap`.
pub open spec fn wrap_index(k: int, cap: int) -> int {
    if k < cap {
        k
    } else {
        k - cap
    }
}

/// The first of `p`, `2p`, `4p`, ... that is at least `n`.
pub open spec fn first_doubling_at_least(n: nat, p: nat) -> nat
    decreases (if p >= n { 0 } else { n - p }),
    when p >= 1
{
    if p >= n {
        p
    } else {
        first_doubling_at_least(n, 2 * p)
    }
}

/// What `usize::next_power_of_two` gives for `n`: the first power of two,
/// counting up from one, that is at least `n`.
pub open spec fn next_power_of_two_spec(n: nat) -> nat {
    first_doubling_at_least(n, 1)
}

proof fn lemma_first_doubling(n: nat, p: nat, k: nat)
    requires
        p == pow2(k),
        p >= 1,
        p == 1 || p / 2 < n,
    ensures
        is_next_power_of_two(n, first_doubling_at_least(n, p)),
    decreases (if p >= n { 0 } else { n - p }),
{
    if p < n {
        lemma_pow2_unfold(k + 1);
        lemma_first_doubling(n, 2 * p, k + 1);
    }
}

/// `next_power_of_two_spec(n)` is the smallest power of two that is at
/// least `n` (one for zero).
pub proof fn next_power_of_two_is_least(n: nat)
    ensures
        is_next_power_of_two(n, next_power_of_two_spec(n)),
{
    vstd::arithmetic::power2::lemma2_to64();
    lemma_first_doubling(n, 1, 0);
}

/// Smallest power of two that is at least `n` (one for zero).
fn next_power_of_two(n: usize) -> (c: usize)
    requires
        n <= usize::MAX / 2 + 1,
    ensures
        c == next_power_of_two_spec(n as nat),
        c >= 1,
{
    let mut p: usize = 1;
    while p < n
        invariant
            n <= usize::MAX / 2 + 1,
            p >= 1,
            first_doubling_at_least(n as nat, p as nat) == next_power_of_two_spec(n as nat),
        decreases usize::MAX - p,
    {
        p = p * 2;
    }
    p
}

/// Single-producer single-consumer ring buffer.
pub struct RingBuffer<T> {
    buffer: Vec<T>,
    capacity: usize,
    /// Slot of the oldest item.
    read_idx: usize,
    /// Number of items waiting to be read.
    count: usize,
}

impl<T> RingBuffer<T> {
    /// Internal consistency of the slot array, read position and count.
    pub closed spec fn wf(self) -> bool {
        &&& self.buffer.len() == self.capacity
        &&& self.capacity >= 1
        &&& self.read_idx < self.capacity
        &&& self.count <= self.capacity
    }

    /// Number of slots, fixed when the buffer is made.
    pub closed spec fn spec_capacity(self) -> nat {
        self.capacity as nat
    }

    spec fn slot(self, i: int) -> int {
        wrap_index(self.read_idx + i, self.capacity as int)
    }
}

impl<T> View for RingBuffer<T> {
    type V = Seq<T>;

    /// The items waiting to be read, oldest first.
    closed spec fn view(&self) -> Seq<T> {
        Seq::new(self.count as nat, |i: int| self.buffer@[self.slot(i)])
    }
}

impl<T: Default + Clone> RingBuffer<T> {
    /// Create an empty ring buffer that holds `capacity` items, rounded up
    /// to the next power of two.
    pub fn new(capacity: usize) -> (rb: Self)
        requires
            capacity <= usize::MAX / 2 + 1,
        ensures
            rb.wf(),
            rb@ == Seq::<T>::empty(),
            rb.spec_capacity() == next_power_of_two_spec(capacity as nat),
            rb.spec_capacity() >= 1,
    {
        let capacity = next_power_of_two(capacity);
        let mut buffer: Vec<T> = Vec::new();
        while buffer.len() < capacity
            invariant
                buffer.len() <= capacity,
            decreases capacity - buffer.len(),
        {
            buffer.push(T::default());
        }
        let rb = RingBuffer { buffer, capacity, read_idx: 0, count: 0 };
        assert(rb@ =~= Seq::<T>::empty());
        rb
    }
}

impl<T> RingBuffer<T> {
    /// Number of slots.
    pub fn capacity(&self) -> (c: usize)
        requires
            self.wf(),
        ensures
            c as nat == self.spec_capacity(),
            c >= 1,
            self@.len() <= c,
    {
        self.capacity
    }

    /// Number of items available for reading.
    pub fn len(&self) -> (n: usize)
        requires
            self.wf(),
        ensures
            n == self@.len(),
            n <= self.spec_capacity(),
    {
        self.count
    }

    /// Whether no item is available for reading.
    pub fn is_empty(&self) -> (b: bool)
        requires
            self.wf(),
        ensures
            b == (self@.len() == 0),
    {
        self.len() == 0
    }

    /// Number of free slots for writing.
    pub fn free(&self) -> (n: usize)
        requires
            self.wf(),
        ensures
            n == self.spec_capacity() - self@.len(),
    {
        self.capacity - self.count
    }

    /// Discard every item waiting to be read.
    pub fn clear(&mut self)
        requires
            old(self).wf(),
        ensures
            final(self).wf(),
            final(self)@ == Seq::<T>::empty(),
            final(self).spec_capacity() == old(self).spec_capacity(),
    {
        self.count = 0;
        assert(self@ =~= Seq::<T>::empty());
    }
}

impl<T: Copy> RingBuffer<T> {
    /// Append one item. Returns `false`, leaving the buffer unchanged, when
    /// the buffer is full.
    pub fn push(&mut self, item: T) -> (ok: bool)
        requires
            old(self).wf(),
        ensures
            final(self).wf(),
            ok == (old(self)@.len() < old(self).spec_capacity()),
            ok ==> final(self)@ == old(self)@.push(item),
            !ok ==> final(self)@ == old(self)@,
            final(self)@ == buffer_after(old(self)@, old(self).spec_capacity(), BufferOp::Push(item)),
            (if ok { 1nat } else { 0nat }) == accepted_by(
                old(self)@,
                old(self).spec_capacity(),
                BufferOp::Push(item),
            ),
            final(self).spec_capacity() == old(self).spec_capacity(),
    {
        if self.count >= self.capacity {
            return false;
        }
        let ghost old_view = self@;
        let idx = if self.count < self.capacity - self.read_idx {
            self.read_idx + self.count
        } else {
            self.count - (self.capacity - self.read_idx)
        };
        self.buffer.set(idx, item);
        self.count = self.count + 1;
        assert(self@ =~= old_view.push(item));
        true
    }

    /// Append as many items of `items` as there is room for, in order.
    /// Returns how many were written.
    pub fn push_slice(&mut self, items: &[T]) -> (n: usize)
        requires
            old(self).wf(),
        ensures
            final(self).wf(),
            n as nat == slice_push_count(old(self)@.len(), old(self).spec_capacity(), items@.len()),
            final(self)@ == old(self)@ + items@.take(n as int),
            final(self)@ == buffer_after(
                old(self)@,
                old(self).spec_capacity(),
                BufferOp::PushSlice(items@),
            ),
            n == accepted_by(old(self)@, old(self).spec_capacity(), BufferOp::PushSlice(items@)),
            final(self).spec_capacity() == old(self).spec_capacity(),
    {
        let available = self.capacity - self.count;
        let n = if items.len() < available { items.len() } else { available };
        let ghost start = self@;
        let mut i: usize = 0;
        while i < n
            invariant
                0 <= i <= n,
                n <= items@.len(),
                n <= available,
                available == self.capacity - (start.len() as int),
                self.wf(),
                self.capacity as nat == old(self).spec_capacity(),
                start == old(self)@,
                self@ == start + items@.take(i as int),
                self.count == start.len() + i,
            decreases n - i,
        {
            let ghost before = self@;
            let idx = if self.count < self.capacity - self.read_idx {
                self.read_idx + self.count
            } else {
                self.count - (self.capacity - self.read_idx)
            };
            self.buffer.set(idx, items[i]);
            self.count = self.count + 1;
            assert(self@ =~= before.push(items@[i as int]));
            assert(items@.take(i + 1) =~= items@.take(i as int).push(items@[i as int]));
            i = i + 1;
        }
        n
    }

    /// Remove and return the oldest item, or `None` when the buffer is empty.
    pub fn pop(&mut self) -> (item: Option<T>)
        requires
            old(self).wf(),
        ensures
            final(self).wf(),
            old(self)@.len() == 0 ==> item is None && final(self)@ == old(self)@,
            old(self)@.len() > 0 ==> item == Some(old(self)@[0]) && final(self)@
                == old(self)@.drop_first(),
            final(self)@ == buffer_after(old(self)@, old(self).spec_capacity(), BufferOp::Pop),
            (if item is Some { 1nat } else { 0nat }) == returned_by(old(self)@, BufferOp::<T>::Pop),
            final(self).spec_capacity() == old(self).spec_capacity(),
    {
        if self.count == 0 {
            return None;
        }
        let ghost old_view = self@;
        let item = self.buffer[self.read_idx];
        let next = self.read_idx + 1;
        self.read_idx = if next < self.capacity { next } else { 0 };
        self.count = self.count - 1;
        assert(self@ =~= old_view.drop_first());
        Some(item)
    }

    /// Move as many of the oldest items as fit into `output`, in order.
    /// Returns how many were read; the rest of `output` is left unchanged.
    pub fn pop_slice(&mut self, output: &mut [T]) -> (n: usize)
        requires
            old(self).wf(),
        ensures
            final(self).wf(),
            n as nat == slice_pop_count(old(self)@.len(), old(output)@.len()),
            final(output)@ == old(self)@.take(n as int) + old(output)@.skip(n as int),
            final(self)@ == old(self)@.skip(n as int),
            final(self)@ == buffer_after(
                old(self)@,
                old(self).spec_capacity(),
                BufferOp::PopSlice(old(output)@.len()),
            ),
            n == returned_by(old(self)@, BufferOp::<T>::PopSlice(old(output)@.len())),
            final(self).spec_capacity() == old(self).spec_capacity(),
    {
        let n = if output.len() < self.count { output.len() } else { self.count };
        let ghost start = self@;
        let ghost out0 = output@;
        let mut i: usize = 0;
        while i < n
            invariant
                0 <= i <= n,
                n <= out0.len(),
                n <= start.len(),
                output@.len() == out0.len(),
                self.wf(),
                self.capacity as nat == old(self).spec_capacity(),
                start == old(self)@,
                out0 == old(output)@,
                self@ == start.skip(i as int),
                self.count == start.len() - i,
                output@ == start.take(i as int) + out0.skip(i as int),
            decreases n - i,
        {
            let ghost before = self@;
            let item = self.buffer[self.read_idx];
            assert(item == start[i as int]) by {
                assert(item == before[0]);
            }
            let next = self.read_idx + 1;
            self.read_idx = if next < self.capacity { next } else { 0 };
            self.count = self.count - 1;
            output[i] = item;
            assert(self@ =~= before.drop_first());
            assert(start.skip(i + 1) =~= start.skip(i as int).drop_first());
            assert(output@ =~= start.take(i + 1) + out0.skip(i + 1));
            i = i + 1;
        }
        n
    }
}

/// First in, first out: a buffer holding `held` (within its capacity `cap`)
/// that takes `items` by `push_slice` and is then drained by `pop_slice`
/// into an output long enough for everything waiting gives back `held`
/// followed by the items that fit, in order, and ends empty; it never holds
/// more than `cap` items.
pub proof fn fifo_round_trip<T>(held: Seq<T>, cap: nat, items: Seq<T>, out: Seq<T>)
    requires
        held.len() <= cap,
        out.len() >= held.len() + slice_push_count(held.len(), cap, items.len()),
    ensures
        ({
            let k = slice_push_count(held.len(), cap, items.len());
            let after = held + items.take(k as int);
            let m = slice_pop_count(after.len(), out.len());
            &&& after.len() <= cap
            &&& m == after.len()
            &&& (after.take(m as int) + out.skip(m as int)).take(m as int) == held + items.take(
                k as int,
            )
            &&& after.skip(m as int).len() == 0
        }),
{
    let k = slice_push_count(held.len(), cap, items.len());
    let after = held + items.take(k as int);
    let m = slice_pop_count(after.len(), out.len());
    assert((after.take(m as int) + out.skip(m as int)).take(m as int) =~= after);
}

/// An operation on a ring buffer, as its effect on the waiting items goes.
pub enum BufferOp<T> {
    /// `push` of one item.
    Push(T),
    /// `push_slice` of a slice of items.
    PushSlice(Seq<T>),
    /// `pop` of one item.
    Pop,
    /// `pop_slice` into an output of the given length.
    PopSlice(nat),
}

/// The items waiting after `op` is applied to a buffer of capacity `cap`
/// holding `held`, as the operation's contract gives them.
pub open spec fn buffer_after<T>(held: Seq<T>, cap: nat, op: BufferOp<T>) -> Seq<T> {
    match op {
        BufferOp::Push(x) => if held.len() < cap {
            held.push(x)
        } else {
            held
        },
        BufferOp::PushSlice(items) => held + items.take(
            slice_push_count(held.len(), cap, items.len()) as int,
        ),
        BufferOp::Pop => if held.len() > 0 {
            held.drop_first()
        } else {
            held
        },
        BufferOp::PopSlice(out_len) => held.skip(slice_pop_count(held.len(), out_len) as int),
    }
}

/// Items that `op` takes in.
pub open spec fn accepted_by<T>(held: Seq<T>, cap: nat, op: BufferOp<T>) -> nat {
    match op {
        BufferOp::Push(x) => if held.len() < cap {
            1
        } else {
            0
        },
        BufferOp::PushSlice(items) => slice_push_count(held.len(), cap, items.len()),
        _ => 0,
    }
}

/// Items that `op` hands out.
pub open spec fn returned_by<T>(held: Seq<T>, op: BufferOp<T>) -> nat {
    match op {
        BufferOp::Pop => if held.len() > 0 {
            1
        } else {
            0
        },
        BufferOp::PopSlice(out_len) => slice_pop_count(held.len(), out_len),
        _ => 0,
    }
}

/// The items waiting after the operations `ops`, in order, starting from
/// `held`.
pub open spec fn buffer_after_all<T>(held: Seq<T>, cap: nat, ops: Seq<BufferOp<T>>) -> Seq<T>
    decreases ops.len(),
{
    if ops.len() == 0 {
        held
    } else {
        buffer_after(buffer_after_all(held, cap, ops.drop_last()), cap, ops.last())
    }
}

/// Items taken in over the operations `ops`, starting from `held`.
pub open spec fn total_accepted<T>(held: Seq<T>, cap: nat, ops: Seq<BufferOp<T>>) -> nat
    decreases ops.len(),
{
    if ops.len() == 0 {
        0
    } else {
        total_accepted(held, cap, ops.drop_last()) + accepted_by(
            buffer_after_all(held, cap, ops.drop_last()),
            cap,
            ops.last(),
        )
    }
}

/// Items handed out over the operations `ops`, starting from `held`.
pub open spec fn total_returned<T>(held: Seq<T>, cap: nat, ops: Seq<BufferOp<T>>) -> nat
    decreases ops.len(),
{
    if ops.len() == 0 {
        0
    } else {
        total_returned(held, cap, ops.drop_last()) + returned_by(
            buffer_after_all(held, cap, ops.drop_last()),
            ops.last(),
        )
    }
}

/// The length of a buffer counts its traffic: after any run of pushes and
/// pops on a buffer that started with `held` (empty for a new or cleared
/// buffer), it holds the items it started with plus those accepted minus
/// those returned, and never more than its capacity.
pub proof fn length_counts_traffic<T>(held: Seq<T>, cap: nat, ops: Seq<BufferOp<T>>)
    requires
        held.len() <= cap,
    ensures
        buffer_after_all(held, cap, ops).len() + total_returned(held, cap, ops) == held.len()
            + total_accepted(held, cap, ops),
        buffer_after_all(held, cap, ops).len() <= cap,
    decreases ops.len(),
{
    if ops.len() > 0 {
        length_counts_traffic(held, cap, ops.drop_last());
    }
}

/// The operations that push `items` one by one.
pub open spec fn pushes_of<T>(items: Seq<T>) -> Seq<BufferOp<T>> {
    Seq::new(items.len(), |i: int| BufferOp::Push(items[i]))
}

/// `push_slice` is the same as pushing its items one at a time until one is
/// refused: the pushes leave the same items waiting and accept as many, the
/// first `slice_push_count` of them succeed and every later one fails.
pub proof fn push_slice_is_repeated_push<T>(held: Seq<T>, cap: nat, items: Seq<T>)
    requires
        held.len() <= cap,
    ensures
        buffer_after_all(held, cap, pushes_of(items)) == buffer_after(
            held,
            cap,
            BufferOp::PushSlice(items),
        ),
        total_accepted(held, cap, pushes_of(items)) == slice_push_count(
            held.len(),
            cap,
            items.len(),
        ),
        forall|i: int|
            0 <= i < items.len() ==> (accepted_by(
                #[trigger] buffer_after_all(held, cap, pushes_of(items).take(i)),
                cap,
                BufferOp::Push(items[i]),
            ) == 1) == (i < slice_push_count(held.len(), cap, items.len())),
    decreases items.len(),
{
    lemma_pushes_fill(held, cap, items);
    assert forall|i: int| 0 <= i < items.len() implies (accepted_by(
        #[trigger] buffer_after_all(held, cap, pushes_of(items).take(i)),
        cap,
        BufferOp::Push(items[i]),
    ) == 1) == (i < slice_push_count(held.len(), cap, items.len())) by {
        assert(pushes_of(items).take(i) =~= pushes_of(items.take(i)));
        lemma_pushes_fill(held, cap, items.take(i));
    }
}

/// Pushing `items` one by one appends as many of them as fit.
proof fn lemma_pushes_fill<T>(held: Seq<T>, cap: nat, items: Seq<T>)
    requires
        held.len() <= cap,
    ensures
        buffer_after_all(held, cap, pushes_of(items)) == held + items.take(
            slice_push_count(held.len(), cap, items.len()) as int,
        ),
        total_accepted(held, cap, pushes_of(items)) == slice_push_count(
            held.len(),
            cap,
            items.len(),
        ),
    decreases items.len(),
{
    if items.len() == 0 {
        assert(held + items.take(0) =~= held);
    } else {
        let init = items.drop_last();
        assert(pushes_of(items).drop_last() =~= pushes_of(init));
        lemma_pushes_fill(held, cap, init);
        let k0 = slice_push_count(held.len(), cap, init.len());
        let k = slice_push_count(held.len(), cap, items.len());
        if held.len() + k0 < cap {
            assert(k == items.len());
            assert((held + init.take(k0 as int)).push(items.last()) =~= held + items.take(k as int));
        } else {
            assert(k == k0);
            assert(init.take(k0 as int) =~= items.take(k as int));
        }
    }
}

} // verus!
