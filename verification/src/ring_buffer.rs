//! Fixed-capacity ring buffer for single-producer, single-consumer streaming.
//!
//! The capacity `N` must be a power of two no larger than 2^32. The write and
//! read cursors are free-running 32-bit counters; a cursor indexes the
//! storage modulo `N`. Pushing never fails: when the buffer is full the
//! oldest unread slot is overwritten. Popping a slot clears it back to the
//! fill value, so draining an empty region yields that value, as a
//! pass-through audio path expects.
//!
//! Ghost counters track the totals of cursor advances and pops, so the
//! contracts can say exactly which slot each operation touches and that the
//! number of readable samples is the difference of the two totals modulo
//! 2^32.

use vstd::prelude::*;
use vstd::arithmetic::power::{lemma_pow_adds, lemma_pow_strictly_increases, pow};
use vstd::arithmetic::power2::{is_pow2, is_pow2_equiv, lemma2_to64, lemma_pow2};
use vstd::arithmetic::div_mod::{
    lemma_add_mod_noop, lemma_mod_bound, lemma_mod_mod, lemma_sub_mod_noop,
};

verus! {

/// One full revolution of a 32-bit cursor.
pub const CURSOR_SPAN: u64 = 0x1_0000_0000;

/// A power of two is at least one.
proof fn lemma_pow2_at_least_one(n: int)
    requires
        is_pow2(n),
    ensures
        n >= 1,
{
    reveal(is_pow2);
}

/// A counter reduced modulo 2^32 and then modulo a power-of-two capacity
/// dividing 2^32 lands on the same slot as the counter itself.
proof fn lemma_cursor_slot(c: int, n: int)
    requires
        is_pow2(n),
        n <= 0x1_0000_0000,
    ensures
        (c % 0x1_0000_0000) % n == c % n,
{
    lemma_pow2_at_least_one(n);
    is_pow2_equiv(n);
    let i = choose|i: nat| pow(2, i) == n;
    lemma2_to64();
    lemma_pow2(32);
    if i > 32 {
        lemma_pow_strictly_increases(2, 32, i as nat);
        assert(false);
    }
    lemma_pow_adds(2, i, (32 - i) as nat);
    assert(0x1_0000_0000 == n * pow(2, (32 - i) as nat));
    vstd::arithmetic::power::lemma_pow_positive(2, (32 - i) as nat);
    lemma_mod_mod(c, n, pow(2, (32 - i) as nat));
}

/// A lock-step ring buffer of `N` samples with free-running 32-bit cursors.
pub struct RingBuffer<T, const N: usize> {
    /// The stored samples; always exactly `N` of them.
    buf: Vec<T>,
    /// Write cursor: total slots claimed by the producer, modulo 2^32.
    write: u32,
    /// Read cursor: total pops by the consumer, modulo 2^32.
    read: u32,
    /// The fill value: what the buffer starts with and what a popped slot
    /// is cleared back to.
    zero: T,
    /// Total cursor advances since creation (initial offset included).
    writes: Ghost<nat>,
    /// Total pops since creation.
    pops: Ghost<nat>,
}

impl<T: Copy, const N: usize> RingBuffer<T, N> {
    /// The stored samples, oldest-to-newest order determined by the cursors.
    pub closed spec fn storage(self) -> Seq<T> {
        self.buf@
    }

    /// Total write-cursor advances since creation, initial offset included.
    pub closed spec fn total_writes(self) -> nat {
        self.writes@
    }

    /// Total pops since creation.
    pub closed spec fn total_pops(self) -> nat {
        self.pops@
    }

    /// The fill value.
    pub closed spec fn fill_value(self) -> T {
        self.zero
    }

    /// The buffer's internal invariant: a power-of-two capacity that divides
    /// the cursor span, storage of exactly that size, and cursors that are
    /// the ghost totals reduced modulo 2^32.
    pub closed spec fn wf(self) -> bool {
        &&& self.buf@.len() == N
        &&& is_pow2(N as int)
        &&& N <= 0x1_0000_0000
        &&& self.write as int == self.writes@ as int % 0x1_0000_0000
        &&& self.read as int == self.pops@ as int % 0x1_0000_0000
    }

    /// The capacity is part of the invariant; callers may rely on it.
    pub proof fn lemma_wf_properties(&self)
        requires
            self.wf(),
        ensures
            self.storage().len() == N,
            is_pow2(N as int),
            N <= 0x1_0000_0000,
    {
    }

    /// Creates a new ring buffer filled with `zero`, both cursors at zero.
    pub fn new(zero: T) -> (r: Self)
        requires
            is_pow2(N as int),
            N <= 0x1_0000_0000,
        ensures
            r.wf(),
            r.storage() == Seq::new(N as nat, |i: int| zero),
            r.total_writes() == 0,
            r.total_pops() == 0,
            r.fill_value() == zero,
    {
        Self::with_offset(zero, 0)
    }

    /// Creates a new ring buffer with the write cursor already advanced by
    /// `offset`, as if that many slots of `zero` had been produced.
    pub fn with_offset(zero: T, offset: u32) -> (r: Self)
        requires
            is_pow2(N as int),
            N <= 0x1_0000_0000,
        ensures
            r.wf(),
            r.storage() == Seq::new(N as nat, |i: int| zero),
            r.total_writes() == offset,
            r.total_pops() == 0,
            r.fill_value() == zero,
    {
        let mut buf: Vec<T> = Vec::new();
        let mut i: usize = 0;
        while i < N
            invariant
                0 <= i <= N,
                buf@.len() == i,
                forall|j: int| 0 <= j < i ==> buf@[j] == zero,
            decreases N - i,
        {
            buf.push(zero);
            i += 1;
        }
        proof {
            assert(buf@ =~= Seq::new(N as nat, |i: int| zero));
            lemma_mod_bound(offset as int, 0x1_0000_0000);
            vstd::arithmetic::div_mod::lemma_small_mod(offset as nat, 0x1_0000_0000nat);
        }
        RingBuffer {
            buf,
            write: offset,
            read: 0,
            zero,
            writes: Ghost(offset as nat),
            pops: Ghost(0nat),
        }
    }

    /// The slot a cursor value lands on.
    fn slot(&self, cursor: u32) -> (r: usize)
        requires
            self.wf(),
        ensures
            r == cursor as int % N as int,
            r < N,
    {
        proof {
            lemma_pow2_at_least_one(N as int);
            lemma_mod_bound(cursor as int, N as int);
        }
        (cursor as usize) % N
    }

    /// Pushes a single sample, overwriting the oldest unread slot when the
    /// buffer is full; never fails.
    pub fn push(&mut self, v: T)
        requires
            old(self).wf(),
        ensures
            final(self).wf(),
            final(self).storage() == old(self).storage().update(
                old(self).total_writes() as int % N as int,
                v,
            ),
            final(self).total_writes() == old(self).total_writes() + 1,
            final(self).total_pops() == old(self).total_pops(),
            final(self).fill_value() == old(self).fill_value(),
    {
        let w = self.write;
        let idx = self.slot(w);
        proof {
            lemma_cursor_slot(self.writes@ as int, N as int);
        }
        self.buf.set(idx, v);
        self.write = wrap_add(w, 1);
        proof {
            self.writes@ = self.writes@ + 1;
            lemma_add_mod_noop(old(self).writes@ as int, 1, 0x1_0000_0000);
            vstd::arithmetic::div_mod::lemma_small_mod(1nat, 0x1_0000_0000nat);
        }
    }

    /// Pops the oldest unread sample, clearing its slot back to the fill
    /// value and advancing the read cursor. Popping past the write cursor
    /// yields the fill value from previously cleared slots.
    pub fn pop(&mut self) -> (r: T)
        requires
            old(self).wf(),
        ensures
            final(self).wf(),
            r == old(self).storage()[old(self).total_pops() as int % N as int],
            final(self).storage() == old(self).storage().update(
                old(self).total_pops() as int % N as int,
                old(self).fill_value(),
            ),
            final(self).total_pops() == old(self).total_pops() + 1,
            final(self).total_writes() == old(self).total_writes(),
            final(self).fill_value() == old(self).fill_value(),
    {
        let rd = self.read;
        let idx = self.slot(rd);
        proof {
            lemma_cursor_slot(self.pops@ as int, N as int);
        }
        let v = self.buf[idx];
        let zero = self.zero;
        self.buf.set(idx, zero);
        self.read = wrap_add(rd, 1);
        proof {
            self.pops@ = self.pops@ + 1;
            lemma_add_mod_noop(old(self).pops@ as int, 1, 0x1_0000_0000);
            vstd::arithmetic::div_mod::lemma_small_mod(1nat, 0x1_0000_0000nat);
        }
        v
    }

    /// Returns the current write cursor.
    pub fn write_index(&self) -> (r: u32)
        requires
            self.wf(),
        ensures
            r == self.total_writes() as int % 0x1_0000_0000,
    {
        self.write
    }

    /// Advances the write cursor by `n` positions without writing data,
    /// reserving space that is filled by other means.
    pub fn advance_write(&mut self, n: u32)
        requires
            old(self).wf(),
        ensures
            final(self).wf(),
            final(self).storage() == old(self).storage(),
            final(self).total_writes() == old(self).total_writes() + n,
            final(self).total_pops() == old(self).total_pops(),
            final(self).fill_value() == old(self).fill_value(),
    {
        let w = self.write;
        self.write = wrap_add(w, n);
        proof {
            self.writes@ = self.writes@ + n as nat;
            lemma_add_mod_noop(old(self).writes@ as int, n as int, 0x1_0000_0000);
            vstd::arithmetic::div_mod::lemma_small_mod(n as nat, 0x1_0000_0000nat);
        }
    }

    /// The number of samples written but not yet read: the difference of the
    /// write and read totals, modulo 2^32.
    pub fn available_samples(&self) -> (r: u32)
        requires
            self.wf(),
        ensures
            r == (self.total_writes() - self.total_pops()) % 0x1_0000_0000,
    {
        proof {
            lemma_sub_mod_noop(
                self.writes@ as int,
                self.pops@ as int,
                0x1_0000_0000,
            );
        }
        wrap_sub(self.write, self.read)
    }

    /// Reads the sample at `offset` positions past the read cursor.
    pub fn get_at_offset(&self, offset: u32) -> (r: T)
        requires
            self.wf(),
        ensures
            r == self.storage()[(self.total_pops() + offset) as int % N as int],
    {
        let idx = self.slot(wrap_add(self.read, offset));
        proof {
            lemma_add_mod_noop(self.pops@ as int, offset as int, 0x1_0000_0000);
            vstd::arithmetic::div_mod::lemma_small_mod(offset as nat, 0x1_0000_0000nat);
            lemma_cursor_slot((self.pops@ + offset) as int, N as int);
        }
        self.buf[idx]
    }

    /// Replaces the sample at `offset` positions past the read cursor.
    pub fn set_at_offset(&mut self, offset: u32, val: T)
        requires
            old(self).wf(),
        ensures
            final(self).wf(),
            final(self).storage() == old(self).storage().update(
                (old(self).total_pops() + offset) as int % N as int,
                val,
            ),
            final(self).total_writes() == old(self).total_writes(),
            final(self).total_pops() == old(self).total_pops(),
            final(self).fill_value() == old(self).fill_value(),
    {
        let idx = self.slot(wrap_add(self.read, offset));
        proof {
            lemma_add_mod_noop(self.pops@ as int, offset as int, 0x1_0000_0000);
            vstd::arithmetic::div_mod::lemma_small_mod(offset as nat, 0x1_0000_0000nat);
            lemma_cursor_slot((self.pops@ + offset) as int, N as int);
        }
        self.buf.set(idx, val);
    }

    /// Copies the most recently written `dest.len()` samples into `dest`,
    /// oldest first: the i-th entry is the slot `i` places before the write
    /// cursor counting back `dest.len()` positions.
    pub fn latest_block(&self, dest: &mut Vec<T>)
        requires
            self.wf(),
            old(dest)@.len() <= u32::MAX,
        ensures
            final(dest)@.len() == old(dest)@.len(),
            forall|i: int|
                0 <= i < final(dest)@.len() ==> final(dest)@[i] == self.storage()[(
                self.total_writes() - final(dest)@.len() + i) % N as int],
    {
        let w = self.write;
        self.block_from(w, dest);
        proof {
            let len = dest@.len() as int;
            assert forall|i: int| 0 <= i < len implies self.storage()[#[trigger] ((self.write as int
                - len + i) % N as int)] == self.storage()[(self.total_writes() - len + i)
                % N as int] by {
                lemma_sub_mod_noop(self.writes@ as int, len - i, 0x1_0000_0000);
                lemma_cursor_slot(self.writes@ as int - len + i, N as int);
                lemma_cursor_slot(self.write as int - len + i, N as int);
                lemma_sub_mod_noop(self.write as int, len - i, 0x1_0000_0000);
                assert((self.writes@ as int - (len - i)) % 0x1_0000_0000 == (self.write as int - (
                len - i)) % 0x1_0000_0000);
            }
        }
    }

    /// Copies the `dst.len()` samples that end at the given write cursor
    /// value into `dst`, oldest first.
    pub fn block_from(&self, write_idx: u32, dst: &mut Vec<T>)
        requires
            self.wf(),
            old(dst)@.len() <= u32::MAX,
        ensures
            final(dst)@.len() == old(dst)@.len(),
            forall|i: int|
                0 <= i < final(dst)@.len() ==> final(dst)@[i] == self.storage()[(write_idx as int
                    - final(dst)@.len() + i) % N as int],
    {
        let len = dst.len();
        let mut i: usize = 0;
        while i < len
            invariant
                self.wf(),
                i <= len,
                len <= u32::MAX,
                dst@.len() == len,
                forall|j: int|
                    0 <= j < i ==> dst@[j] == self.storage()[(write_idx as int - len + j)
                        % N as int],
            decreases len - i,
        {
            let cursor = wrap_add(wrap_sub(write_idx, len as u32), i as u32);
            let idx = self.slot(cursor);
            proof {
                let m: int = 0x1_0000_0000;
                let a: int = (write_idx as int - len as int) % m;
                lemma_mod_bound(write_idx as int - len as int, m);
                lemma_add_mod_noop(a, i as int, m);
                vstd::arithmetic::div_mod::lemma_small_mod(i as nat, 0x1_0000_0000nat);
                lemma_add_mod_noop(write_idx as int - len as int, i as int, m);
                vstd::arithmetic::div_mod::lemma_mod_twice(write_idx as int - len as int, m);
                assert(cursor as int == (write_idx as int - len as int + i as int) % m);
                lemma_cursor_slot(write_idx as int - len as int + i as int, N as int);
            }
            let v = self.buf[idx];
            dst.set(i, v);
            i += 1;
        }
    }
}

/// The storage after pushing each value of `vs` in order into a buffer of
/// capacity `n` whose write total stands at `writes`: exactly what a
/// sequence of `push` calls does to `storage()`.
pub open spec fn spec_push_all<T>(storage: Seq<T>, writes: nat, vs: Seq<T>, n: nat) -> Seq<T>
    decreases vs.len(),
{
    if vs.len() == 0 {
        storage
    } else {
        spec_push_all(storage.update((writes % n) as int, vs[0]), writes + 1, vs.drop_first(), n)
    }
}

/// The values that `count` consecutive `pop` calls return from a buffer of
/// capacity `n` whose pop total stands at `pops`, each pop clearing its slot
/// to `fill`.
pub open spec fn spec_pop_all<T>(storage: Seq<T>, pops: nat, count: nat, n: nat, fill: T) -> Seq<T>
    decreases count,
{
    if count == 0 {
        Seq::empty()
    } else {
        seq![storage[(pops % n) as int]] + spec_pop_all(
            storage.update((pops % n) as int, fill),
            pops + 1,
            (count - 1) as nat,
            n,
            fill,
        )
    }
}

/// A slot that none of the pushes lands on keeps its value.
proof fn lemma_push_all_untouched<T>(storage: Seq<T>, writes: nat, vs: Seq<T>, n: nat, j: int)
    requires
        n >= 1,
        storage.len() == n,
        0 <= j < n,
        forall|k: int| 0 <= k < vs.len() ==> #[trigger] ((writes + k) as int % n as int) != j,
    ensures
        spec_push_all(storage, writes, vs, n).len() == n,
        spec_push_all(storage, writes, vs, n)[j] == storage[j],
    decreases vs.len(),
{
    if vs.len() > 0 {
        assert((writes + 0) as int % n as int != j);
        let s1 = storage.update((writes % n) as int, vs[0]);
        assert forall|k: int| 0 <= k < vs.drop_first().len() implies #[trigger] (((writes + 1) + k)
            as int % n as int) != j by {
            assert((writes + (k + 1)) as int % n as int != j);
        }
        lemma_push_all_untouched(s1, writes + 1, vs.drop_first(), n, j);
    }
}

/// Pushing commutes with updating a slot that none of the pushes lands on.
proof fn lemma_push_all_update_commutes<T>(
    storage: Seq<T>,
    writes: nat,
    vs: Seq<T>,
    n: nat,
    j: int,
    x: T,
)
    requires
        n >= 1,
        storage.len() == n,
        0 <= j < n,
        forall|k: int| 0 <= k < vs.len() ==> #[trigger] ((writes + k) as int % n as int) != j,
    ensures
        spec_push_all(storage.update(j, x), writes, vs, n) == spec_push_all(
            storage,
            writes,
            vs,
            n,
        ).update(j, x),
    decreases vs.len(),
{
    if vs.len() == 0 {
    } else {
        assert((writes + 0) as int % n as int != j);
        let w = (writes % n) as int;
        vstd::arithmetic::div_mod::lemma_mod_bound(writes as int, n as int);
        assert(storage.update(j, x).update(w, vs[0]) =~= storage.update(w, vs[0]).update(j, x));
        assert forall|k: int| 0 <= k < vs.drop_first().len() implies #[trigger] (((writes + 1) + k)
            as int % n as int) != j by {
            assert((writes + (k + 1)) as int % n as int != j);
        }
        lemma_push_all_update_commutes(
            storage.update(w, vs[0]),
            writes + 1,
            vs.drop_first(),
            n,
            j,
            x,
        );
    }
}

/// Two cursor values less than a capacity apart land on distinct slots.
proof fn lemma_distinct_slots(writes: nat, m: int, n: nat)
    requires
        n >= 1,
        1 <= m < n,
    ensures
        (writes + m) as int % n as int != writes as int % n as int,
{
    vstd::arithmetic::div_mod::lemma_mod_equivalence(writes as int + m, writes as int, n as int);
    vstd::arithmetic::div_mod::lemma_small_mod(m as nat, n);
}

/// Block reads return the pushed values in write order, and pushing beyond
/// the capacity keeps exactly the last `n` values: after pushing `vs`, every
/// push among the last `n` stands in the slot its cursor value selects.
pub proof fn lemma_push_all_contents<T>(storage: Seq<T>, writes: nat, vs: Seq<T>, n: nat, i: int)
    requires
        n >= 1,
        storage.len() == n,
        0 <= i < vs.len(),
        vs.len() <= i + n,
    ensures
        spec_push_all(storage, writes, vs, n).len() == n,
        spec_push_all(storage, writes, vs, n)[(writes + i) as int % n as int] == vs[i],
    decreases vs.len(),
{
    vstd::arithmetic::div_mod::lemma_mod_bound(writes as int + i, n as int);
    let s1 = storage.update((writes % n) as int, vs[0]);
    if i == 0 {
        assert forall|k: int| 0 <= k < vs.drop_first().len() implies #[trigger] (((writes + 1) + k)
            as int % n as int) != (writes + 0) as int % n as int by {
            lemma_distinct_slots(writes, k + 1, n);
            assert((writes + (k + 1)) as int % n as int != writes as int % n as int);
        }
        assert(writes as int % n as int == (writes + 0) as int % n as int);
        lemma_push_all_untouched(s1, writes + 1, vs.drop_first(), n, (writes % n) as int);
        assert(s1[(writes % n) as int] == vs[0]);
    } else {
        lemma_push_all_contents(s1, writes + 1, vs.drop_first(), n, i - 1);
        assert(((writes + 1) + (i - 1)) as int % n as int == (writes + i) as int % n as int);
        assert(vs.drop_first()[i - 1] == vs[i]);
    }
}

/// First in, first out: pushing `vs` (at most the capacity) into a buffer
/// whose write and read cursors stand on the same slot, then popping
/// `vs.len()` times, returns exactly `vs`. In particular a push followed by
/// a pop on an aligned buffer returns the pushed value.
pub proof fn lemma_push_all_then_pop_all<T>(
    storage: Seq<T>,
    writes: nat,
    pops: nat,
    vs: Seq<T>,
    n: nat,
    fill: T,
)
    requires
        n >= 1,
        storage.len() == n,
        writes % n == pops % n,
        vs.len() <= n,
    ensures
        spec_pop_all(spec_push_all(storage, writes, vs, n), pops, vs.len(), n, fill) == vs,
    decreases vs.len(),
{
    if vs.len() == 0 {
        assert(spec_pop_all(spec_push_all(storage, writes, vs, n), pops, 0, n, fill) =~= vs);
    } else {
        let pushed = spec_push_all(storage, writes, vs, n);
        let j = (pops % n) as int;
        vstd::arithmetic::div_mod::lemma_mod_bound(pops as int, n as int);
        lemma_push_all_contents(storage, writes, vs, n, 0);
        assert((writes + 0) as int % n as int == j);
        assert(pushed[j] == vs[0]);

        let s1 = storage.update(j, vs[0]);
        assert forall|k: int| 0 <= k < vs.drop_first().len() implies #[trigger] (((writes + 1) + k)
            as int % n as int) != j by {
            lemma_distinct_slots(writes, k + 1, n);
            assert((writes + (k + 1)) as int % n as int != writes as int % n as int);
            assert(writes as int % n as int == j);
        }
        lemma_push_all_update_commutes(s1, writes + 1, vs.drop_first(), n, j, fill);
        assert(s1.update(j, fill) =~= storage.update(j, fill));
        assert(pushed.update(j, fill) == spec_push_all(
            storage.update(j, fill),
            writes + 1,
            vs.drop_first(),
            n,
        ));

        lemma_add_mod_noop(writes as int, 1, n as int);
        lemma_add_mod_noop(pops as int, 1, n as int);
        lemma_push_all_then_pop_all(
            storage.update(j, fill),
            writes + 1,
            pops + 1,
            vs.drop_first(),
            n,
            fill,
        );
        assert(spec_pop_all(pushed, pops, vs.len(), n, fill) =~= vs);
    }
}

/// 32-bit cursor addition that wraps around the cursor span.
fn wrap_add(a: u32, b: u32) -> (r: u32)
    ensures
        r == (a + b) % 0x1_0000_0000,
{
    proof {
        lemma_mod_bound(a as int + b as int, 0x1_0000_0000);
    }
    (((a as u64) + (b as u64)) % CURSOR_SPAN) as u32
}

/// 32-bit cursor subtraction that wraps around the cursor span.
fn wrap_sub(a: u32, b: u32) -> (r: u32)
    ensures
        r == (a - b) % 0x1_0000_0000,
{
    if a >= b {
        proof {
            vstd::arithmetic::div_mod::lemma_small_mod((a - b) as nat, 0x1_0000_0000nat);
        }
        a - b
    } else {
        let d = ((a as u64) + CURSOR_SPAN) - (b as u64);
        proof {
            vstd::arithmetic::div_mod::lemma_mod_add_multiples_vanish(
                a as int - b as int,
                0x1_0000_0000,
            );
            vstd::arithmetic::div_mod::lemma_small_mod(
                (a as int + 0x1_0000_0000 - b as int) as nat,
                0x1_0000_0000nat,
            );
        }
        d as u32
    }
}

} // verus!
