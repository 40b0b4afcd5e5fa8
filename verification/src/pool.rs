//! Buffer-pool decisions and counters.
//!
//! A pool hands out buffers at least as large as the caller asks for and
//! as its running average of used sizes (the EMA, kept by the caller);
//! a pooled buffer that is too small is replaced. On release a buffer far
//! above the average, or above a hard ceiling, is dropped instead of
//! pooled, so one spike does not pin memory. The counters record every
//! decision; like the atomics they stand for, they wrap around.

use vstd::prelude::*;

verus! {

/// 2^64, the modulus of the wrapping counters.
pub open spec fn counter_modulus() -> int {
    0x1_0000_0000_0000_0000
}

/// The capacity an acquired buffer must have: what the caller asked for,
/// or the average used size when that is larger.
pub fn effective_cap(requested: usize, average_bytes: usize) -> (c: usize)
    ensures
        c == if requested >= average_bytes { requested } else { average_bytes },
        c >= requested,
        c >= average_bytes,
{
    if requested >= average_bytes {
        requested
    } else {
        average_bytes
    }
}

/// Whether a released buffer of capacity `cap` is dropped: it exceeds
/// the pool's threshold (a multiple of the average used size) or the hard
/// ceiling.
pub fn should_drop(cap: usize, threshold_bytes: usize, hard_drop_bytes: usize) -> (d: bool)
    ensures
        d == (cap > threshold_bytes || cap > hard_drop_bytes),
{
    cap > threshold_bytes || cap > hard_drop_bytes
}

/// How an acquire was served.
#[derive(Debug, Clone, Copy, PartialEq, Eq, Structural)]
pub enum AcquireOutcome {
    /// The pool was empty: a fresh buffer of the effective capacity.
    Miss,
    /// A pooled buffer was large enough and is reused.
    Reuse,
    /// A pooled buffer was too small and is replaced by a fresh one.
    Realloc,
}

/// How an acquire is served when the pool gives back a buffer of capacity
/// `pulled_capacity` (`None`: the pool was empty).
pub open spec fn spec_acquire_outcome(pulled_capacity: Option<usize>, effective: usize) -> AcquireOutcome {
    match pulled_capacity {
        None => AcquireOutcome::Miss,
        Some(c) => if c < effective {
            AcquireOutcome::Realloc
        } else {
            AcquireOutcome::Reuse
        },
    }
}

/// Decides an acquire; see [`spec_acquire_outcome`].
pub fn acquire_outcome(pulled_capacity: Option<usize>, effective: usize) -> (o: AcquireOutcome)
    ensures
        o == spec_acquire_outcome(pulled_capacity, effective),
{
    match pulled_capacity {
        None => AcquireOutcome::Miss,
        Some(c) => if c < effective {
            AcquireOutcome::Realloc
        } else {
            AcquireOutcome::Reuse
        },
    }
}

/// An acquired buffer always has at least the effective capacity: a miss
/// or a realloc allocates exactly that, and a pooled buffer is reused only
/// when it is already large enough. Only an empty pool is a miss.
pub proof fn law_acquired_buffer_is_large_enough(pulled_capacity: Option<usize>, effective: usize)
    ensures
        spec_acquire_outcome(pulled_capacity, effective) == AcquireOutcome::Reuse
            ==> pulled_capacity->Some_0 >= effective,
        spec_acquire_outcome(pulled_capacity, effective) == AcquireOutcome::Miss
            <==> pulled_capacity is None,
{
}

/// The pool's counters.
#[derive(Debug, Clone, Copy, PartialEq, Eq, Structural)]
pub struct PoolStats {
    pub acquire_total: u64,
    pub acquire_hits: u64,
    pub acquire_misses: u64,
    pub acquire_reallocs: u64,
    pub release_total: u64,
    pub release_returned: u64,
    pub release_dropped: u64,
    /// The average used size after the last release, times 100.
    pub ema_snapshot_x100: u32,
    pub last_used_bytes: u64,
    /// How many buffers the pool held at the last acquire.
    pub pool_size_snapshot: u32,
}

/// The counters after recording an acquire served with `outcome` from a
/// pool that held `pool_len` buffers.
pub open spec fn spec_after_acquire(s: PoolStats, pool_len: u32, outcome: AcquireOutcome) -> PoolStats {
    PoolStats {
        acquire_total: s.acquire_total.wrapping_add(1),
        acquire_hits: if outcome == AcquireOutcome::Miss {
            s.acquire_hits
        } else {
            s.acquire_hits.wrapping_add(1)
        },
        acquire_misses: if outcome == AcquireOutcome::Miss {
            s.acquire_misses.wrapping_add(1)
        } else {
            s.acquire_misses
        },
        acquire_reallocs: if outcome == AcquireOutcome::Realloc {
            s.acquire_reallocs.wrapping_add(1)
        } else {
            s.acquire_reallocs
        },
        pool_size_snapshot: pool_len,
        ..s
    }
}

/// The counters after recording a release of a buffer that held
/// `used_bytes`, the average then being `ema_x100` hundredths of a byte.
pub open spec fn spec_after_release(s: PoolStats, used_bytes: u64, ema_x100: u32, dropped: bool) -> PoolStats {
    PoolStats {
        release_total: s.release_total.wrapping_add(1),
        release_returned: if dropped {
            s.release_returned
        } else {
            s.release_returned.wrapping_add(1)
        },
        release_dropped: if dropped {
            s.release_dropped.wrapping_add(1)
        } else {
            s.release_dropped
        },
        last_used_bytes: used_bytes,
        ema_snapshot_x100: ema_x100,
        ..s
    }
}

impl PoolStats {
    /// Every acquire is counted as a hit or a miss, every release as
    /// returned or dropped (modulo the counters' wrap-around).
    pub open spec fn consistent(&self) -> bool {
        &&& self.acquire_total as int == (self.acquire_hits + self.acquire_misses)
            % counter_modulus()
        &&& self.release_total as int == (self.release_returned + self.release_dropped)
            % counter_modulus()
    }

    /// All counters at zero.
    pub open spec fn new_spec() -> PoolStats {
        PoolStats {
            acquire_total: 0,
            acquire_hits: 0,
            acquire_misses: 0,
            acquire_reallocs: 0,
            release_total: 0,
            release_returned: 0,
            release_dropped: 0,
            ema_snapshot_x100: 0,
            last_used_bytes: 0,
            pool_size_snapshot: 0,
        }
    }

    /// All counters at zero.
    pub fn new() -> (c: Self)
        ensures
            c == Self::new_spec(),
            c.consistent(),
            c.acquire_total == 0 && c.acquire_hits == 0 && c.acquire_misses == 0,
            c.acquire_reallocs == 0 && c.release_total == 0 && c.release_returned == 0,
            c.release_dropped == 0 && c.ema_snapshot_x100 == 0 && c.last_used_bytes == 0,
            c.pool_size_snapshot == 0,
    {
        PoolStats {
            acquire_total: 0,
            acquire_hits: 0,
            acquire_misses: 0,
            acquire_reallocs: 0,
            release_total: 0,
            release_returned: 0,
            release_dropped: 0,
            ema_snapshot_x100: 0,
            last_used_bytes: 0,
            pool_size_snapshot: 0,
        }
    }

    /// Records an acquire served with `outcome` from a pool that held
    /// `pool_len` buffers.
    pub fn record_acquire(&mut self, pool_len: u32, outcome: AcquireOutcome)
        ensures
            *final(self) == spec_after_acquire(*old(self), pool_len, outcome),
            final(self).acquire_total == old(self).acquire_total.wrapping_add(1),
            final(self).pool_size_snapshot == pool_len,
            final(self).acquire_misses == if outcome == AcquireOutcome::Miss {
                old(self).acquire_misses.wrapping_add(1)
            } else {
                old(self).acquire_misses
            },
            final(self).acquire_hits == if outcome == AcquireOutcome::Miss {
                old(self).acquire_hits
            } else {
                old(self).acquire_hits.wrapping_add(1)
            },
            final(self).acquire_reallocs == if outcome == AcquireOutcome::Realloc {
                old(self).acquire_reallocs.wrapping_add(1)
            } else {
                old(self).acquire_reallocs
            },
            final(self).release_total == old(self).release_total,
            final(self).release_returned == old(self).release_returned,
            final(self).release_dropped == old(self).release_dropped,
            final(self).ema_snapshot_x100 == old(self).ema_snapshot_x100,
            final(self).last_used_bytes == old(self).last_used_bytes,
            old(self).consistent() ==> final(self).consistent(),
    {
        self.acquire_total = self.acquire_total.wrapping_add(1);
        self.pool_size_snapshot = pool_len;
        match outcome {
            AcquireOutcome::Miss => {
                self.acquire_misses = self.acquire_misses.wrapping_add(1);
            },
            AcquireOutcome::Reuse => {
                self.acquire_hits = self.acquire_hits.wrapping_add(1);
            },
            AcquireOutcome::Realloc => {
                self.acquire_hits = self.acquire_hits.wrapping_add(1);
                self.acquire_reallocs = self.acquire_reallocs.wrapping_add(1);
            },
        }
        proof {
            if old(self).consistent() {
                lemma_wrapping_step(
                    old(self).acquire_total,
                    old(self).acquire_hits,
                    old(self).acquire_misses,
                    outcome == AcquireOutcome::Miss,
                );
            }
        }
    }

    /// Records a release of a buffer that held `used_bytes`, after which the
    /// average was `ema_x100` hundredths of a byte; `dropped` when the
    /// buffer was dropped rather than pooled.
    pub fn record_release(&mut self, used_bytes: u64, ema_x100: u32, dropped: bool)
        ensures
            *final(self) == spec_after_release(*old(self), used_bytes, ema_x100, dropped),
            final(self).release_total == old(self).release_total.wrapping_add(1),
            final(self).last_used_bytes == used_bytes,
            final(self).ema_snapshot_x100 == ema_x100,
            final(self).release_dropped == if dropped {
                old(self).release_dropped.wrapping_add(1)
            } else {
                old(self).release_dropped
            },
            final(self).release_returned == if dropped {
                old(self).release_returned
            } else {
                old(self).release_returned.wrapping_add(1)
            },
            final(self).acquire_total == old(self).acquire_total,
            final(self).acquire_hits == old(self).acquire_hits,
            final(self).acquire_misses == old(self).acquire_misses,
            final(self).acquire_reallocs == old(self).acquire_reallocs,
            final(self).pool_size_snapshot == old(self).pool_size_snapshot,
            old(self).consistent() ==> final(self).consistent(),
    {
        self.release_total = self.release_total.wrapping_add(1);
        self.last_used_bytes = used_bytes;
        self.ema_snapshot_x100 = ema_x100;
        if dropped {
            self.release_dropped = self.release_dropped.wrapping_add(1);
        } else {
            self.release_returned = self.release_returned.wrapping_add(1);
        }
        proof {
            if old(self).consistent() {
                lemma_wrapping_step(
                    old(self).release_total,
                    old(self).release_returned,
                    old(self).release_dropped,
                    dropped,
                );
            }
        }
    }
}

/// A total that is the sum of two parts modulo 2^64 stays so when it and
/// exactly one part (the second when `second`) count one up, wrapping.
proof fn lemma_wrapping_step(total: u64, a: u64, b: u64, second: bool)
    requires
        total as int == (a + b) % counter_modulus(),
    ensures
        total.wrapping_add(1) as int == (if second {
            a + b.wrapping_add(1)
        } else {
            a.wrapping_add(1) + b
        }) % counter_modulus(),
{
    let m = counter_modulus();
    vstd::arithmetic::div_mod::lemma_add_mod_noop(a + b, 1, m);
    vstd::arithmetic::div_mod::lemma_small_mod(1nat, m as nat);
    vstd::arithmetic::div_mod::lemma_small_mod(total as nat, m as nat);
    if second {
        vstd::arithmetic::div_mod::lemma_add_mod_noop(a as int, b + 1, m);
        vstd::arithmetic::div_mod::lemma_small_mod(b.wrapping_add(1) as nat, m as nat);
        vstd::arithmetic::div_mod::lemma_small_mod(a as nat, m as nat);
        if b == u64::MAX {
            vstd::arithmetic::div_mod::lemma_mod_self_0(m);
        } else {
            vstd::arithmetic::div_mod::lemma_small_mod((b + 1) as nat, m as nat);
        }
        vstd::arithmetic::div_mod::lemma_add_mod_noop(a as int, b.wrapping_add(1) as int, m);
    } else {
        vstd::arithmetic::div_mod::lemma_add_mod_noop(a + 1, b as int, m);
        vstd::arithmetic::div_mod::lemma_small_mod(a.wrapping_add(1) as nat, m as nat);
        vstd::arithmetic::div_mod::lemma_small_mod(b as nat, m as nat);
        if a == u64::MAX {
            vstd::arithmetic::div_mod::lemma_mod_self_0(m);
        } else {
            vstd::arithmetic::div_mod::lemma_small_mod((a + 1) as nat, m as nat);
        }
        vstd::arithmetic::div_mod::lemma_add_mod_noop(a.wrapping_add(1) as int, b as int, m);
    }
    if total == u64::MAX {
        vstd::arithmetic::div_mod::lemma_mod_self_0(m);
    } else {
        vstd::arithmetic::div_mod::lemma_small_mod((total + 1) as nat, m as nat);
    }
}

/// Reads `Vec::capacity`. Claimed, as std documents: the vector can hold
/// at least its length without reallocating.
#[verifier::external_body]
fn vec_capacity(v: &Vec<u8>) -> (c: usize)
    ensures
        c >= v@.len(),
{
    v.capacity()
}

/// Calls `Vec::with_capacity(capacity)` and reads the new vector's
/// capacity. Claimed, as std documents: the vector is empty and can hold
/// at least `capacity` elements without reallocating.
#[verifier::external_body]
fn vec_with_capacity(capacity: usize) -> (r: (Vec<u8>, usize))
    ensures
        r.0@ == Seq::<u8>::empty(),
        r.1 >= capacity,
{
    let v = Vec::with_capacity(capacity);
    let room = v.capacity();
    (v, room)
}

/// A growable byte buffer, the pool's plain payload type. It keeps the
/// vector's capacity as last read: read back right after every change that
/// may move it, and kept by `clear`, which leaves the allocation alone.
#[derive(Debug)]
pub struct VecBuf {
    bytes: Vec<u8>,
    room: usize,
}

impl View for VecBuf {
    type V = Seq<u8>;

    closed spec fn view(&self) -> Seq<u8> {
        self.bytes@
    }
}

impl VecBuf {
    /// How many bytes the buffer can hold without growing.
    pub closed spec fn spec_capacity(&self) -> usize {
        self.room
    }

    /// Holding no more than it has room for.
    pub closed spec fn fits(&self) -> bool {
        self.bytes@.len() <= self.room
    }

    /// An empty buffer with room for at least `capacity` bytes.
    pub fn with_capacity(capacity: usize) -> (b: Self)
        ensures
            b@ == Seq::<u8>::empty(),
            b.spec_capacity() >= capacity,
            b.fits(),
    {
        let (bytes, room) = vec_with_capacity(capacity);
        VecBuf { bytes, room }
    }

    /// How many bytes the buffer can hold without growing.
    pub fn capacity(&self) -> (c: usize)
        ensures
            c == self.spec_capacity(),
    {
        self.room
    }

    pub fn len(&self) -> (n: usize)
        ensures
            n == self@.len(),
    {
        self.bytes.len()
    }

    /// Empties the buffer, keeping its room.
    pub fn clear(&mut self)
        ensures
            final(self)@ == Seq::<u8>::empty(),
            final(self).spec_capacity() == old(self).spec_capacity(),
            final(self).fits(),
    {
        self.bytes.clear();
    }

    /// Replaces the contents with `bytes`; the room grows as needed.
    pub fn write_from_slice(&mut self, bytes: &[u8])
        ensures
            final(self)@ == bytes@,
            final(self).fits(),
            final(self).spec_capacity() >= bytes@.len(),
    {
        self.bytes.clear();
        let mut i: usize = 0;
        while i < bytes.len()
            invariant
                i <= bytes@.len(),
                self.bytes@ == bytes@.subrange(0, i as int),
            decreases bytes@.len() - i,
        {
            self.bytes.push(bytes[i]);
            i = i + 1;
            assert(self.bytes@ =~= bytes@.subrange(0, i as int));
        }
        assert(bytes@.subrange(0, bytes@.len() as int) =~= bytes@);
        self.room = vec_capacity(&self.bytes);
    }

    pub fn as_slice(&self) -> (s: &[u8])
        ensures
            s@ == self@,
    {
        self.bytes.as_slice()
    }

    /// The bytes, giving up the buffer.
    pub fn into_vec(self) -> (v: Vec<u8>)
        ensures
            v@ == self@,
    {
        self.bytes
    }
}

/// Declares `object_pool::Pool`, the stack the pooled buffers wait in.
#[verifier::external_type_specification]
#[verifier::external_body]
#[verifier::reject_recursive_types(T)]
pub struct ExObjectPool<T>(object_pool::Pool<T>);

/// The buffers an `object_pool::Pool` holds, each as its bytes and its
/// recorded capacity, in stack order: the last is the one the next pull
/// takes.
pub uninterp spec fn spec_pooled(pool: object_pool::Pool<VecBuf>) -> Seq<(Seq<u8>, usize)>;

/// Calls `Pool::new(0, init)`: with `cap` 0 the initializer is not called
/// and the pool starts empty.
#[verifier::external_body]
fn pool_new(initial_cap: usize) -> (p: object_pool::Pool<VecBuf>)
    ensures
        spec_pooled(p) == Seq::<(Seq<u8>, usize)>::empty(),
{
    object_pool::Pool::new(0, move || VecBuf::with_capacity(initial_cap))
}

/// Calls `Pool::len`: the number of buffers the pool holds.
#[verifier::external_body]
fn pool_len(pool: &object_pool::Pool<VecBuf>) -> (n: usize)
    ensures
        n == spec_pooled(*pool).len(),
{
    pool.len()
}

/// Calls `Pool::try_pull` and `Reusable::detach`: pops the last buffer off
/// the pool's stack and takes it out for good; `None` when the pool is
/// empty.
#[verifier::external_body]
fn pool_try_pull(pool: &mut object_pool::Pool<VecBuf>) -> (b: Option<VecBuf>)
    ensures
        spec_pooled(*old(pool)).len() == 0 ==> b is None && spec_pooled(*final(pool)) == spec_pooled(
            *old(pool),
        ),
        spec_pooled(*old(pool)).len() > 0 ==> (b matches Some(v) && (v@, v.spec_capacity())
            == spec_pooled(*old(pool)).last() && spec_pooled(*final(pool)) == spec_pooled(
            *old(pool),
        ).drop_last()),
{
    match pool.try_pull() {
        Some(reusable) => Some(reusable.detach().1),
        None => None,
    }
}

/// Calls `Pool::attach`: pushes the buffer onto the pool's stack.
#[verifier::external_body]
fn pool_attach(pool: &mut object_pool::Pool<VecBuf>, buf: VecBuf)
    ensures
        spec_pooled(*final(pool)) == spec_pooled(*old(pool)).push((buf@, buf.spec_capacity())),
{
    pool.attach(buf)
}

/// Whether a released buffer of capacity `cap` is dropped; see
/// [`should_drop`].
pub open spec fn spec_drops(cap: usize, threshold_bytes: usize, hard_drop_bytes: usize) -> bool {
    cap > threshold_bytes || cap > hard_drop_bytes
}

/// Whether every pooled buffer is empty.
pub open spec fn all_cleared(buffers: Seq<(Seq<u8>, usize)>) -> bool {
    forall|i: int| 0 <= i < buffers.len() ==> (#[trigger] buffers[i]).0.len() == 0
}

/// A pool of byte buffers with its counters. The running average of used
/// sizes is the caller's: each call gets what it needs of it as integers.
pub struct BufferPool {
    pool: object_pool::Pool<VecBuf>,
    stats: PoolStats,
}

impl BufferPool {
    /// The buffers waiting, as bytes and capacity, the next one to go last.
    pub closed spec fn spec_buffers(&self) -> Seq<(Seq<u8>, usize)> {
        spec_pooled(self.pool)
    }

    pub closed spec fn spec_stats(&self) -> PoolStats {
        self.stats
    }

    /// The shape every public operation keeps: pooled buffers are empty and
    /// the counters are consistent.
    pub open spec fn wf(&self) -> bool {
        all_cleared(self.spec_buffers()) && self.spec_stats().consistent()
    }

    /// An empty pool with zeroed counters; `initial_cap` is the capacity a
    /// buffer made by the pool itself would get.
    pub fn new(initial_cap: usize) -> (p: Self)
        ensures
            p.wf(),
            p.spec_buffers() == Seq::<(Seq<u8>, usize)>::empty(),
            p.spec_stats() == PoolStats::new_spec(),
    {
        BufferPool { pool: pool_new(initial_cap), stats: PoolStats::new() }
    }

    /// The counters.
    pub fn stats(&self) -> (s: PoolStats)
        ensures
            s == self.spec_stats(),
    {
        self.stats
    }

    /// How many buffers wait.
    pub fn len(&self) -> (n: usize)
        ensures
            n == self.spec_buffers().len(),
    {
        pool_len(&self.pool)
    }

    /// Hands out an empty buffer with room for at least the effective
    /// capacity (the larger of `size_hint` and `average_bytes`): the last
    /// pooled buffer when its room suffices (a reuse), a fresh one when the
    /// pool is empty (a miss) or the pulled buffer is too small (a realloc).
    /// The acquire is counted with the pool's size before it.
    pub fn acquire(&mut self, size_hint: usize, average_bytes: usize) -> (b: VecBuf)
        requires
            old(self).wf(),
        ensures
            final(self).wf(),
            b@ == Seq::<u8>::empty(),
            b.fits(),
            b.spec_capacity() >= size_hint,
            b.spec_capacity() >= average_bytes,
            ({
                let pooled = old(self).spec_buffers();
                let effective = if size_hint >= average_bytes { size_hint } else { average_bytes };
                let outcome = spec_acquire_outcome(
                    if pooled.len() == 0 { None } else { Some(pooled.last().1) },
                    effective,
                );
                &&& final(self).spec_buffers() == if pooled.len() == 0 {
                    pooled
                } else {
                    pooled.drop_last()
                }
                &&& final(self).spec_stats() == spec_after_acquire(
                    old(self).spec_stats(),
                    pooled.len() as u32,
                    outcome,
                )
                &&& outcome == AcquireOutcome::Reuse ==> b.spec_capacity() == pooled.last().1
            }),
    {
        let n = pool_len(&self.pool);
        #[verifier::truncate]
        let snapshot = n as u32;
        let effective = effective_cap(size_hint, average_bytes);
        let pulled = pool_try_pull(&mut self.pool);
        let (buf, outcome) = match pulled {
            None => (VecBuf::with_capacity(effective), AcquireOutcome::Miss),
            Some(b) => {
                let outcome = acquire_outcome(Some(b.capacity()), effective);
                if outcome == AcquireOutcome::Realloc {
                    (VecBuf::with_capacity(effective), outcome)
                } else {
                    (b, outcome)
                }
            },
        };
        let mut buf = buf;
        buf.clear();
        self.stats.record_acquire(snapshot, outcome);
        proof {
            assert forall|i: int| 0 <= i < self.spec_buffers().len() implies (#[trigger] self.spec_buffers()[i]).0.len() == 0 by {
                assert(self.spec_buffers()[i] == old(self).spec_buffers()[i]);
            }
        }
        buf
    }

    /// Takes a buffer back: it is dropped when its capacity exceeds
    /// `threshold_bytes` (the caller's multiple of the average) or
    /// `hard_drop_bytes`, else emptied and pooled with its capacity. Returns
    /// whether it was dropped; the release is counted with the buffer's
    /// used length and the average `ema_x100` (hundredths of a byte).
    pub fn release(&mut self, buf: VecBuf, ema_x100: u32, threshold_bytes: usize, hard_drop_bytes: usize) -> (dropped: bool)
        requires
            old(self).wf(),
        ensures
            final(self).wf(),
            dropped == spec_drops(buf.spec_capacity(), threshold_bytes, hard_drop_bytes),
            dropped ==> final(self).spec_buffers() == old(self).spec_buffers(),
            !dropped ==> final(self).spec_buffers() == old(self).spec_buffers().push(
                (Seq::<u8>::empty(), buf.spec_capacity()),
            ),
            final(self).spec_stats() == spec_after_release(
                old(self).spec_stats(),
                buf@.len() as u64,
                ema_x100,
                dropped,
            ),
    {
        let mut buf = buf;
        let used = buf.len();
        let cap = buf.capacity();
        let dropped = should_drop(cap, threshold_bytes, hard_drop_bytes);
        self.stats.record_release(used as u64, ema_x100, dropped);
        if !dropped {
            buf.clear();
            pool_attach(&mut self.pool, buf);
        }
        proof {
            assert forall|i: int| 0 <= i < self.spec_buffers().len() implies (#[trigger] self.spec_buffers()[i]).0.len() == 0 by {
                if i < old(self).spec_buffers().len() {
                    assert(self.spec_buffers()[i] == old(self).spec_buffers()[i]);
                }
            }
        }
        dropped
    }
}

/// Steady sizes never reallocate: a buffer released (and kept) with room
/// for the effective capacity is the one the next acquire takes, and it is
/// reused, not replaced. Every kept buffer also stays within both limits.
pub proof fn law_steady_sizes_reuse(
    pooled: Seq<(Seq<u8>, usize)>,
    cap: usize,
    threshold_bytes: usize,
    hard_drop_bytes: usize,
    effective: usize,
)
    requires
        !spec_drops(cap, threshold_bytes, hard_drop_bytes),
        cap >= effective,
    ensures
        ({
            let after = pooled.push((Seq::<u8>::empty(), cap));
            &&& after.last().1 == cap
            &&& after.drop_last() == pooled
            &&& spec_acquire_outcome(Some(after.last().1), effective) == AcquireOutcome::Reuse
            &&& cap <= threshold_bytes && cap <= hard_drop_bytes
        }),
{
    assert(pooled.push((Seq::<u8>::empty(), cap)).drop_last() =~= pooled);
}

} // verus!
