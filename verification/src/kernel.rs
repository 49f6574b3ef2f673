//! The buffer pool and the vector operations over it.
//!
//! The pool owns three equally sized buffers, `A`, `B` and `RESULT`, each a
//! sequence of binary64 bit patterns that defaults to the pattern of zero.
//! Every operation takes a requested element count and silently clamps it to
//! the pool's capacity, so the kernel never reads or writes outside the
//! buffers whatever the host requests.

use vstd::prelude::*;
use vstd::pervasive::VecAdditionalExecFns;

use crate::arith::{add_bits, add_bits_exec, mul_bits, mul_bits_exec};

verus! {

/// The fixed capacity, in elements, of each of the three buffers of a pool
/// built by `BufferPool::new`.
pub const CAPACITY: u32 = 100_000;

/// The number of bytes one element occupies in the pool's linear region.
pub const ELEMENT_BYTES: u32 = 8;

/// The mathematical content of a pool: its capacity and the three buffers,
/// each a sequence of binary64 bit patterns of that length.
pub struct PoolModel {
    pub cap: int,
    pub a: Seq<u64>,
    pub b: Seq<u64>,
    pub result: Seq<u64>,
}

/// Three equally sized buffers with process-lifetime identity. The host
/// fills `A` and `B` element by element, invokes the operations, and reads
/// scalars back or the `RESULT` buffer element by element.
pub struct BufferPool {
    capacity: usize,
    a: Vec<u64>,
    b: Vec<u64>,
    result: Vec<u64>,
}

impl View for BufferPool {
    type V = PoolModel;

    closed spec fn view(&self) -> PoolModel {
        PoolModel {
            cap: self.capacity as int,
            a: self.a@,
            b: self.b@,
            result: self.result@,
        }
    }
}

/// The element count an operation actually uses: the requested count,
/// clamped to the pool's capacity.
pub open spec fn effective_len(len: u32, cap: int) -> int {
    if len as int <= cap {
        len as int
    } else {
        cap
    }
}

impl BufferPool {
    /// The buffers exist, all three have exactly `cap` elements, and the
    /// capacity is positive and at most `CAPACITY`.
    pub open spec fn wf(&self) -> bool {
        &&& 1 <= self@.cap <= CAPACITY
        &&& self@.a.len() == self@.cap
        &&& self@.b.len() == self@.cap
        &&& self@.result.len() == self@.cap
    }

    /// A pool whose three buffers hold `capacity` elements each, all zero.
    pub fn with_capacity(capacity: u32) -> (pool: BufferPool)
        requires
            1 <= capacity <= CAPACITY,
        ensures
            pool.wf(),
            pool@.cap == capacity,
            forall|i: int| 0 <= i < capacity ==> pool@.a[i] == 0u64,
            forall|i: int| 0 <= i < capacity ==> pool@.b[i] == 0u64,
            forall|i: int| 0 <= i < capacity ==> pool@.result[i] == 0u64,
    {
        let n = capacity as usize;
        BufferPool { capacity: n, a: zeros(n), b: zeros(n), result: zeros(n) }
    }

    /// The pool the kernel initializes at start of life: capacity `CAPACITY`.
    pub fn new() -> (pool: BufferPool)
        ensures
            pool.wf(),
            pool@.cap == CAPACITY,
            forall|i: int| 0 <= i < CAPACITY ==> pool@.a[i] == 0u64,
            forall|i: int| 0 <= i < CAPACITY ==> pool@.b[i] == 0u64,
            forall|i: int| 0 <= i < CAPACITY ==> pool@.result[i] == 0u64,
    {
        BufferPool::with_capacity(CAPACITY)
    }

    /// The shared capacity of the three buffers.
    pub fn get_capacity(&self) -> (r: u32)
        requires
            self.wf(),
        ensures
            r == self@.cap,
    {
        self.capacity as u32
    }

    fn clamp_len(&self, len: u32) -> (n: usize)
        requires
            self.wf(),
        ensures
            n == effective_len(len, self@.cap),
    {
        let requested = len as usize;
        if requested <= self.capacity {
            requested
        } else {
            self.capacity
        }
    }
}

/// The left-to-right binary64 running total of the first `n` elements of
/// `s`, starting from the pattern of zero.
pub open spec fn sum_prefix(s: Seq<u64>, n: int) -> u64
    decreases n,
{
    if n <= 0 {
        0u64
    } else {
        add_bits(sum_prefix(s, n - 1), s[n - 1])
    }
}

/// The left-to-right binary64 running total of the pairwise products
/// `a[i] * b[i]` over the first `n` indices, starting from the pattern of
/// zero.
pub open spec fn dot_prefix(a: Seq<u64>, b: Seq<u64>, n: int) -> u64
    decreases n,
{
    if n <= 0 {
        0u64
    } else {
        add_bits(dot_prefix(a, b, n - 1), mul_bits(a[n - 1], b[n - 1]))
    }
}

impl BufferPool {
    /// Sequential left-to-right accumulation of `A[0..effective_len)`.
    pub fn sum(&self, len: u32) -> (r: u64)
        requires
            self.wf(),
        ensures
            r == sum_prefix(self@.a, effective_len(len, self@.cap)),
    {
        let n = self.clamp_len(len);
        let mut s: u64 = 0;
        let mut i: usize = 0;
        while i < n
            invariant
                self.wf(),
                n == effective_len(len, self@.cap),
                i <= n <= self@.a.len(),
                s == sum_prefix(self@.a, i as int),
            decreases n - i,
        {
            s = add_bits_exec(s, self.a[i]);
            i += 1;
        }
        s
    }

    /// Sequential left-to-right accumulation of the pairwise products
    /// `A[i] * B[i]` over `[0, effective_len)`.
    pub fn dot(&self, len: u32) -> (r: u64)
        requires
            self.wf(),
        ensures
            r == dot_prefix(self@.a, self@.b, effective_len(len, self@.cap)),
    {
        let n = self.clamp_len(len);
        let mut d: u64 = 0;
        let mut i: usize = 0;
        while i < n
            invariant
                self.wf(),
                n == effective_len(len, self@.cap),
                i <= n <= self@.a.len(),
                n <= self@.b.len(),
                d == dot_prefix(self@.a, self@.b, i as int),
            decreases n - i,
        {
            let p = mul_bits_exec(self.a[i], self.b[i]);
            d = add_bits_exec(d, p);
            i += 1;
        }
        d
    }

    /// Elementwise product: `RESULT[i] = A[i] * B[i]` for every index below
    /// the effective count; the rest of `RESULT` keeps its prior contents.
    pub fn mul(&mut self, len: u32)
        requires
            old(self).wf(),
        ensures
            final(self).wf(),
            final(self)@.cap == old(self)@.cap,
            final(self)@.a == old(self)@.a,
            final(self)@.b == old(self)@.b,
            forall|i: int|
                0 <= i < effective_len(len, old(self)@.cap) ==> final(self)@.result[i]
                    == mul_bits(old(self)@.a[i], old(self)@.b[i]),
            forall|i: int|
                effective_len(len, old(self)@.cap) <= i < old(self)@.cap
                    ==> final(self)@.result[i] == old(self)@.result[i],
    {
        let n = self.clamp_len(len);
        let mut i: usize = 0;
        while i < n
            invariant
                self.wf(),
                self@.cap == old(self)@.cap,
                self@.a == old(self)@.a,
                self@.b == old(self)@.b,
                n == effective_len(len, self@.cap),
                i <= n <= self@.cap,
                forall|j: int|
                    0 <= j < i ==> self@.result[j] == mul_bits(old(self)@.a[j], old(self)@.b[j]),
                forall|j: int| i <= j < self@.cap ==> self@.result[j] == old(self)@.result[j],
            decreases n - i,
        {
            let p = mul_bits_exec(self.a[i], self.b[i]);
            self.result.set(i, p);
            i += 1;
        }
    }

    /// In-place scaling: `A[i] = A[i] * scalar` for every index below the
    /// effective count; the rest of `A`, and the other buffers, keep their
    /// prior contents. `scalar` is the bit pattern of the multiplier.
    pub fn scale(&mut self, scalar: u64, len: u32)
        requires
            old(self).wf(),
        ensures
            final(self).wf(),
            final(self)@.cap == old(self)@.cap,
            final(self)@.b == old(self)@.b,
            final(self)@.result == old(self)@.result,
            forall|i: int|
                0 <= i < effective_len(len, old(self)@.cap) ==> final(self)@.a[i] == mul_bits(
                    old(self)@.a[i],
                    scalar,
                ),
            forall|i: int|
                effective_len(len, old(self)@.cap) <= i < old(self)@.cap ==> final(self)@.a[i]
                    == old(self)@.a[i],
    {
        let n = self.clamp_len(len);
        let mut i: usize = 0;
        while i < n
            invariant
                self.wf(),
                self@.cap == old(self)@.cap,
                self@.b == old(self)@.b,
                self@.result == old(self)@.result,
                n == effective_len(len, self@.cap),
                i <= n <= self@.cap,
                forall|j: int| 0 <= j < i ==> self@.a[j] == mul_bits(old(self)@.a[j], scalar),
                forall|j: int| i <= j < self@.cap ==> self@.a[j] == old(self)@.a[j],
            decreases n - i,
        {
            let p = mul_bits_exec(self.a[i], scalar);
            self.a.set(i, p);
            i += 1;
        }
    }

    /// Writes one element of `A`: the host's path for filling an operand.
    pub fn store_a(&mut self, i: usize, value: u64)
        requires
            old(self).wf(),
            i < old(self)@.cap,
        ensures
            final(self).wf(),
            final(self)@.cap == old(self)@.cap,
            final(self)@.a == old(self)@.a.update(i as int, value),
            final(self)@.b == old(self)@.b,
            final(self)@.result == old(self)@.result,
    {
        self.a.set(i, value);
    }

    /// Writes one element of `B`: the host's path for filling an operand.
    pub fn store_b(&mut self, i: usize, value: u64)
        requires
            old(self).wf(),
            i < old(self)@.cap,
        ensures
            final(self).wf(),
            final(self)@.cap == old(self)@.cap,
            final(self)@.a == old(self)@.a,
            final(self)@.b == old(self)@.b.update(i as int, value),
            final(self)@.result == old(self)@.result,
    {
        self.b.set(i, value);
    }

    /// Reads one element of `A`.
    pub fn load_a(&self, i: usize) -> (r: u64)
        requires
            self.wf(),
            i < self@.cap,
        ensures
            r == self@.a[i as int],
    {
        self.a[i]
    }

    /// Reads one element of `B`.
    pub fn load_b(&self, i: usize) -> (r: u64)
        requires
            self.wf(),
            i < self@.cap,
        ensures
            r == self@.b[i as int],
    {
        self.b[i]
    }

    /// Reads one element of `RESULT`: the host's path for collecting an
    /// elementwise output.
    pub fn load_result(&self, i: usize) -> (r: u64)
        requires
            self.wf(),
            i < self@.cap,
        ensures
            r == self@.result[i as int],
    {
        self.result[i]
    }
}

/// The left-to-right running total of one interleaved lane: the elements of
/// `s` at indices `lane`, `lane + 4`, ..., `lane + 4 * (groups - 1)`,
/// starting from the pattern of zero.
pub open spec fn lane_sum(s: Seq<u64>, lane: int, groups: int) -> u64
    decreases groups,
{
    if groups <= 0 {
        0u64
    } else {
        add_bits(lane_sum(s, lane, groups - 1), s[4 * (groups - 1) + lane])
    }
}

/// `init`, folded left-to-right with the elements of `s` at indices
/// `[from, to)`.
pub open spec fn fold_range(s: Seq<u64>, init: u64, from: int, to: int) -> u64
    decreases to - from,
{
    if to <= from {
        init
    } else {
        add_bits(fold_range(s, init, from, to - 1), s[to - 1])
    }
}

/// The value the unrolled accumulation returns for the first `n` elements of
/// `s`: four interleaved lane totals over the complete groups of four, the
/// 0 to 3 leftover elements folded into the first lane, and the four totals
/// added in the fixed order `(((s0 + s1) + s2) + s3)`.
pub open spec fn simd_sum(s: Seq<u64>, n: int) -> u64 {
    let groups = n / 4;
    let s0 = fold_range(s, lane_sum(s, 0, groups), 4 * groups, n);
    add_bits(add_bits(add_bits(s0, lane_sum(s, 1, groups)), lane_sum(s, 2, groups)), lane_sum(s, 3, groups))
}

impl BufferPool {
    /// Accumulation of `A[0..effective_len)` split into four independent
    /// running sums so an optimizing compiler can interleave the arithmetic.
    /// Binary64 addition is not associative, so the result may differ from
    /// `sum` in the last places; the exact grouping is pinned by `simd_sum`.
    pub fn sum_simd(&self, len: u32) -> (r: u64)
        requires
            self.wf(),
        ensures
            r == simd_sum(self@.a, effective_len(len, self@.cap)),
    {
        let n = self.clamp_len(len);
        let mut s0: u64 = 0;
        let mut s1: u64 = 0;
        let mut s2: u64 = 0;
        let mut s3: u64 = 0;
        let mut i: usize = 0;
        while i + 3 < n
            invariant
                self.wf(),
                n == effective_len(len, self@.cap),
                i <= n <= self@.a.len(),
                i % 4 == 0,
                s0 == lane_sum(self@.a, 0, i as int / 4),
                s1 == lane_sum(self@.a, 1, i as int / 4),
                s2 == lane_sum(self@.a, 2, i as int / 4),
                s3 == lane_sum(self@.a, 3, i as int / 4),
            decreases n - i,
        {
            proof {
                let k = i as int / 4;
                assert(i as int == 4 * k);
                assert((i as int + 4) / 4 == k + 1);
                assert(lane_sum(self@.a, 0, k + 1) == add_bits(
                    lane_sum(self@.a, 0, k),
                    self@.a[4 * k + 0],
                ));
                assert(lane_sum(self@.a, 1, k + 1) == add_bits(
                    lane_sum(self@.a, 1, k),
                    self@.a[4 * k + 1],
                ));
                assert(lane_sum(self@.a, 2, k + 1) == add_bits(
                    lane_sum(self@.a, 2, k),
                    self@.a[4 * k + 2],
                ));
                assert(lane_sum(self@.a, 3, k + 1) == add_bits(
                    lane_sum(self@.a, 3, k),
                    self@.a[4 * k + 3],
                ));
            }
            s0 = add_bits_exec(s0, self.a[i]);
            s1 = add_bits_exec(s1, self.a[i + 1]);
            s2 = add_bits_exec(s2, self.a[i + 2]);
            s3 = add_bits_exec(s3, self.a[i + 3]);
            i += 4;
        }
        proof {
            let k = i as int / 4;
            assert(i as int == 4 * k);
            assert(n as int / 4 == k);
        }
        while i < n
            invariant
                self.wf(),
                n == effective_len(len, self@.cap),
                i <= n <= self@.a.len(),
                4 * (n as int / 4) <= i as int,
                s0 == fold_range(
                    self@.a,
                    lane_sum(self@.a, 0, n as int / 4),
                    4 * (n as int / 4),
                    i as int,
                ),
                s1 == lane_sum(self@.a, 1, n as int / 4),
                s2 == lane_sum(self@.a, 2, n as int / 4),
                s3 == lane_sum(self@.a, 3, n as int / 4),
            decreases n - i,
        {
            s0 = add_bits_exec(s0, self.a[i]);
            i += 1;
        }
        add_bits_exec(add_bits_exec(add_bits_exec(s0, s1), s2), s3)
    }

    /// The byte offset of `A`'s first element within the pool's region.
    pub fn get_buffer_a_offset(&self) -> (r: u32)
        requires
            self.wf(),
        ensures
            r == self.buffer_a_offset(),
    {
        0
    }

    /// The byte offset of `B`'s first element within the pool's region.
    pub fn get_buffer_b_offset(&self) -> (r: u32)
        requires
            self.wf(),
        ensures
            r == self.buffer_b_offset(),
    {
        (self.capacity as u32) * ELEMENT_BYTES
    }

    /// The byte offset of `RESULT`'s first element within the pool's region.
    pub fn get_result_offset(&self) -> (r: u32)
        requires
            self.wf(),
        ensures
            r == self.result_offset(),
    {
        2 * (self.capacity as u32) * ELEMENT_BYTES
    }

    /// Where `A` begins in the pool's region, in bytes.
    pub open spec fn buffer_a_offset(&self) -> int {
        0
    }

    /// Where `B` begins in the pool's region, in bytes: right after `A`.
    pub open spec fn buffer_b_offset(&self) -> int {
        self@.cap * (ELEMENT_BYTES as int)
    }

    /// Where `RESULT` begins in the pool's region, in bytes: right after `B`.
    pub open spec fn result_offset(&self) -> int {
        2 * self@.cap * (ELEMENT_BYTES as int)
    }
}

/// The three buffers occupy disjoint places: their offsets are pairwise
/// distinct, and, being functions of the pool's fixed capacity alone, they
/// never change over the pool's life.
pub proof fn lemma_offsets_distinct(pool: &BufferPool)
    requires
        pool.wf(),
    ensures
        pool.buffer_a_offset() != pool.buffer_b_offset(),
        pool.buffer_a_offset() != pool.result_offset(),
        pool.buffer_b_offset() != pool.result_offset(),
{
}

/// A requested count beyond the capacity acts exactly as a request for the
/// capacity itself: the two clamp to the same effective count, and every
/// operation's contract depends on the request only through that count.
pub proof fn lemma_clamp_beyond_capacity(len: u32, cap: int)
    requires
        0 <= cap <= u32::MAX,
        len as int > cap,
    ensures
        effective_len(len, cap) == cap,
        effective_len(len, cap) == effective_len(cap as u32, cap),
{
}

/// The one action the kernel ever takes on an unrecoverable internal fault:
/// halt, with no unwinding and no partial result. Carrying the halt out
/// (stopping the process, without returning control) is the host's part.
pub enum FaultAction {
    Halt,
}

/// The response to an unrecoverable internal fault: the kernel asks to be
/// halted. It never asks for anything else, so no fault can ever hand a
/// partial result back to the host.
pub fn panic() -> (r: FaultAction)
    ensures
        r == FaultAction::Halt,
{
    FaultAction::Halt
}

/// A vector of `n` zero elements.
fn zeros(n: usize) -> (v: Vec<u64>)
    ensures
        v@.len() == n,
        forall|i: int| 0 <= i < n ==> v@[i] == 0u64,
{
    let mut v: Vec<u64> = Vec::new();
    let mut i: usize = 0;
    while i < n
        invariant
            i <= n,
            v@.len() == i,
            forall|j: int| 0 <= j < i ==> v@[j] == 0u64,
        decreases n - i,
    {
        v.push(0u64);
        i += 1;
    }
    v
}

} // verus!
