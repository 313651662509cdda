//! Fixed-capacity circular sample buffers with power-of-two addressing.
//!
//! The capacity is a compile-time constant and must be a power of two, so that
//! the wrap-around of the write cursor and of historical lookups can be done
//! with a bitwise mask instead of a division. The abstraction of a buffer is
//! the sequence of its last `CAP` samples ordered by age: index 0 is the most
//! recent sample, higher indices are older ones.

use vstd::prelude::*;
use vstd::arithmetic::div_mod::{lemma_mod_multiples_vanish, lemma_small_mod};
use vstd::arithmetic::power::pow;
use vstd::arithmetic::power2::{
    is_pow2, is_pow2_equiv, is_pow2_exists, lemma2_to64, lemma_pow2_strictly_increases, pow2,
};
use vstd::bits::{lemma_usize_low_bits_mask_is_mod, lemma_usize_shr_is_div, low_bits_mask};

verus! {

/// The storage slot that holds the sample of age `i`, for a write cursor `w`
/// in `[0, cap)` and an age `i` in `[0, cap)`: the slot `w - 1 - i`, wrapped
/// around the end of the storage.
spec fn slot_of_age(w: int, cap: int, i: int) -> int {
    if i < w {
        w - 1 - i
    } else {
        w - 1 - i + cap
    }
}

/// What one push does to the abstraction of a ring buffer: the new sample
/// becomes the youngest, every other sample ages by one step, and the oldest
/// resident sample is dropped.
pub open spec fn pushed(s: Seq<i64>, x: i64) -> Seq<i64> {
    seq![x] + s.drop_last()
}

/// The abstraction of a ring buffer after a whole sequence of pushes, oldest
/// pushed value first.
pub open spec fn pushed_all(s: Seq<i64>, vals: Seq<i64>) -> Seq<i64>
    decreases vals.len(),
{
    if vals.len() == 0 {
        s
    } else {
        pushed_all(pushed(s, vals[0]), vals.skip(1))
    }
}

/// Every value of the form `2^e` satisfies the power-of-two predicate; with
/// the concrete values of the small powers of two this discharges the
/// capacity precondition of the ring buffers.
pub proof fn lemma_pow2_is_pow2(e: nat)
    ensures
        is_pow2(pow2(e) as int),
        pow2(e) >= 1,
{
    vstd::arithmetic::power2::lemma_pow2_pos(e);
    vstd::arithmetic::power::lemma_pow_positive(2, e);
    is_pow2_equiv(pow2(e) as int);
    assert(pow(2, e) == pow2(e) as int);
    assert(is_pow2_exists(pow2(e) as int));
}

/// A power of two is at least one, and every value below twice the capacity
/// is reduced by the capacity mask exactly as by the mathematical remainder:
/// values below the capacity stay, the rest lose one capacity.
proof fn lemma_mask_wraps(x: usize, cap: usize)
    requires
        is_pow2(cap as int),
        x < 2 * (cap as int),
    ensures
        cap >= 1,
        (x & ((cap - 1) as usize)) as int == if x < cap {
            x as int
        } else {
            x as int - cap as int
        },
{
    lemma_cap_exponent(cap);
    let k = choose|k: nat| k < usize::BITS && pow2(k) == cap as nat;
    lemma_usize_low_bits_mask_is_mod(x, k);
    assert(low_bits_mask(k) == (cap - 1) as nat);
    assert(x % cap == x & ((cap - 1) as usize));
    if x < cap {
        lemma_small_mod(x as nat, cap as nat);
    } else {
        lemma_mod_multiples_vanish(1, x as int - cap as int, cap as int);
        lemma_small_mod((x - cap) as nat, cap as nat);
    }
}

/// A power-of-two capacity has an exponent below the word width, and in
/// particular leaves room for one capacity-sized sum below the address range.
proof fn lemma_cap_exponent(cap: usize)
    requires
        is_pow2(cap as int),
    ensures
        cap >= 1,
        2 * (cap as int) - 1 <= usize::MAX,
        exists|k: nat| k < usize::BITS && pow2(k) == cap as nat,
{
    is_pow2_equiv(cap as int);
    assert(is_pow2_exists(cap as int));
    let k = choose|i: nat| pow(2, i) == cap as int;
    assert(pow2(k) == cap as nat);
    lemma2_to64();
    vstd::arithmetic::power2::lemma2_to64_rest();
    if k >= usize::BITS as nat {
        if k > usize::BITS as nat {
            lemma_pow2_strictly_increases(usize::BITS as nat, k);
        }
        assert(pow2(usize::BITS as nat) <= cap as nat);
        assert(false);
    }
    assert(k < usize::BITS && pow2(k) == cap as nat);
    if k < (usize::BITS - 1) as nat {
        lemma_pow2_strictly_increases(k, (usize::BITS - 1) as nat);
    }
    assert(pow2(k) <= pow2((usize::BITS - 1) as nat));
    vstd::arithmetic::power2::lemma_pow2_pos(k);
    if usize::BITS == 32 {
        assert(pow2(31) == 0x8000_0000);
        assert(usize::MAX == 0xffff_ffff);
    } else {
        assert(pow2(63) == 0x8000_0000_0000_0000);
        assert(usize::MAX == 0xffff_ffff_ffff_ffff);
    }
}

/// The bitwise check used at construction time accepts exactly the powers of
/// two: a nonzero value shares no bit with its predecessor exactly when a
/// single bit is set.
proof fn lemma_pow2_bit_check(n: usize)
    ensures
        (n != 0 && n & ((n - 1) as usize) == 0) <==> is_pow2(n as int),
    decreases n,
{
    reveal(is_pow2);
    if n == 0 {
    } else if n == 1 {
        assert(1usize & 0usize == 0) by (bit_vector);
    } else {
        let h = n >> 1usize;
        lemma_usize_shr_is_div(n, 1);
        lemma2_to64();
        assert(h == n as int / 2);
        lemma_pow2_bit_check(h);
        assert(h >= 1 && h < n) by (bit_vector)
            requires n > 1, h == n >> 1usize,
        ;
        if n & ((n - 1) as usize) == 0 {
            assert(n % 2 == 0 && h & ((h - 1) as usize) == 0) by (bit_vector)
                requires n > 1, h == n >> 1usize, n & ((n - 1) as usize) == 0,
            ;
            assert(is_pow2(h as int));
            assert(is_pow2(n as int));
        }
        if is_pow2(n as int) {
            assert(n % 2 == 0 && is_pow2(n as int / 2));
            assert(h & ((h - 1) as usize) == 0);
            assert(n & ((n - 1) as usize) == 0) by (bit_vector)
                requires n > 1, h == n >> 1usize, n % 2 == 0, h & ((h - 1) as usize) == 0,
            ;
        }
    }
}

/// Crude ring buffer implementation that maximizes efficiency over anything
/// else. This is the internal data structure; the public `SafeRawRingBuffer`
/// does softer error handling, at the price of an `Option` on each lookup.
pub struct RawRingBuffer<const CAP: usize> {
    buffer: Vec<i64>,
    write_ptr: usize,
}

impl<const CAP: usize> View for RawRingBuffer<CAP> {
    type V = Seq<i64>;

    /// The last `CAP` samples, ordered by age: index 0 is the most recent.
    closed spec fn view(&self) -> Seq<i64> {
        Seq::new(
            CAP as nat,
            |i: int| self.buffer[slot_of_age(self.write_ptr as int, CAP as int, i)],
        )
    }
}

impl<const CAP: usize> RawRingBuffer<CAP> {
    /// The storage has exactly the configured capacity, the write cursor
    /// stays inside it, and the capacity is a power of two.
    pub closed spec fn wf(&self) -> bool {
        &&& self.buffer.len() == CAP
        &&& self.write_ptr < CAP
        &&& is_pow2(CAP as int)
    }

    /// Creates a new ring buffer holding silence: every resident sample is
    /// zero. The capacity must be a power of two.
    pub fn new() -> (r: Self)
        requires
            is_pow2(CAP as int),
        ensures
            r.wf(),
            r@.len() == CAP,
            forall|i: int| 0 <= i < CAP ==> r@[i] == 0i64,
    {
        proof {
            lemma_cap_exponent(CAP);
        }
        let mut buffer: Vec<i64> = Vec::new();
        let mut n: usize = 0;
        while n < CAP
            invariant
                n <= CAP,
                buffer.len() == n,
                forall|i: int| 0 <= i < n ==> buffer[i] == 0i64,
            decreases CAP - n,
        {
            buffer.push(0);
            n = n + 1;
        }
        Self { buffer, write_ptr: 0 }
    }

    /// Pushes a new value onto the buffer, overwriting the oldest value.
    pub fn push(&mut self, x: i64)
        requires
            old(self).wf(),
        ensures
            final(self).wf(),
            final(self)@ == pushed(old(self)@, x),
    {
        proof {
            lemma_cap_exponent(CAP);
        }
        let w = self.write_ptr;
        self.buffer.set(w, x);
        self.write_ptr = (w + 1) & (CAP - 1);
        proof {
            lemma_mask_wraps((w + 1) as usize, CAP);
            let target = pushed(old(self)@, x);
            assert forall|i: int| 0 <= i < CAP implies self@[i] == target[i] by {
                if i >= 1 {
                    assert(target[i] == old(self)@[i - 1]);
                }
            }
            assert(self@ =~= target);
        }
    }

    /// Returns the value pushed `offs` steps ago; `offs == 0` is the newest
    /// resident sample, higher offsets are older ones.
    pub fn get(&self, offs: usize) -> (r: i64)
        requires
            self.wf(),
            offs < CAP,
        ensures
            r == self@[offs as int],
    {
        proof {
            lemma_cap_exponent(CAP);
            lemma_mask_wraps((self.write_ptr + CAP - offs - 1) as usize, CAP);
        }
        let idx = (self.write_ptr + CAP - offs - 1) & (CAP - 1);
        self.buffer[idx]
    }
}

/// Wrapper for `RawRingBuffer` that does not demand its preconditions but
/// reports their violation: construction yields `None` for a capacity that is
/// not a power of two, and an out-of-range lookup yields `None`.
pub struct SafeRawRingBuffer<const CAP: usize> {
    internal_buffer: RawRingBuffer<CAP>,
}

impl<const CAP: usize> View for SafeRawRingBuffer<CAP> {
    type V = Seq<i64>;

    /// The last `CAP` samples, ordered by age: index 0 is the most recent.
    closed spec fn view(&self) -> Seq<i64> {
        self.internal_buffer@
    }
}

impl<const CAP: usize> SafeRawRingBuffer<CAP> {
    /// The backing buffer is well-formed.
    pub closed spec fn wf(&self) -> bool {
        self.internal_buffer.wf()
    }

    /// Creates a ring buffer holding silence, or `None` exactly when the
    /// capacity is zero or not a power of two.
    pub fn new() -> (r: Option<Self>)
        ensures
            r.is_some() <==> is_pow2(CAP as int),
            r.is_some() ==> {
                &&& r.unwrap().wf()
                &&& r.unwrap()@.len() == CAP
                &&& forall|i: int| 0 <= i < CAP ==> r.unwrap()@[i] == 0i64
            },
    {
        proof {
            lemma_pow2_bit_check(CAP);
        }
        if CAP != 0 && (CAP & (CAP - 1)) == 0 {
            Some(Self { internal_buffer: RawRingBuffer::<CAP>::new() })
        } else {
            None
        }
    }

    /// Pushes a new value onto the buffer, overwriting the oldest value.
    pub fn push(&mut self, x: i64)
        requires
            old(self).wf(),
        ensures
            final(self).wf(),
            final(self)@ == pushed(old(self)@, x),
    {
        self.internal_buffer.push(x);
    }

    /// Returns the value pushed `idx` steps ago, or `None` when no sample of
    /// that age is resident.
    pub fn get(&self, idx: usize) -> (r: Option<i64>)
        requires
            self.wf(),
        ensures
            idx < CAP ==> r == Some(self@[idx as int]),
            idx >= CAP ==> r.is_none(),
    {
        if idx < CAP {
            Some(self.internal_buffer.get(idx))
        } else {
            None
        }
    }
}

/// After any run of pushes, the sample of age `i` is the pushed value `i`
/// steps from the end, as long as the run is long enough to have supplied it;
/// older slots still hold what was resident before the run.
proof fn lemma_pushed_all_addressing(s: Seq<i64>, vals: Seq<i64>, i: int)
    requires
        0 <= i < s.len(),
    ensures
        pushed_all(s, vals).len() == s.len(),
        i < vals.len() ==> pushed_all(s, vals)[i] == vals[vals.len() - 1 - i],
        i >= vals.len() ==> pushed_all(s, vals)[i] == s[i - vals.len()],
    decreases vals.len(),
{
    if vals.len() == 0 {
    } else {
        let s1 = pushed(s, vals[0]);
        let rest = vals.skip(1);
        lemma_pushed_all_addressing(s1, rest, i);
        assert(pushed_all(s, vals) == pushed_all(s1, rest));
        if i < rest.len() {
            assert(rest[rest.len() - 1 - i] == vals[vals.len() - 1 - i]);
        } else if i < vals.len() {
            assert(i - rest.len() == 0);
            assert(s1[0] == vals[0]);
        } else {
            assert(s1[i - rest.len()] == s.drop_last()[i - rest.len() - 1]);
        }
    }
}

/// Ring addressing: after pushing a run of at least as many values as the
/// buffer holds, age 0 addresses the most recently pushed value and age
/// `C - 1` addresses the oldest value still resident, which is the one pushed
/// `C - 1` steps before the last.
pub proof fn lemma_ring_addressing(s: Seq<i64>, vals: Seq<i64>)
    requires
        s.len() >= 1,
        vals.len() >= s.len(),
    ensures
        pushed_all(s, vals).len() == s.len(),
        pushed_all(s, vals)[0] == vals.last(),
        pushed_all(s, vals)[s.len() - 1] == vals[vals.len() - s.len()],
{
    lemma_pushed_all_addressing(s, vals, 0);
    lemma_pushed_all_addressing(s, vals, s.len() - 1);
}

} // verus!
