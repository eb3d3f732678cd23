//! Time-ordered 64-bit identifier allocation.
//!
//! An identifier packs the number of milliseconds elapsed since a fixed
//! launch epoch into its high bits (scaled by 4096) and a bounded
//! per-process sequence counter into its low 12 bits.  Identifiers are
//! therefore sortable by creation time, and up to 4096 identifiers minted
//! within the same millisecond stay pairwise distinct.  The sequence
//! counter wraps silently at 4096; more than 4096 allocations in one
//! millisecond may collide, an accepted limitation.  A system clock that
//! moves backwards is not guarded against and weakens monotonicity.

use vstd::arithmetic::div_mod::{
    lemma_add_mod_noop, lemma_mod_mod, lemma_mod_multiples_vanish, lemma_small_mod,
    lemma_sub_mod_noop,
};
use vstd::arithmetic::power2::lemma2_to64;
use vstd::bits::{lemma_low_bits_mask_values, lemma_u64_low_bits_mask_is_mod};
use vstd::prelude::*;

verus! {

/// Milliseconds between the Unix epoch and the system's launch date, the
/// point from which identifier timestamps are counted.
pub const EPOCH: i64 = 1_696_118_400_000;

/// Largest epoch offset (exclusive, in milliseconds) whose identifier is
/// encoded without wraparound: any offset below this bound keeps
/// `offset * 4096 + sequence` within `i64`.
pub const MAX_OFFSET: i64 = 0x4_0000_0000_0000;

/// The identifier encoding: the epoch offset in the high bits (scaled by
/// 4096, that is, shifted left by 12) and the sequence value in the low
/// 12 bits.
pub open spec fn spec_id(offset: int, sequence: int) -> int {
    offset * 4096 + sequence
}

/// The sequence-counter value after `k` further calls of
/// [`next_increment`] on a counter that holds `c`.
pub open spec fn counter_after(c: int, k: int) -> int {
    (c + k) % 4096
}

/// Owner of the process-wide sequence counter.  The process holds exactly
/// one allocator for its lifetime and starts it at zero; a restart resets
/// the counter, which is safe because the time component still advances.
pub struct IdAllocator {
    /// Current sequence value, always in `0 .. 4096`.
    pub increment: i64,
}

impl IdAllocator {
    /// The counter is within its 12-bit range.
    pub open spec fn wf(&self) -> bool {
        0 <= self.increment < 4096
    }

    /// A fresh allocator with the counter at zero.
    pub fn new() -> (a: IdAllocator)
        ensures
            a.wf(),
            a.increment == 0,
    {
        IdAllocator { increment: 0 }
    }
}

/// Advances the sequence counter: increment, then mask to 12 bits, so the
/// counter wraps from 4095 back to 0.
pub fn next_increment(alloc: &mut IdAllocator) -> (r: i64)
    requires
        old(alloc).wf(),
    ensures
        final(alloc).wf(),
        r == final(alloc).increment,
        r == counter_after(old(alloc).increment as int, 1),
{
    let cur = alloc.increment;
    let masked = ((cur as u64) + 1) & 4095;
    proof {
        lemma_u64_low_bits_mask_is_mod((cur + 1) as u64, 12);
        lemma_low_bits_mask_values();
        lemma2_to64();
    }
    let next = masked as i64;
    alloc.increment = next;
    next
}

/// Encodes one identifier from a wall-clock reading (milliseconds since
/// the Unix epoch) and a sequence value.  Within the supported clock range
/// the result is exactly `(now_ms - EPOCH) * 4096 + increment`; outside it
/// the arithmetic wraps, but the low 12 bits still carry the sequence
/// value.
pub fn compose_id(now_ms: i64, increment: i64) -> (id: i64)
    requires
        0 <= increment < 4096,
    ensures
        EPOCH <= now_ms < EPOCH + MAX_OFFSET ==> id == spec_id(now_ms - EPOCH, increment as int),
        id % 4096 == increment,
{
    let offset = now_ms.wrapping_sub(EPOCH);
    let id = offset.wrapping_mul(4096).wrapping_add(increment);
    proof {
        lemma_compose_low_bits(offset as int, increment as int);
        if EPOCH <= now_ms < EPOCH + MAX_OFFSET {
            assert(offset == now_ms - EPOCH);
            assert(0 <= offset as int * 4096 < 0x4000_0000_0000_0000int) by (nonlinear_arith)
                requires
                    0 <= offset < 0x4_0000_0000_0000,
            ;
            lemma_small_mod((offset as int * 4096) as nat, 0x1_0000_0000_0000_0000nat);
        }
    }
    id
}

/// The wrapping encoding of `offset * 4096 + inc` keeps `inc` in its low
/// 12 bits: reduced modulo 4096 the identifier equals `inc`, whatever the
/// offset.
proof fn lemma_compose_low_bits(offset: int, inc: int)
    requires
        0 <= inc < 4096,
        i64::MIN <= offset <= i64::MAX,
    ensures
        ({
            let p = vstd::wrapping::i64_specs::signed_crop(offset * 4096);
            vstd::wrapping::i64_specs::wrapping_add(p as i64, inc as i64) % 4096 == inc
        }),
{
    let r: int = 0x1_0000_0000_0000_0000;
    let x = offset * 4096;
    let p = vstd::wrapping::i64_specs::signed_crop(x);

    // x % 4096 == 0, and reducing modulo 2^64 (with an optional shift by
    // 2^64 into the signed range) cannot change the value modulo 4096,
    // because 4096 divides 2^64.
    assert(x % 4096 == 0) by {
        lemma_mod_multiples_vanish(offset, 0, 4096);
    }
    assert((x % r) % 4096 == x % 4096) by {
        lemma_mod_mod(x, 4096, 0x10_0000_0000_0000);
        assert(4096 * 0x10_0000_0000_0000 == r);
    }
    assert((x % r - r) % 4096 == (x % r) % 4096) by {
        lemma_mod_multiples_vanish(-0x10_0000_0000_0000, x % r, 4096);
        assert(4096 * -0x10_0000_0000_0000 + x % r == x % r - r);
    }
    assert(p % 4096 == 0);

    // Adding the sequence value, again up to an optional shift by 2^64,
    // leaves exactly that value in the low 12 bits.
    let s = p + inc;
    assert(s % 4096 == inc) by {
        lemma_add_mod_noop(p as int, inc, 4096);
        lemma_small_mod(inc as nat, 4096nat);
    }
    assert((s - r) % 4096 == s % 4096) by {
        lemma_mod_multiples_vanish(-0x10_0000_0000_0000, s, 4096);
        assert(4096 * -0x10_0000_0000_0000 + s == s - r);
    }
    assert((s + r) % 4096 == s % 4096) by {
        lemma_mod_multiples_vanish(0x10_0000_0000_0000, s, 4096);
        assert(4096 * 0x10_0000_0000_0000 + s == s + r);
    }
}

/// A freshly minted, time-ordered identifier.  It is serialized as a
/// decimal string at the API boundary (not as a native JSON number, to
/// avoid precision loss in JSON consumers); within the library it is the
/// 64-bit value itself.
#[derive(Clone, Copy, Debug)]
pub struct Snowflake(pub i64);

impl Snowflake {
    /// Mints the next identifier: advance the shared sequence counter,
    /// read the wall clock, and encode both.  Never fails and never
    /// blocks.  The exact value depends on the clock; the low 12 bits
    /// always hold the new counter value.
    pub fn new(alloc: &mut IdAllocator) -> (s: Snowflake)
        requires
            old(alloc).wf(),
        ensures
            final(alloc).wf(),
            final(alloc).increment == counter_after(old(alloc).increment as int, 1),
            s.0 % 4096 == final(alloc).increment,
    {
        let increment = next_increment(alloc);
        let now_ms = now_unix_ms();
        Snowflake(compose_id(now_ms, increment))
    }
}

/// Relies on `std::time::SystemTime::now` and `duration_since`: the
/// number of milliseconds the system clock lies past the Unix epoch (0
/// for a clock set before 1970).  The result depends on the wall clock,
/// so nothing is promised of it.
#[verifier::external_body]
fn now_unix_ms() -> i64 {
    match std::time::SystemTime::now().duration_since(std::time::SystemTime::UNIX_EPOCH) {
        Ok(elapsed) => elapsed.as_millis() as i64,
        Err(_) => 0,
    }
}

/// Identifiers minted within the same millisecond are pairwise distinct
/// for bursts of up to 4096 calls: if calls number `j` and `k` of such a
/// burst (counted from 1, starting at counter value `c`) fall in the same
/// millisecond, their identifiers differ.
pub proof fn lemma_same_millisecond_ids_distinct(t: int, c: int, j: int, k: int)
    requires
        1 <= j < k <= 4096,
    ensures
        spec_id(t - EPOCH, counter_after(c, j)) != spec_id(t - EPOCH, counter_after(c, k)),
{
    let a = counter_after(c, j);
    let b = counter_after(c, k);
    if a == b {
        assert((c + k - (c + j)) % 4096 == 0) by {
            lemma_sub_mod_noop(c + k, c + j, 4096);
        }
        assert((k - j) % 4096 == k - j) by {
            lemma_small_mod((k - j) as nat, 4096nat);
        }
        assert(false);
    }
}

/// A later millisecond always yields a greater identifier, whatever the
/// two sequence values: for timestamps within the encodable range with
/// `t1 < t2`, every identifier of `t2` exceeds every identifier of `t1`.
pub proof fn lemma_later_millisecond_id_greater(t1: int, s1: int, t2: int, s2: int)
    requires
        EPOCH <= t1 < t2 < EPOCH + MAX_OFFSET,
        0 <= s1 < 4096,
        0 <= s2 < 4096,
    ensures
        spec_id(t1 - EPOCH, s1) < spec_id(t2 - EPOCH, s2),
{
    assert((t1 - EPOCH) * 4096 + s1 < (t2 - EPOCH) * 4096 + s2) by (nonlinear_arith)
        requires
            t1 < t2,
            0 <= s1 < 4096,
            0 <= s2,
    ;
}

} // verus!
