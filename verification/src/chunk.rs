//! Chunk-count selection for giant DMA transfers.
//!
//! The hardware transfer-count register holds at most [`NDTR_MAX`] elements,
//! so a longer transfer is split into equal chunks. The chunk count is the
//! smallest count that divides the total length evenly while keeping each
//! chunk within the hardware limit.

use vstd::prelude::*;

verus! {

use vstd::arithmetic::div_mod::lemma_fundamental_div_mod;
use vstd::arithmetic::div_mod::lemma_mod_self_0;
use vstd::arithmetic::mul::lemma_mul_inequality;

/// Largest element count the hardware transfer-count register can hold.
pub const NDTR_MAX: usize = 0xffff;

/// The first chunk count at or above `c` that divides `len` evenly.
/// `len` itself divides `len`, so the search never runs past `len`.
pub open spec fn chunk_count_from(len: nat, c: nat) -> nat
    decreases len - c
    when c <= len
{
    if c >= len {
        len
    } else if len % c == 0 {
        c
    } else {
        chunk_count_from(len, (c + 1) as nat)
    }
}

/// The fewest chunks a transfer of `len` elements can be split into:
/// the ceiling of `len / NDTR_MAX`.
pub open spec fn min_chunk_count(len: nat) -> nat {
    if len % (NDTR_MAX as nat) == 0 {
        len / (NDTR_MAX as nat)
    } else {
        len / (NDTR_MAX as nat) + 1
    }
}

/// The chunk count chosen for a giant transfer of `len` elements: the
/// smallest count no less than `⌈len / NDTR_MAX⌉` that divides `len`.
pub open spec fn chunk_count(len: nat) -> nat {
    chunk_count_from(len, min_chunk_count(len))
}

/// The element count of each chunk of a giant transfer of `len` elements.
pub open spec fn chunk_len(len: nat) -> nat {
    len / chunk_count(len)
}

/// The search for a dividing chunk count stays between its starting point
/// and `len`, what it returns divides `len`, and no smaller count at or
/// above the starting point does.
proof fn lemma_chunk_count_from_divides(len: nat, c: nat)
    requires
        1 <= c <= len,
    ensures
        c <= chunk_count_from(len, c) <= len,
        len % chunk_count_from(len, c) == 0,
        forall|k: nat| c <= k < chunk_count_from(len, c) ==> #[trigger] (len % k) != 0,
    decreases len - c,
{
    if c >= len {
        lemma_mod_self_0(len as int);
    } else if len % c == 0 {
    } else {
        lemma_chunk_count_from_divides(len, (c + 1) as nat);
    }
}

/// The chosen chunk count for a length above the hardware limit: it is
/// the smallest count at or above `⌈len / NDTR_MAX⌉` that divides the
/// length; at least two chunks are used, each chunk fits the hardware
/// counter, and the chunk length times the count reassembles the whole
/// transfer.
pub proof fn lemma_chunk_choice(len: nat)
    requires
        len > NDTR_MAX,
    ensures
        len % chunk_count(len) == 0,
        2 <= chunk_count(len) <= len,
        min_chunk_count(len) <= chunk_count(len),
        chunk_count(len) * (NDTR_MAX as nat) >= len,
        forall|k: nat| min_chunk_count(len) <= k < chunk_count(len) ==> #[trigger] (len % k)
            != 0,
        1 <= chunk_len(len) <= NDTR_MAX,
        chunk_len(len) * chunk_count(len) == len,
{
    let d = NDTR_MAX as nat;
    let q = len / d;
    let s = min_chunk_count(len);
    let c = chunk_count(len);
    let cs = chunk_len(len);

    lemma_fundamental_div_mod(len as int, d as int);
    assert(len == d * q + len % d);
    assert(q >= 1);
    // the ceiling start needs at least two chunks: a single chunk would
    // have to hold more than the counter's limit
    if len % d == 0 {
        assert(s == q);
        assert(q >= 2) by {
            if q < 2 {
                assert(len == d * 1);
            }
        }
    } else {
        assert(s == q + 1);
    }
    assert(2 <= s <= q + 1);
    assert(q + 1 <= len);
    lemma_chunk_count_from_divides(len, s);
    assert(s <= c <= len);
    assert(len % c == 0);

    // c * d >= s * d >= len
    lemma_mul_inequality(s as int, c as int, d as int);
    if len % d == 0 {
        assert(s * d == d * q) by (nonlinear_arith)
            requires s == q;
    } else {
        assert(s * d == q * d + d) by (nonlinear_arith)
            requires s == q + 1;
        assert(q * d == d * q) by (nonlinear_arith);
    }
    assert(s * d >= len);
    assert(c * d >= len);

    // len == c * cs, so cs <= d because c * (d + 1) > c * d >= len
    lemma_fundamental_div_mod(len as int, c as int);
    assert(len == c * cs);
    if cs > d {
        lemma_mul_inequality((d + 1) as int, cs as int, c as int);
        assert((d + 1) * c <= cs * c);
        assert((d + 1) * c == d * c + c) by (nonlinear_arith);
        assert(cs * c == c * cs) by (nonlinear_arith);
        assert(d * c == c * d) by (nonlinear_arith);
        assert(false);
    }
    if cs == 0 {
        assert(len == c * 0);
        assert(c * 0 == 0) by (nonlinear_arith);
        assert(false);
    }
    assert(cs * c == c * cs) by (nonlinear_arith);
}

/// Picks the chunk count for a giant transfer: the smallest count at or
/// above `⌈len / NDTR_MAX⌉` that divides `len` evenly.
pub fn compute_chunk_count(len: usize) -> (c: usize)
    requires
        len > NDTR_MAX,
    ensures
        c == chunk_count(len as nat),
        2 <= c <= len,
        len % c == 0,
{
    let mut chunks: usize = if len % NDTR_MAX == 0 {
        len / NDTR_MAX
    } else {
        len / NDTR_MAX + 1
    };
    proof {
        lemma_chunk_choice(len as nat);
    }
    while len % chunks != 0
        invariant
            len > NDTR_MAX,
            min_chunk_count(len as nat) <= chunks <= len,
            chunk_count(len as nat) == chunk_count_from(len as nat, chunks as nat),
            chunk_count(len as nat) >= 2,
            (len as nat) % chunk_count(len as nat) == 0,
        decreases len - chunks,
    {
        proof {
            lemma_mod_self_0(len as int);
        }
        chunks = chunks + 1;
    }
    proof {
        if chunks < len {
            assert(chunk_count_from(len as nat, chunks as nat) == chunks);
        }
    }
    chunks
}

} // verus!
