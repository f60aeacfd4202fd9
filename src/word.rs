//! 32-byte ABI words: their big-endian value, and copying fixed-width
//! fields out of byte strings.

use vstd::prelude::*;

verus! {

/// Big-endian unsigned value of a byte string.
pub open spec fn be_value(b: Seq<u8>) -> nat
    decreases b.len(),
{
    if b.len() == 0 {
        0
    } else {
        be_value(b.drop_last()) * 256 + b.last() as nat
    }
}

/// 256 raised to the power `n`.
pub open spec fn pow256(n: nat) -> nat
    decreases n,
{
    if n == 0 {
        1
    } else {
        256 * pow256((n - 1) as nat)
    }
}

/// The `i`-th 32-byte word of an ABI payload.
pub open spec fn word_at(data: Seq<u8>, i: int) -> Seq<u8> {
    data.subrange(32 * i, 32 * i + 32)
}

/// The address that an ABI word holds: its low 20 bytes.
pub open spec fn address_of(word: Seq<u8>) -> Seq<u8> {
    word.subrange(12, 32)
}

/// A byte string's value stays below 256 to the power of its length.
pub proof fn lemma_be_value_bound(b: Seq<u8>)
    ensures
        be_value(b) < pow256(b.len()),
    decreases b.len(),
{
    if b.len() > 0 {
        lemma_be_value_bound(b.drop_last());
        let p = pow256((b.len() - 1) as nat);
        let v = be_value(b.drop_last());
        assert(v * 256 + b.last() < 256 * p) by (nonlinear_arith)
            requires
                v < p,
                b.last() < 256,
        ;
    }
}

/// Leading zero bytes do not change a byte string's value.
pub proof fn lemma_be_value_zero_prefix(b: Seq<u8>, k: int)
    requires
        0 <= k <= b.len(),
        forall|j: int| 0 <= j < k ==> b[j] == 0,
    ensures
        be_value(b) == be_value(b.subrange(k, b.len() as int)),
    decreases b.len(),
{
    if b.len() == 0 {
    } else if b.len() == k {
        lemma_be_value_zero_prefix(b.drop_last(), k - 1);
        assert(b.drop_last().subrange(k - 1, k - 1).len() == 0);
        assert(b.subrange(k, k).len() == 0);
    } else {
        lemma_be_value_zero_prefix(b.drop_last(), k);
        assert(b.subrange(k, b.len() as int).drop_last() =~= b.drop_last().subrange(
            k,
            b.len() - 1,
        ));
    }
}

/// A nonzero byte at position `j` puts the value at or above 256 to the
/// power of the number of bytes after it.
pub proof fn lemma_be_value_nonzero(b: Seq<u8>, j: int)
    requires
        0 <= j < b.len(),
        b[j] != 0,
    ensures
        be_value(b) >= pow256((b.len() - 1 - j) as nat),
    decreases b.len(),
{
    if j < b.len() - 1 {
        lemma_be_value_nonzero(b.drop_last(), j);
    }
}

/// Copies `N` bytes of `src` starting at `start`.
pub fn copy_bytes<const N: usize>(src: &[u8], start: usize) -> (r: [u8; N])
    requires
        start + N <= src@.len(),
    ensures
        r@ == src@.subrange(start as int, start + N),
{
    let n = src.len();
    let mut out: [u8; N] = [0u8; N];
    let mut i: usize = 0;
    while i < N
        invariant
            start + N <= src@.len(),
            n == src@.len(),
            i <= N,
            out@.len() == N,
            forall|j: int| 0 <= j < i ==> out@[j] == src@[start + j],
        decreases N - i,
    {
        out[i] = src[start + i];
        i = i + 1;
    }
    assert(out@ =~= src@.subrange(start as int, start + N));
    out
}

/// Reads the word starting at `start` as a `u64`; `None` when its value does
/// not fit in 64 bits.
pub fn word_to_u64(src: &[u8], start: usize) -> (r: Option<u64>)
    requires
        start + 32 <= src@.len(),
    ensures
        match r {
            Some(v) => v as nat == be_value(src@.subrange(start as int, start + 32)),
            None => be_value(src@.subrange(start as int, start + 32)) > u64::MAX,
        },
{
    let ghost w = src@.subrange(start as int, start + 32);
    let n = src.len();
    let mut i: usize = 0;
    while i < 24
        invariant
            start + 32 <= src@.len(),
            n == src@.len(),
            w == src@.subrange(start as int, start + 32),
            i <= 24,
            forall|j: int| 0 <= j < i ==> w[j] == 0,
        decreases 24 - i,
    {
        if src[start + i] != 0 {
            proof {
                lemma_be_value_nonzero(w, i as int);
                lemma_pow256_monotone(8, (31 - i) as nat);
                reveal_with_fuel(pow256, 9);
                assert(pow256(8) == 0x1_0000_0000_0000_0000);
            }
            return None;
        }
        i = i + 1;
    }
    let mut v: u64 = 0;
    while i < 32
        invariant
            start + 32 <= src@.len(),
            n == src@.len(),
            w == src@.subrange(start as int, start + 32),
            24 <= i <= 32,
            v as nat == be_value(w.subrange(24, i as int)),
            v < pow256((i - 24) as nat),
        decreases 32 - i,
    {
        proof {
            lemma_pow256_monotone((i - 24) as nat, 7);
            reveal_with_fuel(pow256, 8);
            assert(w.subrange(24, i + 1).drop_last() =~= w.subrange(24, i as int));
        }
        let b = src[start + i];
        assert(v * 256 + b < 256 * pow256((i - 24) as nat)) by (nonlinear_arith)
            requires
                v < pow256((i - 24) as nat),
                b < 256,
        ;
        v = v * 256 + b as u64;
        i = i + 1;
    }
    proof {
        lemma_be_value_zero_prefix(w, 24);
        assert(w.subrange(24, 32) =~= w.subrange(24, w.len() as int));
    }
    Some(v)
}

/// Powers of 256 grow with the exponent.
pub proof fn lemma_pow256_monotone(a: nat, b: nat)
    requires
        a <= b,
    ensures
        pow256(a) <= pow256(b),
    decreases b,
{
    if a < b {
        lemma_pow256_monotone(a, (b - 1) as nat);
    }
}

} // verus!
