//! Big-endian interpretation of byte strings.
//!
//! ABI-encoded revert payloads store every number as a 32-byte big-endian
//! word.  This module gives that reading a mathematical definition and an
//! executable reader for words whose value fits in a `u64`.

use vstd::prelude::*;

verus! {

use vstd::slice::slice_index_get;

/// The value of a byte string read as a big-endian natural number.
pub open spec fn be_bytes(w: Seq<u8>) -> nat
    decreases w.len(),
{
    if w.len() == 0 {
        0
    } else {
        be_bytes(w.drop_last()) * 256 + w.last() as nat
    }
}

/// 256 raised to the power `n`.
pub open spec fn pow256(n: nat) -> nat
    decreases n,
{
    if n == 0 {
        1
    } else {
        256 * pow256((n - 1) as nat)
    }
}

/// The two powers the word reader cares about, written out.
pub proof fn lemma_pow256_vals()
    ensures
        pow256(7) == 0x100000000000000,
        pow256(8) == 0x10000000000000000,
{
    assert(pow256(0) == 1);
    assert(pow256(1) == 256);
    assert(pow256(2) == 0x10000);
    assert(pow256(3) == 0x1000000);
    assert(pow256(4) == 0x100000000);
    assert(pow256(5) == 0x10000000000);
    assert(pow256(6) == 0x1000000000000);
    assert(pow256(7) == 0x100000000000000);
    assert(pow256(8) == 0x10000000000000000);
}

pub proof fn lemma_pow256_pos(n: nat)
    ensures
        pow256(n) >= 1,
    decreases n,
{
    if n > 0 {
        lemma_pow256_pos((n - 1) as nat);
    }
}

pub proof fn lemma_pow256_mono(m: nat, n: nat)
    requires
        m <= n,
    ensures
        pow256(m) <= pow256(n),
    decreases n,
{
    if m < n {
        lemma_pow256_mono(m, (n - 1) as nat);
        lemma_pow256_pos((n - 1) as nat);
    }
}

pub proof fn lemma_be_bytes_zero(w: Seq<u8>)
    requires
        forall|i: int| 0 <= i < w.len() ==> w[i] == 0,
    ensures
        be_bytes(w) == 0,
    decreases w.len(),
{
    if w.len() > 0 {
        lemma_be_bytes_zero(w.drop_last());
    }
}

/// Splitting a byte string splits its value: the prefix is scaled by the
/// weight of the suffix.
pub proof fn lemma_be_bytes_split(w: Seq<u8>, k: int)
    requires
        0 <= k <= w.len(),
    ensures
        be_bytes(w) == be_bytes(w.take(k)) * pow256((w.len() - k) as nat) + be_bytes(
            w.skip(k),
        ),
    decreases w.len() - k,
{
    if k == w.len() {
        assert(w.take(k) =~= w);
        assert(w.skip(k) =~= Seq::<u8>::empty());
        assert(be_bytes(w.skip(k)) == 0);
        assert(pow256((w.len() - k) as nat) == 1);
        assert(be_bytes(w.take(k)) * 1 == be_bytes(w));
    } else {
        let w1 = w.drop_last();
        lemma_be_bytes_split(w1, k);
        assert(w1.take(k) =~= w.take(k));
        assert(w.skip(k).drop_last() =~= w1.skip(k));
        let a = be_bytes(w.take(k));
        let p = pow256((w1.len() - k) as nat);
        let b = be_bytes(w1.skip(k));
        let c = w.last() as nat;
        assert(be_bytes(w) == (a * p + b) * 256 + c);
        assert((a * p + b) * 256 + c == a * (p * 256) + (b * 256 + c)) by (nonlinear_arith);
        assert(pow256((w.len() - k) as nat) == 256 * p);
        assert(a * (p * 256) == a * pow256((w.len() - k) as nat));
        assert(be_bytes(w.skip(k)) == b * 256 + c);
        assert(be_bytes(w) == a * pow256((w.len() - k) as nat) + be_bytes(w.skip(k)));
    }
}

/// A nonzero byte among the 24 leading bytes of a 32-byte word pushes its
/// value to at least `pow256(8)`.
proof fn lemma_nonzero_prefix(w: Seq<u8>, i: int)
    requires
        w.len() == 32,
        0 <= i < 24,
        w[i] != 0,
    ensures
        be_bytes(w) >= pow256(8),
{
    lemma_be_bytes_split(w, i + 1);
    let head = w.take(i + 1);
    assert(head.drop_last() =~= w.take(i));
    assert(head.last() == w[i]);
    assert(be_bytes(head) >= 1);
    let p = pow256((32 - (i + 1)) as nat);
    lemma_pow256_mono(8, (32 - (i + 1)) as nat);
    assert(be_bytes(head) * p >= p) by (nonlinear_arith)
        requires
            be_bytes(head) >= 1,
    ;
}

/// Reads the 32-byte big-endian word starting at `start`, when its value
/// fits in a `u64`; reports `None` exactly when it does not.
pub fn read_be_word(b: &[u8], start: usize) -> (r: Option<u64>)
    requires
        start + 32 <= b@.len(),
    ensures
        ({
            let w = b@.subrange(start as int, start as int + 32);
            &&& (r matches Some(v) ==> v as nat == be_bytes(w))
            &&& (r is None <==> be_bytes(w) >= pow256(8))
        }),
{
    let ghost w = b@.subrange(start as int, start as int + 32);
    let n: usize = b.len();
    let mut i: usize = 0;
    while i < 24
        invariant
            i <= 24,
            start + 32 <= n,
            n == b@.len(),
            w == b@.subrange(start as int, start as int + 32),
            forall|j: int| 0 <= j < i ==> w[j] == 0,
        decreases 24 - i,
    {
        if *slice_index_get(b, start + i) != 0 {
            proof {
                lemma_nonzero_prefix(w, i as int);
            }
            return None;
        }
        i += 1;
    }
    let mut acc: u64 = 0;
    let mut j: usize = 0;
    while j < 8
        invariant
            j <= 8,
            start + 32 <= n,
            n == b@.len(),
            w == b@.subrange(start as int, start as int + 32),
            forall|jj: int| 0 <= jj < 24 ==> w[jj] == 0,
            acc as nat == be_bytes(w.subrange(24, 24 + j as int)),
            (acc as nat) < pow256(j as nat),
        decreases 8 - j,
    {
        let byte = *slice_index_get(b, start + 24 + j);
        proof {
            let s0 = w.subrange(24, 24 + j as int);
            let s1 = w.subrange(24, 24 + j as int + 1);
            assert(s1.drop_last() =~= s0);
            assert(s1.last() == w[24 + j as int]);
            lemma_pow256_mono(j as nat, 7);
            lemma_pow256_vals();
        }
        acc = acc * 256 + (byte as u64);
        j += 1;
    }
    proof {
        lemma_be_bytes_split(w, 24);
        lemma_be_bytes_zero(w.take(24));
        assert(w.skip(24) =~= w.subrange(24, 32));
    }
    Some(acc)
}

} // verus!
