//! Byte-sequence helpers shared by the event decoder and the ledger:
//! big-endian integer reads, zero-range checks and byte-string copies.

use vstd::prelude::*;

verus! {

/// The value of a byte sequence read as a big-endian unsigned integer.
pub open spec fn be_value(s: Seq<u8>) -> nat
    decreases s.len(),
{
    if s.len() == 0 {
        0
    } else {
        (be_value(s.subrange(0, s.len() - 1)) * 256 + s[s.len() - 1]) as nat
    }
}

/// Whether every byte of the sequence is zero.
pub open spec fn all_zero(s: Seq<u8>) -> bool {
    forall|i: int| 0 <= i < s.len() ==> s[i] == 0
}

/// The least value too large for a big-endian integer of `n` bytes.
pub open spec fn be_max(n: nat) -> nat
    decreases n,
{
    if n == 0 {
        1
    } else {
        256 * be_max((n - 1) as nat)
    }
}

/// `be_max` grows with the byte count.
pub proof fn lemma_be_max_mono(a: nat, b: nat)
    requires
        a <= b,
    ensures
        be_max(a) <= be_max(b),
    decreases b,
{
    if a < b {
        lemma_be_max_mono(a, (b - 1) as nat);
        assert(be_max((b - 1) as nat) >= 1) by {
            lemma_be_max_mono(0, (b - 1) as nat);
        }
    }
}

/// A big-endian value of `n` bytes is below `256^n`.
pub proof fn lemma_be_value_bound(s: Seq<u8>)
    ensures
        be_value(s) < be_max(s.len() as nat),
    decreases s.len(),
{
    if s.len() == 0 {
    } else {
        let prefix = s.subrange(0, s.len() - 1);
        lemma_be_value_bound(prefix);
    }
}

/// Reads `len` bytes of `d` starting at `start` as a big-endian integer.
pub fn read_be(d: &Vec<u8>, start: usize, len: usize) -> (r: u128)
    requires
        start + len <= d@.len(),
        len <= 16,
    ensures
        r == be_value(d@.subrange(start as int, start + len)),
{
    let mut r: u128 = 0;
    let mut i: usize = 0;
    let dn: usize = d.len();
    proof {
        assert(d@.subrange(start as int, start as int) =~= Seq::<u8>::empty());
    }
    while i < len
        invariant
            i <= len,
            len <= 16,
            dn == d@.len(),
            start + len <= d@.len(),
            r == be_value(d@.subrange(start as int, start + i)),
        decreases len - i,
    {
        proof {
            let sub = d@.subrange(start as int, start + i);
            lemma_be_value_bound(sub);
            lemma_be_max_mono(i as nat, 15);
            reveal_with_fuel(be_max, 17);
            assert(be_max(16) == 0x100000000000000000000000000000000);
            assert(d@.subrange(start as int, start + i + 1).subrange(0, i as int) =~= sub);
            assert(be_value(d@.subrange(start as int, start + i + 1)) == be_value(sub) * 256 + d@[start
                + i]);
        }
        r = r * 256 + (d[start + i] as u128);
        i = i + 1;
    }
    r
}

/// Whether every byte of `d` in `[start, end)` is zero.
pub fn range_is_zero(d: &Vec<u8>, start: usize, end: usize) -> (r: bool)
    requires
        start <= end,
        end <= d@.len(),
    ensures
        r == all_zero(d@.subrange(start as int, end as int)),
{
    let mut i: usize = start;
    while i < end
        invariant
            start <= i <= end,
            end <= d@.len(),
            forall|j: int| start <= j < i ==> d@[j] == 0,
        decreases end - i,
    {
        if d[i] != 0 {
            proof {
                assert(d@.subrange(start as int, end as int)[i - start] != 0);
            }
            return false;
        }
        i = i + 1;
    }
    true
}

/// Whether two byte strings hold the same bytes.
pub fn bytes_eq(a: &Vec<u8>, b: &Vec<u8>) -> (r: bool)
    ensures
        r == (a@ == b@),
{
    if a.len() != b.len() {
        return false;
    }
    let mut i: usize = 0;
    while i < a.len()
        invariant
            i <= a@.len(),
            a@.len() == b@.len(),
            forall|j: int| 0 <= j < i ==> a@[j] == b@[j],
        decreases a@.len() - i,
    {
        if a[i] != b[i] {
            return false;
        }
        i = i + 1;
    }
    proof {
        assert(a@ =~= b@);
    }
    true
}

/// Copies the bytes of `d` in `[start, end)` into a fresh vector.
pub fn copy_range(d: &Vec<u8>, start: usize, end: usize) -> (r: Vec<u8>)
    requires
        start <= end,
        end <= d@.len(),
    ensures
        r@ == d@.subrange(start as int, end as int),
{
    let mut r: Vec<u8> = Vec::new();
    let mut i: usize = start;
    while i < end
        invariant
            start <= i <= end,
            end <= d@.len(),
            r@.len() == i - start,
            forall|j: int| 0 <= j < r@.len() ==> r@[j] == d@[start + j],
        decreases end - i,
    {
        r.push(d[i]);
        i = i + 1;
    }
    proof {
        assert(r@ =~= d@.subrange(start as int, end as int));
    }
    r
}

/// The `n`-byte big-endian encoding of `v` (of `v`'s low `n` bytes, when
/// `v` does not fit).
pub open spec fn be_bytes(v: nat, n: nat) -> Seq<u8>
    decreases n,
{
    if n == 0 {
        Seq::empty()
    } else {
        be_bytes(v / 256, (n - 1) as nat).push((v % 256) as u8)
    }
}

/// Appending a byte multiplies the value by 256 and adds the byte.
pub proof fn lemma_be_value_push(s: Seq<u8>, b: u8)
    ensures
        be_value(s.push(b)) == be_value(s) * 256 + b,
{
    assert(s.push(b).subrange(0, s.push(b).len() - 1) =~= s);
}

/// Reading back an `n`-byte big-endian encoding returns the value, for any
/// value the width can hold.
pub proof fn lemma_be_bytes_value(v: nat, n: nat)
    requires
        v < be_max(n),
    ensures
        be_bytes(v, n).len() == n,
        be_value(be_bytes(v, n)) == v,
    decreases n,
{
    if n == 0 {
    } else {
        vstd::arithmetic::div_mod::lemma_fundamental_div_mod(v as int, 256);
        assert(v / 256 < be_max((n - 1) as nat)) by {
            if v / 256 >= be_max((n - 1) as nat) {
                vstd::arithmetic::mul::lemma_mul_inequality(
                    be_max((n - 1) as nat) as int,
                    (v / 256) as int,
                    256,
                );
            }
        }
        lemma_be_bytes_value(v / 256, (n - 1) as nat);
        lemma_be_value_push(be_bytes(v / 256, (n - 1) as nat), (v % 256) as u8);
    }
}

/// Common small byte widths: the least value too large for 4, 8 and 16
/// bytes.
pub proof fn lemma_be_max_small()
    ensures
        be_max(4) == 0x100000000,
        be_max(8) == 0x10000000000000000,
        be_max(16) == 0x100000000000000000000000000000000,
{
    reveal_with_fuel(be_max, 17);
}

/// A fresh byte string of `n` zero bytes.
pub fn zero_bytes(n: usize) -> (r: Vec<u8>)
    ensures
        r@ == Seq::new(n as nat, |i: int| 0u8),
{
    let mut r: Vec<u8> = Vec::new();
    let mut i: usize = 0;
    while i < n
        invariant
            i <= n,
            r@.len() == i,
            forall|j: int| 0 <= j < i ==> r@[j] == 0,
        decreases n - i,
    {
        r.push(0);
        i = i + 1;
    }
    proof {
        assert(r@ =~= Seq::new(n as nat, |i: int| 0u8));
    }
    r
}

/// Copies a whole byte string.
pub fn copy_bytes(d: &Vec<u8>) -> (r: Vec<u8>)
    ensures
        r@ == d@,
{
    let r = copy_range(d, 0, d.len());
    proof {
        assert(d@.subrange(0, d@.len() as int) =~= d@);
    }
    r
}

} // verus!
