//! Little-endian integers and 32-byte keys inside byte buffers.
use vstd::prelude::*;

verus! {

/// A 32-byte account identity, as the ledger writes it.
pub type Pubkey = [u8; 32];

/// 256 to the power `n`.
pub open spec fn pow256(n: nat) -> nat
    decreases n,
{
    if n == 0 {
        1
    } else {
        256 * pow256((n - 1) as nat)
    }
}

/// The number that `b` encodes, least significant byte first.
pub open spec fn le_value(b: Seq<u8>) -> nat
    decreases b.len(),
{
    if b.len() == 0 {
        0
    } else {
        b[0] as nat + 256 * le_value(b.drop_first())
    }
}

/// The `n` least significant bytes of `v`, least significant first.
pub open spec fn le_bytes(v: nat, n: nat) -> Seq<u8>
    decreases n,
{
    if n == 0 {
        Seq::empty()
    } else {
        seq![(v % 256) as u8] + le_bytes(v / 256, (n - 1) as nat)
    }
}

/// Reads the little-endian `u64` that starts at `off`.
pub fn read_u64_le(data: &[u8], off: usize) -> (r: u64)
    requires
        off + 8 <= data@.len(),
    ensures
        r as nat == le_value(data@.subrange(off as int, off + 8)),
{
    let n: usize = data.len();
    let mut acc: u64 = 0;
    let mut i: usize = 8;
    assert(data@.subrange(off + 8, off + 8) =~= Seq::<u8>::empty());
    while i > 0
        invariant
            i <= 8,
            off + 8 <= data@.len(),
            n == data@.len(),
            acc as nat == le_value(data@.subrange(off + i, off + 8)),
            acc < pow256((8 - i) as nat),
        decreases i,
    {
        let b = data[off + i - 1];
        let ghost p = pow256((8 - i) as nat);
        assert(pow256((8 - i + 1) as nat) == 256 * p);
        assert(acc * 256 + b < 256 * p) by (nonlinear_arith)
            requires
                acc < p,
                b < 256,
        ;
        assert(pow256(8) == 0x1_0000_0000_0000_0000) by {
            reveal_with_fuel(pow256, 9);
        }
        assert(256 * p <= pow256(8)) by {
            lemma_pow256_mono((8 - i + 1) as nat, 8);
        }
        let ghost tail = data@.subrange(off + i - 1, off + 8);
        assert(tail.drop_first() =~= data@.subrange(off + i, off + 8));
        acc = acc * 256 + b as u64;
        i = i - 1;
    }
    acc
}

/// Powers of 256 grow with the exponent.
pub proof fn lemma_pow256_mono(a: nat, b: nat)
    requires
        a <= b,
    ensures
        pow256(a) <= pow256(b),
    decreases b,
{
    if a < b {
        lemma_pow256_mono(a, (b - 1) as nat);
    }
}

/// Appends the eight little-endian bytes of `v`.
pub fn push_u64_le(out: &mut Vec<u8>, v: u64)
    ensures
        final(out)@ == old(out)@ + le_bytes(v as nat, 8),
{
    let mut rem: u64 = v;
    let mut i: usize = 0;
    let ghost start = out@;
    while i < 8
        invariant
            i <= 8,
            out@ + le_bytes(rem as nat, (8 - i) as nat) == start + le_bytes(v as nat, 8),
        decreases 8 - i,
    {
        let ghost before = out@;
        assert(le_bytes(rem as nat, (8 - i) as nat) == seq![(rem % 256) as u8] + le_bytes(
            (rem / 256) as nat,
            (8 - i - 1) as nat,
        ));
        out.push((rem % 256) as u8);
        assert(out@ + le_bytes((rem / 256) as nat, (8 - i - 1) as nat) =~= before + (seq![
            (rem % 256) as u8,
        ] + le_bytes((rem / 256) as nat, (8 - i - 1) as nat)));
        rem = rem / 256;
        i = i + 1;
    }
    assert(le_bytes(rem as nat, 0) =~= Seq::<u8>::empty());
    assert(out@ =~= out@ + le_bytes(rem as nat, 0));
}

/// Copies the 32 bytes that start at `off` into a key.
pub fn read_key(data: &[u8], off: usize) -> (r: Pubkey)
    requires
        off + 32 <= data@.len(),
    ensures
        r@ == data@.subrange(off as int, off + 32),
{
    let n: usize = data.len();
    let mut k: Pubkey = [0u8; 32];
    let mut i: usize = 0;
    while i < 32
        invariant
            i <= 32,
            off + 32 <= data@.len(),
            n == data@.len(),
            k@.len() == 32,
            forall|j: int| 0 <= j < i ==> k@[j] == data@[off + j],
        decreases 32 - i,
    {
        k[i] = data[off + i];
        i = i + 1;
    }
    assert(k@ =~= data@.subrange(off as int, off + 32));
    k
}

/// Whether two keys hold the same bytes.
pub fn keys_equal(a: &Pubkey, b: &Pubkey) -> (r: bool)
    ensures
        r == (a@ == b@),
{
    let mut i: usize = 0;
    while i < 32
        invariant
            i <= 32,
            a@.len() == 32,
            b@.len() == 32,
            forall|j: int| 0 <= j < i ==> a@[j] == b@[j],
        decreases 32 - i,
    {
        if a[i] != b[i] {
            return false;
        }
        i = i + 1;
    }
    assert(a@ =~= b@);
    true
}

/// Appends the 32 bytes of a key.
pub fn push_key(out: &mut Vec<u8>, k: &Pubkey)
    ensures
        final(out)@ == old(out)@ + k@,
{
    let ghost start = out@;
    let mut i: usize = 0;
    while i < 32
        invariant
            i <= 32,
            k@.len() == 32,
            out@ == start + k@.subrange(0, i as int),
        decreases 32 - i,
    {
        out.push(k[i]);
        assert(k@.subrange(0, i + 1) =~= k@.subrange(0, i as int).push(k@[i as int]));
        i = i + 1;
    }
    assert(k@.subrange(0, 32) =~= k@);
}

/// Eight bytes encode a number below 2^64.
pub proof fn lemma_le_value_u64(b: Seq<u8>)
    requires
        b.len() == 8,
    ensures
        le_value(b) < 0x1_0000_0000_0000_0000,
{
    lemma_le_value_bound(b);
    assert(pow256(8) == 0x1_0000_0000_0000_0000) by {
        reveal_with_fuel(pow256, 9);
    }
}

/// `b` encodes a number below 256^len.
pub proof fn lemma_le_value_bound(b: Seq<u8>)
    ensures
        le_value(b) < pow256(b.len()),
    decreases b.len(),
{
    if b.len() > 0 {
        lemma_le_value_bound(b.drop_first());
        let r = le_value(b.drop_first());
        let p = pow256(b.drop_first().len());
        assert(b[0] + 256 * r < 256 * p) by (nonlinear_arith)
            requires
                r < p,
                b[0] < 256,
        ;
    }
}

/// Reading back `n` written bytes gives the number modulo 256^n.
pub proof fn lemma_le_round_trip(v: nat, n: nat)
    ensures
        le_value(le_bytes(v, n)) == v % pow256(n),
    decreases n,
{
    if n > 0 {
        let b = le_bytes(v, n);
        let p = pow256((n - 1) as nat);
        lemma_le_round_trip(v / 256, (n - 1) as nat);
        assert(b.drop_first() =~= le_bytes(v / 256, (n - 1) as nat));
        lemma_pow256_positive((n - 1) as nat);
        vstd::arithmetic::div_mod::lemma_breakdown(v as int, 256, p as int);
    }
}

/// Every power of 256 is positive.
pub proof fn lemma_pow256_positive(n: nat)
    ensures
        pow256(n) > 0,
    decreases n,
{
    if n > 0 {
        lemma_pow256_positive((n - 1) as nat);
    }
}

/// `le_bytes` yields exactly `n` bytes.
pub proof fn lemma_le_bytes_len(v: nat, n: nat)
    ensures
        le_bytes(v, n).len() == n,
    decreases n,
{
    if n > 0 {
        lemma_le_bytes_len(v / 256, (n - 1) as nat);
    }
}

} // verus!
