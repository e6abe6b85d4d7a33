//! Fixed-width integers as little-endian and big-endian byte strings.
use vstd::prelude::*;

verus! {

/// The `n` lowest base-256 digits of `x`, least significant first.
pub open spec fn le_bytes(x: nat, n: nat) -> Seq<u8>
    decreases n,
{
    if n == 0 {
        Seq::empty()
    } else {
        seq![(x % 256) as u8] + le_bytes(x / 256, (n - 1) as nat)
    }
}

/// The number whose base-256 digits, least significant first, are `s`.
pub open spec fn le_value(s: Seq<u8>) -> nat
    decreases s.len(),
{
    if s.len() == 0 {
        0
    } else {
        s[0] as nat + 256 * le_value(s.skip(1))
    }
}

/// The `n` lowest base-256 digits of `x`, most significant first.
pub open spec fn be_bytes(x: nat, n: nat) -> Seq<u8>
    decreases n,
{
    if n == 0 {
        Seq::empty()
    } else {
        be_bytes(x / 256, (n - 1) as nat).push((x % 256) as u8)
    }
}

/// The number whose base-256 digits, most significant first, are `s`.
pub open spec fn be_value(s: Seq<u8>) -> nat
    decreases s.len(),
{
    if s.len() == 0 {
        0
    } else {
        be_value(s.drop_last()) * 256 + s.last() as nat
    }
}

/// 256 to the power `n`.
pub open spec fn pow256(n: nat) -> nat
    decreases n,
{
    if n == 0 {
        1
    } else {
        256 * pow256((n - 1) as nat)
    }
}

/// The powers of 256 that bound the integer widths used on the wire.
pub proof fn lemma_pow256_widths()
    ensures
        pow256(1) == 0x100,
        pow256(2) == 0x1_0000,
        pow256(4) == 0x1_0000_0000,
        pow256(16) == 0x1_0000_0000_0000_0000_0000_0000_0000_0000,
{
    reveal_with_fuel(pow256, 17);
}

/// Powers of 256 grow with the exponent.
pub proof fn lemma_pow256_monotonic(a: nat, b: nat)
    requires
        a <= b,
    ensures
        pow256(a) <= pow256(b),
        pow256(a) >= 1,
    decreases b,
{
    if a < b {
        lemma_pow256_monotonic(a, (b - 1) as nat);
    } else if a > 0 {
        lemma_pow256_monotonic((a - 1) as nat, (a - 1) as nat);
    }
}

/// `le_bytes` yields exactly `n` bytes.
pub proof fn lemma_le_bytes_len(x: nat, n: nat)
    ensures
        le_bytes(x, n).len() == n,
    decreases n,
{
    if n > 0 {
        lemma_le_bytes_len(x / 256, (n - 1) as nat);
    }
}

/// `be_bytes` yields exactly `n` bytes.
pub proof fn lemma_be_bytes_len(x: nat, n: nat)
    ensures
        be_bytes(x, n).len() == n,
    decreases n,
{
    if n > 0 {
        lemma_be_bytes_len(x / 256, (n - 1) as nat);
    }
}

/// A little-endian string of `k` bytes denotes a number below `256^k`.
pub proof fn lemma_le_value_bound(s: Seq<u8>)
    ensures
        le_value(s) < pow256(s.len()),
    decreases s.len(),
{
    if s.len() > 0 {
        lemma_le_value_bound(s.skip(1));
    }
}

/// A big-endian string of `k` bytes denotes a number below `256^k`.
pub proof fn lemma_be_value_bound(s: Seq<u8>)
    ensures
        be_value(s) < pow256(s.len()),
    decreases s.len(),
{
    if s.len() > 0 {
        lemma_be_value_bound(s.drop_last());
    }
}

/// Reading back the little-endian bytes of a number that fits gives the
/// number.
pub proof fn lemma_le_value_of_bytes(x: nat, n: nat)
    requires
        x < pow256(n),
    ensures
        le_value(le_bytes(x, n)) == x,
    decreases n,
{
    if n > 0 {
        let rest = le_bytes(x / 256, (n - 1) as nat);
        lemma_le_value_of_bytes(x / 256, (n - 1) as nat);
        lemma_le_bytes_len(x / 256, (n - 1) as nat);
        assert(le_bytes(x, n).skip(1) =~= rest);
    }
}

/// Reading back the big-endian bytes of a number that fits gives the
/// number.
pub proof fn lemma_be_value_of_bytes(x: nat, n: nat)
    requires
        x < pow256(n),
    ensures
        be_value(be_bytes(x, n)) == x,
    decreases n,
{
    if n > 0 {
        let rest = be_bytes(x / 256, (n - 1) as nat);
        lemma_be_value_of_bytes(x / 256, (n - 1) as nat);
        lemma_be_bytes_len(x / 256, (n - 1) as nat);
        assert(be_bytes(x, n).drop_last() =~= rest);
    }
}

/// Appends the `n` low bytes of `value`, least significant first.
pub fn push_le_bytes(out: &mut Vec<u8>, value: u128, n: usize)
    ensures
        final(out)@ == old(out)@ + le_bytes(value as nat, n as nat),
    decreases n,
{
    if n > 0 {
        out.push((value % 256) as u8);
        push_le_bytes(out, value / 256, n - 1);
        assert(final(out)@ =~= old(out)@ + le_bytes(value as nat, n as nat));
    } else {
        assert(out@ =~= old(out)@ + le_bytes(value as nat, 0));
    }
}

/// Appends the `n` low bytes of `value`, most significant first.
pub fn push_be_bytes(out: &mut Vec<u8>, value: u128, n: usize)
    ensures
        final(out)@ == old(out)@ + be_bytes(value as nat, n as nat),
    decreases n,
{
    if n > 0 {
        push_be_bytes(out, value / 256, n - 1);
        out.push((value % 256) as u8);
        assert(out@ =~= old(out)@ + be_bytes(value as nat, n as nat));
    } else {
        assert(out@ =~= old(out)@ + be_bytes(value as nat, 0));
    }
}

/// Reads `n` bytes at `start` as a little-endian number.
pub fn read_le(s: &[u8], start: usize, n: usize) -> (r: u128)
    requires
        start + n <= s.len(),
        n <= 16,
    ensures
        r as nat == le_value(s@.subrange(start as int, start + n)),
    decreases n,
{
    if n == 0 {
        0
    } else {
        let rest: u128 = read_le(s, start + 1, n - 1);
        proof {
            let whole = s@.subrange(start as int, start + n);
            assert(whole.skip(1) =~= s@.subrange(start + 1, start + n));
            lemma_le_value_bound(whole.skip(1));
            lemma_pow256_monotonic((n - 1) as nat, 15);
            reveal_with_fuel(pow256, 16);
        }
        s[start] as u128 + 256 * rest
    }
}

/// Reads `n` bytes at `start` as a big-endian number.
pub fn read_be(s: &[u8], start: usize, n: usize) -> (r: u128)
    requires
        start + n <= s.len(),
        n <= 16,
    ensures
        r as nat == be_value(s@.subrange(start as int, start + n)),
    decreases n,
{
    if n == 0 {
        0
    } else {
        let rest: u128 = read_be(s, start, n - 1);
        proof {
            let whole = s@.subrange(start as int, start + n);
            assert(whole.drop_last() =~= s@.subrange(start as int, start + n - 1));
            lemma_be_value_bound(whole.drop_last());
            lemma_pow256_monotonic((n - 1) as nat, 15);
            reveal_with_fuel(pow256, 16);
        }
        rest * 256 + s[start + n - 1] as u128
    }
}

/// Reads two bytes at `start` as a little-endian `u16`.
pub fn u16_from_le(s: &[u8], start: usize) -> (r: u16)
    requires
        start + 2 <= s.len(),
    ensures
        r as nat == le_value(s@.subrange(start as int, start + 2)),
{
    proof {
        lemma_le_value_bound(s@.subrange(start as int, start + 2));
        lemma_pow256_widths();
    }
    read_le(s, start, 2) as u16
}

/// Reads four bytes at `start` as a little-endian `u32`.
pub fn u32_from_le(s: &[u8], start: usize) -> (r: u32)
    requires
        start + 4 <= s.len(),
    ensures
        r as nat == le_value(s@.subrange(start as int, start + 4)),
{
    proof {
        lemma_le_value_bound(s@.subrange(start as int, start + 4));
        lemma_pow256_widths();
    }
    read_le(s, start, 4) as u32
}

/// Reads four bytes at `start` as a big-endian `u32`.
pub fn u32_from_be(s: &[u8], start: usize) -> (r: u32)
    requires
        start + 4 <= s.len(),
    ensures
        r as nat == be_value(s@.subrange(start as int, start + 4)),
{
    proof {
        lemma_be_value_bound(s@.subrange(start as int, start + 4));
        lemma_pow256_widths();
    }
    read_be(s, start, 4) as u32
}

/// What a `u16` is written as and read back from, little-endian.
pub proof fn lemma_u16_le(x: u16)
    ensures
        le_bytes(x as nat, 2).len() == 2,
        le_value(le_bytes(x as nat, 2)) == x,
{
    lemma_pow256_widths();
    lemma_le_bytes_len(x as nat, 2);
    lemma_le_value_of_bytes(x as nat, 2);
}

/// What a `u32` is written as and read back from, in either byte order.
pub proof fn lemma_u32_bytes(x: u32)
    ensures
        le_bytes(x as nat, 4).len() == 4,
        le_value(le_bytes(x as nat, 4)) == x,
        be_bytes(x as nat, 4).len() == 4,
        be_value(be_bytes(x as nat, 4)) == x,
{
    lemma_pow256_widths();
    lemma_le_bytes_len(x as nat, 4);
    lemma_le_value_of_bytes(x as nat, 4);
    lemma_be_bytes_len(x as nat, 4);
    lemma_be_value_of_bytes(x as nat, 4);
}

/// What a `u128` is written as and read back from, in either byte order.
pub proof fn lemma_u128_bytes(x: u128)
    ensures
        le_bytes(x as nat, 16).len() == 16,
        le_value(le_bytes(x as nat, 16)) == x,
        be_bytes(x as nat, 16).len() == 16,
        be_value(be_bytes(x as nat, 16)) == x,
{
    lemma_pow256_widths();
    lemma_le_bytes_len(x as nat, 16);
    lemma_le_value_of_bytes(x as nat, 16);
    lemma_be_bytes_len(x as nat, 16);
    lemma_be_value_of_bytes(x as nat, 16);
}

/// Appends a copy of `src`.
pub fn append_bytes(out: &mut Vec<u8>, src: &[u8])
    ensures
        final(out)@ == old(out)@ + src@,
{
    let mut i: usize = 0;
    while i < src.len()
        invariant
            i <= src.len(),
            out@ == old(out)@ + src@.take(i as int),
        decreases src.len() - i,
    {
        out.push(src[i]);
        i += 1;
        assert(out@ =~= old(out)@ + src@.take(i as int));
    }
    assert(src@.take(i as int) =~= src@);
}

/// Whether two byte strings are equal, decided without stopping at the
/// first difference, so that the time taken does not tell where they
/// differ.
pub fn bytes_equal(a: &[u8], b: &[u8]) -> (r: bool)
    ensures
        r == (a@ == b@),
{
    if a.len() != b.len() {
        return false;
    }
    let mut differs: bool = false;
    let mut i: usize = 0;
    assert(a@.take(0) =~= b@.take(0));
    while i < a.len()
        invariant
            i <= a.len(),
            a.len() == b.len(),
            differs == (a@.take(i as int) != b@.take(i as int)),
        decreases a.len() - i,
    {
        let here: bool = a[i] != b[i];
        proof {
            let a0 = a@.take(i as int);
            let b0 = b@.take(i as int);
            let a1 = a@.take(i + 1);
            let b1 = b@.take(i + 1);
            assert(a1.drop_last() =~= a0);
            assert(b1.drop_last() =~= b0);
            assert(a1.last() == a@[i as int]);
            assert(b1.last() == b@[i as int]);
            if a0 == b0 && a@[i as int] == b@[i as int] {
                assert(a1 =~= b1);
            }
        }
        differs = differs || here;
        i += 1;
    }
    assert(a@.take(i as int) =~= a@);
    assert(b@.take(i as int) =~= b@);
    !differs
}

} // verus!
