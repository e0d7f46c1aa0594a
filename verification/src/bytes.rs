//! Byte strings: big-endian integers and the lexicographic order.

use vstd::prelude::*;

verus! {

/// 256 to the power `k`.
pub open spec fn pow256(k: nat) -> nat
    decreases k,
{
    if k == 0 {
        1
    } else {
        256 * pow256((k - 1) as nat)
    }
}

/// The number that `s` writes in base 256, most significant byte first.
pub open spec fn be_value(s: Seq<u8>) -> nat
    decreases s.len(),
{
    if s.len() == 0 {
        0
    } else {
        be_value(s.drop_last()) * 256 + s.last() as nat
    }
}

/// The `width` low base-256 digits of `n`, most significant first.
pub open spec fn be_bytes(n: nat, width: nat) -> Seq<u8> {
    Seq::new(width, |i: int| ((n / pow256((width - 1 - i) as nat)) % 256) as u8)
}

/// The signed number that 16 bytes hold in two's complement.
pub open spec fn be_signed(s: Seq<u8>) -> int {
    if be_value(s) >= 0x8000_0000_0000_0000_0000_0000_0000_0000 {
        be_value(s) - 0x1_0000_0000_0000_0000_0000_0000_0000_0000
    } else {
        be_value(s) as int
    }
}

/// The unsigned number whose 128 bits are those of `x` in two's complement.
pub open spec fn twos_complement(x: int) -> nat {
    if x < 0 {
        (x + 0x1_0000_0000_0000_0000_0000_0000_0000_0000) as nat
    } else {
        x as nat
    }
}

/// The views of a list of byte strings.
pub open spec fn byte_views(list: Seq<Vec<u8>>) -> Seq<Seq<u8>> {
    list.map_values(|s: Vec<u8>| s@)
}

/// `a` comes strictly before `b` in the lexicographic order of byte strings.
pub open spec fn lex_lt(a: Seq<u8>, b: Seq<u8>) -> bool {
    exists|k: int|
        0 <= k <= a.len() && k <= b.len() && #[trigger] a.subrange(0, k) == b.subrange(0, k) && (
        if k == a.len() {
            k < b.len()
        } else {
            k < b.len() && a[k] < b[k]
        })
}

/// A power of 256 is at least one.
pub proof fn lemma_pow256_positive(k: nat)
    ensures
        pow256(k) >= 1,
    decreases k,
{
    if k > 0 {
        lemma_pow256_positive((k - 1) as nat);
    }
}

/// The powers of 256 at the widths of the machine's integers.
pub proof fn lemma_pow256_16()
    ensures
        pow256(4) == 0x1_0000_0000,
        pow256(8) == 0x1_0000_0000_0000_0000,
        pow256(15) == 0x1_0000_0000_0000_0000_0000_0000_0000_00,
        pow256(16) == 0x1_0000_0000_0000_0000_0000_0000_0000_0000,
{
    reveal_with_fuel(pow256, 17);
}

/// A greater exponent gives no lesser power.
pub proof fn lemma_pow256_monotonic(a: nat, b: nat)
    requires
        a <= b,
    ensures
        pow256(a) <= pow256(b),
    decreases b,
{
    if a < b {
        lemma_pow256_monotonic(a, (b - 1) as nat);
        lemma_pow256_positive((b - 1) as nat);
    }
}

/// A big-endian number of `n` bytes is below `256^n`.
pub proof fn lemma_be_value_bound(s: Seq<u8>)
    ensures
        be_value(s) < pow256(s.len()),
    decreases s.len(),
{
    if s.len() > 0 {
        lemma_be_value_bound(s.drop_last());
    }
}

/// Reading what was written gives the number back, as far as the width holds
/// it.
pub proof fn lemma_read_written(n: nat, width: nat)
    ensures
        be_bytes(n, width).len() == width,
        be_value(be_bytes(n, width)) == n % pow256(width),
    decreases width,
{
    if width > 0 {
        let s = be_bytes(n, width);
        let shorter = be_bytes(n / 256, (width - 1) as nat);
        assert(s.drop_last() =~= shorter) by {
            assert forall|i: int| 0 <= i < width - 1 implies s[i] == shorter[i] by {
                let k = (width - 2 - i) as nat;
                lemma_pow256_positive(k);
                vstd::arithmetic::div_mod::lemma_div_denominator(
                    n as int,
                    256,
                    pow256(k) as int,
                );
                assert(pow256((k + 1) as nat) == 256 * pow256(k));
            }
        }
        assert(s.last() == (n % 256) as u8) by {
            let last = width - 1;
            assert(s.last() == s[last]);
            assert(s[last] == ((n / pow256((width - 1 - last) as nat)) % 256) as u8);
            assert(pow256(0) == 1);
            assert(n as int / 1 == n);
        }
        lemma_read_written(n / 256, (width - 1) as nat);
        lemma_pow256_positive((width - 1) as nat);
        vstd::arithmetic::div_mod::lemma_mod_breakdown(
            n as int,
            256,
            pow256((width - 1) as nat) as int,
        );
        assert(be_value(s) == be_value(shorter) * 256 + (n % 256));
        assert(be_value(shorter) * 256 == 256 * ((n / 256) % pow256((width - 1) as nat)))
            by (nonlinear_arith)
            requires
                be_value(shorter) == (n / 256) % pow256((width - 1) as nat),
        ;
    }
}

/// Sixteen bytes hold every signed number of 128 bits, and reading what was
/// written gives it back.
pub proof fn lemma_read_written_signed(x: i128)
    ensures
        be_signed(be_bytes(twos_complement(x as int), 16)) == x,
{
    lemma_read_written(twos_complement(x as int), 16);
    lemma_pow256_16();
}

/// No byte string comes before itself.
pub proof fn lemma_lex_irreflexive(a: Seq<u8>)
    ensures
        !lex_lt(a, a),
{
}

/// The first position at which two different byte strings of which neither is a
/// prefix of the other differ decides their order; a proper prefix comes first.
pub proof fn lemma_lex_witness(a: Seq<u8>, b: Seq<u8>, k: int)
    requires
        0 <= k <= a.len(),
        k <= b.len(),
        a.subrange(0, k) == b.subrange(0, k),
    ensures
        k == a.len() && k < b.len() ==> lex_lt(a, b),
        k < a.len() && k < b.len() && a[k] < b[k] ==> lex_lt(a, b),
        k == a.len() && k == b.len() ==> a == b,
{
    if k == a.len() && k == b.len() {
        assert(a.subrange(0, k) =~= a);
        assert(b.subrange(0, k) =~= b);
    }
}

/// The lexicographic order is transitive.
pub proof fn lemma_lex_transitive(a: Seq<u8>, b: Seq<u8>, c: Seq<u8>)
    requires
        lex_lt(a, b),
        lex_lt(b, c),
    ensures
        lex_lt(a, c),
{
    let k1 = choose|k: int|
        0 <= k <= a.len() && k <= b.len() && #[trigger] a.subrange(0, k) == b.subrange(0, k) && (
        if k == a.len() {
            k < b.len()
        } else {
            k < b.len() && a[k] < b[k]
        });
    let k2 = choose|k: int|
        0 <= k <= b.len() && k <= c.len() && #[trigger] b.subrange(0, k) == c.subrange(0, k) && (
        if k == b.len() {
            k < c.len()
        } else {
            k < c.len() && b[k] < c[k]
        });
    let k = if k1 <= k2 {
        k1
    } else {
        k2
    };
    assert forall|i: int| 0 <= i < k implies a[i] == c[i] by {
        assert(a[i] == a.subrange(0, k1)[i]);
        assert(b[i] == b.subrange(0, k1)[i]);
        assert(b[i] == b.subrange(0, k2)[i]);
        assert(c[i] == c.subrange(0, k2)[i]);
    }
    assert(a.subrange(0, k) =~= c.subrange(0, k));
    if k1 < a.len() && k1 < k2 {
        assert(b[k1] == b.subrange(0, k2)[k1]);
        assert(c[k1] == c.subrange(0, k2)[k1]);
    }
    if k2 < k1 {
        assert(a[k2] == a.subrange(0, k1)[k2]);
        assert(b[k2] == b.subrange(0, k1)[k2]);
    }
    lemma_lex_witness(a, c, k);
}

/// Of two different byte strings one comes before the other.
pub proof fn lemma_lex_total(a: Seq<u8>, b: Seq<u8>)
    ensures
        a == b || lex_lt(a, b) || lex_lt(b, a),
{
    assert(a.subrange(0, 0) =~= b.subrange(0, 0));
    lemma_lex_common(a, b, 0);
}

/// Walks the common prefix of `a` and `b` from position `k` on.
proof fn lemma_lex_common(a: Seq<u8>, b: Seq<u8>, k: int)
    requires
        0 <= k <= a.len(),
        k <= b.len(),
        a.subrange(0, k) == b.subrange(0, k),
    ensures
        a == b || lex_lt(a, b) || lex_lt(b, a),
    decreases a.len() - k,
{
    if k == a.len() || k == b.len() {
        lemma_lex_witness(a, b, k);
        lemma_lex_witness(b, a, k);
    } else if a[k] != b[k] {
        lemma_lex_witness(a, b, k);
        lemma_lex_witness(b, a, k);
    } else {
        assert forall|i: int| 0 <= i < k + 1 implies a[i] == b[i] by {
            if i < k {
                assert(a[i] == a.subrange(0, k)[i]);
                assert(b[i] == b.subrange(0, k)[i]);
            }
        }
        assert(a.subrange(0, k + 1) =~= b.subrange(0, k + 1));
        lemma_lex_common(a, b, k + 1);
    }
}

/// Not both: `a` before `b` and `b` before `a`.
pub proof fn lemma_lex_asymmetric(a: Seq<u8>, b: Seq<u8>)
    requires
        lex_lt(a, b),
    ensures
        !lex_lt(b, a),
        a != b,
{
    if lex_lt(b, a) {
        lemma_lex_transitive(a, b, a);
    }
}

/// Whether `a` comes strictly before `b` in the lexicographic order.
pub fn bytes_lt(a: &[u8], b: &[u8]) -> (res: bool)
    ensures
        res == lex_lt(a@, b@),
{
    let mut k: usize = 0;
    while k < a.len() && k < b.len() && a[k] == b[k]
        invariant
            k <= a@.len(),
            k <= b@.len(),
            a@.subrange(0, k as int) == b@.subrange(0, k as int),
        decreases a@.len() - k,
    {
        proof {
            let k1 = k + 1;
            assert forall|i: int| 0 <= i < k1 implies a@[i] == b@[i] by {
                if i < k {
                    assert(a@[i] == a@.subrange(0, k as int)[i]);
                    assert(b@[i] == b@.subrange(0, k as int)[i]);
                }
            }
            assert(a@.subrange(0, k1) =~= b@.subrange(0, k1));
        }
        k = k + 1;
    }
    proof {
        lemma_lex_witness(a@, b@, k as int);
        lemma_lex_witness(b@, a@, k as int);
    }
    if k == a.len() {
        proof {
            if k == b@.len() {
                lemma_lex_irreflexive(a@);
            }
        }
        k < b.len()
    } else if k == b.len() {
        proof {
            lemma_lex_asymmetric(b@, a@);
        }
        false
    } else {
        proof {
            if a@[k as int] > b@[k as int] {
                lemma_lex_asymmetric(b@, a@);
            }
        }
        a[k] < b[k]
    }
}

/// Whether two byte strings hold the same bytes.
pub fn bytes_eq(a: &[u8], b: &[u8]) -> (res: bool)
    ensures
        res == (a@ == b@),
{
    if a.len() != b.len() {
        return false;
    }
    let mut k: usize = 0;
    while k < a.len()
        invariant
            k <= a@.len(),
            a@.len() == b@.len(),
            forall|i: int| 0 <= i < k ==> a@[i] == b@[i],
        decreases a@.len() - k,
    {
        if a[k] != b[k] {
            return false;
        }
        k = k + 1;
    }
    assert(a@ =~= b@);
    true
}

/// Reads up to 16 bytes as a big-endian unsigned number.
pub fn read_be(bytes: &[u8]) -> (n: u128)
    requires
        bytes@.len() <= 16,
    ensures
        n == be_value(bytes@),
{
    let mut acc: u128 = 0;
    let mut i: usize = 0;
    while i < bytes.len()
        invariant
            i <= bytes@.len() <= 16,
            acc == be_value(bytes@.subrange(0, i as int)),
        decreases bytes@.len() - i,
    {
        proof {
            let next = bytes@.subrange(0, i + 1);
            assert(next.drop_last() =~= bytes@.subrange(0, i as int));
            assert(next.last() == bytes@[i as int]);
            lemma_be_value_bound(bytes@.subrange(0, i as int));
            lemma_pow256_monotonic(i as nat, 15);
            lemma_pow256_16();
        }
        acc = acc * 256 + bytes[i] as u128;
        i = i + 1;
    }
    assert(bytes@.subrange(0, i as int) =~= bytes@);
    acc
}

/// Reads 16 bytes as a big-endian signed number in two's complement.
pub fn read_be_i128(bytes: &[u8]) -> (x: i128)
    requires
        bytes@.len() == 16,
    ensures
        x == be_signed(bytes@),
{
    let raw = read_be(bytes);
    if raw >= 0x8000_0000_0000_0000_0000_0000_0000_0000u128 {
        let low: u128 = raw - 0x8000_0000_0000_0000_0000_0000_0000_0000u128;
        (low as i128) + i128::MIN
    } else {
        raw as i128
    }
}

/// Writes the `width` low bytes of `n`, most significant first.
pub fn write_be(n: u128, width: usize) -> (out: Vec<u8>)
    requires
        width <= 16,
    ensures
        out@ == be_bytes(n as nat, width as nat),
{
    let mut out: Vec<u8> = Vec::new();
    let mut i: usize = 0;
    while i < width
        invariant
            i <= width <= 16,
            out@.len() == i,
            forall|j: int| 0 <= j < i ==> out@[j] == be_bytes(n as nat, width as nat)[j],
        decreases width - i,
    {
        let mut divisor: u128 = 1;
        let mut k: usize = 0;
        let steps: usize = width - 1 - i;
        while k < steps
            invariant
                k <= steps <= 15,
                divisor == pow256(k as nat),
            decreases steps - k,
        {
            proof {
                lemma_pow256_monotonic((k + 1) as nat, 15);
                lemma_pow256_16();
            }
            divisor = divisor * 256;
            k = k + 1;
        }
        proof {
            lemma_pow256_positive(steps as nat);
        }
        let digit: u8 = ((n / divisor) % 256) as u8;
        out.push(digit);
        i = i + 1;
    }
    assert(out@ =~= be_bytes(n as nat, width as nat));
    out
}

/// Writes a signed number as 16 big-endian bytes in two's complement.
pub fn write_be_i128(x: i128) -> (out: Vec<u8>)
    ensures
        out@ == be_bytes(twos_complement(x as int), 16),
{
    let raw: u128 = if x < 0 {
        let low: u128 = (x - i128::MIN) as u128;
        low + 0x8000_0000_0000_0000_0000_0000_0000_0000u128
    } else {
        x as u128
    };
    write_be(raw, 16)
}

/// Appends the bytes of `src` to `dst`.
pub fn extend(dst: &mut Vec<u8>, src: &[u8])
    ensures
        final(dst)@ == old(dst)@ + src@,
{
    let mut i: usize = 0;
    while i < src.len()
        invariant
            i <= src@.len(),
            dst@ == old(dst)@ + src@.subrange(0, i as int),
        decreases src@.len() - i,
    {
        dst.push(src[i]);
        assert(dst@ =~= old(dst)@ + src@.subrange(0, i + 1));
        i = i + 1;
    }
    assert(src@.subrange(0, i as int) =~= src@);
}

/// The bytes of `src` from `from` up to `to`.
pub fn slice_vec(src: &[u8], from: usize, to: usize) -> (out: Vec<u8>)
    requires
        from <= to <= src@.len(),
    ensures
        out@ == src@.subrange(from as int, to as int),
{
    let mut out: Vec<u8> = Vec::new();
    let mut i: usize = from;
    while i < to
        invariant
            from <= i <= to <= src@.len(),
            out@ == src@.subrange(from as int, i as int),
        decreases to - i,
    {
        out.push(src[i]);
        assert(out@ =~= src@.subrange(from as int, i + 1));
        i = i + 1;
    }
    out
}

} // verus!
