//! Encoders of quoted strings and decimal numbers.

use vstd::prelude::*;

verus! {

/// `"` and `\` preceded by a backslash; any other byte as it is.
pub open spec fn escaped_byte(b: u8) -> Seq<u8> {
    if b == 34 {
        seq![92u8, 34u8]
    } else if b == 92 {
        seq![92u8, 92u8]
    } else {
        seq![b]
    }
}

/// The bytes of `s`, each escaped.
pub open spec fn escaped(s: Seq<u8>) -> Seq<u8>
    decreases s.len(),
{
    if s.len() == 0 {
        Seq::empty()
    } else {
        escaped(s.drop_last()) + escaped_byte(s.last())
    }
}

/// `s` escaped and surrounded with double quotes.
pub open spec fn quoted(s: Seq<u8>) -> Seq<u8> {
    seq![34u8] + escaped(s) + seq![34u8]
}

/// `10^n`.
pub open spec fn pow10(n: nat) -> nat
    decreases n,
{
    if n == 0 { 1 } else { 10 * pow10((n - 1) as nat) }
}

/// The decimal digits of `n` in ASCII, most significant first, without
/// leading zeros ("0" for zero).
pub open spec fn decimal(n: nat) -> Seq<u8>
    decreases n,
{
    if n < 10 {
        seq![(48 + n) as u8]
    } else {
        decimal(n / 10).push((48 + n % 10) as u8)
    }
}

/// Append a quoted string to `w`: `\` and `"` are escaped, and the string
/// is surrounded with double quotes.
pub fn write_qstr(w: &mut Vec<u8>, s: &[u8])
    ensures
        final(w)@ == old(w)@ + quoted(s@),
{
    w.push(34u8);
    let mut i: usize = 0;
    while i < s.len()
        invariant
            i <= s@.len(),
            w@ == old(w)@ + seq![34u8] + escaped(s@.take(i as int)),
        decreases s@.len() - i,
    {
        let ch: u8 = s[i];
        if ch == 34u8 {
            w.push(92u8);
            w.push(34u8);
        } else if ch == 92u8 {
            w.push(92u8);
            w.push(92u8);
        } else {
            w.push(ch);
        }
        proof {
            assert(s@.take(i + 1).drop_last() =~= s@.take(i as int));
            assert(s@.take(i + 1).last() == ch);
            assert(w@ =~= old(w)@ + seq![34u8] + escaped(s@.take(i + 1)));
        }
        i = i + 1;
    }
    assert(s@.take(s@.len() as int) =~= s@);
    w.push(34u8);
    assert(w@ =~= old(w)@ + quoted(s@));
}

proof fn lemma_div_bound(v: nat, n: nat)
    requires
        n > 0,
        v < pow10(n),
    ensures
        v / 10 < pow10((n - 1) as nat),
{
    let p = pow10((n - 1) as nat);
    assert(pow10(n) == 10 * p);
    assert(v / 10 < p) by (nonlinear_arith)
        requires
            v < 10 * p,
    ;
}

/// Append an unsigned number in decimal to `w`.
pub fn write_num_u32(w: &mut Vec<u8>, val: u32)
    ensures
        final(w)@ == old(w)@ + decimal(val as nat),
{
    let mut val: u32 = val;
    let ghost orig: nat = val as nat;
    let mut buf: [u8; 10] = [0u8; 10];
    let mut curr: usize = 10;
    proof {
        reveal_with_fuel(pow10, 11);
        assert(pow10(10) == 10000000000);
    }
    loop
        invariant_except_break
            curr <= 10,
            (val as nat) < pow10(curr as nat),
            curr == 10 || val > 0,
            buf@.len() == 10,
            decimal(orig) == decimal(val as nat) + buf@.subrange(curr as int, 10),
        ensures
            curr < 10,
            buf@.len() == 10,
            decimal(orig) == buf@.subrange(curr as int, 10),
        decreases curr,
    {
        proof {
            if curr == 0 {
                assert(pow10(0) == 1);
            }
            lemma_div_bound(val as nat, curr as nat);
        }
        let ghost old_val: nat = val as nat;
        let ghost old_tail = buf@.subrange(curr as int, 10);
        curr = curr - 1;
        let digit: u8 = 48u8 + (val % 10) as u8;
        buf[curr] = digit;
        val = val / 10;
        assert(buf@.subrange(curr as int, 10) =~= seq![digit] + old_tail);
        if val == 0 {
            assert(decimal(old_val) =~= seq![digit]);
            break;
        }
        assert(decimal(old_val) == decimal(val as nat).push(digit));
        assert(decimal(val as nat).push(digit) + old_tail =~= decimal(val as nat) + (seq![digit]
            + old_tail));
    }
    let ghost start = w@;
    let mut k: usize = curr;
    while k < 10
        invariant
            curr <= k <= 10,
            buf@.len() == 10,
            w@ == start + buf@.subrange(curr as int, k as int),
        decreases 10 - k,
    {
        w.push(buf[k]);
        assert(buf@.subrange(curr as int, k + 1) =~= buf@.subrange(curr as int, k as int).push(
            buf@[k as int],
        ));
        k = k + 1;
    }
}

/// The number that the ASCII decimal digits `s` denote.
pub open spec fn decimal_value(s: Seq<u8>) -> nat
    decreases s.len(),
{
    if s.len() == 0 {
        0
    } else {
        decimal_value(s.drop_last()) * 10 + (s.last() - 48) as nat
    }
}

/// The decimal form of a number is made of ASCII digits, starts with a
/// non-zero digit unless the number is zero, and denotes the number.
pub proof fn lemma_decimal_denotes(n: nat)
    ensures
        decimal(n).len() >= 1,
        forall|i: int| 0 <= i < decimal(n).len() ==> 48 <= #[trigger] decimal(n)[i] <= 57,
        n > 0 ==> decimal(n)[0] != 48,
        decimal_value(decimal(n)) == n,
    decreases n,
{
    if n >= 10 {
        lemma_decimal_denotes(n / 10);
        let d = decimal(n / 10);
        assert(decimal(n).drop_last() =~= d);
        assert(decimal(n)[0] == d[0]);
        assert(decimal(n).last() == (48 + n % 10) as u8);
        assert(decimal_value(decimal(n)) == decimal_value(d) * 10 + n % 10);
        assert(n == (n / 10) * 10 + n % 10);
    } else {
        assert(decimal(n).drop_last() =~= Seq::<u8>::empty());
        assert(decimal_value(Seq::<u8>::empty()) == 0);
        assert(decimal_value(decimal(n)) == decimal_value(decimal(n).drop_last()) * 10 + (
        decimal(n).last() - 48) as nat);
    }
}

/// Distinct byte strings are encoded differently: the escaped form of a
/// string determines the string.
pub proof fn lemma_escaped_injective(a: Seq<u8>, b: Seq<u8>)
    requires
        escaped(a) == escaped(b),
    ensures
        a == b,
    decreases a.len() + b.len(),
{
    if a.len() == 0 || b.len() == 0 {
        lemma_escaped_len(a);
        lemma_escaped_len(b);
        if a.len() == 0 {
            assert(escaped(a).len() == 0);
        } else {
            assert(escaped(b).len() == 0);
        }
        assert(a =~= b);
    } else {
        let ea = escaped(a.drop_last());
        let eb = escaped(b.drop_last());
        let xa = escaped_byte(a.last());
        let xb = escaped_byte(b.last());
        let e = escaped(a);
        assert(e == ea + xa);
        assert(e == eb + xb);
        assert(e.last() == xa.last());
        assert(e.last() == xb.last());
        if xa.last() == 34 || xa.last() == 92 {
            // both ends come from an escaped quote or backslash
            assert(xa.len() == 2 && xb.len() == 2);
        } else {
            assert(xa.len() == 1 && xb.len() == 1);
        }
        assert(a.last() == b.last());
        assert(ea =~= e.subrange(0, e.len() - xa.len()));
        assert(eb =~= e.subrange(0, e.len() - xb.len()));
        lemma_escaped_injective(a.drop_last(), b.drop_last());
        assert(a =~= a.drop_last().push(a.last()));
        assert(b =~= b.drop_last().push(b.last()));
    }
}

proof fn lemma_escaped_len(s: Seq<u8>)
    ensures
        escaped(s).len() >= s.len(),
    decreases s.len(),
{
    if s.len() > 0 {
        lemma_escaped_len(s.drop_last());
    }
}

/// Escaping works byte by byte: the escaped form of a concatenation is the
/// concatenation of the escaped forms; a double quote becomes backslash,
/// double quote; a backslash becomes two backslashes; any other byte stays
/// as it is.
pub proof fn lemma_escape_bytewise(a: Seq<u8>, b: Seq<u8>, c: u8)
    ensures
        escaped(a + b) == escaped(a) + escaped(b),
        escaped(seq![34u8]) == seq![92u8, 34u8],
        escaped(seq![92u8]) == seq![92u8, 92u8],
        c != 34 && c != 92 ==> escaped(seq![c]) == seq![c],
        escaped(Seq::<u8>::empty()) == Seq::<u8>::empty(),
        quoted(a) == seq![34u8] + escaped(a) + seq![34u8],
    decreases b.len(),
{
    assert(escaped(Seq::<u8>::empty()) =~= Seq::<u8>::empty());
    assert(seq![34u8].drop_last() =~= Seq::<u8>::empty() && seq![34u8].last() == 34);
    assert(seq![92u8].drop_last() =~= Seq::<u8>::empty() && seq![92u8].last() == 92);
    assert(seq![c].drop_last() =~= Seq::<u8>::empty() && seq![c].last() == c);
    assert(escaped(seq![34u8]) =~= seq![92u8, 34u8]);
    assert(escaped(seq![92u8]) =~= seq![92u8, 92u8]);
    if c != 34 && c != 92 {
        assert(escaped(seq![c]) =~= seq![c]);
    }
    if b.len() == 0 {
        assert(a + b =~= a);
        assert(escaped(a) + escaped(b) =~= escaped(a));
    } else {
        lemma_escape_bytewise(a, b.drop_last(), c);
        assert((a + b).drop_last() =~= a + b.drop_last());
        assert((a + b).last() == b.last());
        assert(escaped(a + b) =~= escaped(a) + escaped(b));
    }
}

} // verus!
