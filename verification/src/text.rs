//! Character-level helpers shared by the formatting code of the library.

use vstd::prelude::*;

verus! {

/// Lowercase hexadecimal digit for a value in `0..16`.
pub open spec fn hex_digit(n: int) -> char {
    if n < 10 {
        (('0' as int) + n) as char
    } else {
        (('a' as int) + (n - 10)) as char
    }
}

/// Appends one character to a string (`String::push`).
#[verifier::external_body]
pub fn push_char(s: &mut String, c: char)
    ensures
        final(s)@ == old(s)@.push(c),
{
    s.push(c);
}

/// The characters of a string slice, in order.
pub fn chars_of(s: &str) -> (v: Vec<char>)
    ensures
        v@ == s@,
{
    let mut v: Vec<char> = Vec::new();
    for c in it: s.chars()
        invariant
            v@ == it.seq().take(it.index() as int),
    {
        v.push(c);
    }
    v
}


/// Lowercase hexadecimal digit character for a value below 16.
pub fn hex_digit_char(n: u8) -> (c: char)
    requires
        n < 16,
    ensures
        c == hex_digit(n as int),
{
    if n < 10 {
        (48u8 + n) as char
    } else {
        (87u8 + n) as char
    }
}

/// Two lowercase hex digits per byte, most significant nibble first.
pub open spec fn hex_of_bytes(d: Seq<u8>) -> Seq<char>
    decreases d.len(),
{
    if d.len() == 0 {
        Seq::empty()
    } else {
        hex_of_bytes(d.drop_last()) + seq![
            hex_digit((d.last() / 16) as int),
            hex_digit((d.last() % 16) as int),
        ]
    }
}

/// Hex rendering has two characters per byte.
pub proof fn lemma_hex_of_bytes_len(d: Seq<u8>)
    ensures
        hex_of_bytes(d).len() == 2 * d.len(),
    decreases d.len(),
{
    if d.len() > 0 {
        lemma_hex_of_bytes_len(d.drop_last());
    }
}

/// A lowercase hexadecimal digit.
pub open spec fn is_lower_hex_digit(c: char) -> bool {
    ('0' <= c && c <= '9') || ('a' <= c && c <= 'f')
}

/// Hex rendering has two characters per byte, each a lowercase hex digit.
pub proof fn law_hex_encoding_shape(d: Seq<u8>)
    ensures
        hex_of_bytes(d).len() == 2 * d.len(),
        forall|k: int| 0 <= k < hex_of_bytes(d).len() ==> is_lower_hex_digit(#[trigger] hex_of_bytes(d)[k]),
    decreases d.len(),
{
    lemma_hex_of_bytes_len(d);
    if d.len() > 0 {
        law_hex_encoding_shape(d.drop_last());
        let h = hex_of_bytes(d);
        let p = hex_of_bytes(d.drop_last());
        assert forall|k: int| 0 <= k < h.len() implies is_lower_hex_digit(#[trigger] h[k]) by {
            if k < p.len() {
                assert(h[k] == p[k]);
            }
        }
    }
}

proof fn lemma_hex_digit_injective(a: int, b: int)
    requires
        0 <= a < 16,
        0 <= b < 16,
        hex_digit(a) == hex_digit(b),
    ensures
        a == b,
{
}

/// Hex rendering is one to one: equal renderings come from equal bytes.
pub proof fn law_hex_encoding_injective(a: Seq<u8>, b: Seq<u8>)
    requires
        hex_of_bytes(a) == hex_of_bytes(b),
    ensures
        a == b,
    decreases a.len(),
{
    lemma_hex_of_bytes_len(a);
    lemma_hex_of_bytes_len(b);
    if a.len() > 0 {
        let ha = hex_of_bytes(a);
        let n = ha.len() as int;
        let x = a.last();
        let y = b.last();
        assert(ha[n - 2] == hex_digit((x / 16) as int) && ha[n - 1] == hex_digit((x % 16) as int)) by {
            lemma_hex_of_bytes_len(a.drop_last());
        }
        assert(ha[n - 2] == hex_digit((y / 16) as int) && ha[n - 1] == hex_digit((y % 16) as int)) by {
            lemma_hex_of_bytes_len(b.drop_last());
        }
        lemma_hex_digit_injective((x / 16) as int, (y / 16) as int);
        lemma_hex_digit_injective((x % 16) as int, (y % 16) as int);
        assert(x == y);
        lemma_hex_of_bytes_len(a.drop_last());
        lemma_hex_of_bytes_len(b.drop_last());
        assert(hex_of_bytes(a.drop_last()) =~= ha.subrange(0, n - 2));
        assert(hex_of_bytes(b.drop_last()) =~= ha.subrange(0, n - 2));
        law_hex_encoding_injective(a.drop_last(), b.drop_last());
        assert(a =~= a.drop_last().push(x));
        assert(b =~= b.drop_last().push(y));
    } else {
        assert(b.len() == 0);
        assert(a =~= b);
    }
}

/// Builds a `String` holding exactly the given characters.
pub fn string_from_chars(v: &Vec<char>) -> (s: String)
    ensures
        s@ == v@,
{
    let mut s = String::new();
    for i in 0..v.len()
        invariant
            s@ == v@.take(i as int),
    {
        push_char(&mut s, v[i]);
        assert(v@.take(i + 1) == v@.take(i as int).push(v@[i as int]));
    }
    assert(v@.take(v.len() as int) == v@);
    s
}


/// Lexicographic order of character sequences by scalar value (for UTF-8
/// strings this is also the order of their bytes).
pub open spec fn text_lt(a: Seq<char>, b: Seq<char>) -> bool
    decreases a.len(),
{
    if a.len() == 0 {
        b.len() > 0
    } else if b.len() == 0 {
        false
    } else if a[0] != b[0] {
        a[0] < b[0]
    } else {
        text_lt(a.drop_first(), b.drop_first())
    }
}

/// Distinct sequences are ordered one way or the other, and never both.
pub proof fn lemma_text_lt_total(a: Seq<char>, b: Seq<char>)
    ensures
        a != b ==> text_lt(a, b) || text_lt(b, a),
        !(text_lt(a, b) && text_lt(b, a)),
        !text_lt(a, a),
    decreases a.len(),
{
    if a.len() > 0 && b.len() > 0 && a[0] == b[0] {
        lemma_text_lt_total(a.drop_first(), b.drop_first());
        if a != b {
            assert(a.drop_first() != b.drop_first()) by {
                if a.drop_first() == b.drop_first() {
                    assert(a =~= seq![a[0]] + a.drop_first());
                    assert(b =~= seq![b[0]] + b.drop_first());
                }
            }
        }
    } else if a.len() == 0 && b.len() == 0 {
        assert(a =~= b);
    } else if a.len() > 0 {
        lemma_text_lt_total(a.drop_first(), a.drop_first());
    }
}

/// The order is transitive.
pub proof fn lemma_text_lt_trans(a: Seq<char>, b: Seq<char>, c: Seq<char>)
    requires
        text_lt(a, b),
        text_lt(b, c),
    ensures
        text_lt(a, c),
    decreases a.len(),
{
    if a.len() > 0 && b.len() > 0 && c.len() > 0 && a[0] == b[0] && b[0] == c[0] {
        lemma_text_lt_trans(a.drop_first(), b.drop_first(), c.drop_first());
    }
}

/// Whether `a` sorts strictly before `b` in lexicographic character order.
pub fn text_less(a: &str, b: &str) -> (r: bool)
    ensures
        r == text_lt(a@, b@),
{
    let va = chars_of(a);
    let vb = chars_of(b);
    let mut k: usize = 0;
    assert(a@.skip(0) =~= a@ && b@.skip(0) =~= b@);
    while k < va.len() && k < vb.len()
        invariant
            k <= va@.len(),
            k <= vb@.len(),
            va@ == a@,
            vb@ == b@,
            text_lt(a@, b@) == text_lt(a@.skip(k as int), b@.skip(k as int)),
        decreases va@.len() - k,
    {
        if va[k] != vb[k] {
            proof {
                let sa = a@.skip(k as int);
                let sb = b@.skip(k as int);
                assert(sa[0] == va@[k as int] && sb[0] == vb@[k as int]);
            }
            return va[k] < vb[k];
        }
        proof {
            let sa = a@.skip(k as int);
            let sb = b@.skip(k as int);
            assert(sa.drop_first() =~= a@.skip(k + 1));
            assert(sb.drop_first() =~= b@.skip(k + 1));
        }
        k = k + 1;
    }
    proof {
        let sa = a@.skip(k as int);
        let sb = b@.skip(k as int);
        if k == va.len() {
            assert(sa.len() == 0);
        } else {
            assert(sb.len() == 0);
        }
    }
    k == va.len() && k < vb.len()
}


/// Decimal digits of a natural number, most significant first.
pub open spec fn decimal_text(n: nat) -> Seq<char>
    decreases n,
{
    if n < 10 {
        seq![(('0' as int) + n) as char]
    } else {
        decimal_text(n / 10) + seq![(('0' as int) + (n % 10)) as char]
    }
}

/// Decimal rendering of an integer, with a leading `-` when negative.
pub open spec fn signed_decimal_text(n: int) -> Seq<char> {
    if n < 0 {
        seq!['-'] + decimal_text((-n) as nat)
    } else {
        decimal_text(n as nat)
    }
}

/// Decimal digits of an unsigned integer (`Display` for `u64`).
pub fn u64_decimal(n: u64) -> (s: String)
    ensures
        s@ == decimal_text(n as nat),
    decreases n,
{
    if n < 10 {
        let mut s = String::new();
        push_char(&mut s, ((48u64 + n) as u8) as char);
        s
    } else {
        let mut s = u64_decimal(n / 10);
        push_char(&mut s, ((48u64 + n % 10) as u8) as char);
        s
    }
}

/// Decimal rendering of a signed integer (`Display` for `i64`).
pub fn i64_decimal(n: i64) -> (s: String)
    ensures
        s@ == signed_decimal_text(n as int),
{
    if n < 0 {
        let mut s = String::new();
        push_char(&mut s, '-');
        let magnitude: u64 = if n == i64::MIN {
            9223372036854775808u64
        } else {
            (-n) as u64
        };
        let digits = u64_decimal(magnitude);
        s.append(digits.as_str());
        s
    } else {
        u64_decimal(n as u64)
    }
}

/// Whether `pat` occurs in `s` at position `i`.
pub open spec fn occurs_at(s: Seq<char>, pat: Seq<char>, i: int) -> bool {
    0 <= i && i + pat.len() <= s.len() && s.subrange(i, i + pat.len()) == pat
}

/// Whether `pat` occurs anywhere in `s`.
pub open spec fn contains_text(s: Seq<char>, pat: Seq<char>) -> bool {
    exists|i: int| occurs_at(s, pat, i)
}

/// Whether `pat` occurs in `s`.
pub fn text_contains(s: &str, pat: &str) -> (r: bool)
    ensures
        r == contains_text(s@, pat@),
{
    let vs = chars_of(s);
    let vp = chars_of(pat);
    let n = vs.len();
    let m = vp.len();
    if m > n {
        proof {
            assert forall|i: int| !occurs_at(s@, pat@, i) by {}
        }
        return false;
    }
    let mut i: usize = 0;
    while i <= n - m
        invariant
            vs@ == s@,
            vp@ == pat@,
            n == vs@.len(),
            m == vp@.len(),
            m <= n,
            i <= n - m + 1,
            forall|k: int| 0 <= k < i ==> !occurs_at(s@, pat@, k),
        decreases n - m + 1 - i,
    {
        let mut j: usize = 0;
        while j < m && vs[i + j] == vp[j]
            invariant
                vs@ == s@,
                vp@ == pat@,
                n == vs@.len(),
                m == vp@.len(),
                i + m <= n,
                j <= m,
                forall|q: int| 0 <= q < j ==> vs@[i + q] == vp@[q],
            decreases m - j,
        {
            j = j + 1;
        }
        if j == m {
            assert(s@.subrange(i as int, i + m) =~= pat@);
            assert(occurs_at(s@, pat@, i as int));
            return true;
        }
        assert(!occurs_at(s@, pat@, i as int)) by {
            assert(s@.subrange(i as int, i + m)[j as int] == vs@[i + j]);
        }
        i = i + 1;
    }
    proof {
        assert forall|k: int| !occurs_at(s@, pat@, k) by {
            if 0 <= k && k + m <= n {
                assert(k < i);
            }
        }
    }
    false
}

/// Whether `s` begins with `p`.
pub open spec fn has_prefix(s: Seq<char>, p: Seq<char>) -> bool {
    p.len() <= s.len() && s.subrange(0, p.len() as int) == p
}

/// Whether `s` begins with `p`.
pub fn text_starts_with(s: &str, p: &str) -> (r: bool)
    ensures
        r == has_prefix(s@, p@),
{
    let vs = chars_of(s);
    let vp = chars_of(p);
    if vp.len() > vs.len() {
        return false;
    }
    let mut i: usize = 0;
    while i < vp.len()
        invariant
            vs@ == s@,
            vp@ == p@,
            vp@.len() <= vs@.len(),
            i <= vp@.len(),
            forall|q: int| 0 <= q < i ==> vs@[q] == vp@[q],
        decreases vp@.len() - i,
    {
        if vs[i] != vp[i] {
            assert(s@.subrange(0, p@.len() as int)[i as int] != p@[i as int]);
            return false;
        }
        i = i + 1;
    }
    assert(s@.subrange(0, p@.len() as int) =~= p@);
    true
}

/// Whether two texts are equal.
pub fn text_eq(a: &str, b: &str) -> (r: bool)
    ensures
        r == (a@ == b@),
{
    String::from_str(a) == String::from_str(b)
}

} // verus!
