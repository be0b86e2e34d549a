//! Decimal strings for `Number` and `Date` fields.
//!
//! Wire scalars travel as strings; numbers use the canonical decimal form
//! (no sign for zero, no leading zeros, a single leading `-` for negative
//! values).  Rendering and parsing are exact mutual inverses, which is what
//! makes the codec's round-trip law hold for numeric fields.

use vstd::prelude::*;

verus! {

pub open spec fn dec_digit(d: int) -> char {
    if d == 0 {
        '0'
    } else if d == 1 {
        '1'
    } else if d == 2 {
        '2'
    } else if d == 3 {
        '3'
    } else if d == 4 {
        '4'
    } else if d == 5 {
        '5'
    } else if d == 6 {
        '6'
    } else if d == 7 {
        '7'
    } else if d == 8 {
        '8'
    } else {
        '9'
    }
}

pub open spec fn digit_val(c: char) -> int {
    if c == '0' {
        0
    } else if c == '1' {
        1
    } else if c == '2' {
        2
    } else if c == '3' {
        3
    } else if c == '4' {
        4
    } else if c == '5' {
        5
    } else if c == '6' {
        6
    } else if c == '7' {
        7
    } else if c == '8' {
        8
    } else if c == '9' {
        9
    } else {
        -1
    }
}

pub open spec fn is_digit(c: char) -> bool {
    digit_val(c) >= 0
}

pub open spec fn all_digits(s: Seq<char>) -> bool {
    forall|i: int| 0 <= i < s.len() ==> is_digit(#[trigger] s[i])
}

/// The canonical decimal rendering of a non-negative integer.
pub open spec fn dec_of(n: nat) -> Seq<char>
    decreases n,
{
    if n < 10 {
        seq![dec_digit(n as int)]
    } else {
        dec_of(n / 10).push(dec_digit((n % 10) as int))
    }
}

/// The value of a digit string (0 for the empty string).
pub open spec fn dec_val(s: Seq<char>) -> int
    decreases s.len(),
{
    if s.len() == 0 {
        0
    } else {
        dec_val(s.drop_last()) * 10 + digit_val(s.last())
    }
}

/// A canonical unsigned digit string: non-empty, digits only, no leading
/// zero except for `"0"` itself.
pub open spec fn is_canonical_dec(s: Seq<char>) -> bool {
    &&& all_digits(s)
    &&& s.len() > 0
    &&& (s.len() == 1 || s[0] != '0')
}

pub open spec fn pow10(k: nat) -> int
    decreases k,
{
    if k == 0 {
        1
    } else {
        10 * pow10((k - 1) as nat)
    }
}

/// The canonical decimal rendering of a signed integer.
pub open spec fn dec_of_i64(n: i64) -> Seq<char> {
    if n >= 0 {
        dec_of(n as nat)
    } else {
        seq!['-'] + dec_of((-(n as int)) as nat)
    }
}

/// What a strict decimal parse of an unsigned 64-bit number accepts: exactly
/// the canonical renderings of values in range.
pub open spec fn spec_parse_u64(s: Seq<char>) -> Option<u64> {
    if is_canonical_dec(s) && dec_val(s) <= u64::MAX {
        Some(dec_val(s) as u64)
    } else {
        None
    }
}

/// What a strict decimal parse of a signed 64-bit number accepts.
pub open spec fn spec_parse_i64(s: Seq<char>) -> Option<i64> {
    if s.len() > 0 && s[0] == '-' {
        let t = s.drop_first();
        if is_canonical_dec(t) && 1 <= dec_val(t) <= 0x8000_0000_0000_0000 {
            Some((-dec_val(t)) as i64)
        } else {
            None
        }
    } else {
        if is_canonical_dec(s) && dec_val(s) <= i64::MAX {
            Some(dec_val(s) as i64)
        } else {
            None
        }
    }
}

/// The rendering of `n` is canonical and evaluates back to `n`.
pub proof fn lemma_dec_of_props(n: nat)
    ensures
        is_canonical_dec(dec_of(n)),
        dec_val(dec_of(n)) == n,
        n > 0 ==> dec_of(n)[0] != '0',
        n < 10 <==> dec_of(n).len() == 1,
    decreases n,
{
    if n < 10 {
        reveal_with_fuel(dec_val, 2);
        assert(dec_of(n) =~= seq![dec_digit(n as int)]);
        assert(dec_of(n).drop_last() =~= Seq::<char>::empty());
    } else {
        lemma_dec_of_props(n / 10);
        let s = dec_of(n);
        let p = dec_of(n / 10);
        assert(s == p.push(dec_digit((n % 10) as int)));
        assert(s.drop_last() =~= p);
        assert(s[0] == p[0]);
        assert(dec_val(s) == dec_val(p) * 10 + digit_val(dec_digit((n % 10) as int)));
        assert(dec_val(s) == (n / 10) * 10 + n % 10);
    }
}

/// A canonical digit string is the rendering of its own value.
pub proof fn lemma_dec_val_inverse(s: Seq<char>)
    requires
        is_canonical_dec(s),
    ensures
        dec_val(s) >= 0,
        dec_of(dec_val(s) as nat) == s,
    decreases s.len(),
{
    lemma_dec_val_nonneg(s);
    if s.len() == 1 {
        reveal_with_fuel(dec_val, 2);
        assert(s.drop_last() =~= Seq::<char>::empty());
        assert(dec_val(s) == digit_val(s[0]));
        assert(dec_of(digit_val(s[0]) as nat) =~= s);
    } else {
        let p = s.drop_last();
        let c = s.last();
        assert(is_canonical_dec(p)) by {
            assert(forall|i: int| 0 <= i < p.len() ==> p[i] == s[i]);
        }
        lemma_dec_val_inverse(p);
        lemma_dec_val_lower_bound(p);
        let v = dec_val(s);
        assert(v == dec_val(p) * 10 + digit_val(c));
        assert(v >= 10);
        assert(v / 10 == dec_val(p) && v % 10 == digit_val(c)) by {
            assert(0 <= digit_val(c) < 10);
        }
        assert(dec_of(v as nat) == dec_of(dec_val(p) as nat).push(dec_digit(digit_val(c))));
        assert(dec_of(v as nat) =~= s);
    }
}

pub proof fn lemma_dec_val_nonneg(s: Seq<char>)
    requires
        all_digits(s),
    ensures
        dec_val(s) >= 0,
    decreases s.len(),
{
    if s.len() > 0 {
        assert(all_digits(s.drop_last())) by {
            assert(forall|i: int| 0 <= i < s.len() - 1 ==> s.drop_last()[i] == s[i]);
        }
        lemma_dec_val_nonneg(s.drop_last());
    }
}

/// A digit string without a leading zero is worth at least 1, and in general
/// at least `pow10(len - 1)`.
pub proof fn lemma_dec_val_lower_bound(s: Seq<char>)
    requires
        all_digits(s),
        s.len() > 0,
        s[0] != '0',
    ensures
        dec_val(s) >= pow10((s.len() - 1) as nat),
        dec_val(s) >= 1,
    decreases s.len(),
{
    lemma_pow10_positive((s.len() - 1) as nat);
    if s.len() == 1 {
        reveal_with_fuel(dec_val, 2);
        assert(s.drop_last() =~= Seq::<char>::empty());
    } else {
        let p = s.drop_last();
        assert(all_digits(p) && p[0] != '0') by {
            assert(forall|i: int| 0 <= i < p.len() ==> p[i] == s[i]);
        }
        lemma_dec_val_lower_bound(p);
    }
}

pub proof fn lemma_dec_val_upper_bound(s: Seq<char>)
    requires
        all_digits(s),
    ensures
        dec_val(s) < pow10(s.len() as nat),
    decreases s.len(),
{
    if s.len() == 0 {
    } else {
        assert(all_digits(s.drop_last())) by {
            assert(forall|i: int| 0 <= i < s.len() - 1 ==> s.drop_last()[i] == s[i]);
        }
        lemma_dec_val_upper_bound(s.drop_last());
        assert(digit_val(s.last()) <= 9);
    }
}

pub proof fn lemma_pow10_positive(k: nat)
    ensures
        pow10(k) >= 1,
    decreases k,
{
    if k > 0 {
        lemma_pow10_positive((k - 1) as nat);
    }
}

pub proof fn lemma_pow10_mono(a: nat, b: nat)
    requires
        a <= b,
    ensures
        pow10(a) <= pow10(b),
    decreases b,
{
    if a < b {
        lemma_pow10_mono(a, (b - 1) as nat);
        lemma_pow10_positive((b - 1) as nat);
    }
}

/// Twenty-one digits already exceed the 64-bit range.
pub proof fn lemma_pow10_20_large()
    ensures
        pow10(20) > u64::MAX,
{
    assert(pow10(20) == 100_000_000_000_000_000_000) by {
        reveal_with_fuel(pow10, 21);
    }
}

/// Renders a non-negative integer in canonical decimal form.
pub fn render_u64(n: u64) -> (r: Vec<char>)
    ensures
        r@ == dec_of(n as nat),
    decreases n,
{
    let d: u64 = n % 10;
    let c: char = digit_char(d);
    if n < 10 {
        let mut r: Vec<char> = Vec::new();
        r.push(c);
        proof {
            assert(r@ =~= dec_of(n as nat));
        }
        r
    } else {
        let mut r = render_u64(n / 10);
        r.push(c);
        r
    }
}

fn digit_char(d: u64) -> (c: char)
    requires
        d < 10,
    ensures
        c == dec_digit(d as int),
{
    match d {
        0 => '0',
        1 => '1',
        2 => '2',
        3 => '3',
        4 => '4',
        5 => '5',
        6 => '6',
        7 => '7',
        8 => '8',
        _ => '9',
    }
}

/// Renders a signed integer in canonical decimal form.
pub fn render_i64(n: i64) -> (r: Vec<char>)
    ensures
        r@ == dec_of_i64(n),
{
    if n >= 0 {
        render_u64(n as u64)
    } else {
        let mag: u64 = if n == i64::MIN {
            0x8000_0000_0000_0000u64
        } else {
            (-n) as u64
        };
        let mut r: Vec<char> = Vec::new();
        r.push('-');
        let mut tail = render_u64(mag);
        r.append(&mut tail);
        proof {
            assert(r@ =~= seq!['-'] + dec_of(mag as nat));
        }
        r
    }
}

/// Strict decimal parse of the characters from `from` on: accepts exactly
/// canonical renderings of values that fit in a `u64`.
pub fn parse_dec_u64_from(s: &Vec<char>, from: usize) -> (r: Option<u64>)
    requires
        from <= s@.len(),
    ensures
        r == spec_parse_u64(s@.skip(from as int)),
{
    let ghost t = s@.skip(from as int);
    let n = s.len();
    if n == from {
        return None;
    }
    if n - from > 1 && s[from] == '0' {
        return None;
    }
    if n - from > 20 {
        proof {
            if is_canonical_dec(t) {
                lemma_dec_val_lower_bound(t);
                lemma_pow10_mono(20, (t.len() - 1) as nat);
                lemma_pow10_20_large();
            }
        }
        return None;
    }
    let mut acc: u128 = 0;
    let mut i: usize = from;
    while i < n
        invariant
            from <= i <= n,
            n == s@.len(),
            n - from <= 20,
            t == s@.skip(from as int),
            all_digits(t.take(i - from)),
            acc == dec_val(t.take(i - from)),
            acc < pow10((i - from) as nat),
        decreases n - i,
    {
        let c = s[i];
        let d: u128 = match c {
            '0' => 0,
            '1' => 1,
            '2' => 2,
            '3' => 3,
            '4' => 4,
            '5' => 5,
            '6' => 6,
            '7' => 7,
            '8' => 8,
            '9' => 9,
            _ => 10,
        };
        if d == 10 {
            proof {
                assert(t[i - from] == c && !is_digit(c));
            }
            return None;
        }
        proof {
            assert(d == digit_val(c));
            assert(t.take(i - from + 1).drop_last() =~= t.take(i - from));
            assert(t.take(i - from + 1).last() == c);
            lemma_pow10_mono((i + 1 - from) as nat, 20);
            assert(pow10(20) == 100_000_000_000_000_000_000) by {
                reveal_with_fuel(pow10, 21);
            }
        }
        acc = acc * 10 + d;
        i = i + 1;
    }
    proof {
        assert(t.take(n - from) =~= t);
    }
    if acc > u64::MAX as u128 {
        return None;
    }
    Some(acc as u64)
}

/// Strict decimal parse of a signed 64-bit number.
pub fn parse_dec_i64(s: &Vec<char>) -> (r: Option<i64>)
    ensures
        r == spec_parse_i64(s@),
{
    if s.len() > 0 && s[0] == '-' {
        proof {
            assert(s@.skip(1) =~= s@.drop_first());
        }
        match parse_dec_u64_from(s, 1) {
            Some(v) => {
                if v == 0 {
                    proof {
                        if is_canonical_dec(s@.drop_first()) {
                            lemma_dec_val_nonneg(s@.drop_first());
                        }
                    }
                    None
                } else if v <= 0x8000_0000_0000_0000u64 {
                    proof {
                        lemma_dec_val_nonneg(s@.drop_first());
                    }
                    let r: i64 = if v == 0x8000_0000_0000_0000u64 {
                        i64::MIN
                    } else {
                        -(v as i64)
                    };
                    Some(r)
                } else {
                    None
                }
            },
            None => None,
        }
    } else {
        proof {
            assert(s@.skip(0) =~= s@);
            if s@.len() > 0 && is_canonical_dec(s@) {
                assert(s@[0] != '-');
            }
        }
        match parse_dec_u64_from(s, 0) {
            Some(v) => {
                proof {
                    lemma_dec_val_nonneg(s@);
                }
                if v <= i64::MAX as u64 {
                    Some(v as i64)
                } else {
                    None
                }
            },
            None => None,
        }
    }
}

/// Parsing inverts rendering, for unsigned values.
pub proof fn lemma_parse_of_render_u64(n: u64)
    ensures
        spec_parse_u64(dec_of(n as nat)) == Some(n),
{
    lemma_dec_of_props(n as nat);
}

/// Rendering inverts parsing, for unsigned values.
pub proof fn lemma_render_of_parse_u64(s: Seq<char>, n: u64)
    requires
        spec_parse_u64(s) == Some(n),
    ensures
        dec_of(n as nat) == s,
{
    lemma_dec_val_inverse(s);
}

/// Parsing inverts rendering, for signed values.
pub proof fn lemma_parse_of_render_i64(n: i64)
    ensures
        spec_parse_i64(dec_of_i64(n)) == Some(n),
{
    if n >= 0 {
        lemma_dec_of_props(n as nat);
        let s = dec_of(n as nat);
        assert(s[0] != '-');
    } else {
        let m = (-(n as int)) as nat;
        lemma_dec_of_props(m);
        let t = dec_of(m);
        let s = dec_of_i64(n);
        assert(s == seq!['-'] + t);
        assert(s[0] == '-');
        assert(s.drop_first() =~= t);
        assert(1 <= dec_val(t) <= 0x8000_0000_0000_0000);
    }
}

/// Rendering inverts parsing, for signed values.
pub proof fn lemma_render_of_parse_i64(s: Seq<char>, n: i64)
    requires
        spec_parse_i64(s) == Some(n),
    ensures
        dec_of_i64(n) == s,
{
    if s.len() > 0 && s[0] == '-' {
        let t = s.drop_first();
        lemma_dec_val_inverse(t);
        assert(n == (-dec_val(t)) as i64);
        assert(n < 0);
        assert((-(n as int)) as nat == dec_val(t) as nat);
        assert(dec_of_i64(n) == seq!['-'] + dec_of(dec_val(t) as nat));
        assert(seq!['-'] + t =~= s);
    } else {
        lemma_dec_val_inverse(s);
        assert(n >= 0);
    }
}

} // verus!
