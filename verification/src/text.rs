use vstd::prelude::*;

verus! {

/// The character of a digit value below 16, in lower case.
pub open spec fn digit_char(d: nat) -> char {
    if d < 10 {
        (d + 48) as char
    } else {
        (d + 87) as char
    }
}

/// The decimal representation of `n`, without leading zeros.
pub open spec fn decimal(n: nat) -> Seq<char>
    decreases n,
{
    if n < 10 {
        seq![digit_char(n)]
    } else {
        decimal(n / 10).push(digit_char(n % 10))
    }
}

fn digit_str(d: u64) -> (s: &'static str)
    requires
        d < 16,
    ensures
        s@ == seq![digit_char(d as nat)],
{
    if d == 0 {
        proof { reveal_strlit("0"); }
        "0"
    } else if d == 1 {
        proof { reveal_strlit("1"); }
        "1"
    } else if d == 2 {
        proof { reveal_strlit("2"); }
        "2"
    } else if d == 3 {
        proof { reveal_strlit("3"); }
        "3"
    } else if d == 4 {
        proof { reveal_strlit("4"); }
        "4"
    } else if d == 5 {
        proof { reveal_strlit("5"); }
        "5"
    } else if d == 6 {
        proof { reveal_strlit("6"); }
        "6"
    } else if d == 7 {
        proof { reveal_strlit("7"); }
        "7"
    } else if d == 8 {
        proof { reveal_strlit("8"); }
        "8"
    } else if d == 9 {
        proof { reveal_strlit("9"); }
        "9"
    } else if d == 10 {
        proof { reveal_strlit("a"); }
        "a"
    } else if d == 11 {
        proof { reveal_strlit("b"); }
        "b"
    } else if d == 12 {
        proof { reveal_strlit("c"); }
        "c"
    } else if d == 13 {
        proof { reveal_strlit("d"); }
        "d"
    } else if d == 14 {
        proof { reveal_strlit("e"); }
        "e"
    } else {
        proof { reveal_strlit("f"); }
        "f"
    }
}


/// The lower-case hexadecimal representation of `n`, without leading zeros.
pub open spec fn lower_hex(n: nat) -> Seq<char>
    decreases n,
{
    if n < 16 {
        seq![digit_char(n)]
    } else {
        lower_hex(n / 16).push(digit_char(n % 16))
    }
}

/// Appends the decimal representation of `n` to `out`.
pub fn push_decimal(out: &mut String, n: u64)
    ensures
        final(out)@ == old(out)@ + decimal(n as nat),
    decreases n,
{
    if n >= 10 {
        push_decimal(out, n / 10);
    }
    let d = digit_str(n % 10);
    out.append(d);
    proof {
        if n >= 10 {
            assert(old(out)@ + decimal(n as nat) =~= old(out)@ + decimal((n / 10) as nat) + d@);
        } else {
            assert(decimal(n as nat) =~= d@);
        }
    }
}

/// Appends the lower-case hexadecimal representation of `n` to `out`.
pub fn push_lower_hex(out: &mut String, n: u32)
    ensures
        final(out)@ == old(out)@ + lower_hex(n as nat),
    decreases n,
{
    if n >= 16 {
        push_lower_hex(out, n / 16);
    }
    let d = digit_str((n % 16) as u64);
    out.append(d);
    proof {
        if n >= 16 {
            assert(old(out)@ + lower_hex(n as nat) =~= old(out)@ + lower_hex((n / 16) as nat) + d@);
        } else {
            assert(lower_hex(n as nat) =~= d@);
        }
    }
}

/// The decimal text of `n`, as `format!("{}", n)` writes it.
pub fn decimal_string(n: u64) -> (s: String)
    ensures
        s@ == decimal(n as nat),
{
    let mut s = String::new();
    push_decimal(&mut s, n);
    proof {
        assert(s@ =~= decimal(n as nat));
    }
    s
}

/// The lower-case hexadecimal text of `n`, as `format!("{:x}", n)` writes it.
pub fn lower_hex_string(n: u32) -> (s: String)
    ensures
        s@ == lower_hex(n as nat),
{
    let mut s = String::new();
    push_lower_hex(&mut s, n);
    proof {
        assert(s@ =~= lower_hex(n as nat));
    }
    s
}

/// A character between '0' and '9'.
pub open spec fn is_digit(c: char) -> bool {
    '0' <= c && c <= '9'
}

/// Every character of `s` is a decimal digit.
pub open spec fn all_digits(s: Seq<char>) -> bool {
    forall|i: int| 0 <= i < s.len() ==> is_digit(#[trigger] s[i])
}

/// The number that a sequence of decimal digits denotes.
pub open spec fn decimal_value(s: Seq<char>) -> nat
    decreases s.len(),
{
    if s.len() == 0 {
        0
    } else {
        decimal_value(s.drop_last()) * 10 + ((s.last() as int - 48) as nat)
    }
}

/// A decimal number as this library writes one: at least one digit, and no
/// leading zero unless the number is zero itself.
pub open spec fn canonical_decimal(s: Seq<char>) -> bool {
    &&& s.len() > 0
    &&& all_digits(s)
    &&& (s.len() == 1 || s[0] != '0')
}

/// The value that `parse_decimal` reads from `s`, if it reads one.
pub open spec fn parsed_decimal(s: Seq<char>) -> Option<u64> {
    if canonical_decimal(s) && decimal_value(s) <= u64::MAX {
        Some(decimal_value(s) as u64)
    } else {
        None
    }
}

proof fn lemma_digit_char_is_digit(d: nat)
    requires
        d < 10,
    ensures
        is_digit(digit_char(d)),
        digit_char(d) as int - 48 == d,
{
}

/// The decimal text of a number is canonical and denotes that number.
pub proof fn lemma_decimal_canonical(n: nat)
    ensures
        canonical_decimal(decimal(n)),
        decimal_value(decimal(n)) == n,
    decreases n,
{
    lemma_digit_char_is_digit(n % 10);
    if n >= 10 {
        lemma_decimal_canonical(n / 10);
        let s = decimal(n);
        assert(s.drop_last() =~= decimal(n / 10));
        assert(s.last() == digit_char(n % 10));
        assert(decimal_value(s) == decimal_value(decimal(n / 10)) * 10 + (n % 10));
        assert(s[0] == decimal(n / 10)[0]);
        if decimal(n / 10).len() == 1 {
            assert(decimal(n / 10)[0] != '0') by {
                if decimal(n / 10)[0] == '0' {
                    assert(decimal_value(decimal(n / 10)) == decimal_value(decimal(n / 10).drop_last()) * 10 + 0);
                    assert(decimal(n / 10).drop_last().len() == 0);
                }
            }
        }
    } else {
        assert(decimal(n).drop_last() =~= Seq::<char>::empty());
        assert(decimal_value(decimal(n)) == decimal_value(Seq::<char>::empty()) * 10 + (n % 10));
    }
}

proof fn lemma_zero_value_all_zeros(s: Seq<char>)
    requires
        all_digits(s),
        decimal_value(s) == 0,
        s.len() > 0,
    ensures
        s[0] == '0',
    decreases s.len(),
{
    if s.len() > 1 {
        assert(all_digits(s.drop_last())) by {
            assert forall|i: int| 0 <= i < s.drop_last().len() implies is_digit(#[trigger] s.drop_last()[i]) by {
                assert(is_digit(s[i]));
            }
        }
        lemma_zero_value_all_zeros(s.drop_last());
    } else {
        assert(is_digit(s[0]));
    }
}

/// A canonical decimal text is the decimal text of the number it denotes.
pub proof fn lemma_canonical_is_decimal(s: Seq<char>)
    requires
        canonical_decimal(s),
    ensures
        decimal(decimal_value(s)) == s,
    decreases s.len(),
{
    let t = s.drop_last();
    assert(is_digit(s.last()));
    if s.len() == 1 {
        assert(t.len() == 0);
        assert(decimal_value(s) == decimal_value(t) * 10 + (s.last() as int - 48));
        assert(decimal_value(s) == s.last() as int - 48);
        assert(digit_char(decimal_value(s)) == s.last());
        assert(decimal(decimal_value(s)) =~= s);
    } else {
        assert(all_digits(t)) by {
            assert forall|i: int| 0 <= i < t.len() implies is_digit(#[trigger] t[i]) by {
                assert(is_digit(s[i]));
            }
        }
        assert(t[0] == s[0]);
        assert(canonical_decimal(t));
        lemma_canonical_is_decimal(t);
        if decimal_value(t) == 0 {
            lemma_zero_value_all_zeros(t);
        }
        let v = decimal_value(s);
        assert(v == decimal_value(t) * 10 + (s.last() as int - 48));
        assert(v / 10 == decimal_value(t));
        assert(v % 10 == s.last() as int - 48);
        assert(digit_char(v % 10) == s.last());
        assert(decimal(v) =~= s);
    }
}


proof fn lemma_all_digits_take(s: Seq<char>, k: int)
    requires
        all_digits(s),
        0 <= k <= s.len(),
    ensures
        all_digits(s.take(k)),
{
    assert forall|i: int| 0 <= i < s.take(k).len() implies is_digit(#[trigger] s.take(k)[i]) by {
        assert(is_digit(s[i]));
    }
}

proof fn lemma_value_prefix_bounded(s: Seq<char>, k: int)
    requires
        all_digits(s),
        0 <= k <= s.len(),
    ensures
        decimal_value(s.take(k)) <= decimal_value(s),
    decreases s.len(),
{
    if k < s.len() {
        let t = s.drop_last();
        lemma_all_digits_take(s, s.len() - 1);
        assert(t =~= s.take(s.len() - 1));
        assert(t.take(k) =~= s.take(k));
        lemma_value_prefix_bounded(t, k);
        assert(is_digit(s.last()));
    } else {
        assert(s.take(k) =~= s);
    }
}

/// Reads a canonical decimal number that fits in a `u64`.
pub fn parse_decimal(s: &str) -> (r: Option<u64>)
    ensures
        r == parsed_decimal(s@),
{
    let len = s.unicode_len();
    if len == 0 {
        return None;
    }
    let mut acc: u64 = 0;
    let mut i: usize = 0;
    while i < len
        invariant
            len == s@.len(),
            0 < len,
            i <= len,
            all_digits(s@.take(i as int)),
            acc == decimal_value(s@.take(i as int)),
            i > 0 && len > 1 ==> s@[0] != '0',
        decreases len - i,
    {
        let c = s.get_char(i);
        if !('0' <= c && c <= '9') {
            proof {
                assert(!all_digits(s@)) by {
                    assert(!is_digit(s@[i as int]));
                }
            }
            return None;
        }
        if i == 0 && c == '0' && len > 1 {
            return None;
        }
        let d: u64 = (c as u32 - 48) as u64;
        let ghost next = s@.take(i + 1);
        proof {
            assert(next.drop_last() =~= s@.take(i as int));
            assert(next.last() == c);
            assert(all_digits(next)) by {
                assert forall|j: int| 0 <= j < next.len() implies is_digit(#[trigger] next[j]) by {
                    if j < i {
                        assert(next[j] == s@.take(i as int)[j]);
                    }
                }
            }
        }
        if acc > (u64::MAX - d) / 10 {
            proof {
                assert(decimal_value(next) == acc * 10 + d);
                assert(decimal_value(next) > u64::MAX);
                if all_digits(s@) {
                    lemma_value_prefix_bounded(s@, i + 1);
                }
            }
            return None;
        }
        acc = acc * 10 + d;
        i = i + 1;
    }
    proof {
        assert(s@.take(len as int) =~= s@);
    }
    Some(acc)
}


/// Whether `s` begins with `prefix`.
pub fn starts_with(s: &str, prefix: &str) -> (r: bool)
    ensures
        r == (prefix@.len() <= s@.len() && s@.take(prefix@.len() as int) == prefix@),
{
    let n = s.unicode_len();
    let m = prefix.unicode_len();
    if m > n {
        return false;
    }
    let mut i: usize = 0;
    while i < m
        invariant
            n == s@.len(),
            m == prefix@.len(),
            m <= n,
            i <= m,
            forall|j: int| 0 <= j < i ==> s@[j] == prefix@[j],
        decreases m - i,
    {
        if s.get_char(i) != prefix.get_char(i) {
            proof {
                assert(s@.take(m as int)[i as int] != prefix@[i as int]);
            }
            return false;
        }
        i = i + 1;
    }
    proof {
        assert(s@.take(m as int) =~= prefix@);
    }
    true
}

/// Whether `a` and `b` hold the same characters.
pub fn str_equal(a: &str, b: &str) -> (r: bool)
    ensures
        r == (a@ == b@),
{
    if a.unicode_len() != b.unicode_len() {
        return false;
    }
    let r = starts_with(a, b);
    proof {
        assert(a@.take(b@.len() as int) =~= a@);
    }
    r
}

/// Reading the decimal text of a number gives the number back.
pub proof fn lemma_decimal_roundtrip(n: u64)
    ensures
        parsed_decimal(decimal(n as nat)) == Some(n),
{
    lemma_decimal_canonical(n as nat);
}

/// Two numbers with the same decimal text are equal.
pub proof fn lemma_decimal_injective(a: nat, b: nat)
    requires
        decimal(a) == decimal(b),
    ensures
        a == b,
{
    lemma_decimal_canonical(a);
    lemma_decimal_canonical(b);
}

proof fn lemma_digit_char_injective(x: nat, y: nat)
    requires
        x < 16,
        y < 16,
        digit_char(x) == digit_char(y),
    ensures
        x == y,
{
    assert(digit_char(x) as int == (if x < 10 { x + 48 } else { x + 87 }));
    assert(digit_char(y) as int == (if y < 10 { y + 48 } else { y + 87 }));
}

/// Two numbers with the same hexadecimal text are equal.
pub proof fn lemma_lower_hex_injective(a: nat, b: nat)
    requires
        lower_hex(a) == lower_hex(b),
    ensures
        a == b,
    decreases a,
{
    if a < 16 && b < 16 {
        assert(lower_hex(a) =~= seq![digit_char(a)]);
        assert(lower_hex(b) =~= seq![digit_char(b)]);
        assert(lower_hex(a)[0] == lower_hex(b)[0]);
        assert(seq![digit_char(a)][0] == digit_char(a));
        assert(seq![digit_char(b)][0] == digit_char(b));
        lemma_digit_char_injective(a, b);
    } else if a >= 16 && b >= 16 {
        assert(lower_hex(a).drop_last() =~= lower_hex(a / 16));
        assert(lower_hex(b).drop_last() =~= lower_hex(b / 16));
        assert(lower_hex(a).last() == digit_char(a % 16));
        assert(lower_hex(b).last() == digit_char(b % 16));
        lemma_digit_char_injective(a % 16, b % 16);
        lemma_lower_hex_injective(a / 16, b / 16);
    } else {
        assert(lower_hex(a / 16).len() >= 1);
        assert(lower_hex(b / 16).len() >= 1);
        assert(lower_hex(a).len() != lower_hex(b).len());
    }
}

} // verus!
