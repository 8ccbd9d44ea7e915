//! Small text utilities shared by the parsers and formatters: decimal
//! digits, their values, and building strings character by character.

use vstd::prelude::*;
use vstd::string::StrSliceExecFns;

verus! {

/// The character is a decimal digit.
pub open spec fn is_digit(c: char) -> bool {
    '0' <= c && c <= '9'
}

/// Numeric value of a digit character.
pub open spec fn digit_val(c: char) -> int {
    c as int - '0' as int
}

/// Every character of `s` is a decimal digit.
pub open spec fn all_digits(s: Seq<char>) -> bool {
    forall|i: int| 0 <= i < s.len() ==> is_digit(#[trigger] s[i])
}

/// Value of a digit string read in base ten; empty reads as zero.
pub open spec fn digits_val(s: Seq<char>) -> int
    decreases s.len(),
{
    if s.len() == 0 {
        0
    } else {
        digits_val(s.drop_last()) * 10 + digit_val(s.last())
    }
}

/// Ten to the power `e`.
pub open spec fn pow10(e: nat) -> nat
    decreases e,
{
    if e == 0 {
        1nat
    } else {
        10 * pow10((e - 1) as nat)
    }
}

/// The canonical decimal form of `n`: no leading zero except for zero
/// itself.
pub open spec fn dec_digits(n: nat) -> Seq<char>
    decreases n,
{
    if n < 10 {
        seq![digit_char(n as int)]
    } else {
        dec_digits(n / 10).push(digit_char((n % 10) as int))
    }
}

/// The digit character for a value between zero and nine.
pub open spec fn digit_char(d: int) -> char {
    ((48 + d) as u8) as char
}

/// The canonical decimal form is non-empty, all digits, reads back as
/// the number itself, and starts with a non-zero digit unless it is the
/// single digit zero.
pub proof fn lemma_dec_digits(n: nat)
    ensures
        dec_digits(n).len() >= 1,
        all_digits(dec_digits(n)),
        digits_val(dec_digits(n)) == n,
    decreases n,
{
    if n < 10 {
        let c = digit_char(n as int);
        assert(c as int == 48 + n);
        assert(is_digit(c));
        assert(digit_val(c) == n);
        let s = dec_digits(n);
        assert(s == seq![c]);
        assert(s.last() == c);
        assert(s.drop_last() =~= Seq::<char>::empty());
        assert(digits_val(s) == digits_val(s.drop_last()) * 10 + digit_val(c));
        assert(digits_val(Seq::<char>::empty()) == 0);
        assert(digits_val(s.drop_last()) == 0);
    } else {
        lemma_dec_digits(n / 10);
        let s = dec_digits(n);
        assert(s.drop_last() =~= dec_digits(n / 10));
        assert(is_digit(s.last())) by {
            assert(0 <= n % 10 < 10);
        }
        assert(forall|i: int| 0 <= i < s.len() ==> is_digit(#[trigger] s[i])) by {
            assert(forall|i: int|
                0 <= i < s.len() - 1 ==> #[trigger] s[i] == dec_digits(n / 10)[i]);
        }
    }
}

/// Reading a longer digit string never gives a smaller value: every
/// digit string's value is at least the value of each of its prefixes,
/// and is non-negative.
pub proof fn lemma_digits_val_prefix(s: Seq<char>, i: int)
    requires
        all_digits(s),
        0 <= i <= s.len(),
    ensures
        digits_val(s) >= digits_val(s.subrange(0, i)) >= 0,
    decreases s.len() - i,
{
    lemma_digits_val_nonneg(s.subrange(0, i));
    if i < s.len() {
        lemma_digits_val_prefix(s, i + 1);
        assert(s.subrange(0, i + 1).drop_last() =~= s.subrange(0, i));
        assert(digits_val(s.subrange(0, i + 1)) == digits_val(s.subrange(0, i)) * 10 + digit_val(
            s[i],
        ));
        lemma_digits_val_nonneg(s.subrange(0, i));
    } else {
        assert(s.subrange(0, i) =~= s);
    }
}

/// The value of a digit string is never negative.
pub proof fn lemma_digits_val_nonneg(s: Seq<char>)
    requires
        all_digits(s),
    ensures
        digits_val(s) >= 0,
    decreases s.len(),
{
    if s.len() > 0 {
        assert(all_digits(s.drop_last()));
        lemma_digits_val_nonneg(s.drop_last());
    }
}

/// Index of the first occurrence of `c` in `s` at or after `from`, or
/// the length of `s` when there is none.
pub open spec fn find_at(s: Seq<char>, from: int, c: char) -> int
    decreases s.len() - from,
{
    if from < 0 {
        0
    } else if from >= s.len() {
        s.len() as int
    } else if s[from] == c {
        from
    } else {
        find_at(s, from + 1, c)
    }
}

/// What [`find_at`] returns: the first occurrence of `c` at or after
/// `from`, or the length of `s`.
pub proof fn lemma_find_at(s: Seq<char>, from: int, c: char)
    requires
        0 <= from <= s.len(),
    ensures
        from <= find_at(s, from, c) <= s.len(),
        find_at(s, from, c) < s.len() ==> s[find_at(s, from, c)] == c,
        forall|j: int| from <= j < find_at(s, from, c) ==> s[j] != c,
    decreases s.len() - from,
{
    if from < s.len() && s[from] != c {
        lemma_find_at(s, from + 1, c);
    }
}

/// Index of the first occurrence of `c` in `v` at or after `from`, or
/// the length of `v` when there is none.
pub fn find_char_at(v: &Vec<char>, from: usize, c: char) -> (r: usize)
    requires
        from <= v@.len(),
    ensures
        r as int == find_at(v@, from as int, c),
{
    let mut i: usize = from;
    while i < v.len()
        invariant
            from <= i <= v@.len(),
            forall|j: int| from <= j < i ==> v@[j] != c,
        decreases v@.len() - i,
    {
        if v[i] == c {
            proof {
                lemma_find_at(v@, from as int, c);
            }
            return i;
        }
        i = i + 1;
    }
    proof {
        lemma_find_at(v@, from as int, c);
    }
    i
}

/// The characters of `v[from..to]`, as their own vector.
pub fn copy_range(v: &Vec<char>, from: usize, to: usize) -> (r: Vec<char>)
    requires
        from <= to <= v@.len(),
    ensures
        r@ == v@.subrange(from as int, to as int),
{
    let mut out: Vec<char> = Vec::new();
    let mut i: usize = from;
    while i < to
        invariant
            from <= i <= to <= v@.len(),
            out@ == v@.subrange(from as int, i as int),
        decreases to - i,
    {
        out.push(v[i]);
        assert(out@ =~= v@.subrange(from as int, i + 1 as int));
        i = i + 1;
    }
    out
}

/// The characters of `a` are exactly those of the string `lit`.
pub fn chars_eq_str(a: &Vec<char>, lit: &str) -> (r: bool)
    ensures
        r == (a@ == lit@),
{
    let l = str_chars(lit);
    if a.len() != l.len() {
        assert(a@ != lit@) by {
            if a@ == lit@ {
                assert(a@.len() == lit@.len());
            }
        }
        return false;
    }
    let mut i: usize = 0;
    while i < a.len()
        invariant
            i <= a@.len(),
            a@.len() == l@.len(),
            l@ == lit@,
            forall|j: int| 0 <= j < i ==> a@[j] == l@[j],
        decreases a@.len() - i,
    {
        if a[i] != l[i] {
            assert(a@ != lit@);
            return false;
        }
        i = i + 1;
    }
    assert(a@ =~= lit@);
    true
}

/// Relies on `String::push`: appends one character to the string.
#[verifier::external_body]
pub fn push_char(s: &mut String, c: char)
    ensures
        final(s)@ == old(s)@.push(c),
{
    s.push(c);
}

/// The characters of `s`, collected into a vector.
pub fn str_chars(s: &str) -> (r: Vec<char>)
    ensures
        r@ == s@,
{
    let n = s.unicode_len();
    let mut v: Vec<char> = Vec::new();
    let mut i: usize = 0;
    while i < n
        invariant
            n == s@.len(),
            i <= n,
            v@ == s@.subrange(0, i as int),
        decreases n - i,
    {
        v.push(s.get_char(i));
        assert(v@ =~= s@.subrange(0, i + 1 as int));
        i = i + 1;
    }
    assert(v@ =~= s@);
    v
}

/// A string holding exactly the characters of `v`.
pub fn chars_to_string(v: &Vec<char>) -> (r: String)
    ensures
        r@ == v@,
{
    let mut s = String::new();
    let mut i: usize = 0;
    while i < v.len()
        invariant
            i <= v@.len(),
            s@ == v@.subrange(0, i as int),
        decreases v@.len() - i,
    {
        push_char(&mut s, v[i]);
        assert(s@ =~= v@.subrange(0, i + 1 as int));
        i = i + 1;
    }
    assert(s@ =~= v@);
    s
}

/// The digit character for a value between zero and nine.
pub fn digit_char_exec(d: u64) -> (r: char)
    requires
        0 <= d < 10,
    ensures
        r == digit_char(d as int),
{
    ((48 + d as u8)) as char
}

/// Appends the canonical decimal form of `n` to `out`.
pub fn push_dec_digits(n: u64, out: &mut Vec<char>)
    ensures
        final(out)@ == old(out)@ + dec_digits(n as nat),
    decreases n,
{
    if n >= 10 {
        push_dec_digits(n / 10, out);
        out.push(digit_char_exec(n % 10));
        assert(final(out)@ =~= old(out)@ + dec_digits(n as nat));
    } else {
        out.push(digit_char_exec(n));
        assert(final(out)@ =~= old(out)@ + dec_digits(n as nat));
    }
}

/// The canonical decimal form of `n` as a string.
pub fn fmt_u64(n: u64) -> (r: String)
    ensures
        r@ == dec_digits(n as nat),
{
    let mut v: Vec<char> = Vec::new();
    push_dec_digits(n, &mut v);
    assert(v@ =~= dec_digits(n as nat));
    chars_to_string(&v)
}

/// Reads `s[from..to]` as an unsigned decimal number.
///
/// Returns the value exactly when the range is non-empty, every
/// character in it is a digit, and the value fits in `u32`; otherwise
/// returns nothing.
pub fn parse_u32_range(s: &Vec<char>, from: usize, to: usize) -> (r: Option<u32>)
    requires
        from <= to <= s@.len(),
    ensures
        ({
            let part = s@.subrange(from as int, to as int);
            if part.len() > 0 && all_digits(part) && digits_val(part) <= u32::MAX {
                r == Some(digits_val(part) as u32)
            } else {
                r is None
            }
        }),
{
    let ghost part = s@.subrange(from as int, to as int);
    if from == to {
        return None;
    }
    let mut acc: u64 = 0;
    let mut i: usize = from;
    while i < to
        invariant
            from <= i <= to <= s@.len(),
            part == s@.subrange(from as int, to as int),
            all_digits(part.subrange(0, i - from)),
            acc == digits_val(part.subrange(0, i - from)),
            acc <= u32::MAX,
        decreases to - i,
    {
        let c = s[i];
        if !('0' <= c && c <= '9') {
            assert(part[i - from] == c);
            return None;
        }
        let d: u64 = (c as u32 as u64) - 48;
        proof {
            assert(part.subrange(0, i + 1 - from as int).drop_last() =~= part.subrange(
                0,
                i - from as int,
            ));
            assert(part.subrange(0, i + 1 - from as int).last() == c);
        }
        acc = acc * 10 + d;
        if acc > u32::MAX as u64 {
            proof {
                if all_digits(part) {
                    lemma_digits_val_prefix(part, i + 1 - from as int);
                }
            }
            return None;
        }
        i = i + 1;
    }
    assert(part.subrange(0, to - from as int) =~= part);
    Some(acc as u32)
}

/// Reads `s[from..to]` as an unsigned decimal number of value at most
/// `cap`; an empty range reads as zero. Returns nothing when a
/// character is not a digit or the value exceeds `cap`.
pub fn parse_digits_range(s: &Vec<char>, from: usize, to: usize, cap: u64) -> (r: Option<u64>)
    requires
        from <= to <= s@.len(),
        cap <= 0x10_0000_0000_0000,
    ensures
        ({
            let part = s@.subrange(from as int, to as int);
            if all_digits(part) && digits_val(part) <= cap {
                r == Some(digits_val(part) as u64)
            } else {
                r is None
            }
        }),
        r matches Some(x) ==> x <= cap,
{
    let ghost part = s@.subrange(from as int, to as int);
    let mut acc: u64 = 0;
    let mut i: usize = from;
    while i < to
        invariant
            from <= i <= to <= s@.len(),
            cap <= 0x10_0000_0000_0000,
            part == s@.subrange(from as int, to as int),
            all_digits(part.subrange(0, i - from)),
            acc == digits_val(part.subrange(0, i - from)),
            acc <= cap,
        decreases to - i,
    {
        let c = s[i];
        if !('0' <= c && c <= '9') {
            assert(part[i - from] == c);
            return None;
        }
        let d: u64 = (c as u32 as u64) - 48;
        proof {
            assert(part.subrange(0, i + 1 - from as int).drop_last() =~= part.subrange(
                0,
                i - from as int,
            ));
            assert(part.subrange(0, i + 1 - from as int).last() == c);
        }
        acc = acc * 10 + d;
        if acc > cap {
            proof {
                if all_digits(part) {
                    lemma_digits_val_prefix(part, i + 1 - from as int);
                }
            }
            return None;
        }
        i = i + 1;
    }
    assert(part.subrange(0, to - from as int) =~= part);
    Some(acc)
}

} // verus!
