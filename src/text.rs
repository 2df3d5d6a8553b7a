use vstd::prelude::*;

verus! {

/// The character of a decimal digit `d` (for `d < 10`).
pub open spec fn digit_char(d: nat) -> char {
    ((48 + d) as u8) as char
}

/// The shortest decimal notation of `n`, without sign or leading zeros.
pub open spec fn decimal(n: nat) -> Seq<char>
    decreases n,
{
    if n < 10 {
        seq![digit_char(n)]
    } else {
        decimal(n / 10).push(digit_char(n % 10))
    }
}

/// Whether `c` is one of the ASCII digits `0` to `9`.
pub open spec fn is_digit(c: char) -> bool {
    '0' <= c && c <= '9'
}

/// The number that a run of ASCII digits spells, most significant first.
pub open spec fn digits_value(s: Seq<char>) -> nat
    decreases s.len(),
{
    if s.len() == 0 {
        0
    } else {
        digits_value(s.drop_last()) * 10 + ((s.last() as nat) - 48) as nat
    }
}

/// What `s` holds after an optional leading `+`.
pub open spec fn unsigned_body(s: Seq<char>) -> Seq<char> {
    if s.len() > 0 && s[0] == '+' {
        s.drop_first()
    } else {
        s
    }
}

/// Whether `s` is the decimal notation of a non-negative integer: an optional
/// `+` followed by one or more ASCII digits.
pub open spec fn is_unsigned_text(s: Seq<char>) -> bool {
    let b = unsigned_body(s);
    b.len() > 0 && forall|i: int| 0 <= i < b.len() ==> is_digit(#[trigger] b[i])
}

/// The value of an unsigned decimal notation.
pub open spec fn unsigned_value(s: Seq<char>) -> nat {
    digits_value(unsigned_body(s))
}

/// The position of the first `c` in `s`, or `s.len()` where there is none.
pub open spec fn position_of(s: Seq<char>, c: char) -> nat
    decreases s.len(),
{
    if s.len() == 0 {
        0
    } else if s[0] == c {
        0
    } else {
        1 + position_of(s.drop_first(), c)
    }
}

/// The lines of `lines` joined with a newline between each two of them.
pub open spec fn join_lines(lines: Seq<Seq<char>>) -> Seq<char>
    decreases lines.len(),
{
    if lines.len() == 0 {
        seq![]
    } else if lines.len() == 1 {
        lines[0]
    } else {
        join_lines(lines.drop_last()) + seq!['\n'] + lines.last()
    }
}

/// `position_of` is the first index that holds `c`.
pub proof fn lemma_position_of(s: Seq<char>, c: char, i: int)
    requires
        0 <= i <= s.len(),
        forall|j: int| 0 <= j < i ==> s[j] != c,
        i == s.len() || s[i] == c,
    ensures
        position_of(s, c) == i,
    decreases s.len(),
{
    if s.len() > 0 && s[0] != c {
        assert forall|j: int| 0 <= j < i - 1 implies s.drop_first()[j] != c by {
            assert(s[j + 1] != c);
        }
        lemma_position_of(s.drop_first(), c, i - 1);
    }
}

/// Relies on `String::push`: the character is appended at the end.
#[verifier::external_body]
pub(crate) fn push_char(s: &mut String, c: char)
    ensures
        final(s)@ == old(s)@.push(c),
{
    s.push(c);
}

/// The character of the digit `d`.
pub fn digit(d: u32) -> (c: char)
    requires
        d < 10,
    ensures
        c == digit_char(d as nat),
{
    ((48 + d) as u8) as char
}

/// Appends the decimal notation of `n` to `out`.
pub fn push_decimal(out: &mut String, n: u32)
    ensures
        final(out)@ == old(out)@ + decimal(n as nat),
    decreases n,
{
    if n >= 10 {
        push_decimal(out, n / 10);
    }
    push_char(out, digit(n % 10));
    proof {
        if n >= 10 {
            assert(decimal(n as nat) == decimal((n / 10) as nat).push(digit_char((n % 10) as nat)));
        }
    }
}

/// Whether `s` is one or more ASCII digits without a leading zero, or the
/// single digit `0`: the shortest notation of its value.
pub open spec fn is_canonical_digits(s: Seq<char>) -> bool {
    &&& s.len() > 0
    &&& forall|i: int| 0 <= i < s.len() ==> is_digit(#[trigger] s[i])
    &&& (s.len() == 1 || s[0] != '0')
}

/// A digit's character is the digit back.
pub proof fn lemma_digit_char(c: char)
    requires
        is_digit(c),
    ensures
        digit_char(((c as nat) - 48) as nat) == c,
        ((c as nat) - 48) < 10,
{
}

/// Digits that start with a non-zero digit spell a positive number.
pub proof fn lemma_digits_value_positive(s: Seq<char>)
    requires
        s.len() > 0,
        forall|i: int| 0 <= i < s.len() ==> is_digit(#[trigger] s[i]),
        s[0] != '0',
    ensures
        digits_value(s) >= 1,
    decreases s.len(),
{
    if s.len() > 1 {
        lemma_digits_value_positive(s.drop_last());
    }
}

/// The shortest notation of a number read from its shortest notation is that
/// notation again.
pub proof fn lemma_decimal_of_digits(s: Seq<char>)
    requires
        is_canonical_digits(s),
    ensures
        decimal(digits_value(s)) == s,
    decreases s.len(),
{
    let d = s.drop_last();
    lemma_digit_char(s.last());
    if s.len() == 1 {
        assert(d =~= Seq::<char>::empty());
        assert(digits_value(s) == (s.last() as nat) - 48);
        assert(decimal(digits_value(s)) =~= s);
    } else {
        assert(is_digit(s[0]));
        assert forall|i: int| 0 <= i < d.len() implies is_digit(#[trigger] d[i]) by {
            assert(is_digit(s[i]));
        }
        lemma_digits_value_positive(d);
        lemma_decimal_of_digits(d);
        let v = digits_value(s);
        assert(v == digits_value(d) * 10 + ((s.last() as nat) - 48));
        assert(v / 10 == digits_value(d));
        assert(v % 10 == (s.last() as nat) - 48);
        assert(decimal(v) == decimal(v / 10).push(digit_char(v % 10)));
        assert(s =~= d.push(s.last()));
    }
}

/// Where `s` holds `c`, `position_of` points at one.
pub proof fn lemma_position_found(s: Seq<char>, c: char)
    requires
        s.contains(c),
    ensures
        position_of(s, c) < s.len(),
        s[position_of(s, c) as int] == c,
    decreases s.len(),
{
    if s[0] != c {
        let k = choose|k: int| 0 <= k < s.len() && s[k] == c;
        assert(s.drop_first()[k - 1] == c);
        lemma_position_found(s.drop_first(), c);
    }
}

/// `n`, or `cap` where `n` is larger.
pub open spec fn saturate(n: nat, cap: nat) -> nat {
    if n < cap {
        n
    } else {
        cap
    }
}

/// Reads an unsigned decimal notation (an optional `+` and one or more ASCII
/// digits), holding its value at `cap` where it is larger; `None` where `s`
/// is no such notation.
pub fn read_unsigned(s: &str, cap: u32) -> (r: Option<u32>)
    ensures
        (r matches Some(_)) == is_unsigned_text(s@),
        r matches Some(v) ==> v == saturate(unsigned_value(s@), cap as nat),
{
    let n = s.unicode_len();
    let start: usize = if n > 0 && s.get_char(0) == '+' {
        1
    } else {
        0
    };
    let ghost body = unsigned_body(s@);
    assert(body =~= s@.subrange(start as int, n as int));
    if start == n {
        return None;
    }
    let mut v: u32 = 0;
    let mut i: usize = start;
    assert(body.subrange(0, 0) =~= Seq::<char>::empty());
    while i < n
        invariant
            start <= i <= n,
            n == s@.len(),
            body == s@.subrange(start as int, n as int),
            body == unsigned_body(s@),
            forall|j: int| 0 <= j < i - start ==> is_digit(#[trigger] body[j]),
            v == saturate(digits_value(body.subrange(0, i - start)), cap as nat),
        decreases n - i,
    {
        let c = s.get_char(i);
        assert(body[i - start] == c);
        if !('0' <= c && c <= '9') {
            assert(!is_digit(body[i - start]));
            return None;
        }
        let d: u32 = (c as u32) - 48;
        let next: u64 = v as u64 * 10 + d as u64;
        let ghost p = body.subrange(0, i - start);
        let ghost q = body.subrange(0, i + 1 - start);
        proof {
            assert(q.drop_last() =~= p);
            assert(q.last() == c);
            let dv = digits_value(p);
            assert(digits_value(q) == dv * 10 + d);
            if dv >= cap {
                assert(dv * 10 >= dv) by (nonlinear_arith);
                assert(v as nat * 10 >= v as nat) by (nonlinear_arith);
            }
        }
        v = if next < cap as u64 {
            next as u32
        } else {
            cap
        };
        i = i + 1;
    }
    assert(body.subrange(0, n - start) =~= body);
    Some(v)
}

} // verus!
