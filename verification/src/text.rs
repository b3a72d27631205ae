//! Character-level building blocks of the parameter encoding: decimal
//! integers and single-quoted string literals with backslash escapes.
use vstd::prelude::*;

verus! {

/// The decimal digit character for `d` (`d < 10`).
pub open spec fn digit_char(d: nat) -> char {
    (48 + d) as char
}

/// Decimal text of a natural number, most significant digit first, without
/// leading zeros (`0` is written as a single `0`).
pub open spec fn decimal(n: nat) -> Seq<char>
    decreases n,
{
    if n < 10 {
        seq![digit_char(n)]
    } else {
        decimal(n / 10).push(digit_char(n % 10))
    }
}

/// Decimal text of an integer: a `-` sign before the digits of its magnitude
/// when it is negative.
pub open spec fn signed_decimal(v: int) -> Seq<char> {
    if v < 0 {
        seq!['-'] + decimal((-v) as nat)
    } else {
        decimal(v as nat)
    }
}

/// How one character of a string stands inside a quoted literal: quotes and
/// backslashes get a backslash in front, every other character stands as is.
pub open spec fn escape_char(c: char) -> Seq<char> {
    if c == '\'' || c == '\\' {
        seq!['\\', c]
    } else {
        seq![c]
    }
}

/// The escaped body of a quoted literal.
pub open spec fn escaped(s: Seq<char>) -> Seq<char>
    decreases s.len(),
{
    if s.len() == 0 {
        Seq::empty()
    } else {
        escaped(s.drop_last()) + escape_char(s.last())
    }
}

/// A string as a single-quoted literal.
pub open spec fn quoted(s: Seq<char>) -> Seq<char> {
    seq!['\''] + escaped(s) + seq!['\'']
}

/// Whether `c` is one of the ASCII digits `0` to `9`.
pub open spec fn is_digit(c: char) -> bool {
    '0' <= c && c <= '9'
}

/// The number that a string of decimal digits stands for.
pub open spec fn digits_value(s: Seq<char>) -> int
    decreases s.len(),
{
    if s.len() == 0 {
        0
    } else {
        digits_value(s.drop_last()) * 10 + (s.last() as int - 48)
    }
}

/// Reads a decimal integer with an optional leading `-`.
pub open spec fn read_signed_decimal(s: Seq<char>) -> int {
    if s.len() > 0 && s[0] == '-' {
        -digits_value(s.drop_first())
    } else {
        digits_value(s)
    }
}

/// Reads the body of a quoted literal back: a backslash takes the next
/// character literally, a bare quote ends nothing and is refused.
pub open spec fn unescaped(t: Seq<char>) -> Option<Seq<char>>
    decreases t.len(),
{
    if t.len() == 0 {
        Some(Seq::empty())
    } else if t[0] == '\\' {
        if t.len() < 2 {
            None
        } else {
            match unescaped(t.subrange(2, t.len() as int)) {
                Some(rest) => Some(seq![t[1]] + rest),
                None => None,
            }
        }
    } else if t[0] == '\'' {
        None
    } else {
        match unescaped(t.drop_first()) {
            Some(rest) => Some(seq![t[0]] + rest),
            None => None,
        }
    }
}

/// Reads a single-quoted literal back into the string it stands for.
pub open spec fn unquoted(t: Seq<char>) -> Option<Seq<char>> {
    if t.len() >= 2 && t[0] == '\'' && t.last() == '\'' {
        unescaped(t.subrange(1, t.len() - 1))
    } else {
        None
    }
}

/// The decimal text of a natural number is made of digits, has no leading
/// zero unless the number is zero, and reads back as the number.
pub proof fn lemma_decimal_reads_back(n: nat)
    ensures
        decimal(n).len() > 0,
        forall|i: int| 0 <= i < decimal(n).len() ==> is_digit(#[trigger] decimal(n)[i]),
        decimal(n)[0] == '0' ==> n == 0,
        digits_value(decimal(n)) == n,
    decreases n,
{
    if n >= 10 {
        lemma_decimal_reads_back(n / 10);
        let d = decimal(n);
        assert(d.drop_last() =~= decimal(n / 10));
        assert(d[0] == decimal(n / 10)[0]);
        assert(n == (n / 10) * 10 + n % 10) by (nonlinear_arith);
        assert(d.last() == digit_char(n % 10));
        assert(digit_char(n % 10) as int == 48 + n % 10);
        assert(digits_value(d) == digits_value(decimal(n / 10)) * 10 + (n % 10));
        assert(digits_value(d) == n);
    } else {
        assert(digit_char(n) as int == 48 + n);
        assert(decimal(n).drop_last() =~= Seq::<char>::empty());
        assert(digits_value(decimal(n).drop_last()) == 0);
        assert(digits_value(decimal(n)) == n);
    }
}

/// The text of a signed integer reads back as the integer.
pub proof fn lemma_signed_decimal_reads_back(v: int)
    ensures
        read_signed_decimal(signed_decimal(v)) == v,
{
    if v < 0 {
        lemma_decimal_reads_back((-v) as nat);
        assert((seq!['-'] + decimal((-v) as nat)).drop_first() =~= decimal((-v) as nat));
    } else {
        lemma_decimal_reads_back(v as nat);
    }
}

proof fn lemma_escaped_first(s: Seq<char>)
    requires
        s.len() > 0,
    ensures
        escaped(s) == escape_char(s[0]) + escaped(s.drop_first()),
    decreases s.len(),
{
    if s.len() == 1 {
        assert(s.drop_last() =~= Seq::<char>::empty());
        assert(s.drop_first() =~= Seq::<char>::empty());
        assert(escaped(s) =~= escape_char(s[0]) + escaped(s.drop_first()));
    } else {
        lemma_escaped_first(s.drop_last());
        assert(s.drop_last().drop_first() =~= s.drop_first().drop_last());
        assert(s.drop_first().last() == s.last());
        assert(escaped(s) =~= escape_char(s[0]) + escaped(s.drop_first()));
    }
}

/// The escaped body of any string reads back as that string.
pub proof fn lemma_escaped_reads_back(s: Seq<char>)
    ensures
        unescaped(escaped(s)) == Some(s),
    decreases s.len(),
{
    if s.len() == 0 {
        assert(escaped(s) =~= Seq::<char>::empty());
    } else {
        lemma_escaped_first(s);
        lemma_escaped_reads_back(s.drop_first());
        let t = escaped(s);
        let rest = escaped(s.drop_first());
        let c = s[0];
        if c == '\'' || c == '\\' {
            assert(t.subrange(2, t.len() as int) =~= rest);
        } else {
            assert(t.drop_first() =~= rest);
        }
        assert(seq![c] + s.drop_first() =~= s);
    }
}

/// A quoted literal reads back as the string that was quoted: quoting loses
/// nothing and its closing quote cannot be confused with a quote inside.
pub proof fn lemma_quoted_reads_back(s: Seq<char>)
    ensures
        unquoted(quoted(s)) == Some(s),
{
    let t = quoted(s);
    assert(t.subrange(1, t.len() - 1) =~= escaped(s));
    lemma_escaped_reads_back(s);
}

/// How many characters of `s` are quotes or backslashes.
pub open spec fn escaped_count(s: Seq<char>) -> nat
    decreases s.len(),
{
    if s.len() == 0 {
        0
    } else {
        escaped_count(s.drop_last()) + if s.last() == '\'' || s.last() == '\\' {
            1nat
        } else {
            0nat
        }
    }
}

proof fn lemma_escaped_length(s: Seq<char>)
    ensures
        escaped(s).len() == s.len() + escaped_count(s),
    decreases s.len(),
{
    if s.len() > 0 {
        lemma_escaped_length(s.drop_last());
    }
}

/// A quoted literal starts and ends with a quote, and is two characters
/// longer than the string plus one backslash for each quote or backslash in
/// it.
pub proof fn lemma_quoted_shape(s: Seq<char>)
    ensures
        quoted(s).len() == s.len() + 2 + escaped_count(s),
        quoted(s)[0] == '\'',
        quoted(s).last() == '\'',
{
    lemma_escaped_length(s);
}

/// Escaping goes character by character, in order: a quote or backslash
/// gains one backslash in front, every other character is kept as is.
pub proof fn lemma_escaped_grows_by_char(s: Seq<char>, c: char)
    ensures
        escaped(Seq::empty()) == Seq::<char>::empty(),
        (c == '\'' || c == '\\') ==> escaped(s.push(c)) == escaped(s) + seq!['\\', c],
        !(c == '\'' || c == '\\') ==> escaped(s.push(c)) == escaped(s).push(c),
        quoted(s) == seq!['\''] + escaped(s) + seq!['\''],
{
    assert(s.push(c).drop_last() =~= s);
    assert(seq![c] =~= Seq::<char>::empty().push(c));
    assert(escaped(s) + seq![c] =~= escaped(s).push(c));
}

/// Different strings give different quoted literals.
pub proof fn lemma_quoting_is_injective(s1: Seq<char>, s2: Seq<char>)
    ensures
        quoted(s1) == quoted(s2) ==> s1 == s2,
{
    lemma_quoted_reads_back(s1);
    lemma_quoted_reads_back(s2);
}

/// Whether `s` holds the NUL character, which a NUL-terminated C string
/// cannot carry.
pub open spec fn has_nul(s: Seq<char>) -> bool {
    s.contains('\0')
}

/// A string holds NUL exactly when one of its characters is `'\0'`; any
/// other character, a space among them, does not count.
pub proof fn lemma_has_nul_exactly(s: Seq<char>)
    ensures
        has_nul(s) <==> exists|i: int| 0 <= i < s.len() && s[i] == '\0',
        (forall|i: int| 0 <= i < s.len() ==> s[i] != '\0') ==> !has_nul(s),
{
}

/// Tells whether `s` holds the NUL character.
pub fn contains_nul(s: &str) -> (r: bool)
    ensures
        r == has_nul(s@),
{
    for ch in it: s.chars()
        invariant
            it.seq() == s@,
            forall|j: int| 0 <= j < it.index() ==> s@[j] != '\0',
    {
        if ch == '\0' {
            assert(s@[it.index() as int] == '\0');
            return true;
        }
    }
    false
}

/// Appends one character to a string.
#[verifier::external_body]
pub(crate) fn push_char(out: &mut String, c: char)
    ensures
        final(out)@ == old(out)@.push(c),
{
    out.push(c);
}

/// Appends the decimal text of `n` to `out`.
pub(crate) fn push_decimal(out: &mut String, n: u64)
    ensures
        final(out)@ == old(out)@ + decimal(n as nat),
    decreases n,
{
    if n >= 10 {
        push_decimal(out, n / 10);
    }
    let d: u8 = (n % 10) as u8;
    let c: char = (48u8 + d) as char;
    push_char(out, c);
    proof {
        assert(c == digit_char((n % 10) as nat));
        if n >= 10 {
            assert(decimal(n as nat) == decimal((n / 10) as nat).push(digit_char((n % 10) as nat)));
        }
    }
    assert(final(out)@ =~= old(out)@ + decimal(n as nat));
}

/// Appends the decimal text of `v` to `out`.
pub(crate) fn push_signed_decimal(out: &mut String, v: i64)
    ensures
        final(out)@ == old(out)@ + signed_decimal(v as int),
{
    if v < 0 {
        push_char(out, '-');
        let magnitude: u64 = (-(v as i128)) as u64;
        push_decimal(out, magnitude);
        assert(final(out)@ =~= old(out)@ + signed_decimal(v as int));
    } else {
        push_decimal(out, v as u64);
    }
}

/// Appends `value` as a single-quoted literal to `out`.
pub(crate) fn push_quoted(out: &mut String, value: &str)
    ensures
        final(out)@ == old(out)@ + quoted(value@),
{
    let ghost start = out@;
    push_char(out, '\'');
    for ch in it: value.chars()
        invariant
            out@ == start + seq!['\''] + escaped(value@.take(it.index() as int)),
            it.seq() == value@,
    {
        let ghost before = out@;
        let ghost k = it.index() as int;
        if ch == '\'' || ch == '\\' {
            push_char(out, '\\');
        }
        push_char(out, ch);
        proof {
            assert(value@.take(k + 1).drop_last() =~= value@.take(k));
            assert(value@.take(k + 1).last() == ch);
            assert(out@ =~= before + escape_char(ch));
        }
    }
    proof {
        assert(value@.take(value@.len() as int) =~= value@);
    }
    push_char(out, '\'');
    assert(final(out)@ =~= old(out)@ + quoted(value@));
}

} // verus!
