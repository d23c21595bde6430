use vstd::prelude::*;
use vstd::string::*;

verus! {

/// The character of the decimal digit `d`.
pub open spec fn digit_char(d: nat) -> char {
    (48 + d) as char
}

/// Whether `c` is one of `0` to `9`.
pub open spec fn is_digit(c: char) -> bool {
    '0' <= c && c <= '9'
}

/// The decimal text of `n`, as `to_string` writes it: no sign, no leading
/// zero, `0` for zero.
pub open spec fn decimal(n: nat) -> Seq<char>
    decreases n,
{
    if n < 10 {
        seq![digit_char(n)]
    } else {
        decimal(n / 10).push(digit_char(n % 10))
    }
}

/// The number that a sequence of decimal digits spells.
pub open spec fn digits_value(s: Seq<char>) -> nat
    decreases s.len(),
{
    if s.len() == 0 {
        0
    } else {
        digits_value(s.drop_last()) * 10 + (s.last() as nat - 48) as nat
    }
}

/// The digits of a number text: the text without one leading `+`.
pub open spec fn unsigned_digits(s: Seq<char>) -> Seq<char> {
    if s.len() > 0 && s[0] == '+' {
        s.drop_first()
    } else {
        s
    }
}

/// What `str::parse::<u32>` gives for `s`: an optional `+`, then at least one
/// decimal digit and nothing else, of a value that fits in a `u32`.
pub open spec fn parse_u32(s: Seq<char>) -> Option<u32> {
    let d = unsigned_digits(s);
    if d.len() > 0 && (forall|i: int| 0 <= i < d.len() ==> is_digit(#[trigger] d[i]))
        && digits_value(d) <= u32::MAX {
        Some(digits_value(d) as u32)
    } else {
        None
    }
}

/// The text of one decimal digit.
fn digit_str(d: u32) -> (s: &'static str)
    requires
        d < 10,
    ensures
        s@ == seq![digit_char(d as nat)],
{
    proof {
        reveal_strlit("0");
        reveal_strlit("1");
        reveal_strlit("2");
        reveal_strlit("3");
        reveal_strlit("4");
        reveal_strlit("5");
        reveal_strlit("6");
        reveal_strlit("7");
        reveal_strlit("8");
        reveal_strlit("9");
    }
    let s = match d {
        0 => "0",
        1 => "1",
        2 => "2",
        3 => "3",
        4 => "4",
        5 => "5",
        6 => "6",
        7 => "7",
        8 => "8",
        _ => "9",
    };
    assert(s@ =~= seq![digit_char(d as nat)]);
    s
}

/// Appends the decimal text of `n` to `s`.
fn push_decimal(s: &mut String, n: u32)
    ensures
        final(s)@ == old(s)@ + decimal(n as nat),
    decreases n,
{
    if n >= 10 {
        push_decimal(s, n / 10);
    }
    let d = digit_str(n % 10);
    s.append(d);
    proof {
        if n >= 10 {
            assert(decimal(n as nat) == decimal((n / 10) as nat).push(digit_char((n % 10) as nat)));
        }
    }
    assert(s@ =~= old(s)@ + decimal(n as nat));
}

/// The text in which an age is shown and edited.
pub fn age_text(age: u32) -> (s: String)
    ensures
        s@ == decimal(age as nat),
        parse_u32(s@) == Some(age),
        age > 0 ==> s@[0] != '0',
{
    proof {
        law_age_text_round_trip(age);
        law_decimal_has_no_leading_zero(age as nat);
    }
    let mut s = String::new();
    push_decimal(&mut s, age);
    assert(s@ =~= decimal(age as nat));
    s
}

proof fn lemma_digits_value_push(s: Seq<char>, c: char)
    ensures
        digits_value(s.push(c)) == digits_value(s) * 10 + (c as nat - 48) as nat,
{
    assert(s.push(c).drop_last() =~= s);
}

/// The age that an edited age text holds: `None` when `str::parse::<u32>`
/// refuses it.
pub fn parse_age(text: &str) -> (r: Option<u32>)
    ensures
        r == parse_u32(text@),
{
    let n = text.unicode_len();
    let mut start: usize = 0;
    if n > 0 && text.get_char(0) == '+' {
        start = 1;
    }
    let ghost d = unsigned_digits(text@);
    assert(d =~= text@.subrange(start as int, n as int));
    if start == n {
        return None;
    }
    let mut value: u64 = 0;
    let mut overflow = false;
    let mut i = start;
    while i < n
        invariant
            n == text@.len(),
            start <= i <= n,
            d == text@.subrange(start as int, n as int),
            d == unsigned_digits(text@),
            forall|j: int| 0 <= j < i - start ==> is_digit(#[trigger] d[j]),
            !overflow ==> value == digits_value(d.take(i - start)),
            !overflow ==> value <= u32::MAX,
            overflow ==> digits_value(d.take(i - start)) > u32::MAX,
        decreases n - i,
    {
        let c = text.get_char(i);
        assert(c == d[i - start]);
        if !('0' <= c && c <= '9') {
            assert(!is_digit(d[i - start]));
            assert(!(forall|j: int| 0 <= j < d.len() ==> is_digit(#[trigger] d[j])));
            return None;
        }
        let ghost before = d.take(i - start);
        assert(d.take(i + 1 - start) =~= before.push(c));
        proof {
            lemma_digits_value_push(before, c);
        }
        if !overflow {
            let digit = (c as u32 - 48) as u64;
            value = value * 10 + digit;
            if value > 4294967295 {
                overflow = true;
            }
        }
        i = i + 1;
    }
    assert(d.take(n - start) =~= d);
    if overflow {
        None
    } else {
        Some(value as u32)
    }
}

/// The decimal text of every number reads back as that number.
pub proof fn lemma_decimal_digits(n: nat)
    ensures
        decimal(n).len() > 0,
        forall|i: int| 0 <= i < decimal(n).len() ==> is_digit(#[trigger] decimal(n)[i]),
        digits_value(decimal(n)) == n,
    decreases n,
{
    assert(digit_char(n % 10) as nat == 48 + n % 10);
    if n < 10 {
        assert(decimal(n) =~= Seq::<char>::empty().push(digit_char(n)));
        lemma_digits_value_push(Seq::<char>::empty(), digit_char(n));
    }
    if n >= 10 {
        lemma_decimal_digits(n / 10);
        let p = decimal(n / 10);
        lemma_digits_value_push(p, digit_char(n % 10));
        assert(n == (n / 10) * 10 + n % 10);
        assert forall|i: int| 0 <= i < decimal(n).len() implies is_digit(
            #[trigger] decimal(n)[i],
        ) by {
            if i < p.len() {
                assert(decimal(n)[i] == p[i]);
            }
        }
    }
}

/// The decimal text of a number has no leading zero, except for zero itself,
/// which is the single digit `0`.
pub proof fn law_decimal_has_no_leading_zero(n: nat)
    ensures
        n == 0 ==> decimal(n) == seq!['0'],
        n > 0 ==> decimal(n)[0] != '0',
    decreases n,
{
    if n >= 10 {
        law_decimal_has_no_leading_zero(n / 10);
        assert(decimal(n)[0] == decimal(n / 10)[0]);
    } else {
        assert(digit_char(n) as nat == 48 + n);
    }
}

/// A number text is accepted only when, after an optional leading `+`, it
/// is made of digits alone, and is not empty.
pub proof fn law_parse_accepts_only_digits(s: Seq<char>)
    ensures
        parse_u32(s) is Some ==> s.len() > 0 && !(s.len() == 1 && s[0] == '+'),
        parse_u32(s) is Some ==> forall|i: int|
            0 <= i < s.len() && !(i == 0 && s[0] == '+') ==> '0' <= #[trigger] s[i] && s[i] <= '9',
{
    if parse_u32(s) is Some {
        let d = unsigned_digits(s);
        assert forall|i: int|
            0 <= i < s.len() && !(i == 0 && s[0] == '+') implies '0' <= #[trigger] s[i] && s[i]
            <= '9' by {
            if s.len() > 0 && s[0] == '+' {
                assert(s[i] == d[i - 1]);
            } else {
                assert(s[i] == d[i]);
            }
            assert(is_digit(s[i]));
        }
    }
}

/// A leading `+`, and leading zeros, do not change the number a text holds.
pub proof fn law_parse_ignores_plus_and_leading_zero(n: u32)
    ensures
        parse_u32(seq!['+'] + decimal(n as nat)) == Some(n),
        parse_u32(seq!['0'] + decimal(n as nat)) == Some(n),
{
    lemma_decimal_digits(n as nat);
    let t = decimal(n as nat);
    let p = seq!['+'] + t;
    assert(p.drop_first() =~= t);
    assert(unsigned_digits(p) == t);
    law_age_text_round_trip(n);
    let z = seq!['0'] + t;
    assert(is_digit(t[0]));
    assert(unsigned_digits(z) == z);
    assert forall|i: int| 0 <= i < z.len() implies is_digit(#[trigger] z[i]) by {
        if i > 0 {
            assert(z[i] == t[i - 1]);
        }
    }
    lemma_digits_value_prepend_zero(t);
}

/// A leading zero does not change the number that digits spell.
proof fn lemma_digits_value_prepend_zero(t: Seq<char>)
    ensures
        digits_value(seq!['0'] + t) == digits_value(t),
    decreases t.len(),
{
    if t.len() > 0 {
        lemma_digits_value_prepend_zero(t.drop_last());
        assert((seq!['0'] + t).drop_last() =~= seq!['0'] + t.drop_last());
        assert((seq!['0'] + t).last() == t.last());
    } else {
        assert(seq!['0'] + t =~= seq!['0']);
        assert(seq!['0'].drop_last() =~= Seq::<char>::empty());
        assert('0' as nat == 48);
        assert(digits_value(seq!['0']) == digits_value(Seq::<char>::empty()) * 10 + ('0' as nat - 48) as nat);
    }
}

/// An age shown as text by [`age_text`] is read back unchanged by
/// [`parse_age`].
pub proof fn law_age_text_round_trip(age: u32)
    ensures
        parse_u32(decimal(age as nat)) == Some(age),
{
    lemma_decimal_digits(age as nat);
    let s = decimal(age as nat);
    assert(is_digit(s[0]));
    assert(unsigned_digits(s) == s);
}

} // verus!
