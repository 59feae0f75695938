//! Reading and writing of text.

use vstd::prelude::*;
use vstd::string::*;

verus! {

/// `String::push` appends one character.
///
/// Not proved: the text afterwards is the text before with the character at its end.
pub assume_specification[ String::push ](s: &mut String, c: char)
    ensures
        final(s)@ == old(s)@.push(c),
;

/// The characters of a text.
pub(crate) fn chars_of(s: &str) -> (res: Vec<char>)
    ensures
        res@ == s@,
{
    let mut res: Vec<char> = Vec::new();
    for c in it: s.chars()
        invariant
            it.seq() == s@,
            res@ == s@.take(it.index()),
    {
        res.push(c);
    }
    res
}

/// Whether two texts are the same.
pub(crate) fn same_text(a: &str, b: &str) -> (res: bool)
    ensures
        res == (a@ == b@),
{
    a.to_string() == b.to_string()
}

/// The code point of a character.
fn code_of(c: char) -> (res: u32)
    ensures
        res as int == c as int,
{
    c as u32
}

/// The value of a digit.
pub open spec fn digit_value(c: char) -> int {
    c as int - '0' as int
}

/// Whether a character is a digit in the given base, which is at most ten.
pub open spec fn is_digit(c: char, radix: int) -> bool {
    0 <= digit_value(c) < radix
}

/// The number that a row of digits stands for.
pub open spec fn digits_value(digits: Seq<char>, radix: int) -> int
    decreases digits.len(),
{
    if digits.len() == 0 {
        0
    } else {
        digits_value(digits.drop_last(), radix) * radix + digit_value(digits.last())
    }
}

/// A text without the plus sign that it may start with.
pub open spec fn without_plus(s: Seq<char>) -> Seq<char> {
    if s.len() > 0 && s[0] == '+' {
        s.drop_first()
    } else {
        s
    }
}

/// Whether a text is a number in the given base: digits, at least one, with or without a plus
/// sign in front.
pub open spec fn is_number(s: Seq<char>, radix: int) -> bool {
    let digits = without_plus(s);
    &&& digits.len() > 0
    &&& forall|i: int| 0 <= i < digits.len() ==> is_digit(#[trigger] digits[i], radix)
}

/// The number that a text stands for in the given base, if it is one and fits into 32 bits.
pub open spec fn parsed_u32(s: Seq<char>, radix: int) -> Option<u32> {
    let value = digits_value(without_plus(s), radix);
    if is_number(s, radix) && value <= u32::MAX {
        Some(value as u32)
    } else {
        None
    }
}

/// More digits never make the number smaller.
proof fn lemma_prefix_value(digits: Seq<char>, n: int, radix: int)
    requires
        2 <= radix <= 10,
        0 <= n <= digits.len(),
        forall|i: int| 0 <= i < digits.len() ==> is_digit(#[trigger] digits[i], radix),
    ensures
        0 <= digits_value(digits.take(n), radix) <= digits_value(digits, radix),
    decreases digits.len(),
{
    if n == digits.len() {
        assert(digits.take(n) == digits);
        if n > 0 {
            let rest = digits.drop_last();
            assert forall|i: int| 0 <= i < rest.len() implies is_digit(#[trigger] rest[i], radix) by {
                assert(rest[i] == digits[i]);
            }
            lemma_prefix_value(rest, rest.len() as int, radix);
            assert(rest.take(rest.len() as int) == rest);
            assert(is_digit(digits[n - 1], radix));
            assert(digits_value(rest, radix) * radix >= 0) by (nonlinear_arith)
                requires
                    digits_value(rest, radix) >= 0,
                    radix >= 2,
            ;
        }
    } else {
        let rest = digits.drop_last();
        assert forall|i: int| 0 <= i < rest.len() implies is_digit(#[trigger] rest[i], radix) by {
            assert(rest[i] == digits[i]);
        }
        lemma_prefix_value(rest, n, radix);
        assert(rest.take(n) == digits.take(n));
        assert(is_digit(digits[digits.len() - 1], radix));
        assert(digits_value(rest, radix) * radix >= digits_value(rest, radix)) by (nonlinear_arith)
            requires
                digits_value(rest, radix) >= 0,
                radix >= 2,
        ;
    }
}

/// Reads a number of 32 bits in the given base.
pub(crate) fn parse_u32(s: &str, radix: u32) -> (res: Option<u32>)
    requires
        2 <= radix <= 10,
    ensures
        res == parsed_u32(s@, radix as int),
{
    let chars: Vec<char> = chars_of(s);
    let start: usize = if chars.len() > 0 && chars[0] == '+' {
        1
    } else {
        0
    };
    let ghost digits = without_plus(s@);
    assert(digits =~= s@.skip(start as int));
    if chars.len() == start {
        return None;
    }
    let mut value: u32 = 0;
    let mut i: usize = start;
    while i < chars.len()
        invariant
            2 <= radix <= 10,
            chars@ == s@,
            start <= i <= chars.len(),
            digits == without_plus(s@),
            digits == s@.skip(start as int),
            digits.len() == chars.len() - start,
            digits.len() > 0,
            forall|j: int| 0 <= j < i - start ==> is_digit(#[trigger] digits[j], radix as int),
            value == digits_value(digits.take(i - start), radix as int),
        decreases chars.len() - i,
    {
        let c = chars[i];
        assert(c == digits[i - start]);
        let code: u32 = code_of(c);
        let zero: u32 = '0' as u32;
        if code < zero || code - zero >= radix {
            return None;
        }
        assert(value * radix <= u32::MAX * 10) by (nonlinear_arith)
            requires
                value <= u32::MAX,
                radix <= 10,
        ;
        let next: u64 = (value as u64) * (radix as u64) + (code - zero) as u64;
        let ghost upto = digits.take(i - start + 1);
        assert(upto.drop_last() =~= digits.take(i - start));
        assert(upto.last() == c);
        assert(next == digits_value(upto, radix as int));
        if next > u32::MAX as u64 {
            proof {
                if is_number(s@, radix as int) {
                    lemma_prefix_value(digits, i - start + 1, radix as int);
                }
            }
            return None;
        }
        value = next as u32;
        i = i + 1;
    }
    assert(digits.take(i - start) =~= digits);
    Some(value)
}

/// The digit that stands for a number below ten.
pub open spec fn digit_char(d: nat) -> char {
    ('0' as nat + d) as char
}

/// A number in decimal notation, without leading zeros.
pub open spec fn decimal(n: nat) -> Seq<char>
    decreases n,
{
    if n < 10 {
        seq![digit_char(n)]
    } else {
        decimal(n / 10).push(digit_char(n % 10))
    }
}

/// A number in decimal notation, with a minus sign in front if it is negative.
pub open spec fn signed_decimal(n: int) -> Seq<char> {
    if n < 0 {
        seq!['-'] + decimal((-n) as nat)
    } else {
        decimal(n as nat)
    }
}

/// The digit that stands for a number below ten.
fn digit_for(d: u64) -> (res: char)
    requires
        d < 10,
    ensures
        res == digit_char(d as nat),
{
    (48u8 + d as u8) as char
}

/// Appends a number in decimal notation.
fn push_decimal(s: &mut String, n: u64)
    ensures
        final(s)@ == old(s)@ + decimal(n as nat),
    decreases n,
{
    if n >= 10 {
        push_decimal(s, n / 10);
    }
    s.push(digit_for(n % 10));
    assert(s@ =~= old(s)@ + decimal(n as nat));
}

/// A number in decimal notation.
pub(crate) fn u32_to_string(n: u32) -> (res: String)
    ensures
        res@ == decimal(n as nat),
{
    let mut res: String = String::new();
    push_decimal(&mut res, n as u64);
    assert(res@ =~= decimal(n as nat));
    res
}

/// A number in decimal notation.
pub(crate) fn i64_to_string(n: i64) -> (res: String)
    ensures
        res@ == signed_decimal(n as int),
{
    let mut res: String = String::new();
    if n < 0 {
        res.push('-');
        let magnitude: u64 = (-(n as i128)) as u64;
        push_decimal(&mut res, magnitude);
    } else {
        push_decimal(&mut res, n as u64);
    }
    assert(res@ =~= signed_decimal(n as int));
    res
}

/// What decimal notation is made of, and what it reads as.
proof fn lemma_decimal(n: nat)
    ensures
        decimal(n).len() > 0,
        forall|i: int| 0 <= i < decimal(n).len() ==> is_digit(#[trigger] decimal(n)[i], 10),
        digits_value(decimal(n), 10) == n,
    decreases n,
{
    reveal_with_fuel(digits_value, 2);
    if n >= 10 {
        lemma_decimal(n / 10);
        assert(decimal(n).drop_last() =~= decimal(n / 10));
        assert(digit_value(digit_char(n % 10)) == n % 10);
        assert forall|i: int| 0 <= i < decimal(n).len() implies is_digit(
            #[trigger] decimal(n)[i],
            10,
        ) by {
            if i < decimal(n).len() - 1 {
                assert(decimal(n)[i] == decimal(n / 10)[i]);
            }
        }
    } else {
        assert(decimal(n).drop_last() =~= Seq::<char>::empty());
        assert(digit_value(digit_char(n)) == n);
    }
}

/// Reading a number of 32 bits in decimal notation gives back the number.
pub proof fn law_parse_of_decimal(n: u32)
    ensures
        parsed_u32(decimal(n as nat), 10) == Some(n),
{
    lemma_decimal(n as nat);
    let s = decimal(n as nat);
    assert(is_digit(s[0], 10));
    assert(without_plus(s) == s);
}

/// Whether a text comes no later than another one in a dictionary that is ordered by code points.
pub open spec fn text_le(a: Seq<char>, b: Seq<char>) -> bool
    decreases a.len(),
{
    if a.len() == 0 {
        true
    } else if b.len() == 0 {
        false
    } else if a[0] == b[0] {
        text_le(a.drop_first(), b.drop_first())
    } else {
        (a[0] as int) < (b[0] as int)
    }
}

/// Whether a text comes no later than another one in a dictionary that is ordered by code points.
pub(crate) fn is_text_le(a: &str, b: &str) -> (res: bool)
    ensures
        res == text_le(a@, b@),
{
    let left: Vec<char> = chars_of(a);
    let right: Vec<char> = chars_of(b);
    let mut i: usize = 0;
    assert(a@.skip(0) =~= a@ && b@.skip(0) =~= b@);
    while i < left.len() && i < right.len()
        invariant
            left@ == a@,
            right@ == b@,
            i <= left.len(),
            i <= right.len(),
            text_le(a@, b@) == text_le(a@.skip(i as int), b@.skip(i as int)),
        decreases left.len() - i,
    {
        assert(a@.skip(i as int)[0] == left[i as int] && b@.skip(i as int)[0] == right[i as int]);
        assert(a@.skip(i as int).drop_first() =~= a@.skip(i + 1));
        assert(b@.skip(i as int).drop_first() =~= b@.skip(i + 1));
        if left[i] != right[i] {
            return code_of(left[i]) < code_of(right[i]);
        }
        i = i + 1;
    }
    i == left.len()
}

/// The dictionary has one order only: of two texts, at least one comes no later than the other,
/// and both do if and only if they are the same.
pub proof fn law_one_order_of_texts(a: Seq<char>, b: Seq<char>)
    ensures
        text_le(a, b) || text_le(b, a),
        text_le(a, b) && text_le(b, a) <==> a == b,
    decreases a.len(),
{
    if a.len() > 0 && b.len() > 0 {
        law_one_order_of_texts(a.drop_first(), b.drop_first());
        if a[0] == b[0] && a.drop_first() == b.drop_first() {
            assert(a =~= seq![a[0]] + a.drop_first());
            assert(b =~= seq![b[0]] + b.drop_first());
        }
    } else if a.len() == 0 && b.len() == 0 {
        assert(a =~= b);
    }
}

/// Texts that come no later than one another do so along a chain, too.
pub proof fn law_order_of_texts_is_transitive(a: Seq<char>, b: Seq<char>, c: Seq<char>)
    requires
        text_le(a, b),
        text_le(b, c),
    ensures
        text_le(a, c),
    decreases a.len(),
{
    if a.len() > 0 && b.len() > 0 && c.len() > 0 && a[0] == b[0] && b[0] == c[0] {
        law_order_of_texts_is_transitive(a.drop_first(), b.drop_first(), c.drop_first());
    }
}

/// A number is written differently from every other one.
pub proof fn law_decimals_are_told_apart(a: int, b: int)
    ensures
        signed_decimal(a) == signed_decimal(b) <==> a == b,
{
    if a >= 0 {
        lemma_decimal(a as nat);
        assert(is_digit(decimal(a as nat)[0], 10));
    } else {
        lemma_decimal((-a) as nat);
        assert(signed_decimal(a)[0] == '-');
        assert(signed_decimal(a).drop_first() =~= decimal((-a) as nat));
    }
    if b >= 0 {
        lemma_decimal(b as nat);
        assert(is_digit(decimal(b as nat)[0], 10));
    } else {
        lemma_decimal((-b) as nat);
        assert(signed_decimal(b)[0] == '-');
        assert(signed_decimal(b).drop_first() =~= decimal((-b) as nat));
    }
}

/// The last digit of a number is its remainder by ten, and the digits before it are those of a
/// tenth of the number.
pub proof fn law_decimal_digits(n: nat, d: nat)
    requires
        d < 10,
    ensures
        decimal(d) == seq![('0' as nat + d) as char],
        n > 0 ==> decimal(n * 10 + d) == decimal(n).push(('0' as nat + d) as char),
{
    assert((n * 10 + d) / 10 == n && (n * 10 + d) % 10 == d);
}

/// One more digit makes a number that fits ten-fold, or as much as the base says, and adds the
/// digit. Anything but a digit makes it no number at all.
pub proof fn law_parse_digit_by_digit(s: Seq<char>, c: char, radix: int)
    requires
        2 <= radix <= 10,
        s.len() > 0,
        s[0] != '+',
    ensures
        ({
            let digit = c as int - '0' as int;
            let more = parsed_u32(s.push(c), radix);
            &&& !(0 <= digit < radix) ==> more is None
            &&& parsed_u32(s, radix) is None ==> more is None
            &&& 0 <= digit < radix ==> (parsed_u32(s, radix) matches Some(v) ==> more == if v
                * radix + digit <= u32::MAX {
                Some((v * radix + digit) as u32)
            } else {
                None::<u32>
            })
        }),
{
    let t = s.push(c);
    let digit = c as int - '0' as int;
    assert(without_plus(t) == t && without_plus(s) == s);
    assert(t.drop_last() =~= s);
    assert(digits_value(t, radix) == digits_value(s, radix) * radix + digit);
    if is_number(t, radix) {
        assert forall|i: int| 0 <= i < s.len() implies is_digit(#[trigger] s[i], radix) by {
            assert(t[i] == s[i]);
        }
        assert(is_digit(t[s.len() as int], radix));
        lemma_prefix_value(t, s.len() as int, radix);
        assert(t.take(s.len() as int) =~= s);
    }
    if is_number(s, radix) && 0 <= digit < radix {
        assert forall|i: int| 0 <= i < t.len() implies is_digit(#[trigger] t[i], radix) by {
            if i < s.len() {
                assert(t[i] == s[i]);
            }
        }
    }
    if is_number(s, radix) {
        lemma_prefix_value(s, s.len() as int, radix);
        assert(s.take(s.len() as int) =~= s);
    }
}

/// A single character is a number if it is a digit, no character is none, and a plus sign in front
/// of anything but another one changes nothing.
pub proof fn law_parse_of_short_texts(s: Seq<char>, c: char, radix: int)
    requires
        2 <= radix <= 10,
    ensures
        parsed_u32(Seq::empty(), radix) is None,
        parsed_u32(seq!['+'], radix) is None,
        ({
            let digit = c as int - '0' as int;
            parsed_u32(seq![c], radix) == if 0 <= digit < radix {
                Some(digit as u32)
            } else {
                None::<u32>
            }
        }),
        s.len() > 0 && s[0] != '+' ==> parsed_u32(seq!['+'] + s, radix) == parsed_u32(s, radix),
{
    reveal_with_fuel(digits_value, 2);
    let one = seq![c];
    assert(one.drop_last() =~= Seq::<char>::empty());
    assert(seq!['+'].drop_first() =~= Seq::<char>::empty());
    if c == '+' {
        assert(without_plus(one) =~= Seq::<char>::empty());
    } else {
        assert(without_plus(one) == one);
        assert(one[0] == c);
        if is_digit(c, radix) {
            assert(is_number(one, radix));
        } else {
            assert(!is_digit(one[0], radix));
            assert(!is_number(one, radix));
        }
    }
    assert((seq!['+'] + s).drop_first() =~= s);
}

/// Texts are ordered by their first difference, and a text comes no later than one that it starts.
pub proof fn law_first_difference_decides(
    start: Seq<char>,
    x: char,
    y: char,
    s: Seq<char>,
    t: Seq<char>,
)
    ensures
        x != y ==> (text_le(start + seq![x] + s, start + seq![y] + t) <==> (x as int) < (y as int)),
        text_le(start, start + s),
        s.len() > 0 ==> !text_le(start + s, start),
    decreases start.len(),
{
    let a = start + seq![x] + s;
    let b = start + seq![y] + t;
    if start.len() > 0 {
        let rest = start.drop_first();
        law_first_difference_decides(rest, x, y, s, t);
        assert(a.drop_first() =~= rest + seq![x] + s);
        assert(b.drop_first() =~= rest + seq![y] + t);
        assert((start + s).drop_first() =~= rest + s);
    } else {
        assert(a[0] == x && b[0] == y);
    }
}

} // verus!
