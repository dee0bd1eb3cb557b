use vstd::prelude::*;
use vstd::string::*;

verus! {

/// The character that writes the digit `d` (below 16), lower case.
pub open spec fn digit_char(d: nat) -> char {
    seq!['0', '1', '2', '3', '4', '5', '6', '7', '8', '9', 'a', 'b', 'c', 'd', 'e', 'f'][d as int]
}

/// The decimal numeral of `n`, without leading zeros.
pub open spec fn decimal_digits(n: nat) -> Seq<char>
    decreases n,
{
    if n < 10 {
        seq![digit_char(n)]
    } else {
        decimal_digits(n / 10).push(digit_char(n % 10))
    }
}

/// The one-character string for a digit below 16.
pub fn digit_str(d: u8) -> (s: &'static str)
    requires
        d < 16,
    ensures
        s@ == seq![digit_char(d as nat)],
{
    proof {
        reveal_strlit("0");
        reveal_strlit("1");
        reveal_strlit("2");
        reveal_strlit("3");
        reveal_strlit("4");
        reveal_strlit("5");
        reveal_strlit("6");
        reveal_strlit("7");
        reveal_strlit("8");
        reveal_strlit("9");
        reveal_strlit("a");
        reveal_strlit("b");
        reveal_strlit("c");
        reveal_strlit("d");
        reveal_strlit("e");
        reveal_strlit("f");
    }
    let s = match d {
        0 => "0",
        1 => "1",
        2 => "2",
        3 => "3",
        4 => "4",
        5 => "5",
        6 => "6",
        7 => "7",
        8 => "8",
        9 => "9",
        10 => "a",
        11 => "b",
        12 => "c",
        13 => "d",
        14 => "e",
        _ => "f",
    };
    assert(s@ =~= seq![digit_char(d as nat)]);
    s
}

/// Appends the decimal numeral of `n` to `out`.
pub fn push_decimal(out: &mut String, n: u64)
    ensures
        final(out)@ == old(out)@ + decimal_digits(n as nat),
    decreases n,
{
    if n >= 10 {
        push_decimal(out, n / 10);
    }
    let d: u8 = (n % 10) as u8;
    out.append(digit_str(d));
    assert(final(out)@ =~= old(out)@ + decimal_digits(n as nat));
}

/// The decimal numeral of `n` as a string.
pub fn decimal_string(n: u64) -> (s: String)
    ensures
        s@ == decimal_digits(n as nat),
{
    let mut s = String::new();
    push_decimal(&mut s, n);
    assert(s@ =~= decimal_digits(n as nat));
    s
}

/// The characters with the Unicode property `White_Space`.
pub open spec fn is_white_space(c: char) -> bool {
    let u = c as u32;
    ||| 0x09 <= u <= 0x0D
    ||| u == 0x20
    ||| u == 0x85
    ||| u == 0xA0
    ||| u == 0x1680
    ||| 0x2000 <= u <= 0x200A
    ||| u == 0x2028
    ||| u == 0x2029
    ||| u == 0x202F
    ||| u == 0x205F
    ||| u == 0x3000
}

/// A text without any character but white space; the empty text is blank.
pub open spec fn is_blank(text: Seq<char>) -> bool {
    forall|i: int| 0 <= i < text.len() ==> is_white_space(#[trigger] text[i])
}

/// Whether `c` has the Unicode property `White_Space`.
pub fn has_white_space_property(c: char) -> (yes: bool)
    ensures
        yes == is_white_space(c),
{
    let u: u32 = c as u32;
    (0x09 <= u && u <= 0x0D) || u == 0x20 || u == 0x85 || u == 0xA0 || u == 0x1680 || (0x2000 <= u
        && u <= 0x200A) || u == 0x2028 || u == 0x2029 || u == 0x202F || u == 0x205F || u == 0x3000
}

/// Whether `text` starts with `prefix`.
pub fn starts_with(text: &str, prefix: &str) -> (yes: bool)
    ensures
        yes == prefix@.is_prefix_of(text@),
{
    let n = prefix.unicode_len();
    if text.unicode_len() < n {
        return false;
    }
    let mut i: usize = 0;
    while i < n
        invariant
            n == prefix@.len(),
            n <= text@.len(),
            i <= n,
            forall|j: int| 0 <= j < i ==> text@[j] == prefix@[j],
        decreases n - i,
    {
        if text.get_char(i) != prefix.get_char(i) {
            assert(text@.subrange(0, n as int)[i as int] != prefix@[i as int]);
            return false;
        }
        i += 1;
    }
    assert(text@.subrange(0, n as int) =~= prefix@);
    true
}

/// Whether trimming `text` would leave nothing.
pub fn blank(text: &str) -> (yes: bool)
    ensures
        yes == is_blank(text@),
{
    let n = text.unicode_len();
    let mut i: usize = 0;
    while i < n
        invariant
            n == text@.len(),
            i <= n,
            forall|j: int| 0 <= j < i ==> is_white_space(#[trigger] text@[j]),
        decreases n - i,
    {
        if !has_white_space_property(text.get_char(i)) {
            return false;
        }
        i += 1;
    }
    true
}

/// The number of white-space characters at the start of `text`.
pub open spec fn leading_white(text: Seq<char>) -> nat
    decreases text.len(),
{
    if text.len() == 0 || !is_white_space(text[0]) {
        0
    } else {
        1 + leading_white(text.skip(1))
    }
}

/// The number of white-space characters at the end of `text`.
pub open spec fn trailing_white(text: Seq<char>) -> nat
    decreases text.len(),
{
    if text.len() == 0 || !is_white_space(text.last()) {
        0
    } else {
        1 + trailing_white(text.drop_last())
    }
}

/// `text` without the white space at its start and at its end.
pub open spec fn trimmed(text: Seq<char>) -> Seq<char> {
    if leading_white(text) >= text.len() {
        Seq::empty()
    } else {
        text.subrange(leading_white(text) as int, text.len() - trailing_white(text))
    }
}

/// The white space at the start of `text` ends at `k` if everything before
/// `k` is white space and what stands at `k` is not.
pub proof fn lemma_leading_white(text: Seq<char>, k: int)
    requires
        0 <= k <= text.len(),
        forall|j: int| 0 <= j < k ==> is_white_space(#[trigger] text[j]),
        k < text.len() ==> !is_white_space(text[k]),
    ensures
        leading_white(text) == k,
    decreases k,
{
    if k > 0 {
        let rest = text.skip(1);
        assert forall|j: int| 0 <= j < k - 1 implies is_white_space(#[trigger] rest[j]) by {
            assert(rest[j] == text[j + 1]);
        }
        if k < text.len() {
            assert(rest[k - 1] == text[k]);
        }
        lemma_leading_white(rest, k - 1);
    }
}

/// The white space at the end of `text` starts at `k` if everything from
/// `k` on is white space and what stands before `k` is not.
pub proof fn lemma_trailing_white(text: Seq<char>, k: int)
    requires
        0 <= k <= text.len(),
        forall|j: int| k <= j < text.len() ==> is_white_space(#[trigger] text[j]),
        k > 0 ==> !is_white_space(text[k - 1]),
    ensures
        trailing_white(text) == text.len() - k,
    decreases text.len() - k,
{
    if k < text.len() {
        let rest = text.drop_last();
        assert forall|j: int| k <= j < rest.len() implies is_white_space(#[trigger] rest[j]) by {
            assert(rest[j] == text[j]);
        }
        if k > 0 {
            assert(rest[k - 1] == text[k - 1]);
        }
        lemma_trailing_white(rest, k);
    }
}

/// `text` without the white space at its start and at its end.
pub fn trim(text: &str) -> (out: &str)
    ensures
        out@ == trimmed(text@),
{
    let n = text.unicode_len();
    let mut a: usize = 0;
    while a < n && has_white_space_property(text.get_char(a))
        invariant
            n == text@.len(),
            a <= n,
            forall|j: int| 0 <= j < a ==> is_white_space(#[trigger] text@[j]),
        decreases n - a,
    {
        a += 1;
    }
    proof {
        lemma_leading_white(text@, a as int);
    }
    if a == n {
        let out = text.substring_char(0, 0);
        assert(out@ =~= Seq::<char>::empty());
        return out;
    }
    let mut b: usize = n;
    while b > a + 1 && has_white_space_property(text.get_char(b - 1))
        invariant
            n == text@.len(),
            a < b <= n,
            forall|j: int| b <= j < n ==> is_white_space(#[trigger] text@[j]),
            !is_white_space(text@[a as int]),
        decreases b,
    {
        b -= 1;
    }
    proof {
        lemma_trailing_white(text@, b as int);
    }
    text.substring_char(a, b)
}

/// Where `sep` first stands in `text`; the length of `text` if nowhere.
pub open spec fn first_index(text: Seq<char>, sep: char) -> nat
    decreases text.len(),
{
    if text.len() == 0 || text[0] == sep {
        0
    } else {
        1 + first_index(text.skip(1), sep)
    }
}

/// The fields of `text` between the separators `sep`, in order. A text
/// without a separator is one field; two separators in a row have an empty
/// field between them.
pub open spec fn fields(text: Seq<char>, sep: char) -> Seq<Seq<char>>
    decreases text.len(),
{
    let i = first_index(text, sep) as int;
    if i >= text.len() {
        seq![text]
    } else {
        seq![text.take(i)] + fields(text.skip(i + 1), sep)
    }
}

/// `sep` first stands at `k` if it stands there and nowhere before.
pub proof fn lemma_first_index(text: Seq<char>, sep: char, k: int)
    requires
        0 <= k <= text.len(),
        forall|j: int| 0 <= j < k ==> #[trigger] text[j] != sep,
        k < text.len() ==> text[k] == sep,
    ensures
        first_index(text, sep) == k,
    decreases k,
{
    if k > 0 {
        let rest = text.skip(1);
        assert forall|j: int| 0 <= j < k - 1 implies #[trigger] rest[j] != sep by {
            assert(rest[j] == text[j + 1]);
        }
        if k < text.len() {
            assert(rest[k - 1] == text[k]);
        }
        lemma_first_index(rest, sep, k - 1);
    }
}

/// The texts of a list of strings.
pub open spec fn texts(list: Seq<String>) -> Seq<Seq<char>> {
    list.map_values(|s: String| s@)
}

/// The fields of `text` between the separators `sep`.
pub fn split(text: &str, sep: char) -> (out: Vec<String>)
    ensures
        texts(out@) == fields(text@, sep),
{
    let n = text.unicode_len();
    let mut out: Vec<String> = Vec::new();
    let mut start: usize = 0;
    let mut i: usize = 0;
    assert(text@.skip(0) =~= text@);
    assert(texts(out@) + fields(text@.skip(0), sep) =~= fields(text@, sep));
    while i < n
        invariant
            n == text@.len(),
            start <= i <= n,
            forall|j: int| start <= j < i ==> #[trigger] text@[j] != sep,
            fields(text@, sep) == texts(out@) + fields(text@.skip(start as int), sep),
        decreases n - i,
    {
        if text.get_char(i) == sep {
            let piece = String::from_str(text.substring_char(start, i));
            proof {
                let rest = text@.skip(start as int);
                assert forall|j: int| 0 <= j < i - start implies #[trigger] rest[j] != sep by {
                    assert(rest[j] == text@[start + j]);
                }
                lemma_first_index(rest, sep, i - start);
                assert(rest.take(i - start) =~= text@.subrange(start as int, i as int));
                assert(rest.skip(i - start + 1) =~= text@.skip(i + 1));
                assert(texts(out@.push(piece)) =~= texts(out@).push(piece@));
                assert(texts(out@).push(piece@) + fields(text@.skip(i + 1), sep) =~= texts(out@)
                    + fields(rest, sep));
            }
            out.push(piece);
            start = i + 1;
        }
        i += 1;
    }
    let piece = String::from_str(text.substring_char(start, n));
    proof {
        let rest = text@.skip(start as int);
        assert forall|j: int| 0 <= j < n - start implies #[trigger] rest[j] != sep by {
            assert(rest[j] == text@[start + j]);
        }
        lemma_first_index(rest, sep, n - start);
        assert(rest =~= text@.subrange(start as int, n as int));
        assert(texts(out@.push(piece)) =~= texts(out@).push(piece@));
        assert(texts(out@).push(piece@) =~= texts(out@) + fields(rest, sep));
    }
    out.push(piece);
    out
}

/// A decimal digit.
pub open spec fn is_digit(c: char) -> bool {
    '0' <= c <= '9'
}

/// The number that a decimal digit writes.
pub open spec fn digit_of(c: char) -> nat {
    (c as u32 - 48) as nat
}

/// The number that a run of decimal digits writes.
pub open spec fn digits_value(digits: Seq<char>) -> nat
    decreases digits.len(),
{
    if digits.len() == 0 {
        0
    } else {
        digits_value(digits.drop_last()) * 10 + digit_of(digits.last())
    }
}

/// A numeral: one or more decimal digits, without a zero in front of
/// others.
pub open spec fn is_numeral(digits: Seq<char>) -> bool {
    &&& digits.len() > 0
    &&& forall|i: int| 0 <= i < digits.len() ==> is_digit(#[trigger] digits[i])
    &&& digits.len() > 1 ==> digits[0] != '0'
}

/// How many decimal digits `text` starts with.
pub open spec fn digit_run(text: Seq<char>) -> nat
    decreases text.len(),
{
    if text.len() == 0 || !is_digit(text[0]) {
        0
    } else {
        1 + digit_run(text.skip(1))
    }
}

/// The number that `text` starts with, and what follows it: the digits at
/// the start of `text`, if they are a numeral of a number that fits 32
/// bits.
pub open spec fn leading_number(text: Seq<char>) -> Option<(u32, Seq<char>)> {
    let run = text.take(digit_run(text) as int);
    if is_numeral(run) && digits_value(run) <= u32::MAX {
        Some((digits_value(run) as u32, text.skip(digit_run(text) as int)))
    } else {
        None
    }
}

/// What follows `literal` in a text that starts with it.
pub open spec fn after_literal(text: Seq<char>, literal: Seq<char>) -> Option<Seq<char>> {
    if literal.is_prefix_of(text) {
        Some(text.skip(literal.len() as int))
    } else {
        None
    }
}

/// The ten digit characters write the ten digits.
pub proof fn lemma_digit_char(d: nat)
    requires
        d < 10,
    ensures
        is_digit(digit_char(d)),
        digit_of(digit_char(d)) == d,
        digit_char(d) == '0' <==> d == 0,
{
    let digits = seq!['0', '1', '2', '3', '4', '5', '6', '7', '8', '9', 'a', 'b', 'c', 'd', 'e', 'f'];
    assert(digits[0] == '0');
    assert(digits[1] == '1');
    assert(digits[2] == '2');
    assert(digits[3] == '3');
    assert(digits[4] == '4');
    assert(digits[5] == '5');
    assert(digits[6] == '6');
    assert(digits[7] == '7');
    assert(digits[8] == '8');
    assert(digits[9] == '9');
}

/// Every decimal digit is the character of the digit it writes.
pub proof fn lemma_digit_of(c: char)
    requires
        is_digit(c),
    ensures
        digit_of(c) < 10,
        digit_char(digit_of(c)) == c,
{
    let d = digit_of(c);
    lemma_digit_char(d);
    assert(digit_char(d) as u32 == 48 + d) by {
        let digits = seq![
            '0',
            '1',
            '2',
            '3',
            '4',
            '5',
            '6',
            '7',
            '8',
            '9',
            'a',
            'b',
            'c',
            'd',
            'e',
            'f',
        ];
        assert(digits[0] == '0');
        assert(digits[1] == '1');
        assert(digits[2] == '2');
        assert(digits[3] == '3');
        assert(digits[4] == '4');
        assert(digits[5] == '5');
        assert(digits[6] == '6');
        assert(digits[7] == '7');
        assert(digits[8] == '8');
        assert(digits[9] == '9');
    }
}

/// A run of digits that does not start with a zero writes a number above
/// zero.
pub proof fn lemma_numeral_is_positive(digits: Seq<char>)
    requires
        digits.len() > 0,
        digits[0] != '0',
        forall|i: int| 0 <= i < digits.len() ==> is_digit(#[trigger] digits[i]),
    ensures
        digits_value(digits) >= 1,
    decreases digits.len(),
{
    let front = digits.drop_last();
    if digits.len() == 1 {
        assert(front.len() == 0);
        assert(digits_value(front) == 0);
        assert(digits.last() == digits[0]);
        assert(is_digit(digits[0]));
    } else {
        assert(front[0] == digits[0]);
        assert forall|i: int| 0 <= i < front.len() implies is_digit(#[trigger] front[i]) by {
            assert(front[i] == digits[i]);
        }
        lemma_numeral_is_positive(front);
    }
}

/// The decimal numeral of a number is a numeral and writes that number.
pub proof fn lemma_decimal_is_numeral(n: nat)
    ensures
        is_numeral(decimal_digits(n)),
        digits_value(decimal_digits(n)) == n,
    decreases n,
{
    let digits = decimal_digits(n);
    if n < 10 {
        lemma_digit_char(n);
        assert(digits =~= seq![digit_char(n)]);
        assert(digits.drop_last().len() == 0);
        assert(digits_value(digits.drop_last()) == 0);
        assert(digits.last() == digit_char(n));
    } else {
        let front = decimal_digits(n / 10);
        lemma_decimal_is_numeral(n / 10);
        lemma_digit_char(n % 10);
        assert(digits =~= front.push(digit_char(n % 10)));
        assert(digits.drop_last() =~= front);
        assert(digits.last() == digit_char(n % 10));
        assert(digits[0] == front[0]);
        if front.len() == 1 {
            assert(front.drop_last().len() == 0);
            assert(digits_value(front.drop_last()) == 0);
            assert(front.last() == front[0]);
            assert(digits_value(front) == digit_of(front[0]));
            assert(is_digit(front[0]));
        }
        assert forall|i: int| 0 <= i < digits.len() implies is_digit(#[trigger] digits[i]) by {
            if i < front.len() {
                assert(digits[i] == front[i]);
            }
        }
    }
}

/// A numeral is the decimal numeral of the number it writes.
pub proof fn lemma_numeral_is_decimal(digits: Seq<char>)
    requires
        is_numeral(digits),
    ensures
        decimal_digits(digits_value(digits)) == digits,
    decreases digits.len(),
{
    let front = digits.drop_last();
    let last = digits.last();
    assert(is_digit(last));
    lemma_digit_of(last);
    if digits.len() == 1 {
        assert(front.len() == 0);
        assert(digits_value(front) == 0);
        assert(digits_value(digits) == digit_of(last));
        assert(last == digits[0]);
        assert(decimal_digits(digits_value(digits)) =~= digits);
    } else {
        assert(front[0] == digits[0]);
        assert forall|i: int| 0 <= i < front.len() implies is_digit(#[trigger] front[i]) by {
            assert(front[i] == digits[i]);
        }
        lemma_numeral_is_positive(front);
        lemma_numeral_is_decimal(front);
        let value = digits_value(digits);
        assert(value == digits_value(front) * 10 + digit_of(last));
        assert(value / 10 == digits_value(front));
        assert(value % 10 == digit_of(last));
        assert(decimal_digits(value) =~= front.push(last));
        assert(front.push(last) =~= digits);
    }
}

/// `text` starts with exactly `k` digits if it has digits up to `k` and
/// none at `k`.
pub proof fn lemma_digit_run(text: Seq<char>, k: int)
    requires
        0 <= k <= text.len(),
        forall|j: int| 0 <= j < k ==> is_digit(#[trigger] text[j]),
        k < text.len() ==> !is_digit(text[k]),
    ensures
        digit_run(text) == k,
    decreases k,
{
    if k > 0 {
        let rest = text.skip(1);
        assert forall|j: int| 0 <= j < k - 1 implies is_digit(#[trigger] rest[j]) by {
            assert(rest[j] == text[j + 1]);
        }
        if k < text.len() {
            assert(rest[k - 1] == text[k]);
        }
        lemma_digit_run(rest, k - 1);
    }
}

/// A numeral in front of something that is no digit is read back as its
/// number, and what follows it is left.
pub proof fn lemma_number_is_read(n: u32, rest: Seq<char>)
    requires
        rest.len() == 0 || !is_digit(rest[0]),
    ensures
        leading_number(decimal_digits(n as nat) + rest) == Some((n, rest)),
{
    let digits = decimal_digits(n as nat);
    let text = digits + rest;
    lemma_decimal_is_numeral(n as nat);
    assert forall|j: int| 0 <= j < digits.len() implies is_digit(#[trigger] text[j]) by {
        assert(text[j] == digits[j]);
    }
    if rest.len() > 0 {
        assert(text[digits.len() as int] == rest[0]);
    }
    lemma_digit_run(text, digits.len() as int);
    assert(text.take(digits.len() as int) =~= digits);
    assert(text.skip(digits.len() as int) =~= rest);
}

/// A text whose leading number was read is the numeral of that number
/// and what follows.
pub proof fn lemma_read_number_is_there(text: Seq<char>, n: u32, rest: Seq<char>)
    requires
        leading_number(text) == Some((n, rest)),
    ensures
        text == decimal_digits(n as nat) + rest,
{
    let k = digit_run(text) as int;
    lemma_digit_run_is_within(text);
    let run = text.take(k);
    lemma_numeral_is_decimal(run);
    assert(text =~= run + text.skip(k));
}

/// A text does not start with more digits than it has characters.
pub proof fn lemma_digit_run_is_within(text: Seq<char>)
    ensures
        digit_run(text) <= text.len(),
    decreases text.len(),
{
    if text.len() > 0 && is_digit(text[0]) {
        lemma_digit_run_is_within(text.skip(1));
    }
}

/// Whether `c` is a decimal digit.
pub fn is_decimal_digit_char(c: char) -> (yes: bool)
    ensures
        yes == is_digit(c),
{
    '0' <= c && c <= '9'
}

/// What follows `literal` in `text`, if `text` starts with it.
pub fn strip_literal<'a>(text: &'a str, literal: &str) -> (rest: Option<&'a str>)
    ensures
        match rest {
            Some(tail) => after_literal(text@, literal@) == Some(tail@),
            None => after_literal(text@, literal@) is None,
        },
{
    if !starts_with(text, literal) {
        return None;
    }
    let tail = text.substring_char(literal.unicode_len(), text.unicode_len());
    assert(tail@ =~= text@.skip(literal@.len() as int));
    Some(tail)
}

/// The number that `text` starts with, and what follows it.
pub fn read_number<'a>(text: &'a str) -> (read: Option<(u32, &'a str)>)
    ensures
        match read {
            Some(pair) => leading_number(text@) == Some((pair.0, pair.1@)),
            None => leading_number(text@) is None,
        },
{
    let n = text.unicode_len();
    let mut i: usize = 0;
    let mut value: u64 = 0;
    let mut too_big = false;
    assert(text@.take(0).len() == 0);
    while i < n && is_decimal_digit_char(text.get_char(i))
        invariant
            n == text@.len(),
            i <= n,
            forall|j: int| 0 <= j < i ==> is_digit(#[trigger] text@[j]),
            !too_big ==> value == digits_value(text@.take(i as int)) && value <= u32::MAX,
            too_big ==> digits_value(text@.take(i as int)) > u32::MAX,
        decreases n - i,
    {
        let c = text.get_char(i);
        proof {
            lemma_digit_of(c);
            assert(text@.take(i + 1).drop_last() =~= text@.take(i as int));
            assert(text@.take(i + 1).last() == c);
        }
        if !too_big {
            let d: u64 = (c as u32 - 48) as u64;
            value = value * 10 + d;
            if value > u32::MAX as u64 {
                too_big = true;
            }
        }
        i += 1;
    }
    proof {
        lemma_digit_run(text@, i as int);
        assert forall|j: int| 0 <= j < text@.take(i as int).len() implies is_digit(
            #[trigger] text@.take(i as int)[j],
        ) by {
            assert(text@.take(i as int)[j] == text@[j]);
        }
    }
    if i == 0 || too_big {
        return None;
    }
    if i > 1 && text.get_char(0) == '0' {
        assert(text@.take(i as int)[0] == '0');
        return None;
    }
    assert(text@.take(i as int)[0] == text@[0]);
    let tail = text.substring_char(i, n);
    assert(tail@ =~= text@.skip(i as int));
    Some((value as u32, tail))
}

} // verus!
