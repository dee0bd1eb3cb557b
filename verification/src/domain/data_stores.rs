use crate::utils::random::{random_between, random_bits};
use crate::utils::text::{decimal_digits, decimal_string, digit_char, digit_str};
use vstd::prelude::*;
use vstd::std_specs::cmp::PartialEqSpecImpl;
use vstd::string::*;

verus! {

/// Why a credential store refused.
#[derive(Debug, Clone, Copy, PartialEq, Eq, Structural)]
pub enum UserStoreError {
    UserAlreadyExists,
    UserNotFound,
    InvalidCredentials,
    UnexpectedError,
}

/// A failure of the store behind a revocation list.
#[derive(Debug, Clone, Copy, PartialEq, Eq, Structural)]
pub enum BannedTokenStoreError {
    UnexpectedError,
}

/// Why a store of second-factor challenges refused.
#[derive(Debug, Clone, Copy, PartialEq, Eq, Structural)]
pub enum TwoFACodeStoreError {
    LoginAttemptIdNotFound,
    UnexpectedError,
}

/// Why a text is no part of a second-factor challenge.
#[derive(Debug, Clone, Copy, PartialEq, Eq, Structural)]
pub enum ChallengeFormatError {
    InvalidLoginAttemptId,
    InvalidTwoFACode,
}

/// A decimal digit.
pub open spec fn is_decimal_digit(c: char) -> bool {
    '0' <= c <= '9'
}

/// A hexadecimal digit in lower case.
pub open spec fn is_hex_digit(c: char) -> bool {
    '0' <= c <= '9' || 'a' <= c <= 'f'
}

/// Where the hyphens stand in the 36 characters of an identifier.
pub open spec fn is_hyphen_position(p: int) -> bool {
    p == 8 || p == 13 || p == 18 || p == 23
}

/// The shape of a login attempt identifier: 32 lower-case hexadecimal
/// digits in groups of 8, 4, 4, 4 and 12, with a hyphen between groups.
pub open spec fn is_attempt_id(text: Seq<char>) -> bool {
    &&& text.len() == 36
    &&& forall|p: int|
        0 <= p < 36 ==> if is_hyphen_position(p) {
            #[trigger] text[p] == '-'
        } else {
            is_hex_digit(text[p])
        }
}

/// The shape of a one-time code: six decimal digits, the first not zero.
pub open spec fn is_two_fa_code(text: Seq<char>) -> bool {
    &&& text.len() == 6
    &&& text[0] != '0'
    &&& forall|p: int| 0 <= p < 6 ==> is_decimal_digit(#[trigger] text[p])
}

/// The number of hexadecimal digits before position `p` of an identifier.
pub open spec fn digits_before(p: int) -> int {
    if p <= 8 {
        p
    } else if p <= 13 {
        p - 1
    } else if p <= 18 {
        p - 2
    } else if p <= 23 {
        p - 3
    } else {
        p - 4
    }
}

/// The `k`-th group of four bits of `bits`, counted from the top.
pub open spec fn nibble(bits: u128, k: int) -> u8 {
    ((bits >> ((124 - 4 * k) as u128)) & 0xf) as u8
}

/// The `k`-th hexadecimal digit of the identifier made from `bits`: the
/// bits themselves, but for the version digit, which is 4, and the variant
/// digit, which is 8, 9, a or b.
pub open spec fn attempt_id_digit(bits: u128, k: int) -> u8 {
    if k == 12 {
        4
    } else if k == 16 {
        (8 + nibble(bits, k) % 4) as u8
    } else {
        nibble(bits, k)
    }
}

/// The character at position `p` of the identifier made from `bits`.
pub open spec fn attempt_id_char(bits: u128, p: int) -> char {
    if is_hyphen_position(p) {
        '-'
    } else {
        digit_char(attempt_id_digit(bits, digits_before(p)) as nat)
    }
}

/// The identifier made from 128 bits.
pub open spec fn attempt_id_text(bits: u128) -> Seq<char> {
    Seq::new(36, |p: int| attempt_id_char(bits, p))
}

/// Every identifier made from bits has the shape of one.
pub proof fn lemma_attempt_id_text_is_attempt_id(bits: u128)
    ensures
        is_attempt_id(attempt_id_text(bits)),
{
    let text = attempt_id_text(bits);
    assert forall|p: int| 0 <= p < 36 implies if is_hyphen_position(p) {
        #[trigger] text[p] == '-'
    } else {
        is_hex_digit(text[p])
    } by {
        if !is_hyphen_position(p) {
            let k = digits_before(p);
            let shift = (124 - 4 * k) as u128;
            assert((bits >> shift) & 0xf < 16) by (bit_vector);
            let d = attempt_id_digit(bits, k);
            assert(d < 16);
            lemma_digit_char_is_hex(d as nat);
        }
    }
}

/// The sixteen digit characters are hexadecimal digits, the first ten
/// decimal ones.
pub proof fn lemma_digit_char_is_hex(d: nat)
    requires
        d < 16,
    ensures
        is_hex_digit(digit_char(d)),
        d < 10 ==> is_decimal_digit(digit_char(d)),
        d < 10 ==> (digit_char(d) == '0' <==> d == 0),
{
    let digits = seq!['0', '1', '2', '3', '4', '5', '6', '7', '8', '9', 'a', 'b', 'c', 'd', 'e', 'f'];
    assert(digits[0] == '0');
    assert(digits[1] == '1');
    assert(digits[2] == '2');
    assert(digits[3] == '3');
    assert(digits[4] == '4');
    assert(digits[5] == '5');
    assert(digits[6] == '6');
    assert(digits[7] == '7');
    assert(digits[8] == '8');
    assert(digits[9] == '9');
    assert(digits[10] == 'a');
    assert(digits[11] == 'b');
    assert(digits[12] == 'c');
    assert(digits[13] == 'd');
    assert(digits[14] == 'e');
    assert(digits[15] == 'f');
}

/// A number of six digits is written as a one-time code.
pub proof fn lemma_six_digits(n: nat)
    requires
        100_000 <= n <= 999_999,
    ensures
        is_two_fa_code(decimal_digits(n)),
{
    reveal_with_fuel(decimal_digits, 7);
    let text = decimal_digits(n);
    let d0 = n / 100_000;
    let d1 = (n / 10_000) % 10;
    let d2 = (n / 1_000) % 10;
    let d3 = (n / 100) % 10;
    let d4 = (n / 10) % 10;
    let d5 = n % 10;
    assert(n / 10 / 10 == n / 100);
    assert(n / 10 / 10 / 10 == n / 1_000);
    assert(n / 10 / 10 / 10 / 10 == n / 10_000);
    assert(n / 10 / 10 / 10 / 10 / 10 == n / 100_000);
    assert(text =~= seq![
        digit_char(d0),
        digit_char(d1),
        digit_char(d2),
        digit_char(d3),
        digit_char(d4),
        digit_char(d5),
    ]);
    lemma_digit_char_is_hex(d0);
    lemma_digit_char_is_hex(d1);
    lemma_digit_char_is_hex(d2);
    lemma_digit_char_is_hex(d3);
    lemma_digit_char_is_hex(d4);
    lemma_digit_char_is_hex(d5);
}

/// Names one login submission that awaits its second factor.
#[derive(Debug)]
pub struct LoginAttemptId {
    inner: String,
}

impl View for LoginAttemptId {
    type V = Seq<char>;

    closed spec fn view(&self) -> Seq<char> {
        self.inner@
    }
}

impl LoginAttemptId {
    #[verifier::type_invariant]
    spec fn well_formed(self) -> bool {
        is_attempt_id(self.inner@)
    }

    /// Accepts `id` exactly when it has the shape of an identifier.
    pub fn parse(id: String) -> (parsed: Result<LoginAttemptId, ChallengeFormatError>)
        ensures
            match parsed {
                Ok(value) => is_attempt_id(id@) && value@ == id@,
                Err(e) => !is_attempt_id(id@) && e == ChallengeFormatError::InvalidLoginAttemptId,
            },
    {
        let text = id.as_str();
        if text.unicode_len() != 36 {
            return Err(ChallengeFormatError::InvalidLoginAttemptId);
        }
        let mut p: usize = 0;
        while p < 36
            invariant
                p <= 36,
                text@.len() == 36,
                text@ == id@,
                forall|q: int|
                    0 <= q < p ==> if is_hyphen_position(q) {
                        #[trigger] text@[q] == '-'
                    } else {
                        is_hex_digit(text@[q])
                    },
            decreases 36 - p,
        {
            let c = text.get_char(p);
            let fits = if p == 8 || p == 13 || p == 18 || p == 23 {
                c == '-'
            } else {
                ('0' <= c && c <= '9') || ('a' <= c && c <= 'f')
            };
            if !fits {
                return Err(ChallengeFormatError::InvalidLoginAttemptId);
            }
            p += 1;
        }
        Ok(LoginAttemptId { inner: id })
    }

    /// The identifier written from 128 bits: a version 4 identifier whose
    /// free digits are the bits'.
    pub fn from_bits(bits: u128) -> (id: LoginAttemptId)
        ensures
            id@ == attempt_id_text(bits),
    {
        let mut text = String::new();
        let mut p: usize = 0;
        let mut k: u32 = 0;
        proof {
            reveal_strlit("-");
        }
        while p < 36
            invariant
                p <= 36,
                k == digits_before(p as int),
                text@ == Seq::new(p as nat, |q: int| attempt_id_char(bits, q)),
                "-"@ == seq!['-'],
            decreases 36 - p,
        {
            let ghost before = text@;
            if p == 8 || p == 13 || p == 18 || p == 23 {
                text.append("-");
            } else {
                let shift: u128 = (124 - 4 * k) as u128;
                assert((bits >> shift) & 0xf < 16) by (bit_vector);
                let raw: u8 = ((bits >> shift) & 0xf) as u8;
                let d: u8 = if k == 12 {
                    4
                } else if k == 16 {
                    8 + raw % 4
                } else {
                    raw
                };
                assert(d == attempt_id_digit(bits, k as int));
                text.append(digit_str(d));
                k += 1;
            }
            assert(text@ =~= before.push(attempt_id_char(bits, p as int)));
            p += 1;
            assert(text@ =~= Seq::new(p as nat, |q: int| attempt_id_char(bits, q)));
        }
        assert(text@ =~= attempt_id_text(bits));
        proof {
            lemma_attempt_id_text_is_attempt_id(bits);
        }
        LoginAttemptId { inner: text }
    }

    /// The identifier's text, which always has the shape of one.
    pub fn as_ref(&self) -> (text: &str)
        ensures
            text@ == self@,
            is_attempt_id(self@),
    {
        proof {
            use_type_invariant(self);
        }
        self.inner.as_str()
    }
}

impl Default for LoginAttemptId {
    /// A fresh identifier from random bits.
    fn default() -> (id: LoginAttemptId)
        ensures
            is_attempt_id(id@),
    {
        let bits = random_bits();
        proof {
            lemma_attempt_id_text_is_attempt_id(bits);
        }
        LoginAttemptId::from_bits(bits)
    }
}

impl Clone for LoginAttemptId {
    fn clone(&self) -> (copy: LoginAttemptId)
        ensures
            copy@ == self@,
    {
        proof {
            use_type_invariant(self);
        }
        LoginAttemptId { inner: self.inner.clone() }
    }
}

impl PartialEq for LoginAttemptId {
    fn eq(&self, other: &LoginAttemptId) -> (same: bool) {
        self.inner == other.inner
    }
}

impl PartialEqSpecImpl for LoginAttemptId {
    open spec fn obeys_eq_spec() -> bool {
        true
    }

    open spec fn eq_spec(&self, other: &LoginAttemptId) -> bool {
        self@ == other@
    }
}

/// The smallest and the largest number that is written as a one-time code.
pub const MIN_TWO_FA_CODE: u32 = 100_000;

pub const MAX_TWO_FA_CODE: u32 = 999_999;

/// A one-time code for the second factor.
#[derive(Debug)]
pub struct TwoFACode {
    inner: String,
}

impl View for TwoFACode {
    type V = Seq<char>;

    closed spec fn view(&self) -> Seq<char> {
        self.inner@
    }
}

impl TwoFACode {
    #[verifier::type_invariant]
    spec fn well_formed(self) -> bool {
        is_two_fa_code(self.inner@)
    }

    /// Accepts `code` exactly when it has the shape of a one-time code.
    pub fn parse(code: String) -> (parsed: Result<TwoFACode, ChallengeFormatError>)
        ensures
            match parsed {
                Ok(value) => is_two_fa_code(code@) && value@ == code@,
                Err(e) => !is_two_fa_code(code@) && e == ChallengeFormatError::InvalidTwoFACode,
            },
    {
        let text = code.as_str();
        if text.unicode_len() != 6 {
            return Err(ChallengeFormatError::InvalidTwoFACode);
        }
        let mut p: usize = 0;
        while p < 6
            invariant
                p <= 6,
                text@.len() == 6,
                text@ == code@,
                p > 0 ==> text@[0] != '0',
                forall|q: int| 0 <= q < p ==> is_decimal_digit(#[trigger] text@[q]),
            decreases 6 - p,
        {
            let c = text.get_char(p);
            if !('0' <= c && c <= '9') || (p == 0 && c == '0') {
                return Err(ChallengeFormatError::InvalidTwoFACode);
            }
            p += 1;
        }
        Ok(TwoFACode { inner: code })
    }

    /// The code that writes `n`, where `n` has six digits.
    pub fn from_number(n: u32) -> (code: Option<TwoFACode>)
        ensures
            match code {
                Some(value) => MIN_TWO_FA_CODE <= n <= MAX_TWO_FA_CODE && value@ == decimal_digits(
                    n as nat,
                ),
                None => !(MIN_TWO_FA_CODE <= n <= MAX_TWO_FA_CODE),
            },
    {
        if n < MIN_TWO_FA_CODE || n > MAX_TWO_FA_CODE {
            return None;
        }
        proof {
            lemma_six_digits(n as nat);
        }
        Some(TwoFACode { inner: decimal_string(n as u64) })
    }

    /// The code's text, which always has the shape of one.
    pub fn as_ref(&self) -> (text: &str)
        ensures
            text@ == self@,
            is_two_fa_code(self@),
    {
        proof {
            use_type_invariant(self);
        }
        self.inner.as_str()
    }
}

impl Default for TwoFACode {
    /// A fresh code from a random number of six digits.
    fn default() -> (code: TwoFACode)
        ensures
            is_two_fa_code(code@),
    {
        let n = random_between(MIN_TWO_FA_CODE, MAX_TWO_FA_CODE);
        proof {
            lemma_six_digits(n as nat);
        }
        TwoFACode { inner: decimal_string(n as u64) }
    }
}

impl Clone for TwoFACode {
    fn clone(&self) -> (copy: TwoFACode)
        ensures
            copy@ == self@,
    {
        proof {
            use_type_invariant(self);
        }
        TwoFACode { inner: self.inner.clone() }
    }
}

impl PartialEq for TwoFACode {
    fn eq(&self, other: &TwoFACode) -> (same: bool) {
        self.inner == other.inner
    }
}

impl PartialEqSpecImpl for TwoFACode {
    open spec fn obeys_eq_spec() -> bool {
        true
    }

    open spec fn eq_spec(&self, other: &TwoFACode) -> bool {
        self@ == other@
    }
}

} // verus!
