use vstd::prelude::*;

verus! {

/// Why a text is not the decimal form of a `u64`.
#[derive(Debug, Clone, Copy, PartialEq, Eq, Structural)]
pub enum DecimalError {
    /// The text is empty.
    Empty,
    /// A character that is no decimal digit, or a lone `+`.
    InvalidDigit,
    /// The digits read so far already exceed `u64::MAX`.
    PosOverflow,
}

pub open spec fn is_decimal_digit(c: char) -> bool {
    '0' <= c && c <= '9'
}

pub open spec fn digit_value(c: char) -> nat {
    (c as int - '0' as int) as nat
}

pub open spec fn digit_char(d: nat) -> char {
    ('0' as int + d) as char
}

/// Reads `digits` from left to right onto the value `acc`; the first
/// character that is no digit, or the first digit that takes the value past
/// `u64::MAX`, decides the error.
pub open spec fn scan_decimal(digits: Seq<char>, acc: u64) -> Result<u64, DecimalError>
    decreases digits.len(),
{
    if digits.len() == 0 {
        Ok(acc)
    } else if !is_decimal_digit(digits[0]) {
        Err(DecimalError::InvalidDigit)
    } else if acc * 10 + digit_value(digits[0]) > u64::MAX {
        Err(DecimalError::PosOverflow)
    } else {
        scan_decimal(digits.drop_first(), (acc * 10 + digit_value(digits[0])) as u64)
    }
}

/// The `u64` that a text denotes in decimal: an optional `+`, then digits.
pub open spec fn parse_u64_spec(text: Seq<char>) -> Result<u64, DecimalError> {
    if text.len() == 0 {
        Err(DecimalError::Empty)
    } else if text[0] == '+' {
        if text.len() == 1 {
            Err(DecimalError::InvalidDigit)
        } else {
            scan_decimal(text.drop_first(), 0)
        }
    } else {
        scan_decimal(text, 0)
    }
}

/// The decimal digits of `n`, most significant first, without leading zeros.
pub open spec fn decimal_text(n: nat) -> Seq<char>
    decreases n,
{
    if n < 10 {
        seq![digit_char(n)]
    } else {
        decimal_text(n / 10).push(digit_char(n % 10))
    }
}

impl DecimalError {
    /// The message that describes the error.
    pub fn message(&self) -> (text: &'static str)
        ensures
            text@ == self.message_spec(),
    {
        match self {
            DecimalError::Empty => "cannot parse integer from empty string",
            DecimalError::InvalidDigit => "invalid digit found in string",
            DecimalError::PosOverflow => "number too large to fit in target type",
        }
    }

    pub open spec fn message_spec(&self) -> Seq<char> {
        match self {
            DecimalError::Empty => "cannot parse integer from empty string"@,
            DecimalError::InvalidDigit => "invalid digit found in string"@,
            DecimalError::PosOverflow => "number too large to fit in target type"@,
        }
    }
}

/// Parses a `u64` written in decimal, with an optional leading `+`.
pub fn parse_u64(text: &str) -> (r: Result<u64, DecimalError>)
    ensures
        r == parse_u64_spec(text@),
{
    let len = text.unicode_len();
    if len == 0 {
        return Err(DecimalError::Empty);
    }
    let signed = text.get_char(0) == '+';
    if signed && len == 1 {
        return Err(DecimalError::InvalidDigit);
    }
    let start: usize = if signed { 1 } else { 0 };
    let ghost digits = text@.skip(start as int);
    assert(signed ==> digits =~= text@.drop_first());
    assert(!signed ==> digits =~= text@);
    assert(parse_u64_spec(text@) == scan_decimal(digits, 0));
    let mut acc: u64 = 0;
    let mut pos: usize = 0;
    for c in it: text.chars()
        invariant
            len == text@.len(),
            start <= 1,
            start < len,
            digits == text@.skip(start as int),
            parse_u64_spec(text@) == scan_decimal(digits, 0),
            it.seq() == text@,
            pos == it.index(),
            pos < start ==> acc == 0,
            pos < start || scan_decimal(digits, 0) == scan_decimal(text@.skip(pos as int), acc),
    {
        assert(c == text@[pos as int]);
        let ghost rest = text@.skip(pos as int);
        assert(rest[0] == c);
        assert(rest.drop_first() =~= text@.skip(pos + 1));
        if pos >= start {
            if !('0' <= c && c <= '9') {
                return Err(DecimalError::InvalidDigit);
            }
            let d: u64 = (c as u32 - '0' as u32) as u64;
            assert(d == digit_value(c));
            if acc > (u64::MAX - d) / 10 {
                assert(acc * 10 + d > u64::MAX) by (nonlinear_arith)
                    requires acc > (u64::MAX - d) / 10, d <= 9;
                return Err(DecimalError::PosOverflow);
            }
            assert(acc * 10 + d <= u64::MAX) by (nonlinear_arith)
                requires acc <= (u64::MAX - d) / 10, d <= 9;
            acc = acc * 10 + d;
        }
        pos = pos + 1;
    }
    Ok(acc)
}

/// The one-character text of the digit `d`.
fn digit_text(d: u64) -> (text: &'static str)
    requires
        d < 10,
    ensures
        text@ == seq![digit_char(d as nat)],
{
    let digits = "0123456789";
    proof {
        reveal_strlit("0123456789");
    }
    let text = digits.substring_char(d as usize, (d + 1) as usize);
    assert(text@ =~= seq![digit_char(d as nat)]);
    text
}

/// Writes `n` in decimal, most significant digit first, without leading zeros.
pub fn render_u64(n: u64) -> (text: String)
    ensures
        text@ == decimal_text(n as nat),
    decreases n,
{
    if n < 10 {
        String::from_str(digit_text(n))
    } else {
        let mut text = render_u64(n / 10);
        text.append(digit_text(n % 10));
        text
    }
}

/// Every character of a decimal text is a digit.
pub proof fn lemma_decimal_text_digits(n: nat)
    ensures
        decimal_text(n).len() > 0,
        forall|i: int| 0 <= i < decimal_text(n).len() ==> is_decimal_digit(#[trigger] decimal_text(n)[i]),
    decreases n,
{
    if n >= 10 {
        lemma_decimal_text_digits(n / 10);
    }
}

/// Scanning a concatenation scans the first part, then the second from where
/// the first left off.
pub proof fn lemma_scan_concat(a: Seq<char>, b: Seq<char>, acc: u64)
    ensures
        scan_decimal(a + b, acc) == (match scan_decimal(a, acc) {
            Ok(v) => scan_decimal(b, v),
            Err(e) => Err(e),
        }),
    decreases a.len(),
{
    if a.len() > 0 {
        assert((a + b).drop_first() =~= a.drop_first() + b);
        assert((a + b)[0] == a[0]);
        if is_decimal_digit(a[0]) && acc * 10 + digit_value(a[0]) <= u64::MAX {
            lemma_scan_concat(a.drop_first(), b, (acc * 10 + digit_value(a[0])) as u64);
        }
    } else {
        assert(a + b =~= b);
    }
}

/// Scanning the decimal text of `n` from zero gives `n`.
proof fn lemma_scan_decimal_text(n: nat)
    requires
        n <= u64::MAX,
    ensures
        scan_decimal(decimal_text(n), 0) == Ok::<u64, DecimalError>(n as u64),
    decreases n,
{
    let last = digit_char(n % 10);
    assert(digit_value(last) == n % 10);
    assert(is_decimal_digit(last));
    let one = seq![last];
    assert(one.drop_first() =~= Seq::<char>::empty());
    let q = n / 10;
    assert(q * 10 + n % 10 == n);
    assert(scan_decimal(one, q as u64) == scan_decimal(one.drop_first(), n as u64));
    if n < 10 {
        assert(decimal_text(n) == one);
    } else {
        lemma_scan_decimal_text(q);
        assert(decimal_text(n) =~= decimal_text(q) + one);
        lemma_scan_concat(decimal_text(q), one, 0);
    }
}

/// Parsing what `render_u64` writes gives the number back.
pub proof fn lemma_parse_render(n: u64)
    ensures
        parse_u64_spec(decimal_text(n as nat)) == Ok::<u64, DecimalError>(n),
{
    lemma_decimal_text_digits(n as nat);
    assert(is_decimal_digit(decimal_text(n as nat)[0]));
    lemma_scan_decimal_text(n as nat);
}

} // verus!
