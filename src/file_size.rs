use crate::error::FileGenError;
use vstd::prelude::*;

verus! {

/// The unit that a size expression names.
#[derive(Debug, Clone, Copy, PartialEq, Eq, Structural)]
pub enum SizeType {
    Byte,
    KiloByte,
    MegaByte,
    GigaByte,
}

/// A parsed size: an amount of some unit.
#[derive(Debug, Clone, Copy, PartialEq, Eq, Structural)]
pub struct FileSize {
    pub amount: u64,
    pub size: SizeType,
}

/// How many bytes one of the unit makes.
pub open spec fn byte_factor(t: SizeType) -> nat {
    match t {
        SizeType::Byte => 1,
        SizeType::KiloByte => 1024,
        SizeType::MegaByte => 1024 * 1024,
        SizeType::GigaByte => 1024 * 1024 * 1024,
    }
}

/// The lower-case token that names a unit.
pub open spec fn unit_token(t: SizeType) -> Seq<char> {
    match t {
        SizeType::Byte => "b"@,
        SizeType::KiloByte => "kb"@,
        SizeType::MegaByte => "mb"@,
        SizeType::GigaByte => "gb"@,
    }
}

/// What `str::to_lowercase` makes of a string (Unicode lower-casing).
pub uninterp spec fn lower_of(s: Seq<char>) -> Seq<char>;

pub open spec fn is_ascii_char(c: char) -> bool {
    (c as u32) < 128
}

pub open spec fn all_ascii(s: Seq<char>) -> bool {
    forall|i: int| 0 <= i < s.len() ==> is_ascii_char(#[trigger] s[i])
}

/// The ASCII lower-case form of `c`: A-Z become a-z, all else stays.
pub open spec fn ascii_lower_char(c: char) -> char {
    if 'A' <= c && c <= 'Z' {
        (c as u32 + 32) as char
    } else {
        c
    }
}

/// `l` is the ASCII lower-case form of `c`.
pub open spec fn ascii_lowered(c: char, l: char) -> bool {
    l == ascii_lower_char(c)
}

/// `s` spells `lower` with any of its ASCII letters in either case.
pub open spec fn equal_ignoring_ascii_case(s: Seq<char>, lower: Seq<char>) -> bool {
    &&& s.len() == lower.len()
    &&& forall|i: int| 0 <= i < s.len() ==> ascii_lowered(#[trigger] s[i], lower[i])
}

/// The unit whose token is exactly `name`.
pub open spec fn unit_of_lowercase(name: Seq<char>) -> Option<SizeType> {
    if name == "b"@ {
        Some(SizeType::Byte)
    } else if name == "kb"@ {
        Some(SizeType::KiloByte)
    } else if name == "mb"@ {
        Some(SizeType::MegaByte)
    } else if name == "gb"@ {
        Some(SizeType::GigaByte)
    } else {
        None
    }
}

/// The unit that `s` names once lower-cased; for ASCII text, matching is
/// plain ASCII case-insensitivity.
pub open spec fn unit_named(s: Seq<char>) -> Option<SizeType> {
    if all_ascii(s) {
        if equal_ignoring_ascii_case(s, "b"@) {
            Some(SizeType::Byte)
        } else if equal_ignoring_ascii_case(s, "kb"@) {
            Some(SizeType::KiloByte)
        } else if equal_ignoring_ascii_case(s, "mb"@) {
            Some(SizeType::MegaByte)
        } else if equal_ignoring_ascii_case(s, "gb"@) {
            Some(SizeType::GigaByte)
        } else {
            None
        }
    } else {
        unit_of_lowercase(lower_of(s))
    }
}

pub open spec fn is_digit(c: char) -> bool {
    '0' <= c && c <= '9'
}

/// The end of the run of digits that starts at `i`.
pub open spec fn digits_end(s: Seq<char>, i: int) -> int
    decreases s.len() - i,
{
    if 0 <= i < s.len() && is_digit(s[i]) {
        digits_end(s, i + 1)
    } else {
        i
    }
}

/// The number that a string of decimal digits spells.
pub open spec fn digits_value(s: Seq<char>) -> nat
    decreases s.len(),
{
    if s.len() == 0 {
        0
    } else {
        digits_value(s.drop_last()) * 10 + (s.last() as nat - '0' as nat) as nat
    }
}

/// What a size expression denotes: its leading digits are the amount, the
/// rest is the unit.
pub open spec fn size_expression(s: Seq<char>) -> Result<FileSize, FileGenError> {
    let k = digits_end(s, 0);
    let amount = s.take(k);
    if k == 0 || digits_value(amount) > u64::MAX {
        Err(FileGenError::InvalidAmountForSizeError)
    } else {
        match unit_named(s.skip(k)) {
            Some(t) => Ok(FileSize { amount: digits_value(amount) as u64, size: t }),
            None => Err(FileGenError::InvalidTypeForSizeError),
        }
    }
}

impl FileSize {
    /// The number of bytes that this size denotes.
    pub open spec fn byte_count(&self) -> nat {
        (self.amount * byte_factor(self.size)) as nat
    }

    pub fn byte_amount(&self) -> (r: u64)
        requires
            self.byte_count() <= u64::MAX,
        ensures
            r == self.byte_count(),
    {
        let f = self.size.to_byte_factor();
        proof {
            assert(self.amount * f <= u64::MAX);
        }
        self.amount * f
    }

    /// The number of bytes, or `None` where it exceeds `u64`.
    pub fn checked_byte_amount(&self) -> (r: Option<u64>)
        ensures
            r == (if self.byte_count() <= u64::MAX {
                Some(self.byte_count() as u64)
            } else {
                None::<u64>
            }),
    {
        self.amount.checked_mul(self.size.to_byte_factor())
    }

    /// Parses a size expression such as `10mb` or `512KB`.
    pub fn parse(s: &str) -> (r: Result<FileSize, FileGenError>)
        ensures
            r == size_expression(s@),
    {
        let n = s.unicode_len();
        let mut i: usize = 0;
        let mut amount: u64 = 0;
        let mut fits = true;
        while i < n && is_digit_char(s.get_char(i))
            invariant
                n == s@.len(),
                i <= n,
                digits_end(s@, i as int) == digits_end(s@, 0),
                fits ==> amount == digits_value(s@.take(i as int)),
                !fits ==> digits_value(s@.take(i as int)) > u64::MAX,
                forall|j: int| 0 <= j < i ==> is_digit(#[trigger] s@[j]),
            decreases n - i,
        {
            let c = s.get_char(i);
            let d = (c as u32 - '0' as u32) as u64;
            proof {
                let t = s@.take(i + 1);
                assert(t.drop_last() =~= s@.take(i as int));
                assert(digits_value(t) == digits_value(s@.take(i as int)) * 10 + d);
            }
            if fits {
                match amount.checked_mul(10) {
                    Some(m) => match m.checked_add(d) {
                        Some(v) => {
                            amount = v;
                        },
                        None => {
                            fits = false;
                        },
                    },
                    None => {
                        fits = false;
                        proof {
                            assert(digits_value(s@.take(i + 1)) >= amount * 10) by (nonlinear_arith)
                                requires
                                    digits_value(s@.take(i + 1)) == amount * 10 + d,
                                    d >= 0,
                            ;
                        }
                    },
                }
            } else {
                proof {
                    let p = digits_value(s@.take(i as int));
                    assert(p * 10 + d > u64::MAX) by (nonlinear_arith)
                        requires
                            p > u64::MAX,
                            d >= 0,
                    ;
                }
            }
            i = i + 1;
        }
        if i == 0 || !fits {
            return Err(FileGenError::InvalidAmountForSizeError);
        }
        let unit = s.substring_char(i, n);
        proof {
            assert(unit@ =~= s@.skip(i as int));
        }
        match SizeType::parse(unit) {
            Ok(t) => Ok(FileSize { amount, size: t }),
            Err(e) => Err(e),
        }
    }
}

fn is_digit_char(c: char) -> (r: bool)
    ensures
        r == is_digit(c),
{
    '0' <= c && c <= '9'
}

/// Relies on `str::to_lowercase`: the result depends on the text alone, and
/// ASCII text is lower-cased letter by letter, A-Z becoming a-z.
#[verifier::external_body]
fn lowercase(s: &str) -> (r: String)
    ensures
        !all_ascii(s@) ==> r@ == lower_of(s@),
        all_ascii(s@) ==> equal_ignoring_ascii_case(s@, r@),
{
    s.to_lowercase()
}

impl SizeType {
    pub fn to_byte_factor(&self) -> (r: u64)
        ensures
            r == byte_factor(*self),
    {
        match self {
            SizeType::Byte => 1,
            SizeType::KiloByte => 1024,
            SizeType::MegaByte => 1024 * 1024,
            SizeType::GigaByte => 1024 * 1024 * 1024,
        }
    }

    /// The unit whose token is exactly `name`, which is expected to be
    /// lower-cased already.
    pub fn from_lowercase(name: &str) -> (r: Result<SizeType, FileGenError>)
        ensures
            r == (match unit_of_lowercase(name@) {
                Some(t) => Ok(t),
                None => Err(FileGenError::InvalidTypeForSizeError),
            }),
    {
        let name = String::from_str(name);
        if name == String::from_str("b") {
            Ok(SizeType::Byte)
        } else if name == String::from_str("kb") {
            Ok(SizeType::KiloByte)
        } else if name == String::from_str("mb") {
            Ok(SizeType::MegaByte)
        } else if name == String::from_str("gb") {
            Ok(SizeType::GigaByte)
        } else {
            Err(FileGenError::InvalidTypeForSizeError)
        }
    }

    /// Parses a unit name, ignoring case.
    pub fn parse(s: &str) -> (r: Result<SizeType, FileGenError>)
        ensures
            r == (match unit_named(s@) {
                Some(t) => Ok(t),
                None => Err(FileGenError::InvalidTypeForSizeError),
            }),
    {
        let lowered = lowercase(s);
        proof {
            if all_ascii(s@) {
                lemma_ascii_lowering_matches(s@, lowered@, "b"@);
                lemma_ascii_lowering_matches(s@, lowered@, "kb"@);
                lemma_ascii_lowering_matches(s@, lowered@, "mb"@);
                lemma_ascii_lowering_matches(s@, lowered@, "gb"@);
            }
        }
        SizeType::from_lowercase(lowered.as_str())
    }
}

/// Two ASCII lower-case forms of one string agree.
proof fn lemma_ascii_lowering_matches(s: Seq<char>, l: Seq<char>, t: Seq<char>)
    requires
        equal_ignoring_ascii_case(s, l),
    ensures
        equal_ignoring_ascii_case(s, t) <==> l == t,
{
    if equal_ignoring_ascii_case(s, t) {
        assert forall|i: int| 0 <= i < s.len() implies l[i] == t[i] by {
            assert(ascii_lowered(s[i], l[i]));
            assert(ascii_lowered(s[i], t[i]));
        }
        assert(l =~= t);
    }
}

proof fn lemma_digits_end_from(digits: Seq<char>, unit: Seq<char>, j: int)
    requires
        0 <= j <= digits.len(),
        forall|i: int| 0 <= i < digits.len() ==> is_digit(#[trigger] digits[i]),
        unit.len() == 0 || !is_digit(unit[0]),
    ensures
        digits_end(digits + unit, j) == digits.len(),
    decreases digits.len() - j,
{
    if j < digits.len() {
        assert(is_digit((digits + unit)[j]));
        lemma_digits_end_from(digits, unit, j + 1);
    }
}

/// Where a run of digits is followed by a non-digit or nothing, the amount
/// is exactly that run and the unit is what follows it.
proof fn lemma_split_at_digits(digits: Seq<char>, unit: Seq<char>)
    requires
        forall|i: int| 0 <= i < digits.len() ==> is_digit(#[trigger] digits[i]),
        unit.len() == 0 || !is_digit(unit[0]),
    ensures
        digits_end(digits + unit, 0) == digits.len(),
        (digits + unit).take(digits.len() as int) == digits,
        (digits + unit).skip(digits.len() as int) == unit,
{
    let s = digits + unit;
    lemma_digits_end_from(digits, unit, 0);
    assert(s.take(digits.len() as int) =~= digits);
    assert(s.skip(digits.len() as int) =~= unit);
}

/// A size expression made of a run of digits that fits in 64 bits and a
/// unit token in any mix of upper and lower case parses to that amount of
/// that unit, whose byte count is the amount times the unit's factor.
pub proof fn lemma_parse_amount_and_unit(digits: Seq<char>, unit: Seq<char>, t: SizeType)
    requires
        digits.len() > 0,
        forall|i: int| 0 <= i < digits.len() ==> is_digit(#[trigger] digits[i]),
        digits_value(digits) <= u64::MAX,
        equal_ignoring_ascii_case(unit, unit_token(t)),
    ensures
        size_expression(digits + unit) == Ok::<FileSize, FileGenError>(
            FileSize { amount: digits_value(digits) as u64, size: t },
        ),
        size_expression(digits + unit)->Ok_0.byte_count() == digits_value(digits) * byte_factor(t),
{
    reveal_strlit("b");
    reveal_strlit("kb");
    reveal_strlit("mb");
    reveal_strlit("gb");
    let tok = unit_token(t);
    assert(ascii_lowered(unit[0], tok[0]));
    assert(unit.len() == 0 || !is_digit(unit[0]));
    lemma_split_at_digits(digits, unit);
    assert forall|i: int| 0 <= i < unit.len() implies is_ascii_char(#[trigger] unit[i]) by {
        assert(ascii_lowered(unit[i], tok[i]));
    }
    lemma_ascii_lowering_matches(unit, tok, "b"@);
    lemma_ascii_lowering_matches(unit, tok, "kb"@);
    lemma_ascii_lowering_matches(unit, tok, "mb"@);
    lemma_ascii_lowering_matches(unit, tok, "gb"@);
}

/// A size expression that does not start with a digit, or whose leading
/// digits spell a number beyond 64 bits, is refused for its amount.
pub proof fn lemma_missing_amount(s: Seq<char>)
    requires
        s.len() == 0 || !is_digit(s[0]) || digits_value(s.take(digits_end(s, 0))) > u64::MAX,
    ensures
        size_expression(s) == Err::<FileSize, FileGenError>(FileGenError::InvalidAmountForSizeError),
{
}

/// A size expression whose leading digits fit in 64 bits, followed by text
/// that names no unit once lower-cased, is refused for its unit.
pub proof fn lemma_unknown_unit(digits: Seq<char>, unit: Seq<char>)
    requires
        digits.len() > 0,
        forall|i: int| 0 <= i < digits.len() ==> is_digit(#[trigger] digits[i]),
        digits_value(digits) <= u64::MAX,
        unit.len() == 0 || !is_digit(unit[0]),
        unit_named(unit) is None,
    ensures
        size_expression(digits + unit) == Err::<FileSize, FileGenError>(FileGenError::InvalidTypeForSizeError),
{
    lemma_split_at_digits(digits, unit);
}

/// A size expression made of a run of digits that fits in 64 bits and text
/// that does not start with a digit and names a unit once lower-cased
/// (Unicode lower-casing included) parses to that amount of that unit.
pub proof fn lemma_parse_amount_and_named_unit(digits: Seq<char>, unit: Seq<char>, t: SizeType)
    requires
        digits.len() > 0,
        forall|i: int| 0 <= i < digits.len() ==> is_digit(#[trigger] digits[i]),
        digits_value(digits) <= u64::MAX,
        unit.len() == 0 || !is_digit(unit[0]),
        unit_named(unit) == Some(t),
    ensures
        size_expression(digits + unit) == Ok::<FileSize, FileGenError>(
            FileSize { amount: digits_value(digits) as u64, size: t },
        ),
        size_expression(digits + unit)->Ok_0.byte_count() == digits_value(digits) * byte_factor(t),
{
    lemma_split_at_digits(digits, unit);
}

} // verus!
