use vstd::prelude::*;

use crate::text::{
    decimal, digit, digit_char, is_unsigned_text, lemma_position_of, position_of, push_char,
    push_decimal, digits_value, is_canonical_digits, is_digit, lemma_decimal_of_digits,
    lemma_digit_char, lemma_position_found, read_unsigned, saturate, unsigned_body, unsigned_value,
};

verus! {

/// std's error for a text that is not an integer of the asked type, carried
/// through unopened.
#[verifier::external_type_specification]
#[verifier::external_body]
pub struct ExParseIntError(std::num::ParseIntError);

/// Relies on `u32::from_str` (reached through `str::parse`): an optional `+`
/// followed by ASCII digits is accepted when its value fits in a `u32`, and
/// anything else is an error. Used for the error it gives on a text that is
/// no number.
#[verifier::external_body]
fn parse_u32(s: &str) -> (r: Result<u32, std::num::ParseIntError>)
    ensures
        (r matches Ok(_)) == (is_unsigned_text(s@) && unsigned_value(s@) <= u32::MAX),
        r matches Ok(v) ==> v == unsigned_value(s@),
{
    s.parse::<u32>()
}

/// A positive amount of euro, at most 999999999.99, kept as whole euros and
/// cents, and whether the cents were written with one digit.
#[derive(Debug, Clone)]
pub struct Amount {
    euro: u32,
    cent: u8,
    single_cent_digit: bool,
}

/// Why a text is not an amount.
#[derive(Debug)]
pub enum InvalidAmount {
    /// Both parts are numbers, but the amount is zero or too large; a part
    /// beyond its type's range is held at the type's largest value.
    OutOfRange { euro: u32, cent: u8 },
    /// One of the two parts is not a number.
    ParseIntError(std::num::ParseIntError),
    /// The text has no `.`.
    NoSeparator,
}

/// Whether `euro` whole euros and `cent` cents is an amount that a payment
/// can carry: at least one cent and at most 999999999.99.
pub open spec fn amount_in_range(euro: nat, cent: nat) -> bool {
    euro <= 999999999 && cent <= 99 && !(euro == 0 && cent == 0)
}

/// The cent part of a formatted amount: one digit where the cents were
/// written with one, else at least two.
pub open spec fn cent_text(cent: nat, single_digit: bool) -> Seq<char> {
    if single_digit {
        decimal(cent / 10)
    } else if cent < 10 {
        seq!['0', digit_char(cent)]
    } else {
        decimal(cent)
    }
}

/// The amount as it stands in a payment: `EUR`, the euros, `.`, the cents.
pub open spec fn amount_text(euro: nat, cent: nat, single_digit: bool) -> Seq<char> {
    seq!['E', 'U', 'R'] + decimal(euro) + seq!['.'] + cent_text(cent, single_digit)
}

/// The text before the first `.` of `s`.
pub open spec fn euro_part(s: Seq<char>) -> Seq<char> {
    s.subrange(0, position_of(s, '.') as int)
}

/// The text after the first `.` of `s`.
pub open spec fn cent_part(s: Seq<char>) -> Seq<char> {
    s.subrange(position_of(s, '.') as int + 1, s.len() as int)
}

/// Whether the cents of `s` are written with a single character, which
/// counts as tenths.
pub open spec fn single_cent_digit(s: Seq<char>) -> bool {
    cent_part(s).len() == 1
}

/// The cents that the text after the first `.` of `s` stands for.
pub open spec fn cent_value(s: Seq<char>) -> nat {
    if single_cent_digit(s) {
        10 * unsigned_value(cent_part(s))
    } else {
        unsigned_value(cent_part(s))
    }
}

/// Whether both parts of `s` around its first `.` are unsigned numbers: an
/// optional `+` followed by one or more ASCII digits.
pub open spec fn parts_are_numbers(s: Seq<char>) -> bool {
    &&& is_unsigned_text(euro_part(s))
    &&& is_unsigned_text(cent_part(s))
}

impl Amount {
    /// The whole euros.
    pub closed spec fn euro(&self) -> nat {
        self.euro as nat
    }

    /// The cents beyond the whole euros.
    pub closed spec fn cent(&self) -> nat {
        self.cent as nat
    }

    /// Whether the cents were written with a single digit.
    pub closed spec fn single_digit(&self) -> bool {
        self.single_cent_digit
    }

    /// Whether the amount is one that a payment can carry.
    pub open spec fn in_range(&self) -> bool {
        amount_in_range(self.euro(), self.cent())
    }

    /// Reads an amount written `<euros>.<cents>`.
    pub fn parse(s: &str) -> (r: Result<Amount, InvalidAmount>)
        ensures
            match r {
                Err(InvalidAmount::NoSeparator) => !s@.contains('.'),
                Err(InvalidAmount::ParseIntError(_)) => s@.contains('.') && !parts_are_numbers(
                    s@,
                ),
                Err(InvalidAmount::OutOfRange { euro, cent }) => {
                    &&& s@.contains('.')
                    &&& parts_are_numbers(s@)
                    &&& euro == saturate(unsigned_value(euro_part(s@)), u32::MAX as nat)
                    &&& cent == saturate(cent_value(s@), u8::MAX as nat)
                    &&& !amount_in_range(unsigned_value(euro_part(s@)), cent_value(s@))
                },
                Ok(a) => {
                    &&& s@.contains('.')
                    &&& parts_are_numbers(s@)
                    &&& a.euro() == unsigned_value(euro_part(s@))
                    &&& a.cent() == cent_value(s@)
                    &&& a.single_digit() == single_cent_digit(s@)
                    &&& a.in_range()
                },
            },
    {
        let len = s.unicode_len();
        let mut i: usize = 0;
        while i < len && s.get_char(i) != '.'
            invariant
                len == s@.len(),
                i <= len,
                forall|j: int| 0 <= j < i ==> s@[j] != '.',
            decreases len - i,
        {
            i = i + 1;
        }
        proof {
            lemma_position_of(s@, '.', i as int);
        }
        if i == len {
            return Err(InvalidAmount::NoSeparator);
        }
        assert(s@.contains('.'));
        let euro_str = s.substring_char(0, i);
        let cent_str = s.substring_char(i + 1, len);
        let euro_read = read_unsigned(euro_str, u32::MAX);
        let cent_read = read_unsigned(cent_str, 255);
        let (euro, cent) = match (euro_read, cent_read) {
            (Some(e), Some(c)) => (e, c),
            _ => {
                let not_number = if euro_read.is_none() {
                    euro_str
                } else {
                    cent_str
                };
                return match parse_u32(not_number) {
                    Err(e) => Err(InvalidAmount::ParseIntError(e)),
                    Ok(_) => unreached(),
                };
            },
        };
        let single_cent_digit = len - (i + 1) == 1;
        let cent = if single_cent_digit {
            proof {
                let c = cent_part(s@);
                assert(c[0] != '+');
                assert(unsigned_body(c) == c);
                assert(is_digit(c[0]));
                assert(c.drop_last() =~= Seq::<char>::empty());
                assert(digits_value(c.drop_last()) == 0);
                assert(c.last() == c[0]);
            }
            assert(cent < 10);
            10 * cent
        } else {
            cent
        };
        if 999999999 < euro || 99 < cent || (euro == 0 && cent == 0) {
            return Err(InvalidAmount::OutOfRange { euro, cent: cent as u8 });
        }
        Ok(Amount { euro, cent: cent as u8, single_cent_digit })
    }

    /// Whether the amount is one that a payment can carry.
    pub fn is_in_range(&self) -> (r: bool)
        ensures
            r == self.in_range(),
    {
        !(999999999 < self.euro || 99 < self.cent || (self.euro == 0 && self.cent == 0))
    }

    /// The amount as it stands in a payment.
    pub closed spec fn text(&self) -> Seq<char> {
        amount_text(self.euro as nat, self.cent as nat, self.single_cent_digit)
    }

    /// Appends the amount as it stands in a payment to `out`.
    pub fn push_text(&self, out: &mut String)
        ensures
            final(out)@ == old(out)@ + self.text(),
            self.text() == amount_text(self.euro(), self.cent(), self.single_digit()),
    {
        push_char(out, 'E');
        push_char(out, 'U');
        push_char(out, 'R');
        push_decimal(out, self.euro as u32);
        push_char(out, '.');
        let ghost before_cent = out@;
        if self.single_cent_digit {
            push_decimal(out, (self.cent / 10) as u32);
        } else if self.cent < 10 {
            push_char(out, '0');
            push_char(out, digit(self.cent as u32));
        } else {
            push_decimal(out, self.cent as u32);
        }
        assert(out@ == before_cent + cent_text(self.cent as nat, self.single_cent_digit));
        assert(out@ == old(out)@ + self.text());
    }
}

impl std::str::FromStr for Amount {
    type Err = InvalidAmount;

    fn from_str(s: &str) -> Result<Amount, InvalidAmount> {
        Amount::parse(s)
    }
}

/// Whether `s` is an amount in its plainest notation: the euros without a
/// sign or leading zeros, a `.`, and one or two digits of cents.
pub open spec fn is_plain_amount_text(s: Seq<char>) -> bool {
    &&& s.contains('.')
    &&& is_canonical_digits(euro_part(s))
    &&& 1 <= cent_part(s).len() <= 2
    &&& forall|i: int| 0 <= i < cent_part(s).len() ==> is_digit(#[trigger] cent_part(s)[i])
}

/// An amount read from its plainest notation is written as `EUR` followed by
/// that very notation: the cents keep the number of digits they were given
/// with.
pub proof fn lemma_amount_round_trip(s: Seq<char>, a: Amount)
    requires
        is_plain_amount_text(s),
        a.euro() == unsigned_value(euro_part(s)),
        a.cent() == cent_value(s),
        a.single_digit() == single_cent_digit(s),
    ensures
        a.text() == seq!['E', 'U', 'R'] + s,
{
    let e = euro_part(s);
    let c = cent_part(s);
    lemma_position_found(s, '.');
    assert(s =~= e + seq!['.'] + c);
    assert(is_digit(e[0]));
    assert(unsigned_body(e) == e);
    lemma_decimal_of_digits(e);
    assert(is_digit(c[0]));
    assert(unsigned_body(c) == c);
    lemma_digit_char(c[0]);
    if c.len() == 1 {
        let w = Seq::<char>::empty().push(c[0]);
        assert(c =~= w);
        assert(c.drop_last() =~= Seq::<char>::empty());
        assert(digits_value(c.drop_last()) == 0);
        assert(c.last() == c[0]);
        assert(digits_value(c) == (c[0] as nat) - 48);
        assert(cent_text(a.cent(), true) == decimal(((c[0] as nat) - 48) as nat));
        assert(cent_text(a.cent(), true) =~= c);
    } else {
        assert(is_digit(c[1]));
        lemma_digit_char(c[1]);
        assert(c.drop_last().drop_last() =~= Seq::<char>::empty());
        assert(c.drop_last().last() == c[0]);
        assert(digits_value(c.drop_last().drop_last()) == 0);
        assert(digits_value(c.drop_last()) == (c[0] as nat) - 48);
        assert(c.last() == c[1]);
        let v = digits_value(c);
        assert(v == ((c[0] as nat) - 48) * 10 + ((c[1] as nat) - 48));
        if v < 10 {
            assert(c[0] == '0');
            assert(cent_text(v, false) =~= c);
        } else {
            assert(v / 10 == (c[0] as nat) - 48);
            assert(v % 10 == (c[1] as nat) - 48);
            assert(decimal(v) == decimal(v / 10).push(digit_char(v % 10)));
            assert(cent_text(v, false) =~= c);
        }
    }
    assert(a.text() =~= seq!['E', 'U', 'R'] + s);
}

} // verus!
