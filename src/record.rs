use vstd::prelude::*;

use crate::amount::Amount;
use crate::remittance::Remittance;
use crate::text::{join_lines, push_char};

verus! {

/// The character sets that a payment may declare. Only UTF-8 is supported.
#[derive(Debug, Clone)]
pub enum CharacterSet {
    Utf8,
    ISO8859_01,
    ISO8859_02,
    ISO8859_04,
    ISO8859_05,
    ISO8859_07,
    ISO8859_10,
    ISO8859_15,
}

/// Why a payment cannot be turned into a payload.
#[derive(Debug)]
pub enum InvalidEpcCode {
    /// The payload takes more than 331 bytes.
    TooLargeTotal,
    /// Both a structured reference and a free text were given.
    DuplicateRemittance,
    /// At least one field has a length outside its bounds; each flag tells
    /// whether its field is one of them.
    InvalidFieldLength {
        invalid_bic: bool,
        invalid_name: bool,
        invalid_iban: bool,
        invalid_amount: bool,
        invalid_purpose: bool,
        invalid_remittance: bool,
        invalid_info: bool,
    },
}

/// The most bytes that a payload may take.
pub const MAX_LENGTH_BYTES: usize = 331;

/// The text of an optional field, empty where it is absent.
pub open spec fn or_empty(o: Option<Seq<char>>) -> Seq<char> {
    match o {
        Some(s) => s,
        None => seq![],
    }
}

/// Whether an optional field is present with a length outside `lo..=hi`.
pub open spec fn present_out_of(o: Option<Seq<char>>, lo: nat, hi: nat) -> bool {
    match o {
        Some(s) => !(lo <= s.len() <= hi),
        None => false,
    }
}

/// The view of an optional string.
pub open spec fn opt_view(o: Option<String>) -> Option<Seq<char>> {
    match o {
        Some(s) => Some(s@),
        None => None,
    }
}

/// A SEPA credit transfer, as an EPC QR code carries it.
#[derive(Debug)]
pub struct EpcQr {
    character_set: CharacterSet,
    bic: Option<String>,
    beneficiary_name: String,
    beneficiary_account: String,
    amount: Option<Amount>,
    purpose: Option<String>,
    remittance: Option<Remittance>,
    info: Option<String>,
}

impl EpcQr {
    /// Only UTF-8 is ever declared.
    #[verifier::type_invariant]
    closed spec fn declares_utf8(&self) -> bool {
        self.character_set is Utf8
    }

    /// The declared character set.
    pub closed spec fn character_set(&self) -> CharacterSet {
        self.character_set
    }

    /// BIC of the beneficiary's bank.
    pub closed spec fn bic(&self) -> Option<Seq<char>> {
        opt_view(self.bic)
    }

    /// Name of the beneficiary.
    pub closed spec fn name(&self) -> Seq<char> {
        self.beneficiary_name@
    }

    /// Account (IBAN) of the beneficiary.
    pub closed spec fn account(&self) -> Seq<char> {
        self.beneficiary_account@
    }

    /// Amount to transfer.
    pub closed spec fn amount(&self) -> Option<Amount> {
        self.amount
    }

    /// Purpose code.
    pub closed spec fn purpose(&self) -> Option<Seq<char>> {
        opt_view(self.purpose)
    }

    /// Remittance information.
    pub closed spec fn remittance(&self) -> Option<Remittance> {
        self.remittance
    }

    /// Information from the beneficiary to the originator.
    pub closed spec fn info(&self) -> Option<Seq<char>> {
        opt_view(self.info)
    }

    /// A BIC is present with neither 8 nor 11 characters.
    pub open spec fn bic_invalid(&self) -> bool {
        match self.bic() {
            Some(b) => b.len() != 8 && b.len() != 11,
            None => false,
        }
    }

    /// The name has no character or more than 70.
    pub open spec fn name_invalid(&self) -> bool {
        !(1 <= self.name().len() <= 70)
    }

    /// The account has no character or more than 34.
    pub open spec fn iban_invalid(&self) -> bool {
        !(1 <= self.account().len() <= 34)
    }

    /// An amount is present that a payment cannot carry.
    pub open spec fn amount_invalid(&self) -> bool {
        match self.amount() {
            Some(a) => !a.in_range(),
            None => false,
        }
    }

    /// A purpose is present with no character or more than 4.
    pub open spec fn purpose_invalid(&self) -> bool {
        present_out_of(self.purpose(), 1, 4)
    }

    /// A remittance is present whose text has a length its kind forbids.
    pub open spec fn remittance_invalid(&self) -> bool {
        match self.remittance() {
            Some(r) => !r.has_valid_length(),
            None => false,
        }
    }

    /// An info is present with no character or more than 70.
    pub open spec fn info_invalid(&self) -> bool {
        present_out_of(self.info(), 1, 70)
    }

    /// Every field has a length within its bounds.
    pub open spec fn is_valid(&self) -> bool {
        !self.bic_invalid() && !self.name_invalid() && !self.iban_invalid()
            && !self.amount_invalid() && !self.purpose_invalid() && !self.remittance_invalid()
            && !self.info_invalid()
    }

    /// The error that lists each field with a length outside its bounds.
    pub open spec fn field_errors(&self) -> InvalidEpcCode {
        InvalidEpcCode::InvalidFieldLength {
            invalid_bic: self.bic_invalid(),
            invalid_name: self.name_invalid(),
            invalid_iban: self.iban_invalid(),
            invalid_amount: self.amount_invalid(),
            invalid_purpose: self.purpose_invalid(),
            invalid_remittance: self.remittance_invalid(),
            invalid_info: self.info_invalid(),
        }
    }

    /// The version line: `001` with a BIC, `002` without.
    pub open spec fn version_line(&self) -> Seq<char> {
        if self.bic() is Some {
            seq!['0', '0', '1']
        } else {
            seq!['0', '0', '2']
        }
    }

    /// The seven lines that every payload has.
    pub open spec fn head_lines(&self) -> Seq<Seq<char>> {
        seq![
            seq!['B', 'C', 'D'],
            self.version_line(),
            seq!['1'],
            seq!['S', 'C', 'T'],
            or_empty(self.bic()),
            self.name(),
            self.account(),
        ]
    }

    /// The four optional lines: amount, purpose, remittance, info.
    pub open spec fn tail_lines(&self) -> Seq<Seq<char>> {
        seq![
            match self.amount() {
                Some(a) => a.text(),
                None => seq![],
            },
            or_empty(self.purpose()),
            match self.remittance() {
                Some(r) => r.content(),
                None => seq![],
            },
            or_empty(self.info()),
        ]
    }

    /// How many of the optional lines are written: up to the last present
    /// field.
    pub open spec fn tail_count(&self) -> nat {
        if self.info() is Some {
            4
        } else if self.remittance() is Some {
            3
        } else if self.purpose() is Some {
            2
        } else if self.amount() is Some {
            1
        } else {
            0
        }
    }

    /// The lines of the payload, in order.
    pub open spec fn lines(&self) -> Seq<Seq<char>> {
        self.head_lines() + self.tail_lines().take(self.tail_count() as int)
    }

    /// The payload text.
    pub open spec fn payload_text(&self) -> Seq<char> {
        join_lines(self.lines())
    }

    /// Why the record has no payload, if it has none: its invalid fields
    /// first, then a payload too large.
    pub open spec fn payload_error(&self) -> Option<InvalidEpcCode> {
        if !self.is_valid() {
            Some(self.field_errors())
        } else if self.payload_bytes().len() > MAX_LENGTH_BYTES {
            Some(InvalidEpcCode::TooLargeTotal)
        } else {
            None
        }
    }

    /// The payload as UTF-8 bytes.
    pub open spec fn payload_bytes(&self) -> Seq<u8> {
        vstd::utf8::encode_utf8(self.payload_text())
    }
}

/// Whether an optional text is present with a character count outside
/// `lo..=hi`.
fn present_out_of_exec(o: &Option<String>, lo: usize, hi: usize) -> (r: bool)
    ensures
        r == present_out_of(opt_view(*o), lo as nat, hi as nat),
{
    match o {
        Some(s) => {
            let n = s.as_str().unicode_len();
            !(lo <= n && n <= hi)
        },
        None => false,
    }
}

/// Appends a newline and then `line` to `out`.
fn push_line(out: &mut String, line: &str, Ghost(lines): Ghost<Seq<Seq<char>>>)
    requires
        lines.len() >= 1,
        old(out)@ == join_lines(lines),
    ensures
        final(out)@ == join_lines(lines.push(line@)),
{
    push_char(out, '\n');
    out.append(line);
    assert(lines.push(line@).drop_last() =~= lines);
}

impl EpcQr {
    /// A payment of no set amount to the given beneficiary, in UTF-8, with no
    /// optional field.
    pub fn new(beneficiary_name: String, beneficiary_account: String) -> (r: Self)
        ensures
            r.character_set() == CharacterSet::Utf8,
            r.bic() == None::<Seq<char>>,
            r.name() == beneficiary_name@,
            r.account() == beneficiary_account@,
            r.amount() == None::<Amount>,
            r.purpose() == None::<Seq<char>>,
            r.remittance() == None::<Remittance>,
            r.info() == None::<Seq<char>>,
    {
        EpcQr {
            character_set: CharacterSet::Utf8,
            bic: None,
            beneficiary_name,
            beneficiary_account,
            amount: None,
            purpose: None,
            remittance: None,
            info: None,
        }
    }

    /// The same payment to a bank with the given BIC, or with none.
    pub fn with_bic(self, bic: Option<String>) -> (r: Self)
        ensures
            r.character_set() == CharacterSet::Utf8,
            r.bic() == opt_view(bic),
            r.name() == self.name(),
            r.account() == self.account(),
            r.amount() == self.amount(),
            r.purpose() == self.purpose(),
            r.remittance() == self.remittance(),
            r.info() == self.info(),
    {
        proof {
            use_type_invariant(&self);
        }
        EpcQr { bic, ..self }
    }

    /// The same payment of the given amount, or of none.
    pub fn with_amount(self, amount: Option<Amount>) -> (r: Self)
        ensures
            r.character_set() == CharacterSet::Utf8,
            r.bic() == self.bic(),
            r.name() == self.name(),
            r.account() == self.account(),
            r.amount() == amount,
            r.purpose() == self.purpose(),
            r.remittance() == self.remittance(),
            r.info() == self.info(),
    {
        proof {
            use_type_invariant(&self);
        }
        EpcQr { amount, ..self }
    }

    /// The same payment with the given purpose code, or with none.
    pub fn with_purpose(self, purpose: Option<String>) -> (r: Self)
        ensures
            r.character_set() == CharacterSet::Utf8,
            r.bic() == self.bic(),
            r.name() == self.name(),
            r.account() == self.account(),
            r.amount() == self.amount(),
            r.purpose() == opt_view(purpose),
            r.remittance() == self.remittance(),
            r.info() == self.info(),
    {
        proof {
            use_type_invariant(&self);
        }
        EpcQr { purpose, ..self }
    }

    /// The same payment with the given remittance information, or with none.
    pub fn with_remittance(self, remittance: Option<Remittance>) -> (r: Self)
        ensures
            r.character_set() == CharacterSet::Utf8,
            r.bic() == self.bic(),
            r.name() == self.name(),
            r.account() == self.account(),
            r.amount() == self.amount(),
            r.purpose() == self.purpose(),
            r.remittance() == remittance,
            r.info() == self.info(),
    {
        proof {
            use_type_invariant(&self);
        }
        EpcQr { remittance, ..self }
    }

    /// The same payment with the given information to the originator, or with none.
    pub fn with_info(self, info: Option<String>) -> (r: Self)
        ensures
            r.character_set() == CharacterSet::Utf8,
            r.bic() == self.bic(),
            r.name() == self.name(),
            r.account() == self.account(),
            r.amount() == self.amount(),
            r.purpose() == self.purpose(),
            r.remittance() == self.remittance(),
            r.info() == opt_view(info),
    {
        proof {
            use_type_invariant(&self);
        }
        EpcQr { info, ..self }
    }

    /// Checks the length of every field, and lists all that are wrong.
    pub fn validate(&self) -> (r: Result<(), InvalidEpcCode>)
        ensures
            (r matches Ok(_)) == self.is_valid(),
            r matches Err(e) ==> e == self.field_errors(),
    {
        let invalid_bic = match &self.bic {
            Some(b) => {
                let n = b.as_str().unicode_len();
                n != 8 && n != 11
            },
            None => false,
        };
        let name_len = self.beneficiary_name.as_str().unicode_len();
        let invalid_name = !(1 <= name_len && name_len <= 70);
        let account_len = self.beneficiary_account.as_str().unicode_len();
        let invalid_iban = !(1 <= account_len && account_len <= 34);
        let invalid_amount = match &self.amount {
            Some(a) => !a.is_in_range(),
            None => false,
        };
        let invalid_purpose = present_out_of_exec(&self.purpose, 1, 4);
        let invalid_remittance = match &self.remittance {
            Some(Remittance::Reference(s)) => {
                let n = s.as_str().unicode_len();
                !(1 <= n && n <= 35)
            },
            Some(Remittance::Text(s)) => {
                let n = s.as_str().unicode_len();
                !(1 <= n && n <= 140)
            },
            None => false,
        };
        let invalid_info = present_out_of_exec(&self.info, 1, 70);
        if invalid_bic || invalid_name || invalid_iban || invalid_amount || invalid_purpose
            || invalid_remittance || invalid_info {
            Err(
                InvalidEpcCode::InvalidFieldLength {
                    invalid_bic,
                    invalid_name,
                    invalid_iban,
                    invalid_amount,
                    invalid_purpose,
                    invalid_remittance,
                    invalid_info,
                },
            )
        } else {
            Ok(())
        }
    }

    /// The payload text, whether or not the fields are valid.
    pub fn to_string(&self) -> (r: String)
        ensures
            r@ == self.payload_text(),
    {
        let mut out = String::new();
        out.append("BCD");
        let ghost lines: Seq<Seq<char>> = seq![seq!['B', 'C', 'D']];
        proof {
            reveal_strlit("BCD");
            assert(out@ =~= join_lines(lines));
        }
        let version = if self.bic.is_some() {
            "001"
        } else {
            "002"
        };
        proof {
            reveal_strlit("001");
            reveal_strlit("002");
            assert(version@ =~= self.version_line());
        }
        push_line(&mut out, version, Ghost(lines));
        proof {
            lines = lines.push(self.version_line());
        }
        push_line(&mut out, "1", Ghost(lines));
        proof {
            reveal_strlit("1");
            assert("1"@ =~= seq!['1']);
            lines = lines.push(seq!['1']);
        }
        push_line(&mut out, "SCT", Ghost(lines));
        proof {
            reveal_strlit("SCT");
            assert("SCT"@ =~= seq!['S', 'C', 'T']);
            lines = lines.push(seq!['S', 'C', 'T']);
        }
        let bic_line: &str = match &self.bic {
            Some(b) => b.as_str(),
            None => "",
        };
        proof {
            reveal_strlit("");
            assert(bic_line@ =~= or_empty(self.bic()));
        }
        push_line(&mut out, bic_line, Ghost(lines));
        proof {
            lines = lines.push(or_empty(self.bic()));
        }
        push_line(&mut out, self.beneficiary_name.as_str(), Ghost(lines));
        proof {
            lines = lines.push(self.name());
        }
        push_line(&mut out, self.beneficiary_account.as_str(), Ghost(lines));
        proof {
            lines = lines.push(self.account());
            assert(lines =~= self.head_lines());
        }
        let ghost tail = self.tail_lines();
        let count: usize = if self.info.is_some() {
            4
        } else if self.remittance.is_some() {
            3
        } else if self.purpose.is_some() {
            2
        } else if self.amount.is_some() {
            1
        } else {
            0
        };
        assert(count == self.tail_count());
        if count >= 1 {
            let ghost before = out@;
            push_char(&mut out, '\n');
            if let Some(a) = &self.amount {
                a.push_text(&mut out);
            }
            proof {
                assert(out@ =~= before + seq!['\n'] + tail[0]);
                assert(lines.push(tail[0]).drop_last() =~= lines);
                lines = lines.push(tail[0]);
            }
        }
        if count >= 2 {
            let purpose_line: &str = match &self.purpose {
                Some(p) => p.as_str(),
                None => "",
            };
            proof {
                reveal_strlit("");
                assert(purpose_line@ =~= tail[1]);
            }
            push_line(&mut out, purpose_line, Ghost(lines));
            proof {
                lines = lines.push(tail[1]);
            }
        }
        if count >= 3 {
            let remittance_line: &str = match &self.remittance {
                Some(r) => r.text(),
                None => "",
            };
            proof {
                reveal_strlit("");
                assert(remittance_line@ =~= tail[2]);
            }
            push_line(&mut out, remittance_line, Ghost(lines));
            proof {
                lines = lines.push(tail[2]);
            }
        }
        if count >= 4 {
            let info_line: &str = match &self.info {
                Some(i) => i.as_str(),
                None => "",
            };
            proof {
                reveal_strlit("");
                assert(info_line@ =~= tail[3]);
            }
            push_line(&mut out, info_line, Ghost(lines));
            proof {
                lines = lines.push(tail[3]);
            }
        }
        proof {
            assert(lines =~= self.lines());
        }
        out
    }

    /// The payload as UTF-8 bytes, after the fields have been checked and
    /// provided that it takes at most 331 bytes.
    pub fn data(&self) -> (r: Result<Vec<u8>, InvalidEpcCode>)
        ensures
            match r {
                Ok(bytes) => {
                    &&& self.is_valid()
                    &&& bytes@ == self.payload_bytes()
                    &&& bytes@.len() <= MAX_LENGTH_BYTES
                },
                Err(InvalidEpcCode::InvalidFieldLength { .. }) => {
                    &&& !self.is_valid()
                    &&& r == Err::<Vec<u8>, InvalidEpcCode>(self.field_errors())
                },
                Err(InvalidEpcCode::TooLargeTotal) => {
                    &&& self.is_valid()
                    &&& self.payload_bytes().len() > MAX_LENGTH_BYTES
                },
                Err(InvalidEpcCode::DuplicateRemittance) => false,
            },
            match r {
                Ok(_) => self.payload_error() is None,
                Err(e) => self.payload_error() == Some(e),
            },
            self.is_valid() && self.payload_bytes().len() > MAX_LENGTH_BYTES ==> r matches Err(
                InvalidEpcCode::TooLargeTotal,
            ),
    {
        proof {
            use_type_invariant(self);
        }
        match self.validate() {
            Ok(()) => {},
            Err(e) => return Err(e),
        }
        let text = self.to_string();
        let bytes = text.as_str().as_bytes_vec();
        if bytes.len() <= MAX_LENGTH_BYTES {
            Ok(bytes)
        } else {
            Err(InvalidEpcCode::TooLargeTotal)
        }
    }
}

/// Where every other field is within its bounds, a record fails validation
/// exactly when a BIC is present with neither 8 nor 11 characters, and the error then flags that field alone.
pub proof fn lemma_bic_bounds(r: EpcQr)
    requires
        !r.name_invalid(),
        !r.iban_invalid(),
        !r.amount_invalid(),
        !r.purpose_invalid(),
        !r.remittance_invalid(),
        !r.info_invalid(),
    ensures
        r.is_valid() == !r.bic_invalid(),
        r.bic_invalid() ==> r.field_errors() == (InvalidEpcCode::InvalidFieldLength {
                invalid_bic: true,
                invalid_name: false,
                invalid_iban: false,
                invalid_amount: false,
                invalid_purpose: false,
                invalid_remittance: false,
                invalid_info: false,
            }),
{
}

/// Where every other field is within its bounds, a record fails validation
/// exactly when the name has no character or more than 70, and the error then flags that field alone.
pub proof fn lemma_name_bounds(r: EpcQr)
    requires
        !r.bic_invalid(),
        !r.iban_invalid(),
        !r.amount_invalid(),
        !r.purpose_invalid(),
        !r.remittance_invalid(),
        !r.info_invalid(),
    ensures
        r.is_valid() == !r.name_invalid(),
        r.name_invalid() ==> r.field_errors() == (InvalidEpcCode::InvalidFieldLength {
                invalid_bic: false,
                invalid_name: true,
                invalid_iban: false,
                invalid_amount: false,
                invalid_purpose: false,
                invalid_remittance: false,
                invalid_info: false,
            }),
{
}

/// Where every other field is within its bounds, a record fails validation
/// exactly when the account has no character or more than 34, and the error then flags that field alone.
pub proof fn lemma_iban_bounds(r: EpcQr)
    requires
        !r.bic_invalid(),
        !r.name_invalid(),
        !r.amount_invalid(),
        !r.purpose_invalid(),
        !r.remittance_invalid(),
        !r.info_invalid(),
    ensures
        r.is_valid() == !r.iban_invalid(),
        r.iban_invalid() ==> r.field_errors() == (InvalidEpcCode::InvalidFieldLength {
                invalid_bic: false,
                invalid_name: false,
                invalid_iban: true,
                invalid_amount: false,
                invalid_purpose: false,
                invalid_remittance: false,
                invalid_info: false,
            }),
{
}

/// Where every other field is within its bounds, a record fails validation
/// exactly when an amount is present that is zero or above 999999999.99, and the error then flags that field alone.
pub proof fn lemma_amount_bounds(r: EpcQr)
    requires
        !r.bic_invalid(),
        !r.name_invalid(),
        !r.iban_invalid(),
        !r.purpose_invalid(),
        !r.remittance_invalid(),
        !r.info_invalid(),
    ensures
        r.is_valid() == !r.amount_invalid(),
        r.amount_invalid() ==> r.field_errors() == (InvalidEpcCode::InvalidFieldLength {
                invalid_bic: false,
                invalid_name: false,
                invalid_iban: false,
                invalid_amount: true,
                invalid_purpose: false,
                invalid_remittance: false,
                invalid_info: false,
            }),
{
}

/// Where every other field is within its bounds, a record fails validation
/// exactly when a purpose is present with no character or more than 4, and the error then flags that field alone.
pub proof fn lemma_purpose_bounds(r: EpcQr)
    requires
        !r.bic_invalid(),
        !r.name_invalid(),
        !r.iban_invalid(),
        !r.amount_invalid(),
        !r.remittance_invalid(),
        !r.info_invalid(),
    ensures
        r.is_valid() == !r.purpose_invalid(),
        r.purpose_invalid() ==> r.field_errors() == (InvalidEpcCode::InvalidFieldLength {
                invalid_bic: false,
                invalid_name: false,
                invalid_iban: false,
                invalid_amount: false,
                invalid_purpose: true,
                invalid_remittance: false,
                invalid_info: false,
            }),
{
}

/// Where every other field is within its bounds, a record fails validation
/// exactly when a remittance is present with no character or more than its kind allows (35 for a reference, 140 for a text), and the error then flags that field alone.
pub proof fn lemma_remittance_bounds(r: EpcQr)
    requires
        !r.bic_invalid(),
        !r.name_invalid(),
        !r.iban_invalid(),
        !r.amount_invalid(),
        !r.purpose_invalid(),
        !r.info_invalid(),
    ensures
        r.is_valid() == !r.remittance_invalid(),
        r.remittance_invalid() ==> r.field_errors() == (InvalidEpcCode::InvalidFieldLength {
                invalid_bic: false,
                invalid_name: false,
                invalid_iban: false,
                invalid_amount: false,
                invalid_purpose: false,
                invalid_remittance: true,
                invalid_info: false,
            }),
{
}

/// Where every other field is within its bounds, a record fails validation
/// exactly when an info is present with no character or more than 70, and the error then flags that field alone.
pub proof fn lemma_info_bounds(r: EpcQr)
    requires
        !r.bic_invalid(),
        !r.name_invalid(),
        !r.iban_invalid(),
        !r.amount_invalid(),
        !r.purpose_invalid(),
        !r.remittance_invalid(),
    ensures
        r.is_valid() == !r.info_invalid(),
        r.info_invalid() ==> r.field_errors() == (InvalidEpcCode::InvalidFieldLength {
                invalid_bic: false,
                invalid_name: false,
                invalid_iban: false,
                invalid_amount: false,
                invalid_purpose: false,
                invalid_remittance: false,
                invalid_info: true,
            }),
{
}

/// The payload has the seven fixed lines and then the optional lines up to
/// the last present optional field; where none is present it ends with the
/// account, and where the info is present all four optional lines are there.
pub proof fn lemma_trailing_lines(r: EpcQr)
    ensures
        r.lines().len() == 7 + r.tail_count(),
        r.lines().subrange(0, 7) == r.head_lines(),
        forall|i: int| 7 <= i < r.lines().len() ==> r.lines()[i] == r.tail_lines()[i - 7],
        r.amount() is None && r.purpose() is None && r.remittance() is None && r.info() is None
            ==> r.lines() == r.head_lines() && r.lines().len() == 7 && r.lines().last()
            == r.account(),
        r.info() is Some ==> r.lines().len() == 11,
{
    assert(r.lines().subrange(0, 7) =~= r.head_lines());
    if r.amount() is None && r.purpose() is None && r.remittance() is None && r.info() is None {
        assert(r.lines() =~= r.head_lines());
    }
}

/// A record with no optional line but the info has eleven lines: the
/// seven fixed ones, three empty ones and the info last.
pub proof fn lemma_info_only_lines(r: EpcQr)
    requires
        r.amount() is None,
        r.purpose() is None,
        r.remittance() is None,
        r.info() is Some,
    ensures
        r.lines().len() == 11,
        r.lines()[7].len() == 0,
        r.lines()[8].len() == 0,
        r.lines()[9].len() == 0,
        r.lines()[10] == r.info()->Some_0,
{
}

} // verus!
