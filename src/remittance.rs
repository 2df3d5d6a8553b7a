use vstd::prelude::*;

use crate::record::InvalidEpcCode;

verus! {

/// Remittance information of a payment: a structured reference or a free
/// text, never both.
#[derive(Debug, Clone)]
pub enum Remittance {
    /// Structured creditor reference, up to 35 characters.
    Reference(String),
    /// Unstructured text, up to 140 characters.
    Text(String),
}

impl Remittance {
    /// The text that the remittance carries, whichever its kind.
    pub open spec fn content(&self) -> Seq<char> {
        match self {
            Remittance::Reference(s) => s@,
            Remittance::Text(s) => s@,
        }
    }

    /// Whether the text has a length that its kind allows.
    pub open spec fn has_valid_length(&self) -> bool {
        match self {
            Remittance::Reference(s) => 1 <= s@.len() <= 35,
            Remittance::Text(s) => 1 <= s@.len() <= 140,
        }
    }

    /// The text that the remittance carries, whichever its kind.
    pub fn text(&self) -> (r: &str)
        ensures
            r@ == self.content(),
    {
        match self {
            Remittance::Reference(s) => s.as_str(),
            Remittance::Text(s) => s.as_str(),
        }
    }

    /// The remittance that a structured reference and a free text given
    /// apart make: none where neither is given, and an error where both are.
    pub fn from_parts(reference: Option<String>, text: Option<String>) -> (r: Result<
        Option<Remittance>,
        InvalidEpcCode,
    >)
        ensures
            r == remittance_of_parts(reference, text),
    {
        match (reference, text) {
            (Some(_), Some(_)) => Err(InvalidEpcCode::DuplicateRemittance),
            (Some(f), None) => Ok(Some(Remittance::Reference(f))),
            (None, Some(t)) => Ok(Some(Remittance::Text(t))),
            (None, None) => Ok(None),
        }
    }
}

/// The remittance that a structured reference and a free text given apart
/// make: the one given, none, or an error where both are given.
pub open spec fn remittance_of_parts(reference: Option<String>, text: Option<String>) -> Result<
    Option<Remittance>,
    InvalidEpcCode,
> {
    match (reference, text) {
        (Some(_), Some(_)) => Err(InvalidEpcCode::DuplicateRemittance),
        (Some(f), None) => Ok(Some(Remittance::Reference(f))),
        (None, Some(t)) => Ok(Some(Remittance::Text(t))),
        (None, None) => Ok(None),
    }
}

/// Giving both a structured reference and a free text is refused while the
/// remittance is assembled, whatever they hold: no remittance, and so no
/// record, is built from them.
pub proof fn lemma_both_remittance_parts_refused(reference: String, text: String)
    ensures
        remittance_of_parts(Some(reference), Some(text)) == Err::<Option<Remittance>, InvalidEpcCode>(
            InvalidEpcCode::DuplicateRemittance,
        ),
        !(remittance_of_parts(Some(reference), Some(text)) is Ok),
{
}

} // verus!
