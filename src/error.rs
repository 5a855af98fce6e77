//! The closed set of failures a parse can end in.
use vstd::prelude::*;

use crate::text::decimal;

verus! {

broadcast use vstd::string::group_string_axioms;

/// std's failure of an integer parse, carried as the cause of `InvalidNumber`.
#[verifier::external_type_specification]
#[verifier::external_body]
pub struct ExParseIntError(std::num::ParseIntError);

/// Errors that can occur while parsing an ACH file.
#[derive(Debug)]
pub enum AchError {
    /// A line's type code is not the one its position calls for.
    InvalidRecordType(String),
    /// A line is not 94 characters long; holds the actual length.
    InvalidLineLength(usize),
    /// A numeric field does not hold an unsigned number.
    InvalidNumber { field: &'static str, source: std::num::ParseIntError },
    /// Records are out of order, or one is missing.
    InvalidStructure(String),
    /// No line but filler lines.
    EmptyFile,
    /// A batch ends without its control record.
    IncompleteBatch(String),
}

/// What an `AchError` says, without the cause of a numeric failure.
pub enum Fault {
    RecordType(Seq<char>),
    LineLength(int),
    Number(Seq<char>),
    Structure(Seq<char>),
    Empty,
    Incomplete(Seq<char>),
}

impl View for AchError {
    type V = Fault;

    open spec fn view(&self) -> Fault {
        match self {
            AchError::InvalidRecordType(c) => Fault::RecordType(c@),
            AchError::InvalidLineLength(n) => Fault::LineLength(*n as int),
            AchError::InvalidNumber { field, .. } => Fault::Number(field@),
            AchError::InvalidStructure(m) => Fault::Structure(m@),
            AchError::EmptyFile => Fault::Empty,
            AchError::IncompleteBatch(m) => Fault::Incomplete(m@),
        }
    }
}

/// The view of a result whose error is an `AchError`.
pub open spec fn fault_of<T>(r: Result<T, AchError>) -> Option<Fault> {
    match r {
        Ok(_) => None,
        Err(e) => Some(e@),
    }
}

impl AchError {
    /// A one-line description of the error.
    pub fn message(&self) -> (r: String)
        ensures
            match self {
                AchError::InvalidRecordType(c) => r@ == "Invalid record type: "@ + c@,
                AchError::InvalidLineLength(n) => r@ == "Invalid line length: expected 94, got "@
                    + decimal(*n as nat),
                AchError::InvalidNumber { field, .. } => ("Invalid numeric field '"@ + field@
                    + "': "@).is_prefix_of(r@),
                AchError::InvalidStructure(m) => r@ == "Invalid file structure: "@ + m@,
                AchError::EmptyFile => r@ == "Empty file"@,
                AchError::IncompleteBatch(m) => r@ == "Incomplete batch: "@ + m@,
            },
    {
        match self {
            AchError::InvalidRecordType(c) => {
                let r = String::from_str("Invalid record type: ");
                r.concat(c.as_str())
            },
            AchError::InvalidLineLength(n) => {
                let r = String::from_str("Invalid line length: expected 94, got ");
                let d = crate::text::decimal_text(*n);
                r.concat(d.as_str())
            },
            AchError::InvalidNumber { field, source } => {
                let r = String::from_str("Invalid numeric field '");
                let r = r.concat(field);
                let r = r.concat("': ");
                let cause = source.to_string();
                let r2 = r.concat(cause.as_str());
                assert(r2@.subrange(0, r@.len() as int) =~= r@);
                r2
            },
            AchError::InvalidStructure(m) => {
                let r = String::from_str("Invalid file structure: ");
                r.concat(m.as_str())
            },
            AchError::EmptyFile => String::from_str("Empty file"),
            AchError::IncompleteBatch(m) => {
                let r = String::from_str("Incomplete batch: ");
                r.concat(m.as_str())
            },
        }
    }
}

} // verus!
