//! Field decoding: the length and type-code checks every record goes
//! through, and one decoder per record kind.
use vstd::prelude::*;

use crate::error::{fault_of, AchError, Fault};
use crate::records::{
    number_at, Addenda, BatchControl, BatchHeader, EntryDetail, FileControl, FileHeader, RECORD_LEN,
};
use crate::text::{is_u64_text, parse_decimal, trim, trimmed, u64_value};

verus! {

broadcast use vstd::string::group_string_axioms;

/// What is wrong with `line` as a record of type `code`, before any field
/// is read: its length, then its type code.
pub open spec fn record_fault(line: Seq<char>, code: char) -> Option<Fault> {
    if line.len() != RECORD_LEN {
        Some(Fault::LineLength(line.len() as int))
    } else if line[0] != code {
        Some(Fault::RecordType(line.subrange(0, 1)))
    } else {
        None
    }
}

/// What is wrong with the numeric field `name` at `[a, b)` of `line`.
pub open spec fn number_fault(line: Seq<char>, a: int, b: int, name: Seq<char>) -> Option<Fault> {
    if is_u64_text(trimmed(line.subrange(a, b))) {
        None
    } else {
        Some(Fault::Number(name))
    }
}

/// The first of two possible faults.
pub open spec fn first_of(a: Option<Fault>, b: Option<Fault>) -> Option<Fault> {
    if a is Some {
        a
    } else {
        b
    }
}

/// Why `line` does not decode as an entry detail record.
pub open spec fn entry_fault(line: Seq<char>) -> Option<Fault> {
    first_of(record_fault(line, '6'), number_fault(line, 29, 39, "amount"@))
}

/// Why `line` does not decode as a batch control record.
pub open spec fn batch_control_fault(line: Seq<char>) -> Option<Fault> {
    first_of(
        record_fault(line, '8'),
        first_of(
            number_fault(line, 4, 10, "entry_addenda_count"@),
            first_of(
                number_fault(line, 10, 20, "entry_hash"@),
                first_of(
                    number_fault(line, 20, 32, "total_debit_amount"@),
                    number_fault(line, 32, 44, "total_credit_amount"@),
                ),
            ),
        ),
    )
}

/// Why `line` does not decode as a file control record.
pub open spec fn file_control_fault(line: Seq<char>) -> Option<Fault> {
    first_of(
        record_fault(line, '9'),
        first_of(
            number_fault(line, 1, 7, "batch_count"@),
            first_of(
                number_fault(line, 7, 13, "block_count"@),
                first_of(
                    number_fault(line, 13, 21, "entry_addenda_count"@),
                    first_of(
                        number_fault(line, 21, 31, "entry_hash"@),
                        first_of(
                            number_fault(line, 31, 43, "total_debit_amount"@),
                            number_fault(line, 43, 55, "total_credit_amount"@),
                        ),
                    ),
                ),
            ),
        ),
    )
}

/// The type code of `line`: its first character.
pub fn get_record_type<'a>(line: &'a str) -> (r: Result<&'a str, AchError>)
    ensures
        match r {
            Ok(c) => line@.len() > 0 && c@ == line@.subrange(0, 1),
            Err(e) => line@.len() == 0 && e@ == Fault::LineLength(0),
        },
{
    if line.is_empty() {
        return Err(AchError::InvalidLineLength(0));
    }
    Ok(line.substring_char(0, 1))
}

/// Checks that `line` is exactly one record wide.
pub fn validate_line_length(line: &str) -> (r: Result<(), AchError>)
    ensures
        match r {
            Ok(_) => line@.len() == RECORD_LEN,
            Err(e) => line@.len() != RECORD_LEN && e@ == Fault::LineLength(line@.len() as int),
        },
{
    let n = line.unicode_len();
    if n != RECORD_LEN {
        return Err(AchError::InvalidLineLength(n));
    }
    Ok(())
}

/// Checks the length of `line`, then that its type code is `code`.
fn check_record(line: &str, code: char) -> (r: Result<(), AchError>)
    ensures
        fault_of(r) == record_fault(line@, code),
{
    validate_line_length(line)?;
    if line.get_char(0) != code {
        let c = String::from_str(line.substring_char(0, 1));
        return Err(AchError::InvalidRecordType(c));
    }
    Ok(())
}

/// Reads an unsigned number from `s`, ignoring surrounding white space;
/// `field_name` names the field in the error.
pub fn parse_u64(s: &str, field_name: &'static str) -> (r: Result<u64, AchError>)
    ensures
        match r {
            Ok(v) => is_u64_text(trimmed(s@)) && v == u64_value(trimmed(s@)),
            Err(e) => !is_u64_text(trimmed(s@)) && e@ == Fault::Number(field_name@),
        },
{
    match parse_decimal(trim(s)) {
        Ok(v) => Ok(v),
        Err(e) => Err(AchError::InvalidNumber { field: field_name, source: e }),
    }
}

/// The numeric field `[a, b)` of a record line.
fn number_field(line: &str, a: usize, b: usize, field_name: &'static str) -> (r: Result<
    u64,
    AchError,
>)
    requires
        a <= b <= line@.len(),
    ensures
        fault_of(r) == number_fault(line@, a as int, b as int, field_name@),
        r is Ok ==> r->Ok_0 == number_at(line@, a as int, b as int),
{
    parse_u64(line.substring_char(a, b), field_name)
}

/// An owned copy of the text field `[a, b)` of a record line.
fn text_field(line: &str, a: usize, b: usize) -> (r: String)
    requires
        a <= b <= line@.len(),
    ensures
        r@ == line@.subrange(a as int, b as int),
{
    String::from_str(line.substring_char(a, b))
}

/// Decodes a file header record.
pub fn parse_file_header<'a>(line: &'a str) -> (r: Result<FileHeader<'a>, AchError>)
    ensures
        fault_of(r) == record_fault(line@, '1'),
        r is Ok ==> r->Ok_0.reads(line@),
{
    check_record(line, '1')?;
    Ok(FileHeader {
        record_type: line.substring_char(0, 1),
        priority_code: line.substring_char(1, 3),
        immediate_destination: line.substring_char(3, 13),
        immediate_origin: line.substring_char(13, 23),
        file_creation_date: line.substring_char(23, 29),
        file_creation_time: line.substring_char(29, 33),
        file_id_modifier: line.substring_char(33, 34),
        record_size: line.substring_char(34, 37),
        blocking_factor: line.substring_char(37, 39),
        format_code: line.substring_char(39, 40),
        immediate_destination_name: line.substring_char(40, 63),
        immediate_origin_name: line.substring_char(63, 86),
        reference_code: line.substring_char(86, 94),
    })
}

/// Decodes a batch header record.
pub fn parse_batch_header<'a>(line: &'a str) -> (r: Result<BatchHeader<'a>, AchError>)
    ensures
        fault_of(r) == record_fault(line@, '5'),
        r is Ok ==> r->Ok_0.reads(line@),
{
    check_record(line, '5')?;
    Ok(BatchHeader {
        record_type: line.substring_char(0, 1),
        service_class_code: line.substring_char(1, 4),
        company_name: line.substring_char(4, 20),
        company_discretionary_data: line.substring_char(20, 40),
        company_identification: line.substring_char(40, 50),
        standard_entry_class_code: line.substring_char(50, 53),
        company_entry_description: line.substring_char(53, 63),
        company_descriptive_date: line.substring_char(63, 69),
        effective_entry_date: line.substring_char(69, 75),
        settlement_date: line.substring_char(75, 78),
        originator_status_code: line.substring_char(78, 79),
        originating_dfi_identification: line.substring_char(79, 87),
        batch_number: line.substring_char(87, 94),
    })
}

/// Decodes an entry detail record; its addenda list starts empty.
pub fn parse_entry_detail<'a>(line: &'a str) -> (r: Result<EntryDetail<'a>, AchError>)
    ensures
        fault_of(r) == entry_fault(line@),
        r is Ok ==> r->Ok_0.reads(line@) && r->Ok_0.addenda@.len() == 0,
{
    check_record(line, '6')?;
    let amount = number_field(line, 29, 39, "amount")?;
    Ok(EntryDetail {
        record_type: line.substring_char(0, 1),
        transaction_code: line.substring_char(1, 3),
        receiving_dfi_identification: line.substring_char(3, 11),
        check_digit: line.substring_char(11, 12),
        dfi_account_number: line.substring_char(12, 29),
        amount,
        individual_identification_number: line.substring_char(39, 54),
        individual_name: line.substring_char(54, 76),
        discretionary_data: line.substring_char(76, 78),
        addenda_record_indicator: line.substring_char(78, 79),
        trace_number: line.substring_char(79, 94),
        addenda: Vec::new(),
    })
}

/// Decodes an addenda record.
pub fn parse_addenda<'a>(line: &'a str) -> (r: Result<Addenda<'a>, AchError>)
    ensures
        fault_of(r) == record_fault(line@, '7'),
        r is Ok ==> r->Ok_0.reads(line@),
{
    check_record(line, '7')?;
    Ok(Addenda {
        record_type: line.substring_char(0, 1),
        addenda_type_code: line.substring_char(1, 3),
        payment_related_information: line.substring_char(3, 83),
        addenda_sequence_number: line.substring_char(83, 87),
        entry_detail_sequence_number: line.substring_char(87, 94),
    })
}

/// Decodes a batch control record.
pub fn parse_batch_control(line: &str) -> (r: Result<BatchControl, AchError>)
    ensures
        fault_of(r) == batch_control_fault(line@),
        r is Ok ==> r->Ok_0.reads(line@),
{
    check_record(line, '8')?;
    let entry_addenda_count = number_field(line, 4, 10, "entry_addenda_count")?;
    let entry_hash = number_field(line, 10, 20, "entry_hash")?;
    let total_debit_amount = number_field(line, 20, 32, "total_debit_amount")?;
    let total_credit_amount = number_field(line, 32, 44, "total_credit_amount")?;
    Ok(BatchControl {
        record_type: text_field(line, 0, 1),
        service_class_code: text_field(line, 1, 4),
        entry_addenda_count,
        entry_hash,
        total_debit_amount,
        total_credit_amount,
        company_identification: text_field(line, 44, 54),
        message_authentication_code: text_field(line, 54, 73),
        reserved: text_field(line, 73, 79),
        originating_dfi_identification: text_field(line, 79, 87),
        batch_number: text_field(line, 87, 94),
    })
}

/// Decodes a file control record.
pub fn parse_file_control(line: &str) -> (r: Result<FileControl, AchError>)
    ensures
        fault_of(r) == file_control_fault(line@),
        r is Ok ==> r->Ok_0.reads(line@),
{
    check_record(line, '9')?;
    let batch_count = number_field(line, 1, 7, "batch_count")?;
    let block_count = number_field(line, 7, 13, "block_count")?;
    let entry_addenda_count = number_field(line, 13, 21, "entry_addenda_count")?;
    let entry_hash = number_field(line, 21, 31, "entry_hash")?;
    let total_debit_amount = number_field(line, 31, 43, "total_debit_amount")?;
    let total_credit_amount = number_field(line, 43, 55, "total_credit_amount")?;
    Ok(FileControl {
        record_type: text_field(line, 0, 1),
        batch_count,
        block_count,
        entry_addenda_count,
        entry_hash,
        total_debit_amount,
        total_credit_amount,
        reserved: text_field(line, 55, 94),
    })
}

} // verus!
