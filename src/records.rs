//! The six record kinds of an ACH file. Every record is one 94-character
//! line; header, entry and addenda records borrow their text fields from the
//! input, control records own copies of theirs.
use vstd::prelude::*;

use crate::text::{trimmed, u64_value};

verus! {

/// Width of every record line.
pub const RECORD_LEN: usize = 94;

/// The value of the numeric field `[a, b)` of `line`, read after trimming.
pub open spec fn number_at(line: Seq<char>, a: int, b: int) -> nat {
    u64_value(trimmed(line.subrange(a, b)))
}

/// File Header Record (type `1`).
#[derive(Debug, Clone)]
pub struct FileHeader<'a> {
    /// Record type code, always `1`.
    pub record_type: &'a str,
    /// Priority code.
    pub priority_code: &'a str,
    /// Immediate destination: routing number with a leading space.
    pub immediate_destination: &'a str,
    /// Immediate origin: company id with a leading space.
    pub immediate_origin: &'a str,
    /// File creation date, YYMMDD.
    pub file_creation_date: &'a str,
    /// File creation time, HHMM.
    pub file_creation_time: &'a str,
    /// File id modifier.
    pub file_id_modifier: &'a str,
    /// Record size, `094`.
    pub record_size: &'a str,
    /// Blocking factor, `10`.
    pub blocking_factor: &'a str,
    /// Format code, `1`.
    pub format_code: &'a str,
    /// Name of the immediate destination.
    pub immediate_destination_name: &'a str,
    /// Name of the immediate origin.
    pub immediate_origin_name: &'a str,
    /// Reference code.
    pub reference_code: &'a str,
}

impl<'a> FileHeader<'a> {
    /// Every field is its slice of `line`.
    pub open spec fn reads(&self, line: Seq<char>) -> bool {
        &&& self.record_type@ == line.subrange(0, 1)
        &&& self.priority_code@ == line.subrange(1, 3)
        &&& self.immediate_destination@ == line.subrange(3, 13)
        &&& self.immediate_origin@ == line.subrange(13, 23)
        &&& self.file_creation_date@ == line.subrange(23, 29)
        &&& self.file_creation_time@ == line.subrange(29, 33)
        &&& self.file_id_modifier@ == line.subrange(33, 34)
        &&& self.record_size@ == line.subrange(34, 37)
        &&& self.blocking_factor@ == line.subrange(37, 39)
        &&& self.format_code@ == line.subrange(39, 40)
        &&& self.immediate_destination_name@ == line.subrange(40, 63)
        &&& self.immediate_origin_name@ == line.subrange(63, 86)
        &&& self.reference_code@ == line.subrange(86, 94)
    }
}

/// Batch Header Record (type `5`).
#[derive(Debug, Clone)]
pub struct BatchHeader<'a> {
    /// Record type code, always `5`.
    pub record_type: &'a str,
    /// Service class code: `200` mixed, `220` credits only, `225` debits only.
    pub service_class_code: &'a str,
    /// Company name.
    pub company_name: &'a str,
    /// Company discretionary data.
    pub company_discretionary_data: &'a str,
    /// Company identification.
    pub company_identification: &'a str,
    /// Standard entry class code (PPD, CCD, WEB, ...).
    pub standard_entry_class_code: &'a str,
    /// Company entry description.
    pub company_entry_description: &'a str,
    /// Company descriptive date.
    pub company_descriptive_date: &'a str,
    /// Effective entry date, YYMMDD.
    pub effective_entry_date: &'a str,
    /// Settlement date (Julian).
    pub settlement_date: &'a str,
    /// Originator status code.
    pub originator_status_code: &'a str,
    /// Originating DFI identification: first eight digits of the routing number.
    pub originating_dfi_identification: &'a str,
    /// Batch number.
    pub batch_number: &'a str,
}

impl<'a> BatchHeader<'a> {
    /// Every field is its slice of `line`.
    pub open spec fn reads(&self, line: Seq<char>) -> bool {
        &&& self.record_type@ == line.subrange(0, 1)
        &&& self.service_class_code@ == line.subrange(1, 4)
        &&& self.company_name@ == line.subrange(4, 20)
        &&& self.company_discretionary_data@ == line.subrange(20, 40)
        &&& self.company_identification@ == line.subrange(40, 50)
        &&& self.standard_entry_class_code@ == line.subrange(50, 53)
        &&& self.company_entry_description@ == line.subrange(53, 63)
        &&& self.company_descriptive_date@ == line.subrange(63, 69)
        &&& self.effective_entry_date@ == line.subrange(69, 75)
        &&& self.settlement_date@ == line.subrange(75, 78)
        &&& self.originator_status_code@ == line.subrange(78, 79)
        &&& self.originating_dfi_identification@ == line.subrange(79, 87)
        &&& self.batch_number@ == line.subrange(87, 94)
    }
}

/// Entry Detail Record (type `6`), with the addenda that follow it.
#[derive(Debug, Clone)]
pub struct EntryDetail<'a> {
    /// Record type code, always `6`.
    pub record_type: &'a str,
    /// Transaction code (credit, debit or prenote variants).
    pub transaction_code: &'a str,
    /// Receiving DFI identification: first eight digits of the routing number.
    pub receiving_dfi_identification: &'a str,
    /// Check digit: ninth digit of the routing number.
    pub check_digit: &'a str,
    /// DFI account number.
    pub dfi_account_number: &'a str,
    /// Amount in cents.
    pub amount: u64,
    /// Individual identification number.
    pub individual_identification_number: &'a str,
    /// Individual name.
    pub individual_name: &'a str,
    /// Discretionary data.
    pub discretionary_data: &'a str,
    /// Addenda record indicator.
    pub addenda_record_indicator: &'a str,
    /// Trace number.
    pub trace_number: &'a str,
    /// The addenda records of this entry, in file order.
    pub addenda: Vec<Addenda<'a>>,
}

impl<'a> EntryDetail<'a> {
    /// Every field but the addenda is read from `line`: text fields are
    /// slices, the amount is the number its field holds.
    pub open spec fn reads(&self, line: Seq<char>) -> bool {
        &&& self.record_type@ == line.subrange(0, 1)
        &&& self.transaction_code@ == line.subrange(1, 3)
        &&& self.receiving_dfi_identification@ == line.subrange(3, 11)
        &&& self.check_digit@ == line.subrange(11, 12)
        &&& self.dfi_account_number@ == line.subrange(12, 29)
        &&& self.amount == number_at(line, 29, 39)
        &&& self.individual_identification_number@ == line.subrange(39, 54)
        &&& self.individual_name@ == line.subrange(54, 76)
        &&& self.discretionary_data@ == line.subrange(76, 78)
        &&& self.addenda_record_indicator@ == line.subrange(78, 79)
        &&& self.trace_number@ == line.subrange(79, 94)
    }
}

/// Addenda Record (type `7`).
#[derive(Debug, Clone)]
pub struct Addenda<'a> {
    /// Record type code, always `7`.
    pub record_type: &'a str,
    /// Addenda type code.
    pub addenda_type_code: &'a str,
    /// Payment related information.
    pub payment_related_information: &'a str,
    /// Addenda sequence number.
    pub addenda_sequence_number: &'a str,
    /// Entry detail sequence number.
    pub entry_detail_sequence_number: &'a str,
}

impl<'a> Addenda<'a> {
    /// Every field is its slice of `line`.
    pub open spec fn reads(&self, line: Seq<char>) -> bool {
        &&& self.record_type@ == line.subrange(0, 1)
        &&& self.addenda_type_code@ == line.subrange(1, 3)
        &&& self.payment_related_information@ == line.subrange(3, 83)
        &&& self.addenda_sequence_number@ == line.subrange(83, 87)
        &&& self.entry_detail_sequence_number@ == line.subrange(87, 94)
    }
}

/// Batch Control Record (type `8`).
#[derive(Debug, Clone)]
pub struct BatchControl {
    /// Record type code, always `8`.
    pub record_type: String,
    /// Service class code, as in the batch header.
    pub service_class_code: String,
    /// Count of entry and addenda records.
    pub entry_addenda_count: u64,
    /// Entry hash: sum of the receiving DFI identifications.
    pub entry_hash: u64,
    /// Total debit amount in cents.
    pub total_debit_amount: u64,
    /// Total credit amount in cents.
    pub total_credit_amount: u64,
    /// Company identification, as in the batch header.
    pub company_identification: String,
    /// Message authentication code.
    pub message_authentication_code: String,
    /// Reserved.
    pub reserved: String,
    /// Originating DFI identification.
    pub originating_dfi_identification: String,
    /// Batch number, as in the batch header.
    pub batch_number: String,
}

impl BatchControl {
    /// Every field is read from `line`: text fields are copies of their
    /// slices, numeric fields the numbers they hold.
    pub open spec fn reads(&self, line: Seq<char>) -> bool {
        &&& self.record_type@ == line.subrange(0, 1)
        &&& self.service_class_code@ == line.subrange(1, 4)
        &&& self.entry_addenda_count == number_at(line, 4, 10)
        &&& self.entry_hash == number_at(line, 10, 20)
        &&& self.total_debit_amount == number_at(line, 20, 32)
        &&& self.total_credit_amount == number_at(line, 32, 44)
        &&& self.company_identification@ == line.subrange(44, 54)
        &&& self.message_authentication_code@ == line.subrange(54, 73)
        &&& self.reserved@ == line.subrange(73, 79)
        &&& self.originating_dfi_identification@ == line.subrange(79, 87)
        &&& self.batch_number@ == line.subrange(87, 94)
    }
}

/// File Control Record (type `9`).
#[derive(Debug, Clone)]
pub struct FileControl {
    /// Record type code, always `9`.
    pub record_type: String,
    /// Number of batches.
    pub batch_count: u64,
    /// Number of blocks.
    pub block_count: u64,
    /// Count of entry and addenda records.
    pub entry_addenda_count: u64,
    /// Entry hash: sum of the batches' entry hashes.
    pub entry_hash: u64,
    /// Total debit amount in cents.
    pub total_debit_amount: u64,
    /// Total credit amount in cents.
    pub total_credit_amount: u64,
    /// Reserved.
    pub reserved: String,
}

impl FileControl {
    /// Every field is read from `line`: text fields are copies of their
    /// slices, numeric fields the numbers they hold.
    pub open spec fn reads(&self, line: Seq<char>) -> bool {
        &&& self.record_type@ == line.subrange(0, 1)
        &&& self.batch_count == number_at(line, 1, 7)
        &&& self.block_count == number_at(line, 7, 13)
        &&& self.entry_addenda_count == number_at(line, 13, 21)
        &&& self.entry_hash == number_at(line, 21, 31)
        &&& self.total_debit_amount == number_at(line, 31, 43)
        &&& self.total_credit_amount == number_at(line, 43, 55)
        &&& self.reserved@ == line.subrange(55, 94)
    }
}

} // verus!
