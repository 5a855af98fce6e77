//! Decoder for fixed-width ACH payment files: six record kinds, each line
//! exactly 94 characters, nested as file, batches, entries and addenda.
use vstd::prelude::*;

pub mod decode;
pub mod error;
pub mod laws;
pub mod parser;
pub mod records;
pub mod text;

pub use error::AchError;
pub use records::{Addenda, BatchControl, BatchHeader, EntryDetail, FileControl, FileHeader};

use parser::{fault_of_lines, parsed_lines, BatchLines, EntryLines, FileLines};

verus! {

/// A complete ACH file: its header, its batches and its control record.
#[derive(Debug, Clone)]
pub struct AchFile<'a> {
    /// File header record (type `1`).
    pub file_header: FileHeader<'a>,
    /// The batches, in file order.
    pub batches: Vec<Batch<'a>>,
    /// File control record (type `9`).
    pub file_control: FileControl,
}

/// One batch of an ACH file.
#[derive(Debug, Clone)]
pub struct Batch<'a> {
    /// Batch header record (type `5`).
    pub header: BatchHeader<'a>,
    /// The entries, in file order, each with its addenda.
    pub entries: Vec<EntryDetail<'a>>,
    /// Batch control record (type `8`).
    pub control: BatchControl,
}

/// `e` is the entry decoded from `el.line`, with one addenda decoded from
/// each of `el.addenda`, in order.
pub open spec fn entry_reads(e: EntryDetail, el: EntryLines) -> bool {
    &&& e.reads(el.line)
    &&& e.addenda@.len() == el.addenda.len()
    &&& forall|k: int| 0 <= k < el.addenda.len() ==> (#[trigger] e.addenda@[k]).reads(el.addenda[k])
}

/// `entries` are decoded, one by one, from `els`.
pub open spec fn entries_read(entries: Seq<EntryDetail>, els: Seq<EntryLines>) -> bool {
    &&& entries.len() == els.len()
    &&& forall|k: int| 0 <= k < els.len() ==> entry_reads(#[trigger] entries[k], els[k])
}

impl<'a> Batch<'a> {
    /// Every record of the batch is decoded from its line in `bl`.
    pub open spec fn reads(&self, bl: BatchLines) -> bool {
        &&& self.header.reads(bl.header)
        &&& entries_read(self.entries@, bl.entries)
        &&& self.control.reads(bl.control)
    }
}

impl<'a> AchFile<'a> {
    /// Every record of the file is decoded from its line in `fl`.
    pub open spec fn reads(&self, fl: FileLines) -> bool {
        &&& self.file_header.reads(fl.header)
        &&& self.batches@.len() == fl.batches.len()
        &&& forall|k: int| 0 <= k < fl.batches.len() ==> (#[trigger] self.batches@[k]).reads(fl.batches[k])
        &&& self.file_control.reads(fl.control)
    }

    /// Parses the text of an ACH file.
    pub fn parse(content: &'a str) -> (r: Result<Self, AchError>)
        ensures
            r is Ok <==> fault_of_lines(content@) is None,
            r is Err ==> fault_of_lines(content@) == Some(r->Err_0@),
            r is Ok ==> r->Ok_0.reads(parsed_lines(content@)),
    {
        parser::parse_ach_file(content)
    }
}

} // verus!
