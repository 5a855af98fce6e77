//! Assembly of decoded records into a file: a state machine over the
//! non-filler lines, driven by each line's type code.
use vstd::prelude::*;

use crate::decode::{
    batch_control_fault, entry_fault, file_control_fault, get_record_type, parse_addenda,
    parse_batch_control, parse_batch_header, parse_entry_detail, parse_file_control,
    parse_file_header, record_fault,
};
use crate::error::{AchError, Fault};
use crate::records::{BatchHeader, EntryDetail, FileControl, FileHeader};
use crate::text::{decimal, decimal_text, is_padding_line, lines_of, non_padding, split_lines, views};
use crate::{entries_read, AchFile, Batch};

verus! {

broadcast use vstd::string::group_string_axioms;

/// The lines an entry was read from: its own and those of its addenda.
pub struct EntryLines {
    pub line: Seq<char>,
    pub addenda: Seq<Seq<char>>,
}

/// The lines a batch was read from.
pub struct BatchLines {
    pub header: Seq<char>,
    pub entries: Seq<EntryLines>,
    pub control: Seq<char>,
}

/// The lines a whole file was read from.
pub struct FileLines {
    pub header: Seq<char>,
    pub batches: Seq<BatchLines>,
    pub control: Seq<char>,
}

/// Where the assembler stands: which type codes the next line may carry.
#[derive(PartialEq, Eq, Structural, Clone, Copy, Debug)]
pub enum Stage {
    /// Nothing read yet: a file header must come.
    ExpectFileHeader,
    /// Between batches: a batch header or the file control.
    ExpectBatchOrFileControl,
    /// In a batch, before its first entry: an entry or the batch control.
    ExpectEntryOrBatchControl,
    /// In a batch, after an entry: an addenda of it, another entry or the batch control.
    ExpectAddendaOrNext,
    /// The file control has been read.
    Done,
}

/// What the assembler has read so far. `batch_header` and `entries` are
/// the open batch's (in `ExpectAddendaOrNext` the last entry is open);
/// `control` is read in `Done`.
pub struct Progress {
    pub stage: Stage,
    pub header: Seq<char>,
    pub batches: Seq<BatchLines>,
    pub batch_header: Seq<char>,
    pub entries: Seq<EntryLines>,
    pub control: Seq<char>,
}

/// Nothing read.
pub open spec fn initial() -> Progress {
    Progress {
        stage: Stage::ExpectFileHeader,
        header: seq![],
        batches: seq![],
        batch_header: seq![],
        entries: seq![],
        control: seq![],
    }
}

/// The message for type code `code` where it does not belong: `place` says
/// where that was, `i` is the line's index among the non-filler lines.
pub open spec fn unexpected_at(code: Seq<char>, place: Seq<char>, i: int) -> Seq<char> {
    "Unexpected record type '"@ + code + "'"@ + place + " at line "@ + decimal(i as nat)
}

/// The message for a batch cut off by the record at line `i`.
pub open spec fn cut_off_at(i: int) -> Seq<char> {
    "Missing batch control record before line "@ + decimal(i as nat)
}

/// `entries` with `line` added to the addenda of the last one.
pub open spec fn with_addenda(entries: Seq<EntryLines>, line: Seq<char>) -> Seq<EntryLines> {
    let last = entries.last();
    entries.update(
        entries.len() - 1,
        EntryLines { line: last.line, addenda: last.addenda.push(line) },
    )
}

/// One transition: line `i`, `line`, read in `p`.
pub open spec fn step(p: Progress, i: int, line: Seq<char>) -> Result<Progress, Fault> {
    let code = line.subrange(0, 1);
    if p.stage == Stage::ExpectFileHeader {
        match record_fault(line, '1') {
            Some(f) => Err(f),
            None => Ok(Progress { stage: Stage::ExpectBatchOrFileControl, header: line, ..p }),
        }
    } else if line.len() == 0 {
        Err(Fault::LineLength(0))
    } else if p.stage == Stage::ExpectBatchOrFileControl {
        if line[0] == '5' {
            match record_fault(line, '5') {
                Some(f) => Err(f),
                None => Ok(
                    Progress {
                        stage: Stage::ExpectEntryOrBatchControl,
                        batch_header: line,
                        entries: seq![],
                        ..p
                    },
                ),
            }
        } else if line[0] == '9' {
            match file_control_fault(line) {
                Some(f) => Err(f),
                None => Ok(Progress { stage: Stage::Done, control: line, ..p }),
            }
        } else {
            Err(Fault::Structure(unexpected_at(code, ""@, i)))
        }
    } else if p.stage == Stage::Done {
        Err(Fault::Structure(unexpected_at(code, " after file control"@, i)))
    } else {
        if line[0] == '7' && p.stage == Stage::ExpectAddendaOrNext {
            match record_fault(line, '7') {
                Some(f) => Err(f),
                None => Ok(Progress { entries: with_addenda(p.entries, line), ..p }),
            }
        } else if line[0] == '6' {
            match entry_fault(line) {
                Some(f) => Err(f),
                None => Ok(
                    Progress {
                        stage: Stage::ExpectAddendaOrNext,
                        entries: p.entries.push(EntryLines { line, addenda: seq![] }),
                        ..p
                    },
                ),
            }
        } else if line[0] == '8' {
            match batch_control_fault(line) {
                Some(f) => Err(f),
                None => Ok(
                    Progress {
                        stage: Stage::ExpectBatchOrFileControl,
                        batches: p.batches.push(
                            BatchLines { header: p.batch_header, entries: p.entries, control: line },
                        ),
                        ..p
                    },
                ),
            }
        } else if line[0] == '5' || line[0] == '9' {
            Err(Fault::Incomplete(cut_off_at(i)))
        } else {
            Err(Fault::Structure(unexpected_at(code, " in batch"@, i)))
        }
    }
}

/// The state after reading all of `lines`, or the first fault.
pub open spec fn run(lines: Seq<Seq<char>>) -> Result<Progress, Fault>
    decreases lines.len(),
{
    if lines.len() == 0 {
        Ok(initial())
    } else {
        match run(lines.drop_last()) {
            Ok(p) => step(p, lines.len() - 1, lines.last()),
            Err(f) => Err(f),
        }
    }
}

/// What the end of input makes of the state `p`.
pub open spec fn finish(p: Progress) -> Result<FileLines, Fault> {
    match p.stage {
        Stage::Done => Ok(FileLines { header: p.header, batches: p.batches, control: p.control }),
        Stage::ExpectBatchOrFileControl => Err(Fault::Structure("Missing file control record"@)),
        Stage::ExpectFileHeader => Err(Fault::Empty),
        _ => Err(Fault::Incomplete("Missing batch control record"@)),
    }
}

/// The file that the non-filler lines `lines` make up, or the first fault.
pub open spec fn assemble(lines: Seq<Seq<char>>) -> Result<FileLines, Fault> {
    match run(lines) {
        Ok(p) => finish(p),
        Err(f) => Err(f),
    }
}

/// The lines of `content` that the assembler reads.
pub open spec fn record_lines(content: Seq<char>) -> Seq<Seq<char>> {
    non_padding(lines_of(content))
}

/// The fault that parsing `content` ends in, if any.
pub open spec fn fault_of_lines(content: Seq<char>) -> Option<Fault> {
    match assemble(record_lines(content)) {
        Ok(_) => None,
        Err(f) => Some(f),
    }
}

/// The lines of each record that parsing `content` yields, when it succeeds.
pub open spec fn parsed_lines(content: Seq<char>) -> FileLines {
    assemble(record_lines(content))->Ok_0
}

/// Once a prefix of the lines fails, reading the rest keeps that fault.
pub proof fn lemma_run_fault_sticks(lines: Seq<Seq<char>>, n: int)
    requires
        0 <= n <= lines.len(),
        run(lines.take(n)) is Err,
    ensures
        run(lines) == run(lines.take(n)),
    decreases lines.len() - n,
{
    if n < lines.len() {
        assert(lines.take(n + 1).drop_last() =~= lines.take(n));
        lemma_run_fault_sticks(lines, n + 1);
    } else {
        assert(lines.take(n) =~= lines);
    }
}

/// The message for type code `code` where it does not belong.
fn unexpected_message(code: &str, place: &str, i: usize) -> (r: String)
    ensures
        r@ == unexpected_at(code@, place@, i as int),
{
    let r = String::from_str("Unexpected record type '");
    let r = r.concat(code);
    let r = r.concat("'");
    let r = r.concat(place);
    let r = r.concat(" at line ");
    let d = decimal_text(i);
    r.concat(d.as_str())
}

/// The assembler's state: the records read so far and, beside them, the
/// lines they were read from.
struct Assembly<'a> {
    stage: Stage,
    header: Option<FileHeader<'a>>,
    batches: Vec<Batch<'a>>,
    batch_header: Option<BatchHeader<'a>>,
    entries: Vec<EntryDetail<'a>>,
    control: Option<FileControl>,
    progress: Ghost<Progress>,
}

impl<'a> Assembly<'a> {
    /// The records are those decoded from the lines of `progress`.
    spec fn inv(&self) -> bool {
        let p = self.progress@;
        &&& self.stage == p.stage
        &&& p.stage != Stage::ExpectFileHeader ==> (self.header matches Some(h) && h.reads(p.header))
        &&& self.batches@.len() == p.batches.len()
        &&& forall|k: int|
            0 <= k < p.batches.len() ==> (#[trigger] self.batches@[k]).reads(p.batches[k])
        &&& (p.stage == Stage::ExpectEntryOrBatchControl || p.stage == Stage::ExpectAddendaOrNext)
            ==> {
            &&& (self.batch_header matches Some(b) && b.reads(p.batch_header))
            &&& entries_read(self.entries@, p.entries)
        }
        &&& p.stage == Stage::ExpectAddendaOrNext ==> p.entries.len() > 0
        &&& p.stage == Stage::Done ==> (self.control matches Some(c) && c.reads(p.control))
    }

    fn new() -> (r: Self)
        ensures
            r.inv(),
            r.progress@ == initial(),
    {
        Assembly {
            stage: Stage::ExpectFileHeader,
            header: None,
            batches: Vec::new(),
            batch_header: None,
            entries: Vec::new(),
            control: None,
            progress: Ghost(initial()),
        }
    }

    /// Reads line `i`, `line`: the step of the state machine, on the records.
    fn advance(&mut self, i: usize, line: &'a str) -> (r: Result<(), AchError>)
        requires
            old(self).inv(),
        ensures
            r is Ok <==> step(old(self).progress@, i as int, line@) is Ok,
            r is Ok ==> final(self).inv() && final(self).progress@ == step(
                old(self).progress@,
                i as int,
                line@,
            )->Ok_0,
            r is Err ==> step(old(self).progress@, i as int, line@) == Err::<Progress, Fault>(
                r->Err_0@,
            ),
    {
        let ghost p = self.progress@;
        if self.stage == Stage::ExpectFileHeader {
            let h = parse_file_header(line)?;
            self.header = Some(h);
            self.stage = Stage::ExpectBatchOrFileControl;
            self.progress = Ghost(Progress { stage: Stage::ExpectBatchOrFileControl, header: line@, ..p });
            return Ok(());
        }
        let code = get_record_type(line)?;
        let c = line.get_char(0);
        if self.stage == Stage::ExpectBatchOrFileControl {
            if c == '5' {
                let b = parse_batch_header(line)?;
                self.batch_header = Some(b);
                self.entries = Vec::new();
                self.stage = Stage::ExpectEntryOrBatchControl;
                self.progress = Ghost(
                    Progress {
                        stage: Stage::ExpectEntryOrBatchControl,
                        batch_header: line@,
                        entries: seq![],
                        ..p
                    },
                );
                Ok(())
            } else if c == '9' {
                let fc = parse_file_control(line)?;
                self.control = Some(fc);
                self.stage = Stage::Done;
                self.progress = Ghost(Progress { stage: Stage::Done, control: line@, ..p });
                Ok(())
            } else {
                Err(AchError::InvalidStructure(unexpected_message(code, "", i)))
            }
        } else if self.stage == Stage::Done {
            Err(AchError::InvalidStructure(unexpected_message(code, " after file control", i)))
        } else if c == '7' && self.stage == Stage::ExpectAddendaOrNext {
            let a = parse_addenda(line)?;
            let k = self.entries.len() - 1;
            self.entries[k].addenda.push(a);
            self.progress = Ghost(Progress { entries: with_addenda(p.entries, line@), ..p });
            assert(entries_read(self.entries@, self.progress@.entries)) by {
                assert forall|j: int| 0 <= j < p.entries.len() implies crate::entry_reads(
                    #[trigger] self.entries@[j],
                    self.progress@.entries[j],
                ) by {
                    if j == k {
                        let e = self.entries@[j];
                        let el = self.progress@.entries[j];
                        assert forall|m: int| 0 <= m < el.addenda.len() implies (
                        #[trigger] e.addenda@[m]).reads(el.addenda[m]) by {}
                    }
                }
            }
            Ok(())
        } else if c == '6' {
            let e = parse_entry_detail(line)?;
            self.entries.push(e);
            let ghost el = EntryLines { line: line@, addenda: seq![] };
            self.stage = Stage::ExpectAddendaOrNext;
            self.progress = Ghost(
                Progress { stage: Stage::ExpectAddendaOrNext, entries: p.entries.push(el), ..p },
            );
            assert(entries_read(self.entries@, self.progress@.entries)) by {
                assert(crate::entry_reads(self.entries@.last(), el));
            }
            Ok(())
        } else if c == '8' {
            let control = parse_batch_control(line)?;
            let header = self.batch_header.take().unwrap();
            let mut entries = Vec::new();
            core::mem::swap(&mut entries, &mut self.entries);
            self.batches.push(Batch { header, entries, control });
            self.stage = Stage::ExpectBatchOrFileControl;
            let ghost bl = BatchLines { header: p.batch_header, entries: p.entries, control: line@ };
            self.progress = Ghost(
                Progress { stage: Stage::ExpectBatchOrFileControl, batches: p.batches.push(bl), ..p },
            );
            assert(self.batches@.last().reads(bl));
            Ok(())
        } else if c == '5' || c == '9' {
            let m = String::from_str("Missing batch control record before line ");
            let d = decimal_text(i);
            Err(AchError::IncompleteBatch(m.concat(d.as_str())))
        } else {
            Err(AchError::InvalidStructure(unexpected_message(code, " in batch", i)))
        }
    }
}

/// Parses the text of an ACH file: splits it into lines, drops filler
/// lines, then reads the rest in order.
pub fn parse_ach_file<'a>(content: &'a str) -> (r: Result<AchFile<'a>, AchError>)
    ensures
        r is Ok <==> fault_of_lines(content@) is None,
        r is Err ==> fault_of_lines(content@) == Some(r->Err_0@),
        r is Ok ==> r->Ok_0.reads(parsed_lines(content@)),
{
    let all = split_lines(content);
    let mut lines: Vec<&'a str> = Vec::new();
    let mut j: usize = 0;
    while j < all.len()
        invariant
            j <= all@.len(),
            views(lines@) == non_padding(views(all@).take(j as int)),
        decreases all@.len() - j,
    {
        let l = all[j];
        assert(views(all@).take(j + 1).drop_last() =~= views(all@).take(j as int));
        if !is_padding_line(l) {
            lines.push(l);
            assert(views(lines@) =~= views(lines@).drop_last().push(l@));
        }
        j = j + 1;
    }
    assert(views(all@).take(all@.len() as int) =~= views(all@));
    let ghost recs = views(lines@);
    if lines.len() == 0 {
        return Err(AchError::EmptyFile);
    }
    let mut st = Assembly::new();
    let mut i: usize = 0;
    assert(recs.take(0) =~= seq![]);
    while i < lines.len()
        invariant
            recs == views(lines@),
            recs == record_lines(content@),
            i <= lines@.len(),
            st.inv(),
            run(recs.take(i as int)) == Ok::<Progress, Fault>(st.progress@),
        decreases lines@.len() - i,
    {
        let line = lines[i];
        assert(recs.take(i + 1).drop_last() =~= recs.take(i as int));
        assert(recs.take(i + 1).last() == line@);
        match st.advance(i, line) {
            Ok(()) => {},
            Err(e) => {
                proof {
                    lemma_run_fault_sticks(recs, i + 1);
                }
                return Err(e);
            },
        }
        i = i + 1;
    }
    assert(recs.take(i as int) =~= recs);
    match st.stage {
        Stage::Done => {
            let file_header = st.header.unwrap();
            let file_control = st.control.unwrap();
            Ok(AchFile { file_header, batches: st.batches, file_control })
        },
        Stage::ExpectBatchOrFileControl => Err(
            AchError::InvalidStructure(String::from_str("Missing file control record")),
        ),
        Stage::ExpectFileHeader => Err(AchError::EmptyFile),
        _ => Err(AchError::IncompleteBatch(String::from_str("Missing batch control record"))),
    }
}

} // verus!
