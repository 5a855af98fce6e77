//! Properties of decoding and assembly, stated over the specification
//! functions that the parser's contracts use.
use vstd::prelude::*;

use crate::decode::{batch_control_fault, entry_fault, file_control_fault, record_fault};
use crate::error::Fault;
use crate::parser::{
    assemble, lemma_run_fault_sticks, record_lines, run, step, EntryLines, Progress, Stage,
};
use crate::records::{Addenda, BatchHeader, FileHeader, RECORD_LEN};
use crate::text::{is_padding, non_padding};

verus! {

/// The type codes that may start the next line in `stage`.
pub open spec fn expected(stage: Stage, c: char) -> bool {
    match stage {
        Stage::ExpectFileHeader => c == '1',
        Stage::ExpectBatchOrFileControl => c == '5' || c == '9',
        Stage::ExpectEntryOrBatchControl => c == '6' || c == '8',
        Stage::ExpectAddendaOrNext => c == '6' || c == '7' || c == '8',
        Stage::Done => false,
    }
}

/// A line that is not exactly one record wide is refused by the decoder of
/// every record kind, with its actual length.
pub proof fn wrong_length_is_refused(line: Seq<char>, code: char)
    requires
        line.len() != RECORD_LEN,
    ensures
        record_fault(line, code) == Some(Fault::LineLength(line.len() as int)),
        entry_fault(line) == Some(Fault::LineLength(line.len() as int)),
        batch_control_fault(line) == Some(Fault::LineLength(line.len() as int)),
        file_control_fault(line) == Some(Fault::LineLength(line.len() as int)),
{
}

/// When the first record line of a file is not one record wide, parsing
/// fails with that line's length.
pub proof fn wrong_length_first_line_is_refused(lines: Seq<Seq<char>>)
    requires
        lines.len() > 0,
        lines[0].len() != RECORD_LEN,
    ensures
        assemble(lines) == Err::<crate::parser::FileLines, Fault>(
            Fault::LineLength(lines[0].len() as int),
        ),
{
    assert(lines.take(1).drop_last() =~= seq![]);
    assert(lines.take(1).last() == lines[0]);
    assert(run(lines.take(1).drop_last()) == Ok::<Progress, Fault>(crate::parser::initial()));
    assert(run(lines.take(1)) == step(crate::parser::initial(), 0, lines[0]));
    lemma_run_fault_sticks(lines, 1);
}

/// A file header holds its whole line: its fields, in order, cover the 94
/// positions with no gap or overlap.
pub proof fn header_fields_cover_line(h: FileHeader, line: Seq<char>)
    requires
        line.len() == RECORD_LEN,
        h.reads(line),
    ensures
        h.record_type@ + h.priority_code@ + h.immediate_destination@ + h.immediate_origin@
            + h.file_creation_date@ + h.file_creation_time@ + h.file_id_modifier@
            + h.record_size@ + h.blocking_factor@ + h.format_code@
            + h.immediate_destination_name@ + h.immediate_origin_name@ + h.reference_code@
            == line,
{
    assert(h.record_type@ + h.priority_code@ + h.immediate_destination@ + h.immediate_origin@
        + h.file_creation_date@ + h.file_creation_time@ + h.file_id_modifier@ + h.record_size@
        + h.blocking_factor@ + h.format_code@ + h.immediate_destination_name@
        + h.immediate_origin_name@ + h.reference_code@ =~= line);
}

/// The fields of a batch header cover its line, in order.
pub proof fn batch_header_fields_cover_line(h: BatchHeader, line: Seq<char>)
    requires
        line.len() == RECORD_LEN,
        h.reads(line),
    ensures
        h.record_type@ + h.service_class_code@ + h.company_name@ + h.company_discretionary_data@
            + h.company_identification@ + h.standard_entry_class_code@
            + h.company_entry_description@ + h.company_descriptive_date@
            + h.effective_entry_date@ + h.settlement_date@ + h.originator_status_code@
            + h.originating_dfi_identification@ + h.batch_number@ == line,
{
    assert(h.record_type@ + h.service_class_code@ + h.company_name@
        + h.company_discretionary_data@ + h.company_identification@
        + h.standard_entry_class_code@ + h.company_entry_description@
        + h.company_descriptive_date@ + h.effective_entry_date@ + h.settlement_date@
        + h.originator_status_code@ + h.originating_dfi_identification@ + h.batch_number@
        =~= line);
}

/// The fields of an addenda record cover its line, in order.
pub proof fn addenda_fields_cover_line(a: Addenda, line: Seq<char>)
    requires
        line.len() == RECORD_LEN,
        a.reads(line),
    ensures
        a.record_type@ + a.addenda_type_code@ + a.payment_related_information@
            + a.addenda_sequence_number@ + a.entry_detail_sequence_number@ == line,
{
    assert(a.record_type@ + a.addenda_type_code@ + a.payment_related_information@
        + a.addenda_sequence_number@ + a.entry_detail_sequence_number@ =~= line);
}

/// A line whose type code the current stage does not expect makes the
/// whole parse fail; it is never passed over.
pub proof fn unexpected_record_fails(lines: Seq<Seq<char>>, k: int)
    requires
        0 <= k < lines.len(),
        run(lines.take(k)) is Ok,
        lines[k].len() > 0,
        !expected(run(lines.take(k))->Ok_0.stage, lines[k][0]),
    ensures
        assemble(lines) is Err,
        !(assemble(lines) matches Err(Fault::Empty)),
{
    assert(lines.take(k + 1).drop_last() =~= lines.take(k));
    assert(lines.take(k + 1).last() == lines[k]);
    lemma_run_fault_sticks(lines, k + 1);
}

/// A batch that is open when the input ends, or when a batch header or the
/// file control comes, makes the parse fail as an incomplete batch.
pub proof fn unclosed_batch_is_incomplete(lines: Seq<Seq<char>>, k: int)
    requires
        0 <= k <= lines.len(),
        run(lines.take(k)) is Ok,
        run(lines.take(k))->Ok_0.stage == Stage::ExpectEntryOrBatchControl
            || run(lines.take(k))->Ok_0.stage == Stage::ExpectAddendaOrNext,
        k == lines.len() || (lines[k].len() > 0 && (lines[k][0] == '5' || lines[k][0] == '9')),
    ensures
        assemble(lines) matches Err(Fault::Incomplete(_)),
{
    if k == lines.len() {
        assert(lines.take(k) =~= lines);
    } else {
        assert(lines.take(k + 1).drop_last() =~= lines.take(k));
        assert(lines.take(k + 1).last() == lines[k]);
        lemma_run_fault_sticks(lines, k + 1);
    }
}

/// `p` with `adds` added, in order, to the addenda of its last entry.
pub open spec fn appended(p: Progress, adds: Seq<Seq<char>>) -> Progress {
    let last = p.entries.last();
    Progress {
        entries: p.entries.update(
            p.entries.len() - 1,
            EntryLines { line: last.line, addenda: last.addenda + adds },
        ),
        ..p
    }
}

/// Consecutive addenda lines after an entry all belong to that entry, in
/// the order they come, and to no other record.
pub proof fn addenda_join_preceding_entry(prefix: Seq<Seq<char>>, adds: Seq<Seq<char>>)
    requires
        run(prefix) is Ok,
        run(prefix)->Ok_0.stage == Stage::ExpectAddendaOrNext,
        run(prefix)->Ok_0.entries.len() > 0,
        forall|j: int|
            0 <= j < adds.len() ==> (#[trigger] adds[j]).len() == RECORD_LEN && adds[j][0] == '7',
    ensures
        run(prefix + adds) == Ok::<Progress, Fault>(appended(run(prefix)->Ok_0, adds)),
    decreases adds.len(),
{
    let p = run(prefix)->Ok_0;
    if adds.len() == 0 {
        assert(prefix + adds =~= prefix);
        assert(appended(p, adds).entries =~= p.entries);
    } else {
        let init = adds.drop_last();
        addenda_join_preceding_entry(prefix, init);
        assert((prefix + adds).drop_last() =~= prefix + init);
        let q = appended(p, init);
        assert(step(q, (prefix + adds).len() - 1, adds.last()) == Ok::<Progress, Fault>(
            appended(p, adds),
        )) by {
            assert(init.push(adds.last()) =~= adds);
            assert(q.entries.update(
                q.entries.len() - 1,
                EntryLines {
                    line: q.entries.last().line,
                    addenda: q.entries.last().addenda.push(adds.last()),
                },
            ) =~= appended(p, adds).entries);
        }
    }
}

proof fn lemma_non_padding_concat(a: Seq<Seq<char>>, b: Seq<Seq<char>>)
    ensures
        non_padding(a + b) == non_padding(a) + non_padding(b),
    decreases b.len(),
{
    if b.len() == 0 {
        assert(a + b =~= a);
        assert(non_padding(a) + non_padding(b) =~= non_padding(a));
    } else {
        lemma_non_padding_concat(a, b.drop_last());
        assert((a + b).drop_last() =~= a + b.drop_last());
        if !is_padding(b.last()) {
            assert(non_padding(a) + non_padding(b.drop_last()).push(b.last()) =~= (non_padding(a)
                + non_padding(b.drop_last())).push(b.last()));
        }
    }
}

/// A filler line, wherever it stands, is dropped before assembly: the lines
/// the assembler reads, and so the result, are as if it were not there.
pub proof fn filler_line_is_ignored(a: Seq<Seq<char>>, b: Seq<Seq<char>>, pad: Seq<char>)
    requires
        is_padding(pad),
    ensures
        non_padding(a + seq![pad] + b) == non_padding(a + b),
        assemble(non_padding(a + seq![pad] + b)) == assemble(non_padding(a + b)),
{
    lemma_non_padding_concat(a + seq![pad], b);
    lemma_non_padding_concat(a, seq![pad]);
    lemma_non_padding_concat(a, b);
    assert(seq![pad].drop_last() =~= Seq::<Seq<char>>::empty());
    assert(seq![pad].last() == pad);
    assert(non_padding(Seq::<Seq<char>>::empty()) =~= Seq::<Seq<char>>::empty());
    assert(non_padding(seq![pad]) =~= Seq::<Seq<char>>::empty());
    assert(non_padding(a) + non_padding(seq![pad]) =~= non_padding(a));
}

proof fn lemma_non_padding_has_no_filler(ls: Seq<Seq<char>>)
    ensures
        forall|j: int|
            0 <= j < non_padding(ls).len() ==> !is_padding(#[trigger] non_padding(ls)[j]),
    decreases ls.len(),
{
    if ls.len() > 0 {
        lemma_non_padding_has_no_filler(ls.drop_last());
        let r = non_padding(ls.drop_last());
        if !is_padding(ls.last()) {
            assert forall|j: int| 0 <= j < r.push(ls.last()).len() implies !is_padding(
                #[trigger] r.push(ls.last())[j],
            ) by {
                if j < r.len() {
                    assert(r.push(ls.last())[j] == r[j]);
                }
            }
        }
    }
}

/// No filler line reaches the assembler.
pub proof fn record_lines_hold_no_filler(content: Seq<char>)
    ensures
        forall|j: int|
            0 <= j < record_lines(content).len() ==> !is_padding(#[trigger] record_lines(content)[j]),
{
    lemma_non_padding_has_no_filler(crate::text::lines_of(content));
}

} // verus!
