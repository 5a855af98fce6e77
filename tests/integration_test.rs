//! Whole-file parsing.

use rs_ach::{AchError, AchFile};

const FILE_HEADER: &str = "101 12345678012345678011409020123A094101YOUR BANK              YOUR COMPANY                   ";
const BATCH_HEADER: &str = "5200YOUR COMPANY                        1234567890PPDPAYROLL         140903   1123456780000001";
const ENTRY_ALICE: &str = "62212345678011232132         0000001000               ALICE WANDERDUST        1123456780000001";
const ADDENDA: &str = "705HERE IS SOME ADDITIONAL INFORMATION                                             00000000001";
const ENTRY_BILLY: &str = "627123456780234234234        0000015000               BILLY HOLIDAY           0123456780000002";
const ENTRY_RACHEL: &str = "622123232318123123123        0000001213               RACHEL WELCH            0123456780000003";
const BATCH_CONTROL: &str = "820000000400370145870000000150000000000022131234567890                         123456780000001";
const FILE_CONTROL: &str = "9000001000001000000040037014587000000015000000000002213                                       ";

fn lines(parts: &[&str]) -> String {
    parts.join("\n")
}

/// Sample ACH file: one batch of three entries, the first with one addenda.
fn sample_ach_file() -> String {
    lines(&[
        FILE_HEADER,
        BATCH_HEADER,
        ENTRY_ALICE,
        ADDENDA,
        ENTRY_BILLY,
        ENTRY_RACHEL,
        BATCH_CONTROL,
        FILE_CONTROL,
    ])
}

fn addenda_line(seq: &str, text: &str) -> String {
    format!("705{:<80}{}0000001", text, seq)
}

#[test]
fn test_parse_basic_ach_file() {
    let content = sample_ach_file();
    let result = AchFile::parse(&content);
    assert!(
        result.is_ok(),
        "Failed to parse ACH file: {:?}",
        result.err()
    );

    let ach_file = result.unwrap();

    assert_eq!(ach_file.file_header.record_type, "1");
    assert_eq!(ach_file.file_header.priority_code, "01");
    assert_eq!(
        ach_file.file_header.immediate_destination.trim(),
        "123456780"
    );
    assert_eq!(ach_file.file_header.immediate_origin.trim(), "1234567801");

    assert_eq!(ach_file.batches.len(), 1);

    let batch = &ach_file.batches[0];

    assert_eq!(batch.header.record_type, "5");
    assert_eq!(batch.header.service_class_code, "200");
    assert_eq!(batch.header.company_name.trim(), "YOUR COMPANY");
    assert_eq!(batch.header.standard_entry_class_code, "PPD");
    assert_eq!(batch.header.company_entry_description.trim(), "PAYROLL");

    assert_eq!(batch.entries.len(), 3);

    let entry1 = &batch.entries[0];
    assert_eq!(entry1.transaction_code, "22");
    assert_eq!(entry1.receiving_dfi_identification, "12345678");
    assert_eq!(entry1.dfi_account_number.trim(), "11232132");
    assert_eq!(entry1.amount, 1000);
    assert_eq!(entry1.individual_name.trim(), "ALICE WANDERDUST");
    assert_eq!(entry1.addenda.len(), 1);
    assert_eq!(
        entry1.addenda[0]
            .payment_related_information
            .trim()
            .starts_with("HERE IS SOME ADDITIONAL"),
        true
    );

    let entry2 = &batch.entries[1];
    assert_eq!(entry2.transaction_code, "27");
    assert_eq!(entry2.amount, 15000);
    assert_eq!(entry2.individual_name.trim(), "BILLY HOLIDAY");
    assert_eq!(entry2.addenda.len(), 0);

    let entry3 = &batch.entries[2];
    assert_eq!(entry3.transaction_code, "22");
    assert_eq!(entry3.amount, 1213);
    assert_eq!(entry3.individual_name.trim(), "RACHEL WELCH");

    assert_eq!(batch.control.record_type, "8");
    assert_eq!(batch.control.service_class_code, "200");
    assert_eq!(batch.control.entry_addenda_count, 4);

    assert_eq!(ach_file.file_control.record_type, "9");
    assert_eq!(ach_file.file_control.batch_count, 1);
}

#[test]
fn test_empty_file() {
    let result = AchFile::parse("");
    assert!(matches!(result, Err(AchError::EmptyFile)));
}

#[test]
fn test_invalid_line_length() {
    let invalid_ach = "101 123";
    let result = AchFile::parse(invalid_ach);
    assert!(matches!(result, Err(AchError::InvalidLineLength(_))));
}

#[test]
fn test_invalid_record_type() {
    let invalid_ach = "X01 123456780 1234567801409020123A094101YOUR BANK              YOUR COMPANY                   ";
    let result = AchFile::parse(invalid_ach);
    assert!(matches!(result, Err(AchError::InvalidRecordType(_))));
}

#[test]
fn test_credits_only_batch() {
    let credits_ach = lines(&[
        "101 12345678012345678011409020123A094101YOUR BANK              YOUR COMPANY                   ",
        "5220YOUR COMPANY                        1234567890PPDPAYROLL         140903   1123456780000001",
        "62212345678011232132         0000001000               ALICE WANDERDUST        0123456780000001",
        "622123232318123123123        0000001213               RACHEL WELCH            0123456780000002",
        "820000000200246913980000000000000000000022131234567890                         123456780000001",
        "9000001000001000000020024691398000000000000000000002213                                       ",
    ]);

    let result = AchFile::parse(&credits_ach);
    assert!(result.is_ok());

    let ach_file = result.unwrap();
    let batch = &ach_file.batches[0];

    assert_eq!(batch.header.service_class_code, "220");
    assert_eq!(batch.entries.len(), 2);

    assert_eq!(batch.entries[0].transaction_code, "22");
    assert_eq!(batch.entries[1].transaction_code, "22");
}

#[test]
fn test_debits_only_batch() {
    let debits_ach = lines(&[
        "101 12345678012345678011409020123A094101YOUR BANK              YOUR COMPANY                   ",
        "5225YOUR COMPANY                        1234567890PPDPAYROLL         140903   1123456780000001",
        "627123456780234234234        0000015000               BILLY HOLIDAY           0123456780000001",
        "627123456780999999999        0000005000               JANE DOE                0123456780000002",
        "820000000200370145870000000200000000000000001234567890                         123456780000001",
        "9000001000001000000020037014587000000020000000000000000                                       ",
    ]);

    let result = AchFile::parse(&debits_ach);
    assert!(result.is_ok());

    let ach_file = result.unwrap();
    let batch = &ach_file.batches[0];

    assert_eq!(batch.header.service_class_code, "225");
    assert_eq!(batch.entries.len(), 2);

    assert_eq!(batch.entries[0].transaction_code, "27");
    assert_eq!(batch.entries[1].transaction_code, "27");
}

#[test]
fn parse_ach_file_agrees_with_parse() {
    let content = sample_ach_file();
    let file = rs_ach::parser::parse_ach_file(&content).unwrap();
    assert_eq!(file.batches[0].entries.len(), 3);
    assert_eq!(file.file_control.entry_addenda_count, 4);
}

#[test]
fn filler_lines_anywhere_are_ignored() {
    let filler = "9".repeat(94);
    let content = lines(&[
        &filler,
        FILE_HEADER,
        "9999",
        BATCH_HEADER,
        ENTRY_ALICE,
        &filler,
        ADDENDA,
        "",
        ENTRY_BILLY,
        ENTRY_RACHEL,
        BATCH_CONTROL,
        FILE_CONTROL,
        &filler,
        &filler,
        "",
    ]);
    let file = AchFile::parse(&content).unwrap();
    assert_eq!(file.batches.len(), 1);
    assert_eq!(file.batches[0].entries.len(), 3);
    assert_eq!(file.batches[0].entries[0].addenda.len(), 1);
    assert_eq!(file.file_control.batch_count, 1);
}

#[test]
fn only_filler_lines_make_an_empty_file() {
    let filler = "9".repeat(94);
    let content = lines(&[&filler, "", &filler, "999"]);
    assert!(matches!(AchFile::parse(&content), Err(AchError::EmptyFile)));
}

#[test]
fn crlf_line_endings_are_accepted() {
    let content = sample_ach_file().replace('\n', "\r\n") + "\r\n";
    let file = AchFile::parse(&content).unwrap();
    assert_eq!(file.batches[0].entries.len(), 3);
    assert_eq!(file.file_control.reserved.len(), 39);
}

#[test]
fn consecutive_addenda_stay_with_their_entry_in_order() {
    let first = addenda_line("0001", "FIRST NOTE");
    let second = addenda_line("0002", "SECOND NOTE");
    let third = addenda_line("0001", "THIRD NOTE");
    let content = lines(&[
        FILE_HEADER,
        BATCH_HEADER,
        ENTRY_ALICE,
        &first,
        &second,
        ENTRY_BILLY,
        ENTRY_RACHEL,
        &third,
        BATCH_CONTROL,
        FILE_CONTROL,
    ]);
    let file = AchFile::parse(&content).unwrap();
    let entries = &file.batches[0].entries;
    assert_eq!(entries.len(), 3);
    assert_eq!(entries[0].addenda.len(), 2);
    assert_eq!(entries[0].addenda[0].payment_related_information.trim(), "FIRST NOTE");
    assert_eq!(entries[0].addenda[1].payment_related_information.trim(), "SECOND NOTE");
    assert_eq!(entries[0].addenda[1].addenda_sequence_number, "0002");
    assert_eq!(entries[1].addenda.len(), 0);
    assert_eq!(entries[2].addenda.len(), 1);
    assert_eq!(entries[2].addenda[0].payment_related_information.trim(), "THIRD NOTE");
}

#[test]
fn several_batches_keep_their_order() {
    let credits = "5220OTHER COMPANY                       1234567890CCDVENDORS         140903   1123456780000002";
    let content = lines(&[
        FILE_HEADER,
        BATCH_HEADER,
        ENTRY_ALICE,
        BATCH_CONTROL,
        credits,
        BATCH_CONTROL,
        FILE_CONTROL,
    ]);
    let file = AchFile::parse(&content).unwrap();
    assert_eq!(file.batches.len(), 2);
    assert_eq!(file.batches[0].header.service_class_code, "200");
    assert_eq!(file.batches[0].entries.len(), 1);
    assert_eq!(file.batches[1].header.service_class_code, "220");
    assert_eq!(file.batches[1].header.standard_entry_class_code, "CCD");
    assert_eq!(file.batches[1].entries.len(), 0);
}

#[test]
fn file_with_no_batches_parses() {
    let content = lines(&[FILE_HEADER, FILE_CONTROL]);
    let file = AchFile::parse(&content).unwrap();
    assert!(file.batches.is_empty());
}

#[test]
fn entry_before_batch_header_is_a_structure_error() {
    let content = lines(&[FILE_HEADER, ENTRY_ALICE]);
    match AchFile::parse(&content) {
        Err(AchError::InvalidStructure(msg)) => {
            assert_eq!(msg, "Unexpected record type '6' at line 1")
        }
        _ => panic!("expected InvalidStructure"),
    }
}

#[test]
fn addenda_without_entry_is_a_structure_error() {
    let content = lines(&[FILE_HEADER, BATCH_HEADER, ADDENDA, BATCH_CONTROL, FILE_CONTROL]);
    match AchFile::parse(&content) {
        Err(AchError::InvalidStructure(msg)) => {
            assert_eq!(msg, "Unexpected record type '7' in batch at line 2")
        }
        _ => panic!("expected InvalidStructure"),
    }
    let content = lines(&[FILE_HEADER, ADDENDA, FILE_CONTROL]);
    assert!(matches!(AchFile::parse(&content), Err(AchError::InvalidStructure(_))));
}

#[test]
fn unknown_code_in_batch_is_a_structure_error() {
    let bad = format!("1{}", &ENTRY_ALICE[1..]);
    let content = lines(&[FILE_HEADER, BATCH_HEADER, ENTRY_ALICE, &bad, BATCH_CONTROL, FILE_CONTROL]);
    match AchFile::parse(&content) {
        Err(AchError::InvalidStructure(msg)) => {
            assert_eq!(msg, "Unexpected record type '1' in batch at line 3")
        }
        _ => panic!("expected InvalidStructure"),
    }
}

#[test]
fn record_after_file_control_is_a_structure_error() {
    let content = lines(&[FILE_HEADER, FILE_CONTROL, BATCH_HEADER]);
    match AchFile::parse(&content) {
        Err(AchError::InvalidStructure(msg)) => {
            assert_eq!(msg, "Unexpected record type '5' after file control at line 2")
        }
        _ => panic!("expected InvalidStructure"),
    }
}

#[test]
fn batch_cut_off_is_incomplete() {
    let content = lines(&[FILE_HEADER, BATCH_HEADER, ENTRY_ALICE]);
    match AchFile::parse(&content) {
        Err(AchError::IncompleteBatch(msg)) => assert_eq!(msg, "Missing batch control record"),
        _ => panic!("expected IncompleteBatch"),
    }
    let content = lines(&[FILE_HEADER, BATCH_HEADER, ENTRY_ALICE, ADDENDA, BATCH_HEADER]);
    match AchFile::parse(&content) {
        Err(AchError::IncompleteBatch(msg)) => {
            assert_eq!(msg, "Missing batch control record before line 4")
        }
        _ => panic!("expected IncompleteBatch"),
    }
    let content = lines(&[FILE_HEADER, BATCH_HEADER]);
    assert!(matches!(AchFile::parse(&content), Err(AchError::IncompleteBatch(_))));
}

#[test]
fn missing_file_control_is_a_structure_error() {
    let content = lines(&[FILE_HEADER, BATCH_HEADER, ENTRY_ALICE, BATCH_CONTROL]);
    match AchFile::parse(&content) {
        Err(AchError::InvalidStructure(msg)) => assert_eq!(msg, "Missing file control record"),
        _ => panic!("expected InvalidStructure"),
    }
}

#[test]
fn bad_amount_names_the_field() {
    let bad = ENTRY_ALICE.replace("0000001000", "00000000XX");
    let content = lines(&[FILE_HEADER, BATCH_HEADER, &bad, BATCH_CONTROL, FILE_CONTROL]);
    assert!(matches!(
        AchFile::parse(&content),
        Err(AchError::InvalidNumber { field: "amount", .. })
    ));
}

#[test]
fn short_record_inside_a_batch_reports_its_length() {
    let short = &ENTRY_BILLY[..90];
    let content = lines(&[FILE_HEADER, BATCH_HEADER, short, BATCH_CONTROL, FILE_CONTROL]);
    assert!(matches!(AchFile::parse(&content), Err(AchError::InvalidLineLength(90))));
}

#[test]
fn bare_carriage_return_at_end_stays_in_the_line() {
    let content = sample_ach_file() + "\r";
    assert!(matches!(AchFile::parse(&content), Err(AchError::InvalidLineLength(95))));
}
