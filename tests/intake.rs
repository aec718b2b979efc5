use calamine::{open_workbook_auto_from_rs, DataType, Reader};
use rust_xlsxwriter::Workbook;
use sheet_intake::cell::{coerce, decimal_text, Cell, CellError};
use sheet_intake::error::Error;
use sheet_intake::header::{header_from_sheet, header_row, row_texts};
use sheet_intake::job::{Field, FieldBody, FieldRead, JobBuilder, JobDetails};
use sheet_intake::upload::{
    accept_checked, first_file_part, prepare_upload, Part, Upload,
};
use std::io::Cursor;

fn s(t: &str) -> String {
    t.to_string()
}

fn text_field(name: &str, text: &str) -> Field {
    Field { name: Some(s(name)), body: FieldBody::Text(s(text)) }
}

fn file_part(name: &str, data: Vec<u8>) -> Part {
    Part { name: Some(s("file")), file_name: Some(s(name)), data }
}

fn workbook_bytes(header: &[&str]) -> Vec<u8> {
    let mut wb = Workbook::new();
    let ws = wb.add_worksheet();
    for (i, h) in header.iter().enumerate() {
        ws.write_string(0, i as u16, *h).unwrap();
    }
    ws.write_string(1, 0, "Ada").unwrap();
    wb.save_to_buffer().unwrap()
}

fn verdict_of(bytes: &[u8]) -> Option<String> {
    open_workbook_auto_from_rs(Cursor::new(bytes)).err().map(|e| e.to_string())
}

fn checked_upload(parts: Vec<Part>) -> Result<Upload, Error> {
    let verdict = parts.first().and_then(|p| verdict_of(&p.data));
    prepare_upload(parts, verdict)
}

fn first_sheet_of(bytes: &[u8]) -> Option<Result<Vec<Vec<Cell>>, String>> {
    let mut wb = open_workbook_auto_from_rs(Cursor::new(bytes)).unwrap();
    wb.worksheet_range_at(0).map(|r| {
        r.map(|range| {
            range
                .rows()
                .map(|row| {
                    row.iter()
                        .map(|c| match c {
                            DataType::String(t) => Cell::String(t.clone()),
                            DataType::Int(i) => Cell::Int(*i),
                            DataType::Float(f) => Cell::Float(f.to_string()),
                            _ => Cell::Empty,
                        })
                        .collect()
                })
                .collect()
        })
        .map_err(|e| e.to_string())
    })
}

#[test]
fn coerce_covers_every_variant() {
    assert_eq!(coerce(&Cell::String(s("Name"))), "Name");
    assert_eq!(coerce(&Cell::Int(42)), "42");
    assert_eq!(coerce(&Cell::Int(-7)), "-7");
    assert_eq!(coerce(&Cell::Float(s("1.5"))), "1.5");
    assert_eq!(coerce(&Cell::Bool(true)), "true");
    assert_eq!(coerce(&Cell::Bool(false)), "false");
    assert_eq!(coerce(&Cell::DateTime(s("45000.25"))), "45000.25");
    assert_eq!(coerce(&Cell::Duration(s("0.5"))), "0.5");
    assert_eq!(coerce(&Cell::DateTimeIso(s("2024-01-02T03:04:05"))), "2024-01-02T03:04:05");
    assert_eq!(coerce(&Cell::DurationIso(s("PT1H"))), "PT1H");
    assert_eq!(coerce(&Cell::Error(CellError::Div0)), "#DIV/0!");
    assert_eq!(coerce(&Cell::Error(CellError::NA)), "#N/A");
    assert_eq!(coerce(&Cell::Error(CellError::GettingData)), "#DATA!");
    assert_eq!(coerce(&Cell::Empty), "");
}

#[test]
fn decimal_text_extremes() {
    assert_eq!(decimal_text(0), "0");
    assert_eq!(decimal_text(10), "10");
    assert_eq!(decimal_text(i64::MAX), "9223372036854775807");
    assert_eq!(decimal_text(i64::MIN), "-9223372036854775808");
}

#[test]
fn empty_cells_keep_their_column() {
    let row = vec![Cell::String(s("a")), Cell::Empty, Cell::Int(3)];
    assert_eq!(row_texts(&row), vec![s("a"), s(""), s("3")]);
}

#[test]
fn empty_sheet_gives_empty_rows() {
    assert_eq!(header_row(&vec![]), Vec::<String>::new());
    let p = header_from_sheet(Some(Ok(vec![]))).unwrap();
    assert!(p.rows.is_empty());
}

#[test]
fn header_takes_only_the_first_row() {
    let rows = vec![
        vec![Cell::String(s("Name")), Cell::String(s("Age")), Cell::String(s("Active"))],
        vec![Cell::String(s("Ada")), Cell::Int(36), Cell::Bool(true)],
    ];
    let p = header_from_sheet(Some(Ok(rows))).unwrap();
    assert_eq!(p.rows, vec![s("Name"), s("Age"), s("Active")]);
}

#[test]
fn missing_sheet_and_unreadable_sheet() {
    assert_eq!(
        header_from_sheet(None),
        Err(Error::Generic(s("No sheet found in excel file")))
    );
    assert_eq!(header_from_sheet(Some(Err(s("bad range")))), Err(Error::Generic(s("bad range"))));
}

#[test]
fn upload_then_headers_round_trip() {
    let bytes = workbook_bytes(&["Name", "Age", "Active"]);
    let up = checked_upload(vec![file_part("people.xlsx", bytes.clone())]).unwrap();
    assert_eq!(up.file_name, "people.xlsx");
    assert_eq!(up.data, bytes);
    let p = header_from_sheet(first_sheet_of(&up.data)).unwrap();
    assert_eq!(p.rows, vec![s("Name"), s("Age"), s("Active")]);
}

#[test]
fn upload_rejects_non_workbook() {
    let r = checked_upload(vec![file_part("notes.xlsx", b"just some text".to_vec())]);
    assert_eq!(r.unwrap_err(), Error::InvalidExcelFile(s("Cannot detect file format")));
}

#[test]
fn upload_without_parts_fails() {
    assert_eq!(checked_upload(vec![]).unwrap_err(), Error::NoFileUploaded);
}

#[test]
fn upload_first_part_without_file_name_fails() {
    let parts = vec![
        Part { name: Some(s("note")), file_name: None, data: b"x".to_vec() },
        file_part("people.xlsx", workbook_bytes(&["Name"])),
    ];
    assert_eq!(checked_upload(parts).unwrap_err(), Error::NoFileUploaded);
}

#[test]
fn upload_ignores_later_parts() {
    let parts = vec![file_part("a.bin", vec![1, 2]), file_part("b.bin", vec![3])];
    let u = first_file_part(parts).unwrap();
    assert_eq!(u.file_name, "a.bin");
    assert_eq!(u.data, vec![1, 2]);
}

#[test]
fn verdict_decides_acceptance() {
    let u = Upload { file_name: s("a.xlsx"), data: vec![9] };
    assert_eq!(accept_checked(u.clone(), None).unwrap().data, vec![9]);
    assert_eq!(
        accept_checked(u, Some(s("broken"))).unwrap_err(),
        Error::InvalidExcelFile(s("broken"))
    );
}

#[test]
fn search_terms_capped_at_five() {
    let mut fields = vec![text_field("fileId", "17")];
    for t in ["t1", "t2", "t3", "t4", "t5", "t6", "t7", "t8"] {
        fields.push(text_field("searchTerms", t));
    }
    let job = JobDetails::try_from(fields).unwrap();
    assert_eq!(job.search_terms(), &vec![s("t1"), s("t2"), s("t3"), s("t4"), s("t5")]);
}

#[test]
fn check_date_by_presence() {
    let with = vec![
        Field { name: Some(s("checkDate")), body: FieldBody::Unread },
        text_field("fileId", "1"),
    ];
    assert!(JobDetails::try_from(with).unwrap().check_date());
    let with_value = vec![text_field("checkDate", "no"), text_field("fileId", "1")];
    assert!(JobDetails::try_from(with_value).unwrap().check_date());
    let without = vec![text_field("fileId", "1")];
    assert!(!JobDetails::try_from(without).unwrap().check_date());
}

#[test]
fn file_id_is_required() {
    let fields = vec![
        text_field("searchTerms", "a"),
        Field { name: Some(s("checkDate")), body: FieldBody::Unread },
        Field { name: Some(s("contractionFile")), body: FieldBody::Bytes(vec![1]) },
        Field { name: None, body: FieldBody::Text(s("fileId")) },
    ];
    let r = JobDetails::try_from(fields);
    assert_eq!(r.unwrap_err(), Error::MultipartFormError(s("fileId not present in formdata")));
}

#[test]
fn file_id_takes_first_value() {
    let fields = vec![text_field("fileId", "abc"), text_field("fileId", "def")];
    let job = JobDetails::try_from(fields).unwrap();
    assert_eq!(job.file_id(), "abc");
    assert_eq!(job.contraction_file(), &None);
}

#[test]
fn contraction_file_last_one_wins() {
    let fields = vec![
        Field { name: Some(s("contractionFile")), body: FieldBody::Bytes(vec![1]) },
        text_field("fileId", "x"),
        Field { name: Some(s("contractionFile")), body: FieldBody::Bytes(vec![2, 3]) },
        text_field("other", "ignored"),
    ];
    let job = JobDetails::try_from(fields).unwrap();
    assert_eq!(job.contraction_file(), &Some(vec![2, 3]));
    assert!(job.search_terms().is_empty());
}

#[test]
fn builder_asks_only_for_needed_content() {
    let mut b = JobBuilder::new();
    assert_eq!(b.wanted(&Some(s("fileId"))), FieldRead::Text);
    assert_eq!(b.wanted(&Some(s("contractionFile"))), FieldRead::Bytes);
    assert_eq!(b.wanted(&Some(s("checkDate"))), FieldRead::Skip);
    assert_eq!(b.wanted(&None), FieldRead::Skip);
    b.add(text_field("fileId", "id"));
    assert_eq!(b.wanted(&Some(s("fileId"))), FieldRead::Skip);
    for i in 0..5 {
        assert_eq!(b.wanted(&Some(s("searchTerms"))), FieldRead::Text);
        b.add(text_field("searchTerms", &i.to_string()));
    }
    assert_eq!(b.wanted(&Some(s("searchTerms"))), FieldRead::Skip);
    assert_eq!(b.finish().unwrap().search_terms().len(), 5);
}

#[test]
fn empty_file_id_is_refused() {
    let fields = vec![text_field("fileId", ""), text_field("fileId", "later")];
    let r = JobDetails::try_from(fields);
    assert_eq!(r.unwrap_err(), Error::MultipartFormError(s("fileId is empty in formdata")));
}

#[test]
fn upload_carries_the_reader_message() {
    let r = prepare_upload(vec![file_part("a.xls", vec![1, 2, 3])], Some(s("bad header")));
    assert_eq!(r.unwrap_err(), Error::InvalidExcelFile(s("bad header")));
}
