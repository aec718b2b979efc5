use vstd::prelude::*;

use crate::error::Error;

verus! {

/// One part of a multipart request: its field name, the file name it
/// was sent under (a file field has one), and its bytes.
#[derive(Debug, Clone)]
pub struct Part {
    pub name: Option<String>,
    pub file_name: Option<String>,
    pub data: Vec<u8>,
}

/// A file that was accepted for upload: its original name and its bytes.
#[derive(Debug, Clone)]
pub struct Upload {
    pub file_name: String,
    pub data: Vec<u8>,
}

/// A stored file as the datasource records it.
#[derive(Debug, Clone, PartialEq, Eq)]
pub struct FileEntry {
    pub id: i64,
    pub file_path: String,
}

/// Whether a request's parts name a file to upload: only the first part
/// counts, and it must be a file field.
pub open spec fn has_file_part(parts: Seq<Part>) -> bool {
    parts.len() > 0 && parts[0].file_name is Some
}

/// Whether `u` holds the file of the first part of `parts`.
pub open spec fn upload_of(u: Upload, parts: Seq<Part>) -> bool {
    &&& parts.len() > 0
    &&& parts[0].file_name matches Some(f) && u.file_name@ == f@
    &&& u.data@ == parts[0].data@
}

/// Picks the file to upload: the first part of the request, which must be
/// a file field; every later part is ignored.
pub fn first_file_part(parts: Vec<Part>) -> (r: Result<Upload, Error>)
    ensures
        !has_file_part(parts@) ==> r == Err::<Upload, Error>(Error::NoFileUploaded),
        has_file_part(parts@) ==> (r matches Ok(u) && upload_of(u, parts@)),
{
    if parts.len() == 0 {
        return Err(Error::NoFileUploaded);
    }
    let mut parts = parts;
    let first = parts.remove(0);
    match first.file_name {
        None => Err(Error::NoFileUploaded),
        Some(f) => Ok(Upload { file_name: f, data: first.data }),
    }
}

/// Accepts `upload` given the workbook reader's verdict on its bytes:
/// `None` when they read as a workbook, else the reader's message.
pub fn accept_checked(upload: Upload, verdict: Option<String>) -> (r: Result<Upload, Error>)
    ensures
        verdict is None ==> r == Ok::<Upload, Error>(upload),
        verdict matches Some(m) ==> r == Err::<Upload, Error>(Error::InvalidExcelFile(m)),
{
    match verdict {
        None => Ok(upload),
        Some(m) => Err(Error::InvalidExcelFile(m)),
    }
}

/// Takes the file of an upload request, given the workbook reader's
/// verdict on the bytes of its first part: `None` when they read as a
/// workbook, else the reader's message. Nothing is stored or registered
/// before this succeeds.
pub fn prepare_upload(parts: Vec<Part>, verdict: Option<String>) -> (r: Result<Upload, Error>)
    ensures
        !has_file_part(parts@) ==> r == Err::<Upload, Error>(Error::NoFileUploaded),
        has_file_part(parts@) && verdict is None ==> (r matches Ok(u) && upload_of(u, parts@)),
        has_file_part(parts@) && verdict is Some ==> r == Err::<Upload, Error>(
            Error::InvalidExcelFile(verdict->0),
        ),
{
    let upload = first_file_part(parts)?;
    accept_checked(upload, verdict)
}

} // verus!
