use vstd::prelude::*;

verus! {

/// Every way a request handled by this library can fail.
#[derive(Debug, Clone, PartialEq, Eq)]
pub enum Error {
    /// The upload request carried no file part.
    NoFileUploaded,
    /// The uploaded file could not be stored; carries the file name.
    WritingToDisk(String),
    /// The uploaded bytes are not a workbook; carries the parser's message.
    InvalidExcelFile(String),
    /// A multipart form lacked a field it needs, or could not be read.
    MultipartFormError(String),
    /// The datasource lookup failed; carries its message.
    DatabaseOperationFailed(String),
    /// The stored file could not be opened as a workbook.
    IOError(String),
    /// Any other failure, with a message.
    Generic(String),
}

} // verus!
