//! What the HTTP front end decides between reading a request and writing a
//! response: how an uploaded document is read, when it is refused, and how
//! answers and failures are worded.

use vstd::prelude::*;
use vstd::string::StringExecFns;
use vstd::utf8::{decode_utf8, valid_utf8};
use crate::text::text_of_bytes;

verus! {

/// The address that the service listens on.
pub const LISTEN_ADDRESS: &'static str = "127.0.0.1:3000";

/// The greeting at the root path.
pub const WELCOME: &'static str = "Welcome to the Rust Coder API";

/// The largest request body that is accepted, in bytes.
pub const BODY_LIMIT: usize = 52428800;

/// The form field that holds an uploaded document.
pub const DOCUMENT_FIELD: &'static str = "document";

/// The content type of a field that names none.
pub const DEFAULT_CONTENT_TYPE: &'static str = "text/plain";

/// The content type of a PDF.
pub const PDF_CONTENT_TYPE: &'static str = "application/pdf";

/// How the bytes of an uploaded document are turned into text.
#[derive(Debug, Clone, Copy, PartialEq, Eq, Structural)]
pub enum UploadKind {
    /// The text is extracted from a PDF.
    Pdf,
    /// The bytes are the text, in UTF-8.
    Text,
}

/// Why an uploaded document is refused.
#[derive(Debug, Clone, Copy, PartialEq, Eq, Structural)]
pub enum UploadError {
    /// The bytes are not UTF-8.
    NotUtf8,
    /// No document field came, or its text is empty.
    Empty,
}

/// The content type of a field: its own, else the default.
pub open spec fn content_type_of(declared: Option<&str>) -> Seq<char> {
    match declared {
        Some(t) => t@,
        None => DEFAULT_CONTENT_TYPE@,
    }
}

/// Whether a form field is the one that holds the document.
pub fn is_document_field(name: Option<&str>) -> (r: bool)
    ensures
        r == (name matches Some(n) && n@ == DOCUMENT_FIELD@),
{
    match name {
        Some(n) => String::from_str(n) == String::from_str(DOCUMENT_FIELD),
        None => false,
    }
}

/// How an upload of the declared content type is read: as a PDF where it
/// says so, as text in every other case.
pub fn upload_kind(content_type: Option<&str>) -> (r: UploadKind)
    ensures
        r == if content_type_of(content_type) == PDF_CONTENT_TYPE@ {
            UploadKind::Pdf
        } else {
            UploadKind::Text
        },
{
    let declared = match content_type {
        Some(t) => String::from_str(t),
        None => String::from_str(DEFAULT_CONTENT_TYPE),
    };
    if declared == String::from_str(PDF_CONTENT_TYPE) {
        UploadKind::Pdf
    } else {
        UploadKind::Text
    }
}

/// Reads an upload that is text: its bytes decoded as UTF-8, refused where
/// they are not UTF-8.
pub fn decode_text_upload(bytes: Vec<u8>) -> (r: Result<String, UploadError>)
    ensures
        match r {
            Ok(text) => valid_utf8(bytes@) && text@ == decode_utf8(bytes@),
            Err(e) => !valid_utf8(bytes@) && e == UploadError::NotUtf8,
        },
{
    match text_of_bytes(bytes) {
        Some(text) => Ok(text),
        None => Err(UploadError::NotUtf8),
    }
}

/// Accepts the text of an uploaded document for ingestion, unless it is
/// empty.
pub fn accept_document(text: String) -> (r: Result<String, UploadError>)
    ensures
        match r {
            Ok(accepted) => text@.len() > 0 && accepted@ == text@,
            Err(e) => text@.len() == 0 && e == UploadError::Empty,
        },
{
    if text.as_str().is_empty() {
        Err(UploadError::Empty)
    } else {
        Ok(text)
    }
}

impl UploadError {
    /// Why the upload is refused, in words.
    pub fn message(&self) -> (r: &'static str)
        ensures
            r@ == match *self {
                UploadError::NotUtf8 => "File content is not valid UTF-8 text"@,
                UploadError::Empty => "The 'document' field was not found in the request or the extracted content was empty."@,
            },
    {
        match self {
            UploadError::NotUtf8 => "File content is not valid UTF-8 text",
            UploadError::Empty => "The 'document' field was not found in the request or the extracted content was empty.",
        }
    }
}

/// The body of the answer to a query.
pub fn query_response(answer: &str) -> (r: String)
    ensures
        r@ == "Received your query: '"@ + answer@ + "'"@,
{
    let mut out = String::from_str("Received your query: '");
    out.append(answer);
    out.append("'");
    out
}

/// The body of the answer to a request that failed.
pub fn error_body(message: &str) -> (r: String)
    ensures
        r@ == "Something went wrong: "@ + message@,
{
    let mut out = String::from_str("Something went wrong: ");
    out.append(message);
    out
}

} // verus!
