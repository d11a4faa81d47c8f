//! What a header-only probe of a URL reports, and how its response is read.

use crate::urls::mime::{extract_mime_type, mime_type_of};
use vstd::prelude::*;

verus! {

/// Why a probe gave no MIME type.
#[derive(Debug, Clone, Copy, PartialEq, Eq, Structural)]
pub enum HttpError {
    /// The request failed on the way; asking again may succeed.
    HttpFailure,
    /// The response had no `content-type` header; asking again is no use.
    MissingHeader,
}

/// The result of a probe: the MIME type, or why there is none.
pub type MimeResult = Result<String, HttpError>;

/// The name of the header that a probe reads.
pub const CONTENT_TYPE: &'static str = "content-type";

/// A probe's result with the MIME type seen as a character sequence.
pub open spec fn mime_result_view(result: MimeResult) -> Result<Seq<char>, HttpError> {
    match result {
        Ok(mime_type) => Ok(mime_type@),
        Err(error) => Err(error),
    }
}

/// A list of headers with names and values seen as character sequences.
pub open spec fn headers_view(headers: Seq<(String, String)>) -> Seq<(Seq<char>, Seq<char>)> {
    headers.map_values(|header: (String, String)| (header.0@, header.1@))
}

/// What `ehttp::Headers::get` returns for the header `name` on a response
/// with the headers `headers`: the value of the first header of that name,
/// compared without regard to case, or `None`.
pub uninterp spec fn header_value(
    headers: Seq<(Seq<char>, Seq<char>)>,
    name: Seq<char>,
) -> Option<Seq<char>>;

/// The result of a probe whose response carried the `content-type` value
/// `content_type`, or none.
pub open spec fn result_of_header(content_type: Option<Seq<char>>) -> Result<
    Seq<char>,
    HttpError,
> {
    match content_type {
        Some(value) => Ok(mime_type_of(value)),
        None => Err(HttpError::MissingHeader),
    }
}

/// Calls `ehttp::Headers::get` on the given headers. The contract gives the
/// value it returns a name and claims nothing else of it.
#[verifier::external_body]
fn header_get(headers: &Vec<(String, String)>, name: &str) -> (value: Option<String>)
    ensures
        match value {
            Some(text) => header_value(headers_view(headers@), name@) == Some(text@),
            None => header_value(headers_view(headers@), name@) is None,
        },
{
    let headers = ehttp::Headers { headers: headers.clone() };
    headers.get(name).map(|text| text.to_owned())
}

/// Reads the result of a probe off the `content-type` header of its
/// response: the header's MIME type, or `MissingHeader` without the header.
pub fn result_from_header(content_type: Option<&str>) -> (result: MimeResult)
    ensures
        mime_result_view(result) == result_of_header(
            match content_type {
                Some(value) => Some(value@),
                None => None,
            },
        ),
{
    match content_type {
        Some(value) => Ok(extract_mime_type(value).to_owned()),
        None => Err(HttpError::MissingHeader),
    }
}

/// Reads the result of a probe off what the request came back with: the
/// headers of the response, or the message of a failure on the way.
///
/// A failed request gives `HttpFailure`. A response gives the MIME type of
/// its `content-type` header, looked up as `ehttp` does, and `MissingHeader`
/// if it has none.
pub fn probe_result(response: Result<&Vec<(String, String)>, &str>) -> (result: MimeResult)
    ensures
        mime_result_view(result) == match response {
            Ok(headers) => result_of_header(header_value(headers_view(headers@), CONTENT_TYPE@)),
            Err(_) => Err(HttpError::HttpFailure),
        },
{
    match response {
        Ok(headers) => match header_get(headers, CONTENT_TYPE) {
            Some(value) => result_from_header(Some(value.as_str())),
            None => result_from_header(None),
        },
        Err(_) => Err(HttpError::HttpFailure),
    }
}

} // verus!
