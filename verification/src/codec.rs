//! The wire format: requests and answers as lines of JSON.
//!
//! [`format`] says what object stands for a request or an answer, and what
//! request or answer an object stands for. [`tree`] builds and reads such
//! objects, and the functions here go from a value to its line and back.
//! [`laws`] proves that what is written is read back as it was.
//!
//! Text is written and read by `serde_json`. What it makes of a text has a
//! name here and no more: that a written line reads back as the same tree
//! is a property of that crate, which the tests try and nothing here proves.

use crate::codec::format::{request_json, request_of_json, response_json, response_of_json};
use crate::codec::lemmas::{lemma_request_printable, lemma_response_printable};
use crate::codec::tree::{request_from_json, request_to_json, response_from_json, response_to_json};
use crate::json::{parse, parse_model, print, print_model};
use crate::sessions::{ClientRequest, ClientRequestView, ServerResponse, ServerResponseView};
use vstd::prelude::*;
use vstd::string::StringExecFns;

pub mod format;
pub mod laws;
pub mod lemmas;
pub mod tree;

verus! {

/// Why a line could not be read.
#[derive(Debug, PartialEq, Eq)]
pub enum DecodeError {
    /// The line is no JSON document. The text is the reader's message.
    Syntax(String),
    /// The line is a JSON document, but not one of the kind that was
    /// expected.
    Shape,
}

/// The mathematical value of a [`DecodeError`].
pub enum DecodeErrorView {
    Syntax(Seq<char>),
    Shape,
}

impl View for DecodeError {
    type V = DecodeErrorView;

    open spec fn view(&self) -> DecodeErrorView {
        match *self {
            DecodeError::Syntax(detail) => DecodeErrorView::Syntax(detail@),
            DecodeError::Shape => DecodeErrorView::Shape,
        }
    }
}

/// What a decoding error reads to a person.
pub open spec fn decode_error_text(error: DecodeErrorView) -> Seq<char> {
    match error {
        DecodeErrorView::Syntax(detail) => detail,
        DecodeErrorView::Shape => "unexpected form of the document"@,
    }
}

impl DecodeError {
    /// The error as words for a person.
    pub fn message(&self) -> (text: String)
        ensures
            text@ == decode_error_text(self@),
    {
        match self {
            DecodeError::Syntax(detail) => detail.clone(),
            DecodeError::Shape => String::from_str("unexpected form of the document"),
        }
    }
}

/// The line of text for an answer, without the line break.
pub open spec fn response_text(response: ServerResponseView) -> Seq<char> {
    print_model(response_json(response))
}

/// The line of text for a request, without the line break.
pub open spec fn request_text(request: ClientRequestView) -> Seq<char> {
    print_model(request_json(request))
}

/// What reading a request from a line gives: the request, or why there is
/// none.
pub open spec fn decode_request_model(line: Seq<char>) -> Result<
    ClientRequestView,
    DecodeErrorView,
> {
    match parse_model(line) {
        Ok(tree) => match request_of_json(tree) {
            Some(request) => Ok(request),
            None => Err(DecodeErrorView::Shape),
        },
        Err(message) => Err(DecodeErrorView::Syntax(message)),
    }
}

/// What reading an answer from a line gives: the answer, or why there is
/// none.
pub open spec fn decode_response_model(line: Seq<char>) -> Result<
    ServerResponseView,
    DecodeErrorView,
> {
    match parse_model(line) {
        Ok(tree) => match response_of_json(tree) {
            Some(response) => Ok(response),
            None => Err(DecodeErrorView::Shape),
        },
        Err(message) => Err(DecodeErrorView::Syntax(message)),
    }
}

/// The value of a request that was read, or of the error in its place.
pub open spec fn request_result_view(read: Result<ClientRequest, DecodeError>) -> Result<
    ClientRequestView,
    DecodeErrorView,
> {
    match read {
        Ok(request) => Ok(request@),
        Err(error) => Err(error@),
    }
}

/// The value of an answer that was read, or of the error in its place.
pub open spec fn response_result_view(read: Result<ServerResponse, DecodeError>) -> Result<
    ServerResponseView,
    DecodeErrorView,
> {
    match read {
        Ok(response) => Ok(response@),
        Err(error) => Err(error@),
    }
}

/// Writes an answer as one line of JSON, without the line break.
pub fn encode_response(response: &ServerResponse) -> (line: String)
    ensures
        line@ == response_text(response@),
{
    let tree = response_to_json(response);
    proof {
        lemma_response_printable(response@);
    }
    print(&tree)
}

/// Writes a request as one line of JSON, without the line break.
pub fn encode_request(request: &ClientRequest) -> (line: String)
    ensures
        line@ == request_text(request@),
{
    let tree = request_to_json(request);
    proof {
        lemma_request_printable(request@);
    }
    print(&tree)
}

/// Reads a request from a line. The line break at its end, and any other
/// blank space around the document, does not count.
pub fn decode_request(line: &str) -> (read: Result<ClientRequest, DecodeError>)
    ensures
        request_result_view(read) == decode_request_model(line@),
{
    match parse(line) {
        Ok(tree) => match request_from_json(&tree) {
            Some(request) => Ok(request),
            None => Err(DecodeError::Shape),
        },
        Err(message) => Err(DecodeError::Syntax(message)),
    }
}

/// Reads an answer from a line. The line break at its end, and any other
/// blank space around the document, does not count.
pub fn decode_response(line: &str) -> (read: Result<ServerResponse, DecodeError>)
    ensures
        response_result_view(read) == decode_response_model(line@),
{
    match parse(line) {
        Ok(tree) => match response_from_json(&tree) {
            Some(response) => Ok(response),
            None => Err(DecodeError::Shape),
        },
        Err(message) => Err(DecodeError::Syntax(message)),
    }
}

} // verus!
