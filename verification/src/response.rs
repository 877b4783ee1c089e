//! From a response to a value of the data model: the status is checked, the
//! body is read as a JSON document, and the document is decoded.

use crate::error::{ApiError, ApiErrorView};
use crate::json::{parse_json, parsed, Json, JsonModel};
use crate::wire::Wire;
use vstd::prelude::*;
use vstd::utf8::{decode_utf8, valid_utf8};

verus! {

/// Whether a status code reports success: the codes from 200 to 299 do.
pub open spec fn is_success(status: u16) -> bool {
    200 <= status <= 299
}

/// What a document gives: the value it decodes to, or the mismatch at the
/// path where decoding fails.
pub open spec fn document_outcome<T: Wire>(doc: JsonModel) -> Result<T::V, ApiErrorView> {
    match T::decoded(doc) {
        Ok(value) => Ok(value),
        Err(path) => Err(ApiErrorView::SchemaMismatch(path)),
    }
}

/// What a response gives once its body has been read: `document` is the
/// document read from the body, or `None` where the body is not JSON. A
/// status that does not report success comes before anything in the body.
pub open spec fn response_outcome<T: Wire>(status: u16, document: Option<JsonModel>) -> Result<
    T::V,
    ApiErrorView,
> {
    if !is_success(status) {
        Err(ApiErrorView::HttpStatus(status))
    } else {
        match document {
            None => Err(ApiErrorView::Parse),
            Some(doc) => document_outcome::<T>(doc),
        }
    }
}

/// The document that the bytes of a body hold: the bytes are read as UTF-8
/// and the text as JSON. Bytes that are not UTF-8 hold no document.
pub open spec fn body_document(body: Seq<u8>) -> Option<JsonModel> {
    if valid_utf8(body) {
        parsed(decode_utf8(body))
    } else {
        None
    }
}

/// Whether an executable result says what the model expects.
pub open spec fn reports<T: DeepView>(
    r: Result<T, ApiError>,
    expected: Result<T::V, ApiErrorView>,
) -> bool {
    match r {
        Ok(value) => expected == Ok::<T::V, ApiErrorView>(value.deep_view()),
        Err(e) => expected == Err::<T::V, ApiErrorView>(e.deep_view()),
    }
}

/// Passes a status that reports success and turns any other into an error.
pub fn check_status(status: u16) -> (r: Result<(), ApiError>)
    ensures
        is_success(status) ==> r is Ok,
        !is_success(status) ==> r == Err::<(), ApiError>(ApiError::HttpStatus(status)),
{
    if 200 <= status && status <= 299 {
        Ok(())
    } else {
        Err(ApiError::HttpStatus(status))
    }
}

/// Decodes a document into a value of the data model.
pub fn decode_document<T: Wire>(doc: &Json) -> (r: Result<T, ApiError>)
    ensures
        reports(r, document_outcome::<T>(doc.model())),
{
    match T::from_json(doc) {
        Ok(value) => Ok(value),
        Err(path) => Err(ApiError::SchemaMismatch(path)),
    }
}

/// Turns the status and the body of a response into a value of the data
/// model, or into the error that the response amounts to.
pub fn read_response<T: Wire>(status: u16, body: &str) -> (r: Result<T, ApiError>)
    ensures
        reports(r, response_outcome::<T>(status, parsed(body@))),
{
    match check_status(status) {
        Err(e) => Err(e),
        Ok(_) => match parse_json(body) {
            None => Err(ApiError::Parse),
            Some(doc) => decode_document::<T>(&doc),
        },
    }
}

/// `std::str::from_utf8`: the text that the bytes encode, where they are
/// valid UTF-8, and `None` where they are not.
#[verifier::external_body]
fn text_of_bytes(bytes: &[u8]) -> (r: Option<&str>)
    ensures
        match r {
            Some(text) => valid_utf8(bytes@) && text@ == decode_utf8(bytes@),
            None => !valid_utf8(bytes@),
        },
{
    std::str::from_utf8(bytes).ok()
}

/// Turns the status and the bytes of the body of a response into a value of
/// the data model, or into the error that the response amounts to. A body
/// that is not UTF-8 is no JSON.
pub fn read_body<T: Wire>(status: u16, body: &[u8]) -> (r: Result<T, ApiError>)
    ensures
        reports(r, response_outcome::<T>(status, body_document(body@))),
{
    match text_of_bytes(body) {
        Some(text) => read_response(status, text),
        None => match check_status(status) {
            Err(e) => Err(e),
            Ok(_) => Err(ApiError::Parse),
        },
    }
}

/// Writes a value of the data model as a document and decodes it again:
/// the value comes back.
pub proof fn lemma_document_of_value_decodes<T: Wire>(value: T::V)
    ensures
        document_outcome::<T>(T::encoded(value)) == Ok::<T::V, ApiErrorView>(value),
{
    T::lemma_round_trip(value);
}

/// A document that decodes, written again from what it decoded to, is a
/// document that decodes to the same value: the two are equivalent.
pub proof fn lemma_reencoded_document_is_equivalent<T: Wire>(doc: JsonModel)
    requires
        T::decoded(doc) is Ok,
    ensures
        T::decoded(T::encoded(T::decoded(doc)->Ok_0)) == T::decoded(doc),
{
    T::lemma_round_trip(T::decoded(doc)->Ok_0);
}

} // verus!
