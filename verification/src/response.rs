//! The response-handling pipeline.
//!
//! A transport response is a status code and a body. Status 200 has its body
//! decoded as JSON into the expected typed shape; 400, 401 and every other
//! non-200 status become the matching error variant, owning the original
//! response so the caller can inspect it. Nothing is retried.

use vstd::prelude::*;
use vstd::string::StringExecFns;
use crate::json::{json_of, member, parse_json, spec_member, Json};
use crate::model::{list_from_json, spec_list_from_json, FromJson, Response};

verus! {

/// A transport response, reduced to what the pipeline reads: the numeric
/// status code and the body text.
#[derive(Debug, Clone, PartialEq, Eq)]
pub struct HttpResponse {
    pub status: u16,
    pub body: String,
}

/// Everything a request can fail with.
///
/// The three status-code variants own the response that caused them;
/// `Deserialization` carries the parser's diagnostic or a note that the
/// body had the wrong shape.
#[derive(Debug, PartialEq, Eq)]
pub enum Error {
    /// The assembled request URL was not accepted as a valid URL.
    UrlParse(String),
    /// The transport failed before a response arrived.
    Network(String),
    /// The service answered with status 400.
    BadRequest(HttpResponse),
    /// The service answered with status 401.
    Unauthorized(HttpResponse),
    /// The service answered with any other non-200 status.
    InvalidResponse(HttpResponse),
    /// The body of a 200 response could not be decoded.
    Deserialization(String),
}

/// The typed payload a JSON tree decodes to: the envelope's `data` member,
/// decoded as one model.
pub open spec fn spec_response_of<T: FromJson>(j: Json) -> Option<Response<T>> {
    match spec_member(j, "data"@) {
        Some(d) => match T::spec_from_json(d) {
            Some(t) => Some(Response { data: t }),
            None => None,
        },
        None => None,
    }
}

/// The typed payload list a JSON tree decodes to: the envelope's `data`
/// member, decoded as an array of models.
pub open spec fn spec_list_of<T: FromJson>(j: Json) -> Option<Seq<T>> {
    match spec_member(j, "data"@) {
        Some(d) => spec_list_from_json::<T>(d),
        None => None,
    }
}

/// Sorts a response by its status code: 200 passes its body on, every other
/// status is terminal and keeps the whole response in its error.
pub fn classify(response: HttpResponse) -> (r: Result<String, Error>)
    ensures
        response.status == 200 ==> r == Ok::<String, Error>(response.body),
        response.status == 400 ==> r == Err::<String, Error>(Error::BadRequest(response)),
        response.status == 401 ==> r == Err::<String, Error>(Error::Unauthorized(response)),
        response.status != 200 && response.status != 400 && response.status != 401 ==> r
            == Err::<String, Error>(Error::InvalidResponse(response)),
{
    if response.status == 200 {
        Ok(response.body)
    } else if response.status == 400 {
        Err(Error::BadRequest(response))
    } else if response.status == 401 {
        Err(Error::Unauthorized(response))
    } else {
        Err(Error::InvalidResponse(response))
    }
}

/// The diagnostic of a body that is valid JSON of the wrong shape.
pub open spec fn shape_error_text() -> Seq<char> {
    "the body does not match the expected shape"@
}

fn shape_error() -> (r: String)
    ensures
        r@ == shape_error_text(),
{
    "the body does not match the expected shape".to_owned()
}

/// Decodes a 200 body into one typed envelope.
pub fn decode_body<T: FromJson>(body: &str) -> (r: Result<Response<T>, Error>)
    ensures
        match json_of(body@) {
            Some(j) => match spec_response_of::<T>(j) {
                Some(t) => r == Ok::<Response<T>, Error>(t),
                None => r matches Err(Error::Deserialization(m)) && m@ == shape_error_text(),
            },
            None => r matches Err(Error::Deserialization(_)),
        },
{
    match parse_json(body) {
        Ok(j) => match member(&j, &"data".to_owned()) {
            Some(d) => match T::from_json(d) {
                Some(t) => Ok(Response { data: t }),
                None => Err(Error::Deserialization(shape_error())),
            },
            None => Err(Error::Deserialization(shape_error())),
        },
        Err(m) => Err(Error::Deserialization(m)),
    }
}

/// Decodes a 200 body into a typed list envelope.
pub fn decode_list_body<T: FromJson>(body: &str) -> (r: Result<Response<Vec<T>>, Error>)
    ensures
        match json_of(body@) {
            Some(j) => match spec_list_of::<T>(j) {
                Some(s) => r is Ok && r->Ok_0.data@ == s,
                None => r matches Err(Error::Deserialization(m)) && m@ == shape_error_text(),
            },
            None => r matches Err(Error::Deserialization(_)),
        },
{
    match parse_json(body) {
        Ok(j) => match member(&j, &"data".to_owned()) {
            Some(d) => match list_from_json::<T>(d) {
                Some(items) => Ok(Response { data: items }),
                None => Err(Error::Deserialization(shape_error())),
            },
            None => Err(Error::Deserialization(shape_error())),
        },
        Err(m) => Err(Error::Deserialization(m)),
    }
}

/// Turns a transport response into one typed envelope: decode on 200, the
/// matching error on everything else.
pub fn handle_response<T: FromJson>(response: HttpResponse) -> (r: Result<Response<T>, Error>)
    ensures
        response.status == 200 ==> match json_of(response.body@) {
            Some(j) => match spec_response_of::<T>(j) {
                Some(t) => r == Ok::<Response<T>, Error>(t),
                None => r matches Err(Error::Deserialization(m)) && m@ == shape_error_text(),
            },
            None => r matches Err(Error::Deserialization(_)),
        },
        response.status == 400 ==> r == Err::<Response<T>, Error>(Error::BadRequest(response)),
        response.status == 401 ==> r == Err::<Response<T>, Error>(Error::Unauthorized(response)),
        response.status != 200 && response.status != 400 && response.status != 401 ==> r
            == Err::<Response<T>, Error>(Error::InvalidResponse(response)),
{
    match classify(response) {
        Ok(body) => decode_body::<T>(body.as_str()),
        Err(e) => Err(e),
    }
}

/// Turns a transport response into a typed list envelope: decode on 200, the
/// matching error on everything else.
pub fn handle_list_response<T: FromJson>(response: HttpResponse) -> (r: Result<
    Response<Vec<T>>,
    Error,
>)
    ensures
        response.status == 200 ==> match json_of(response.body@) {
            Some(j) => match spec_list_of::<T>(j) {
                Some(s) => r is Ok && r->Ok_0.data@ == s,
                None => r matches Err(Error::Deserialization(m)) && m@ == shape_error_text(),
            },
            None => r matches Err(Error::Deserialization(_)),
        },
        response.status == 400 ==> r == Err::<Response<Vec<T>>, Error>(Error::BadRequest(response)),
        response.status == 401 ==> r == Err::<Response<Vec<T>>, Error>(
            Error::Unauthorized(response),
        ),
        response.status != 200 && response.status != 400 && response.status != 401 ==> r == Err::<
            Response<Vec<T>>,
            Error,
        >(Error::InvalidResponse(response)),
{
    match classify(response) {
        Ok(body) => decode_list_body::<T>(body.as_str()),
        Err(e) => Err(e),
    }
}

} // verus!
