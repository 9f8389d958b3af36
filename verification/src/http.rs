//! Status classification for the four verb operations.
//!
//! The network call itself happens outside the library. What the library owns
//! is the contract all verbs share: which status codes a verb accepts, which
//! outcome each accepted code yields, and what becomes of the response body.
//! Each function here takes the response's status code and the body already
//! read as JSON (`None` when the body did not parse) and decides the outcome.
use vstd::prelude::*;

verus! {

use crate::errors::CommandError;
use crate::json::JsonValue;

/// Outcome of a GET: the parsed body on status 200 and on nothing else; a
/// body that did not parse is a parse error.
pub fn get(status: u16, body: Option<JsonValue>) -> (r: Result<JsonValue, CommandError>)
    ensures
        status != 200 ==> r == Err::<JsonValue, CommandError>(
            CommandError::WrongResponseStatus(status),
        ),
        status == 200 && body is Some ==> r == Ok::<JsonValue, CommandError>(body->Some_0),
        status == 200 && body is None ==> r == Err::<JsonValue, CommandError>(CommandError::Parse),
{
    if status != 200 {
        return Err(CommandError::WrongResponseStatus(status));
    }
    match body {
        Some(v) => Ok(v),
        None => Err(CommandError::Parse),
    }
}

/// Outcome of a POST: 200 and 201 yield the parsed body, 204 yields JSON
/// null without reading the body (some remote-procedure endpoints answer
/// with no content), anything else is the status error.
pub fn post(status: u16, body: Option<JsonValue>) -> (r: Result<JsonValue, CommandError>)
    ensures
        !(status == 200 || status == 201 || status == 204) ==> r == Err::<
            JsonValue,
            CommandError,
        >(CommandError::WrongResponseStatus(status)),
        status == 204 ==> r == Ok::<JsonValue, CommandError>(JsonValue::Null),
        (status == 200 || status == 201) && body is Some ==> r == Ok::<JsonValue, CommandError>(
            body->Some_0,
        ),
        (status == 200 || status == 201) && body is None ==> r == Err::<JsonValue, CommandError>(
            CommandError::Parse,
        ),
{
    if !(status == 200 || status == 201 || status == 204) {
        return Err(CommandError::WrongResponseStatus(status));
    }
    if status == 204 {
        return Ok(JsonValue::Null);
    }
    match body {
        Some(v) => Ok(v),
        None => Err(CommandError::Parse),
    }
}

/// Outcome of a PATCH: 200 yields the parsed body, degrading to JSON null
/// when the body does not parse (a 200 body may legitimately be empty);
/// 204 yields JSON null; anything else is the status error.
pub fn patch(status: u16, body: Option<JsonValue>) -> (r: Result<JsonValue, CommandError>)
    ensures
        !(status == 200 || status == 204) ==> r == Err::<JsonValue, CommandError>(
            CommandError::WrongResponseStatus(status),
        ),
        status == 204 ==> r == Ok::<JsonValue, CommandError>(JsonValue::Null),
        status == 200 && body is Some ==> r == Ok::<JsonValue, CommandError>(body->Some_0),
        status == 200 && body is None ==> r == Ok::<JsonValue, CommandError>(JsonValue::Null),
{
    if !(status == 200 || status == 204) {
        return Err(CommandError::WrongResponseStatus(status));
    }
    if status == 204 {
        return Ok(JsonValue::Null);
    }
    match body {
        Some(v) => Ok(v),
        None => Ok(JsonValue::Null),
    }
}

/// Outcome of a DELETE: 200 and 204 succeed with no value, anything else is
/// the status error.
pub fn delete(status: u16) -> (r: Result<(), CommandError>)
    ensures
        (status == 200 || status == 204) <==> r is Ok,
        !(status == 200 || status == 204) ==> r == Err::<(), CommandError>(
            CommandError::WrongResponseStatus(status),
        ),
{
    if status == 200 || status == 204 {
        Ok(())
    } else {
        Err(CommandError::WrongResponseStatus(status))
    }
}

} // verus!
