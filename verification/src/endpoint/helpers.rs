//! Statuses, and how the answers of the entity store turn into them.
use crate::controller::StoreError;
use crate::text::{decimal, format_i64};
use vstd::prelude::*;
use vstd::string::*;

verus! {

/// The status of a response.
#[derive(Debug, PartialEq, Eq, Structural, Clone, Copy)]
pub enum Status {
    Success,
    Created,
    NoContent,
    SeeOther,
    BadRequest,
    Unauthorized,
    Forbidden,
    NotFound,
    PreconditionFailed,
    UnprocessableEntity,
    InternalServerError,
}

/// The number of a status.
pub open spec fn status_code(status: Status) -> u16 {
    match status {
        Status::Success => 200,
        Status::Created => 201,
        Status::NoContent => 204,
        Status::SeeOther => 303,
        Status::BadRequest => 400,
        Status::Unauthorized => 401,
        Status::Forbidden => 403,
        Status::NotFound => 404,
        Status::PreconditionFailed => 412,
        Status::UnprocessableEntity => 422,
        Status::InternalServerError => 500,
    }
}

impl Status {
    /// The number of the status.
    pub fn code(&self) -> (code: u16)
        ensures
            code == status_code(*self),
    {
        match self {
            Status::Success => 200,
            Status::Created => 201,
            Status::NoContent => 204,
            Status::SeeOther => 303,
            Status::BadRequest => 400,
            Status::Unauthorized => 401,
            Status::Forbidden => 403,
            Status::NotFound => 404,
            Status::PreconditionFailed => 412,
            Status::UnprocessableEntity => 422,
            Status::InternalServerError => 500,
        }
    }
}

/// What an endpoint answers: a value, or the status of a failure.
pub type RocketResult<T> = Result<T, Status>;

/// A value that was created, and where it can be fetched.
#[derive(Debug, PartialEq, Eq)]
pub struct Created<T> {
    pub location: String,
    pub body: T,
}

/// The status that tells of a failure of the entity store: a missing row is not found,
/// anything else is an internal error.
pub open spec fn mapped(err: StoreError) -> Status {
    match err {
        StoreError::NotFound => Status::NotFound,
        StoreError::Internal => Status::InternalServerError,
    }
}

/// The status that tells of a failure of the entity store.
pub fn error_mapper(err: StoreError) -> (status: Status)
    ensures
        status == mapped(err),
{
    match err {
        StoreError::NotFound => Status::NotFound,
        _ => Status::InternalServerError,
    }
}

/// The answer that hands on what the store gave.
pub fn json_result<T>(result: Result<T, StoreError>) -> (response: RocketResult<T>)
    ensures
        result matches Ok(value) ==> response matches Ok(body) && body == value,
        result matches Err(err) ==> response matches Err(status) && status == mapped(err),
{
    match result {
        Ok(value) => Ok(value),
        Err(err) => Err(error_mapper(err)),
    }
}

/// The answer to a deletion: no content, whatever the store counted.
pub fn no_content<T>(result: Result<T, StoreError>) -> (response: RocketResult<Status>)
    ensures
        result is Ok ==> (response matches Ok(status) && status == Status::NoContent),
        result matches Err(err) ==> response matches Err(status) && status == mapped(err),
{
    match result {
        Ok(_) => Ok(Status::NoContent),
        Err(err) => Err(error_mapper(err)),
    }
}

/// Where the entity with the given id can be fetched, relative to its collection.
pub open spec fn location_of(id: i32) -> Seq<char> {
    "/"@ + decimal(id as int)
}

/// The answer to a creation: the new row, and where it can be fetched.
pub fn created<T>(result: Result<T, StoreError>, id: i32) -> (response: RocketResult<Created<T>>)
    ensures
        result matches Ok(value) ==> response matches Ok(made) && made.body == value
            && made.location@ == location_of(id),
        result matches Err(err) ==> response matches Err(status) && status == mapped(err),
{
    match result {
        Ok(value) => {
            let mut location = "/".to_owned();
            location.append(format_i64(id as i64).as_str());
            Ok(Created { location, body: value })
        },
        Err(err) => Err(error_mapper(err)),
    }
}

} // verus!
