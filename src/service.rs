use vstd::prelude::*;
use crate::records::{Partial, Record};
use crate::store::AppState;

verus! {

/// The answer of a record service to one request.
#[derive(Debug, Clone, PartialEq, Eq)]
pub enum Reply<T> {
    /// 200, with the stored record as the body.
    Found(T),
    /// 201: the record was stored.
    Created,
    /// 204: the request was carried out and there is no body.
    NoContent,
    /// 400: the body of the request was not a well-formed record.
    BadRequest,
    /// 404: no record is stored under the key.
    NotFound,
}

impl<T> Reply<T> {
    /// The HTTP status code of the reply.
    pub fn status(&self) -> (r: u16)
        ensures
            r == match self {
                Reply::Found(_) => 200u16,
                Reply::Created => 201u16,
                Reply::NoContent => 204u16,
                Reply::BadRequest => 400u16,
                Reply::NotFound => 404u16,
            },
    {
        match self {
            Reply::Found(_) => 200,
            Reply::Created => 201,
            Reply::NoContent => 204,
            Reply::BadRequest => 400,
            Reply::NotFound => 404,
        }
    }
}

/// `GET /{resource}/{name}`: the stored record, or not found.
pub fn get_record<T: Record>(state: &AppState<T>, name: &str) -> (r: Reply<T>)
    ensures
        state@.contains_key(name@) ==> (r matches Reply::Found(v) && v@ == state@[name@]),
        !state@.contains_key(name@) ==> (r matches Reply::NotFound),
{
    match state.get(name) {
        Some(v) => Reply::Found(v),
        None => Reply::NotFound,
    }
}

/// `POST /{resource}/{name}`: stores the full record in the body, replacing
/// any record there. `body` is `None` where the body did not decode; then
/// nothing is stored.
pub fn post_record<T: Record>(state: &mut AppState<T>, name: &str, body: Option<T>) -> (r: Reply<T>)
    ensures
        match body {
            Some(v) => (r matches Reply::Created) && final(state)@ == old(state)@.insert(name@, v@),
            None => (r matches Reply::BadRequest) && final(state)@ == old(state)@,
        },
{
    match body {
        Some(v) => {
            state.set(name, &v);
            Reply::Created
        },
        None => Reply::BadRequest,
    }
}

/// `PATCH /{resource}/{name}`: merges the partial record in the body onto
/// the stored one. An absent key is not found and nothing changes; a body
/// that did not decode (`None`) is a bad request and nothing changes.
pub fn patch_record<T: Record, U: Partial<T> + Record>(
    state: &mut AppState<T>,
    name: &str,
    body: Option<U>,
) -> (r: Reply<T>)
    ensures
        match body {
            Some(p) => if old(state)@.contains_key(name@) {
                &&& r matches Reply::NoContent
                &&& final(state)@ == old(state)@.insert(
                    name@,
                    U::merged(p@, old(state)@[name@]),
                )
            } else {
                (r matches Reply::NotFound) && final(state)@ == old(state)@
            },
            None => (r matches Reply::BadRequest) && final(state)@ == old(state)@,
        },
{
    match body {
        Some(p) => match state.update(name, &p) {
            Some(_) => Reply::NoContent,
            None => Reply::NotFound,
        },
        None => Reply::BadRequest,
    }
}

/// `DELETE /{resource}/{name}`: removes the record if there is one; the
/// reply is the same either way.
pub fn delete_record<T: Record>(state: &mut AppState<T>, name: &str) -> (r: Reply<T>)
    ensures
        r matches Reply::NoContent,
        final(state)@ == old(state)@.remove(name@),
{
    state.rm(name);
    Reply::NoContent
}

} // verus!
