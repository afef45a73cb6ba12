//! Use case: delete one catalog record by raw key. The key is validated
//! before the store is touched: an out-of-range key is a bad request and
//! never reaches the backend. The store's own outcome is passed back
//! verbatim, variant by variant.

use vstd::prelude::*;

verus! {

use crate::entities::{valid_number, PokemonNumber};
use crate::repository::{contains_number, DeleteError, Repository};

#[derive(Debug)]
pub enum Error {
    Unknown,
    BadRequest,
    NotFound,
}

pub struct Request {
    pub number: u16,
}

/// Map the repository's delete outcome onto the use case's result,
/// verbatim: success stays success, not-found stays not-found, an
/// unknown failure stays unknown. Nothing here can be a bad request.
fn delete_result_to_response(res: Result<(), DeleteError>) -> (r: Result<(), Error>)
    ensures
        r is Ok <==> res is Ok,
        (r matches Err(Error::NotFound)) <==> (res matches Err(DeleteError::NotFound)),
        (r matches Err(Error::Unknown)) <==> (res matches Err(DeleteError::Unknown)),
{
    match res {
        Ok(()) => Ok(()),
        Err(DeleteError::NotFound) => Err(Error::NotFound),
        Err(DeleteError::Unknown) => Err(Error::Unknown),
    }
}

/// Validate the raw key, ask the backend to remove the record, and hand
/// the backend's outcome back verbatim. `BadRequest` comes exactly when
/// the key is out of range. On a backend whose state is knowable, an
/// absent key is exactly not-found and changes nothing, and a present
/// key is exactly a success that removes that one record.
pub fn execute<R: Repository>(repo: &mut R, req: Request) -> (r: Result<(), Error>)
    ensures
        (r matches Err(Error::BadRequest)) <==> !valid_number(req.number),
        old(repo).model() matches Some(s) ==> (valid_number(req.number) ==> ((!contains_number(
            s,
            req.number,
        ) ==> (r matches Err(Error::NotFound) && final(repo).model() == Some(s))) && (
        contains_number(s, req.number) ==> (r is Ok && exists|i: int|
            0 <= i < s.len() && (#[trigger] s[i]).number == req.number && final(repo).model()
                == Some(s.remove(i)))))),
{
    match PokemonNumber::try_from(req.number) {
        Ok(number) => delete_result_to_response(repo.delete(number)),
        Err(_) => Err(Error::BadRequest),
    }
}

} // verus!
