//! Use case: read one catalog record by raw key. The key is validated
//! before the store is consulted: an out-of-range key is a bad request
//! and never reaches the backend. The store's own outcome is passed
//! back verbatim, variant by variant.

use vstd::prelude::*;

verus! {

use crate::entities::{
    str_of_type, valid_name, valid_number, valid_type_str, Pokemon, PokemonNumber, PokemonRec,
};
use crate::repository::{contains_number, FetchOneError, Repository};

#[derive(Debug)]
pub enum Error {
    Unknown,
    BadRequest,
    NotFound,
}

pub struct Request {
    number: u16,
}

impl View for Request {
    type V = u16;

    closed spec fn view(&self) -> u16 {
        self.number
    }
}

impl Request {
    pub fn new(number: u16) -> (r: Self)
        ensures
            r@ == number,
    {
        Request { number }
    }
}

#[derive(Debug)]
pub struct Response {
    pub number: u16,
    pub name: String,
    pub types: Vec<String>,
}

/// The response is the field-wise image of the record, tags in
/// canonical spelling and original order.
pub open spec fn response_matches(resp: Response, rec: PokemonRec) -> bool {
    &&& resp.number == rec.number
    &&& resp.name@ == rec.name
    &&& resp.types@.len() == rec.types.len()
    &&& forall|i: int|
        0 <= i < rec.types.len() ==> (#[trigger] resp.types@[i])@ == str_of_type(rec.types[i])
}

/// Map the repository's fetch outcome onto the use case's result,
/// verbatim: a found record becomes its echoed response, not-found
/// stays not-found, an unknown failure stays unknown. Nothing here can
/// be a bad request.
fn fetch_result_to_response(res: Result<Pokemon, FetchOneError>) -> (r: Result<Response, Error>)
    ensures
        res matches Ok(p) ==> (r matches Ok(resp) && response_matches(resp, p@)),
        r is Ok <==> res is Ok,
        (r matches Err(Error::NotFound)) <==> (res matches Err(FetchOneError::NotFound)),
        (r matches Err(Error::Unknown)) <==> (res matches Err(FetchOneError::Unknown)),
{
    match res {
        Ok(pokemon) => {
            let Pokemon { number: pn, name: pname, types: ptypes } = pokemon;
            Ok(Response {
                number: pn.value(),
                name: pname.into_string(),
                types: ptypes.into_strings(),
            })
        },
        Err(FetchOneError::NotFound) => Err(Error::NotFound),
        Err(FetchOneError::Unknown) => Err(Error::Unknown),
    }
}

/// Validate the raw key, look it up, and hand the store's outcome back
/// verbatim. `BadRequest` comes exactly when the key is out of range; a
/// found record is echoed with the requested key and well-formed
/// contents. On a backend whose state is knowable, an absent key is
/// exactly not-found and a present key is exactly its record.
pub fn execute<R: Repository>(repo: &R, req: Request) -> (r: Result<Response, Error>)
    ensures
        (r matches Err(Error::BadRequest)) <==> !valid_number(req@),
        r matches Ok(resp) ==> {
            &&& resp.number == req@
            &&& valid_name(resp.name@)
            &&& resp.types@.len() > 0
            &&& forall|i: int| 0 <= i < resp.types@.len() ==> valid_type_str((#[trigger] resp.types@[i])@)
        },
        repo.model() matches Some(s) ==> (valid_number(req@) ==> ((!contains_number(s, req@)
            ==> (r matches Err(Error::NotFound))) && (contains_number(s, req@) ==> (r matches Ok(
            resp,
        ) && exists|i: int|
            0 <= i < s.len() && s[i].number == req@ && response_matches(resp, #[trigger] s[i]))))),
{
    match PokemonNumber::try_from(req.number) {
        Ok(number) => {
            let res = repo.fetch_one(number);
            let out = fetch_result_to_response(res);
            proof {
                if out is Ok {
                    let resp = out->Ok_0;
                    let p = res->Ok_0;
                    assert forall|i: int| 0 <= i < resp.types@.len() implies valid_type_str(
                        (#[trigger] resp.types@[i])@,
                    ) by {
                        let t = p@.types[i];
                        assert(str_of_type(t) == "Electric"@ || str_of_type(t) == "Fire"@);
                    }
                }
            }
            out
        },
        Err(_) => Err(Error::BadRequest),
    }
}

} // verus!
