//! Use case: create a catalog record from raw input. Validation happens
//! here, before any repository call; a request that fails validation is
//! rejected as a bad request and never reaches the store. The store's
//! own outcome is passed back verbatim, variant by variant.

use vstd::prelude::*;

verus! {

use crate::entities::{
    lemma_type_str_round_trip, str_of_type, type_of_str, valid_name, valid_number, valid_types,
    Pokemon, PokemonName, PokemonNumber, PokemonRec, PokemonTypes,
};
use crate::repository::{contains_number, rec_of, InsertError, Repository};

pub struct Request {
    pub number: u16,
    pub name: String,
    pub types: Vec<String>,
}

#[derive(Debug)]
pub struct Response {
    pub number: u16,
    pub name: String,
    pub types: Vec<String>,
}

pub enum Error {
    BadRequest,
    Conflict,
    Unknown,
}

/// A raw request is valid when each component passes its smart
/// constructor.
pub open spec fn valid_request(number: u16, name: Seq<char>, types: Seq<Seq<char>>) -> bool {
    &&& valid_number(number)
    &&& valid_name(name)
    &&& valid_types(types)
}

/// The record a valid raw request denotes.
pub open spec fn requested_rec(number: u16, name: Seq<char>, types: Seq<String>) -> PokemonRec {
    PokemonRec { number, name, types: types.map_values(|s: String| type_of_str(s@)) }
}

/// The response is the field-wise image of the record, tags in
/// canonical spelling and original order.
pub open spec fn response_matches(resp: Response, rec: PokemonRec) -> bool {
    &&& resp.number == rec.number
    &&& resp.name@ == rec.name
    &&& resp.types@.len() == rec.types.len()
    &&& forall|i: int|
        0 <= i < rec.types.len() ==> (#[trigger] resp.types@[i])@ == str_of_type(rec.types[i])
}

/// Map the repository's insert outcome onto the use case's result,
/// verbatim: a stored record becomes its echoed response, a conflict
/// stays a conflict, an unknown failure stays unknown. Nothing here can
/// be a bad request.
fn insert_result_to_response(res: Result<Pokemon, InsertError>) -> (r: Result<Response, Error>)
    ensures
        res matches Ok(p) ==> (r matches Ok(resp) && response_matches(resp, p@)),
        r is Ok <==> res is Ok,
        (r matches Err(Error::Conflict)) <==> (res matches Err(InsertError::Conflict)),
        (r matches Err(Error::Unknown)) <==> (res matches Err(InsertError::Unknown)),
{
    match res {
        Ok(pokemon) => {
            let Pokemon { number: pn, name: pname, types: ptypes } = pokemon;
            Ok(Response {
                number: pn.value(),
                name: pname.into_string(),
                types: ptypes.into_strings(),
            })
        },
        Err(InsertError::Conflict) => Err(Error::Conflict),
        Err(InsertError::Unknown) => Err(Error::Unknown),
    }
}

/// Validate the three raw components, then store the record and hand
/// the store's outcome back verbatim. A malformed request is reported
/// as `BadRequest`, exactly when some component is invalid; on success
/// the response echoes the stored record, which carries exactly the
/// requested values. On a backend whose state is knowable, a taken key
/// is exactly a conflict that changes nothing, and a fresh key is
/// exactly a success that appends the requested record.
pub fn execute<R: Repository>(repo: &mut R, req: Request) -> (r: Result<Response, Error>)
    ensures
        (r matches Err(Error::BadRequest)) <==> !valid_request(
            req.number,
            req.name@,
            req.types@.map_values(|s: String| s@),
        ),
        r matches Ok(resp) ==> {
            &&& resp.number == req.number
            &&& resp.name@ == req.name@
            &&& resp.types@.len() == req.types@.len()
            &&& forall|i: int|
                0 <= i < req.types@.len() ==> (#[trigger] resp.types@[i])@ == req.types@[i]@
        },
        old(repo).model() matches Some(s) ==> (valid_request(
            req.number,
            req.name@,
            req.types@.map_values(|s2: String| s2@),
        ) ==> ((contains_number(s, req.number) ==> (r matches Err(Error::Conflict)
            && final(repo).model() == Some(s))) && (!contains_number(s, req.number) ==> (r matches Ok(
            resp,
        ) && response_matches(resp, requested_rec(req.number, req.name@, req.types@))
            && final(repo).model() == Some(
            s.push(requested_rec(req.number, req.name@, req.types@)),
        ))))),
{
    let Request { number, name, types } = req;
    let ghost raw_types = types@.map_values(|s: String| s@);
    match (PokemonNumber::try_from(number), PokemonName::try_from(name), PokemonTypes::try_from(
        types,
    )) {
        (Ok(number), Ok(name), Ok(types)) => {
            proof {
                assert(rec_of(number, name, types) =~= requested_rec(
                    req.number,
                    req.name@,
                    req.types@,
                ));
            }
            let res = repo.insert(number, name.clone(), types.clone());
            let out = insert_result_to_response(res);
            proof {
                if out is Ok {
                    let resp = out->Ok_0;
                    assert forall|i: int| 0 <= i < raw_types.len() implies (#[trigger] resp.types@[i])@
                        == raw_types[i] by {
                        lemma_type_str_round_trip(raw_types[i]);
                    }
                }
            }
            out
        },
        _ => Err(Error::BadRequest),
    }
}

} // verus!
