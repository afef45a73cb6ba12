//! Use case: read the whole catalog. The backend's ordering guarantee is
//! surfaced unchanged: responses come in strictly ascending key order,
//! one per fetched record, nothing added, dropped or reordered.

use vstd::prelude::*;

verus! {

use crate::entities::{str_of_type, valid_name, Pokemon, PokemonRec};
use crate::repository::{sorted_by_number, views, FetchAllError, Repository};

#[derive(Debug)]
pub enum Error {
    Unknown,
}

pub struct Response {
    pub number: u16,
    pub name: String,
    pub types: Vec<String>,
}

/// The response is the field-wise image of the record, tags in
/// canonical spelling and original order.
pub open spec fn response_matches(resp: Response, rec: PokemonRec) -> bool {
    &&& resp.number == rec.number
    &&& resp.name@ == rec.name
    &&& resp.types@.len() == rec.types.len()
    &&& forall|i: int|
        0 <= i < rec.types.len() ==> (#[trigger] resp.types@[i])@ == str_of_type(rec.types[i])
}

/// The response list is the field-wise image of the record sequence.
pub open spec fn responses_match(resps: Seq<Response>, recs: Seq<PokemonRec>) -> bool {
    &&& resps.len() == recs.len()
    &&& forall|i: int| 0 <= i < recs.len() ==> response_matches(#[trigger] resps[i], recs[i])
}

/// Turn the fetched records into responses, one per record, field-wise,
/// keeping the order.
fn to_responses(pokemons: Vec<Pokemon>) -> (out: Vec<Response>)
    ensures
        responses_match(out@, views(pokemons@)),
{
    let ghost fetched = views(pokemons@);
    let mut out: Vec<Response> = Vec::new();
    let mut rest = pokemons;
    while rest.len() > 0
        invariant
            out@.len() + rest@.len() == fetched.len(),
            forall|i: int|
                0 <= i < rest@.len() ==> (#[trigger] rest@[i])@ == fetched[out@.len() + i],
            forall|i: int|
                0 <= i < out@.len() ==> response_matches(#[trigger] out@[i], fetched[i]),
        decreases rest@.len(),
    {
        let ghost old_rest = rest@;
        let p = rest.remove(0);
        let Pokemon { number: pn, name: pname, types: ptypes } = p;
        out.push(Response {
            number: pn.value(),
            name: pname.into_string(),
            types: ptypes.into_strings(),
        });
        proof {
            assert(forall|i: int| 0 <= i < rest@.len() ==> #[trigger] rest@[i] == old_rest[i + 1]);
        }
    }
    out
}

/// Read every record and echo the list. On success the responses carry
/// well-formed contents and their keys are strictly ascending, whatever
/// order the backend stores them in; the backend's failure is handed
/// back verbatim as the one unknown error. On a backend whose state is
/// knowable, the result is exactly that state's records, arranged in
/// ascending key order.
pub fn execute<R: Repository>(repo: &R) -> (r: Result<Vec<Response>, Error>)
    ensures
        r matches Ok(v) ==> {
            &&& forall|i: int, j: int| 0 <= i < j < v@.len() ==> v@[i].number < v@[j].number
            &&& forall|i: int| 0 <= i < v@.len() ==> valid_name((#[trigger] v@[i]).name@)
            &&& forall|i: int| 0 <= i < v@.len() ==> (#[trigger] v@[i]).types@.len() > 0
        },
        repo.model() matches Some(s) ==> (r matches Ok(v) && v@.len() == s.len() && exists|
            recs: Seq<PokemonRec>,
        |
            recs.to_multiset() == s.to_multiset() && #[trigger] sorted_by_number(recs)
                && responses_match(v@, recs)),
{
    match repo.fetch_all() {
        Ok(pokemons) => {
            let out = to_responses(pokemons);
            proof {
                let fetched = views(pokemons@);
                assert forall|i: int, j: int| 0 <= i < j < out@.len() implies out@[i].number
                    < out@[j].number by {
                    assert(sorted_by_number(fetched));
                    assert(response_matches(out@[i], fetched[i]));
                    assert(response_matches(out@[j], fetched[j]));
                    assert(fetched[i].number < fetched[j].number);
                }
                assert forall|i: int| 0 <= i < out@.len() implies valid_name(
                    (#[trigger] out@[i]).name@,
                ) && out@[i].types@.len() > 0 by {
                    assert(pokemons@[i].wf());
                    assert(response_matches(out@[i], fetched[i]));
                }
            }
            Ok(out)
        },
        Err(FetchAllError::Unknown) => Err(Error::Unknown),
    }
}

} // verus!
