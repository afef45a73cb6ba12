//! The remote backend's verified core: an adapter over a remote
//! tabular-data service reached through authenticated HTTP calls. The
//! network round trips themselves happen outside this library; what
//! lives here is everything that can be decided from plain values — the
//! request URLs, the authentication header, and the interpretation of
//! the decoded record lists that come back, re-validated all-or-nothing
//! through the entity constructors.

use vstd::prelude::*;

verus! {

use vstd::string::StringExecFns;
use crate::entities::{
    valid_name, valid_number, valid_types, type_of_str, Pokemon, PokemonName, PokemonNumber,
    PokemonTypes, PokemonRec,
};
use crate::repository::{
    sort_pokemons, sorted_by_number, unique_numbers, views, DeleteError, FetchAllError,
    FetchOneError, InsertError,
};

/// The decimal digit character for one digit value.
pub open spec fn dec_digit(d: nat) -> char {
    if d == 0 {
        '0'
    } else if d == 1 {
        '1'
    } else if d == 2 {
        '2'
    } else if d == 3 {
        '3'
    } else if d == 4 {
        '4'
    } else if d == 5 {
        '5'
    } else if d == 6 {
        '6'
    } else if d == 7 {
        '7'
    } else if d == 8 {
        '8'
    } else {
        '9'
    }
}

/// The decimal spelling of a number, most significant digit first.
pub open spec fn dec_rep(n: nat) -> Seq<char>
    decreases n,
{
    if n < 10 {
        seq![dec_digit(n)]
    } else {
        dec_rep(n / 10).push(dec_digit(n % 10))
    }
}

/// The numeric value a digit character denotes.
pub open spec fn digit_val(c: char) -> nat {
    if c == '0' {
        0
    } else if c == '1' {
        1
    } else if c == '2' {
        2
    } else if c == '3' {
        3
    } else if c == '4' {
        4
    } else if c == '5' {
        5
    } else if c == '6' {
        6
    } else if c == '7' {
        7
    } else if c == '8' {
        8
    } else {
        9
    }
}

/// The numeric value a digit sequence spells.
pub open spec fn dec_val(s: Seq<char>) -> nat
    decreases s.len(),
{
    if s.len() == 0 {
        0
    } else {
        dec_val(s.drop_last()) * 10 + digit_val(s.last())
    }
}

/// Law: the decimal spelling of a number spells that number back.
pub proof fn lemma_dec_rep_round_trip(n: nat)
    ensures
        dec_val(dec_rep(n)) == n,
    decreases n,
{
    if n < 10 {
        assert(dec_rep(n).drop_last() =~= Seq::<char>::empty());
        assert(dec_val(Seq::<char>::empty()) == 0);
        assert(digit_val(dec_digit(n)) == n);
    } else {
        lemma_dec_rep_round_trip(n / 10);
        assert(dec_rep(n).drop_last() =~= dec_rep(n / 10));
        assert(dec_rep(n).last() == dec_digit(n % 10));
        assert(digit_val(dec_digit(n % 10)) == n % 10);
        vstd::arithmetic::div_mod::lemma_fundamental_div_mod(n as int, 10);
    }
}

/// The one-character string for one digit value.
fn digit_label(d: u16) -> (r: &'static str)
    requires
        d < 10,
    ensures
        r@ == seq![dec_digit(d as nat)],
{
    proof {
        reveal_strlit("0");
        reveal_strlit("1");
        reveal_strlit("2");
        reveal_strlit("3");
        reveal_strlit("4");
        reveal_strlit("5");
        reveal_strlit("6");
        reveal_strlit("7");
        reveal_strlit("8");
        reveal_strlit("9");
    }
    let r = match d {
        0 => "0",
        1 => "1",
        2 => "2",
        3 => "3",
        4 => "4",
        5 => "5",
        6 => "6",
        7 => "7",
        8 => "8",
        _ => "9",
    };
    proof {
        assert(r@ =~= seq![dec_digit(d as nat)]);
    }
    r
}

/// Append the decimal spelling of `n` to `s`.
fn push_decimal(s: &mut String, n: u16)
    ensures
        final(s)@ == old(s)@ + dec_rep(n as nat),
    decreases n,
{
    if n >= 10 {
        proof {
            vstd::arithmetic::div_mod::lemma_div_is_strictly_smaller(n as int, 10);
        }
        push_decimal(s, n / 10);
    }
    let d: u16 = n % 10;
    s.append(digit_label(d));
    proof {
        if n >= 10 {
            assert(final(s)@ =~= old(s)@ + dec_rep(n as nat));
        } else {
            assert(final(s)@ =~= old(s)@ + dec_rep(n as nat));
        }
    }
}

/// The decimal spelling of a number as a fresh string.
pub fn u16_to_decimal(n: u16) -> (r: String)
    ensures
        r@ == dec_rep(n as nat),
{
    let mut s = String::new();
    push_decimal(&mut s, n);
    proof {
        assert(s@ =~= dec_rep(n as nat));
    }
    s
}

/// One decoded row of the remote table: the remote row identifier plus
/// the three raw entity fields, exactly as the service handed them back.
pub struct AirtableRecord {
    pub id: String,
    pub number: u16,
    pub name: String,
    pub types: Vec<String>,
}

/// The mathematical content a record denotes once parsed.
pub open spec fn raw_rec(rec: AirtableRecord) -> PokemonRec {
    PokemonRec {
        number: rec.number,
        name: rec.name@,
        types: rec.types@.map_values(|s: String| type_of_str(s@)),
    }
}

/// The mathematical content of a whole decoded record list.
pub open spec fn mapped_recs(records: Seq<AirtableRecord>) -> Seq<PokemonRec> {
    records.map_values(|rec: AirtableRecord| raw_rec(rec))
}

/// Whether a decoded record passes the entity constructors.
pub open spec fn valid_record(rec: AirtableRecord) -> bool {
    &&& valid_number(rec.number)
    &&& valid_name(rec.name@)
    &&& valid_types(rec.types@.map_values(|s: String| s@))
}

/// Re-validate one decoded record through the entity constructors,
/// all-or-nothing.
fn parse_record(rec: AirtableRecord) -> (r: Result<Pokemon, ()>)
    ensures
        r is Ok <==> valid_record(rec),
        r matches Ok(p) ==> p@ == raw_rec(rec) && p.wf(),
{
    let AirtableRecord { id: _, number, name, types } = rec;
    match (PokemonNumber::try_from(number), PokemonName::try_from(name), PokemonTypes::try_from(
        types,
    )) {
        (Ok(n), Ok(nm), Ok(ts)) => {
            let p = Pokemon::new(n, nm, ts);
            proof {
                assert(p@.types =~= raw_rec(rec).types);
            }
            Ok(p)
        },
        _ => Err(()),
    }
}

/// The remote backend's connection parameters: the table endpoint and
/// the bearer authentication header. Immutable once built; concurrent
/// callers share nothing else.
pub struct AirtableRepository {
    pub url: String,
    pub auth_header: String,
}

impl AirtableRepository {
    /// An adapter over an explicit endpoint, with the bearer header
    /// built from the key.
    pub fn new_test(url: &str, apikey: &str) -> (r: Self)
        ensures
            r.url@ == url@,
            r.auth_header@ == "Bearer "@ + apikey@,
    {
        let mut auth_header = String::from_str("Bearer ");
        auth_header.append(apikey);
        AirtableRepository { url: String::from_str(url), auth_header }
    }

    /// The service's table endpoint for one workspace.
    pub fn base_url(workspace_id: &str) -> (r: String)
        ensures
            r@ == "https://api.airtable.com/v0/"@ + workspace_id@ + "/pokemons"@,
    {
        let mut url = String::from_str("https://api.airtable.com/v0/");
        url.append(workspace_id);
        url.append("/pokemons");
        proof {
            assert(url@ =~= "https://api.airtable.com/v0/"@ + workspace_id@ + "/pokemons"@);
        }
        url
    }

    /// The list URL filtered to one key.
    pub fn filter_url(&self, number: u16) -> (r: String)
        ensures
            r@ == self.url@ + "?filterByFormula=number%3D"@ + dec_rep(number as nat),
    {
        let mut url = self.url.clone();
        url.append("?filterByFormula=number%3D");
        let digits = u16_to_decimal(number);
        url.append(digits.as_str());
        proof {
            assert(url@ =~= self.url@ + "?filterByFormula=number%3D"@ + dec_rep(number as nat));
        }
        url
    }

    /// The unfiltered list URL, asking the service to sort by key.
    pub fn sorted_url(&self) -> (r: String)
        ensures
            r@ == self.url@ + "?sort%5B0%5D%5Bfield%5D=number"@,
    {
        let mut url = self.url.clone();
        url.append("?sort%5B0%5D%5Bfield%5D=number");
        url
    }

    /// The URL of one remote row, for the delete call.
    pub fn record_url(&self, id: &str) -> (r: String)
        ensures
            r@ == self.url@ + "/"@ + id@,
    {
        let mut url = self.url.clone();
        url.append("/");
        url.append(id);
        proof {
            assert(url@ =~= self.url@ + "/"@ + id@);
        }
        url
    }
}

/// Decide an insert's duplicate check from the filtered list that came
/// back: any record at all means the key is taken.
pub fn insert_check(records: &Vec<AirtableRecord>) -> (r: Result<(), InsertError>)
    ensures
        r is Ok <==> records@.len() == 0,
        r matches Err(e) ==> e is Conflict,
{
    if records.len() == 0 {
        Ok(())
    } else {
        Err(InsertError::Conflict)
    }
}

/// Decide a delete's target from the filtered list that came back: no
/// record means the key is absent, otherwise the first record names the
/// remote row to delete.
pub fn delete_lookup(records: &Vec<AirtableRecord>) -> (r: Result<String, DeleteError>)
    ensures
        (r matches Err(DeleteError::NotFound)) <==> records@.len() == 0,
        r matches Ok(id) ==> records@.len() > 0 && id@ == records@[0].id@,
{
    if records.len() == 0 {
        Err(DeleteError::NotFound)
    } else {
        Ok(records[0].id.clone())
    }
}

/// Interpret a filtered fetch's decoded records as a fetch-one result:
/// an empty list means the key is absent; otherwise the first record is
/// re-validated, and a record the constructors reject aborts the whole
/// operation as unknown.
pub fn fetch_one_from_records(records: Vec<AirtableRecord>) -> (r: Result<Pokemon, FetchOneError>)
    ensures
        (r matches Err(FetchOneError::NotFound)) <==> records@.len() == 0,
        records@.len() > 0 && valid_record(records@[0]) ==> (r matches Ok(p) && p@ == raw_rec(
            records@[0],
        ) && p.wf()),
        records@.len() > 0 && !valid_record(records@[0]) ==> r matches Err(FetchOneError::Unknown),
{
    let mut rest = records;
    if rest.len() == 0 {
        return Err(FetchOneError::NotFound);
    }
    let rec = rest.remove(0);
    match parse_record(rec) {
        Ok(p) => Ok(p),
        Err(()) => Err(FetchOneError::Unknown),
    }
}

/// Interpret an unfiltered fetch's decoded records as a fetch-all
/// result: every record is re-validated, a store handing back two rows
/// with one key is rejected, and the survivors are presented in
/// ascending key order whatever order the service used. No partial
/// lists: one bad record fails the whole operation.
pub fn fetch_all_from_records(records: Vec<AirtableRecord>) -> (r: Result<
    Vec<Pokemon>,
    FetchAllError,
>)
    ensures
        r is Ok <==> (unique_numbers(mapped_recs(records@)) && forall|i: int|
            0 <= i < records@.len() ==> valid_record(#[trigger] records@[i])),
        r matches Ok(v) ==> {
            &&& views(v@).to_multiset() == mapped_recs(records@).to_multiset()
            &&& sorted_by_number(views(v@))
            &&& v@.len() == records@.len()
            &&& forall|i: int| 0 <= i < v@.len() ==> (#[trigger] v@[i]).wf()
        },
{
    let ghost all = records@;
    let ghost mapped = mapped_recs(records@);
    let mut rest = records;
    let mut pokemons: Vec<Pokemon> = Vec::new();
    while rest.len() > 0
        invariant
            pokemons@.len() + rest@.len() == all.len(),
            mapped == mapped_recs(all),
            all == records@,
            forall|i: int| 0 <= i < rest@.len() ==> #[trigger] rest@[i] == all[pokemons@.len() + i],
            forall|i: int| 0 <= i < pokemons@.len() ==> valid_record(#[trigger] all[i]),
            views(pokemons@) =~= mapped.subrange(0, pokemons@.len() as int),
            forall|k: int| 0 <= k < pokemons@.len() ==> (#[trigger] pokemons@[k]).wf(),
        decreases rest@.len(),
    {
        let ghost done = pokemons@.len() as int;
        let ghost old_rest = rest@;
        let rec = rest.remove(0);
        proof {
            assert(rec == all[done]);
            assert(forall|i: int| 0 <= i < rest@.len() ==> #[trigger] rest@[i] == old_rest[i + 1]);
        }
        match parse_record(rec) {
            Ok(p) => {
                pokemons.push(p);
                proof {
                    assert(views(pokemons@) =~= mapped.subrange(0, done + 1));
                }
            },
            Err(()) => {
                proof {
                    assert(!valid_record(all[done]));
                    assert(!(forall|i2: int|
                        0 <= i2 < records@.len() ==> valid_record(#[trigger] records@[i2]))) by {
                        assert(records@[done] == all[done]);
                    }
                }
                return Err(FetchAllError::Unknown);
            },
        }
    }
    proof {
        assert(views(pokemons@) =~= mapped);
    }
    // defensively reject a service handing one key back twice
    let n = pokemons.len();
    let mut i: usize = 0;
    while i < n
        invariant
            n == pokemons@.len(),
            i <= n,
            views(pokemons@) =~= mapped,
            forall|i2: int| 0 <= i2 < all.len() ==> valid_record(#[trigger] all[i2]),
            all.len() == n,
            all == records@,
            mapped == mapped_recs(all),
            forall|k: int| 0 <= k < pokemons@.len() ==> (#[trigger] pokemons@[k]).wf(),
            forall|a: int, b: int|
                0 <= a < b < i ==> views(pokemons@)[a].number != views(pokemons@)[b].number,
        decreases n - i,
    {
        let mut j: usize = 0;
        while j < i
            invariant
                i < n,
                n == pokemons@.len(),
                j <= i,
                views(pokemons@) =~= mapped,
                all == records@,
                all.len() == n,
                mapped == mapped_recs(all),
                forall|a: int, b: int|
                    0 <= a < b < i ==> views(pokemons@)[a].number != views(pokemons@)[b].number,
                forall|a: int|
                    0 <= a < j ==> views(pokemons@)[a].number != views(pokemons@)[i as int].number,
            decreases i - j,
        {
            if pokemons[j].number.value() == pokemons[i].number.value() {
                proof {
                    assert(views(pokemons@)[j as int].number == views(pokemons@)[i as int].number);
                    assert(mapped_recs(records@)[j as int].number == mapped_recs(
                        records@,
                    )[i as int].number);
                    assert(!unique_numbers(mapped_recs(records@)));
                }
                return Err(FetchAllError::Unknown);
            }
            j = j + 1;
        }
        i = i + 1;
    }
    proof {
        assert forall|a: int, b: int|
            0 <= a < views(pokemons@).len() && 0 <= b < views(pokemons@).len() && a != b implies
            views(pokemons@)[a].number != views(pokemons@)[b].number by {
            let lo: int = if a < b { a } else { b };
            let hi: int = if a < b { b } else { a };
            assert(views(pokemons@)[lo].number != views(pokemons@)[hi].number);
        }
    }
    let sorted = sort_pokemons(pokemons);
    proof {
        broadcast use vstd::seq_lib::group_to_multiset_ensures;

        let ghost built = views(pokemons@);
        assert forall|k: int| 0 <= k < sorted@.len() implies (#[trigger] sorted@[k]).wf() by {
            assert(views(sorted@).contains(views(sorted@)[k]));
            assert(built.to_multiset().count(views(sorted@)[k]) > 0);
            assert(built.contains(views(sorted@)[k]));
            let j = choose|j: int| 0 <= j < built.len() && built[j] == views(sorted@)[k];
            assert(pokemons@[j].wf());
            assert(sorted@[k]@ == pokemons@[j]@);
        }
    }
    Ok(sorted)
}

} // verus!
