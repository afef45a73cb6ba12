//! The storage boundary: the four repository operations, their shared
//! error taxonomy, and the vocabulary that every backend's contract is
//! stated in. All backends implement exactly this contract: conflicts are
//! detected by key equality only, fetch-all results are in ascending key
//! order whatever the storage order, and an absent key is reported as
//! not-found, never as an unknown failure.

use vstd::prelude::*;

verus! {

use crate::entities::{Pokemon, PokemonName, PokemonNumber, PokemonRec, PokemonTypes};

#[derive(Debug)]
pub enum InsertError {
    Conflict,
    Unknown,
}

#[derive(Debug)]
pub enum FetchAllError {
    Unknown,
}

#[derive(Debug)]
pub enum FetchOneError {
    Unknown,
    NotFound,
}

#[derive(Debug)]
pub enum DeleteError {
    Unknown,
    NotFound,
}

/// The record that storing the given components must produce.
pub open spec fn rec_of(number: PokemonNumber, name: PokemonName, types: PokemonTypes) -> PokemonRec {
    PokemonRec { number: number@, name: name@, types: types@ }
}

/// The mathematical content of a sequence of records.
pub open spec fn views(s: Seq<Pokemon>) -> Seq<PokemonRec> {
    s.map_values(|p: Pokemon| p@)
}

/// Records in strictly ascending key order.
pub open spec fn sorted_by_number(s: Seq<PokemonRec>) -> bool {
    forall|i: int, j: int| 0 <= i < j < s.len() ==> s[i].number < s[j].number
}

/// No two records carry the same key.
pub open spec fn unique_numbers(s: Seq<PokemonRec>) -> bool {
    forall|i: int, j: int| 0 <= i < s.len() && 0 <= j < s.len() && i != j ==> s[i].number != s[j].number
}

/// Some record in `s` carries the key `n`.
pub open spec fn contains_number(s: Seq<PokemonRec>, n: u16) -> bool {
    exists|i: int| 0 <= i < s.len() && s[i].number == n
}

/// Distinct keys make distinct records.
pub proof fn lemma_unique_numbers_no_duplicates(s: Seq<PokemonRec>)
    requires
        unique_numbers(s),
    ensures
        s.no_duplicates(),
{
}

/// Present fetched records in ascending key order: selection sort by key.
/// The result is a rearrangement of the input; when no two input records
/// share a key, the order is strictly ascending.
pub fn sort_pokemons(input: Vec<Pokemon>) -> (out: Vec<Pokemon>)
    requires
        unique_numbers(views(input@)),
    ensures
        views(out@).to_multiset() == views(input@).to_multiset(),
        sorted_by_number(views(out@)),
        out@.len() == input@.len(),
{
    let ghost full: Seq<PokemonRec> = views(input@);
    let mut rest = input;
    let mut out: Vec<Pokemon> = Vec::new();
    proof {
        broadcast use vstd::seq_lib::group_to_multiset_ensures;
        broadcast use vstd::multiset::group_multiset_axioms;

        lemma_unique_numbers_no_duplicates(full);
        full.lemma_multiset_has_no_duplicates();
        assert(views(rest@) =~= full);
        assert(views(out@) =~= Seq::<PokemonRec>::empty());
        assert(views(out@).to_multiset().add(views(rest@).to_multiset()) =~= full.to_multiset());
    }
    while rest.len() > 0
        invariant
            views(out@).to_multiset().add(views(rest@).to_multiset()) == full.to_multiset(),
            out@.len() + rest@.len() == full.len(),
            sorted_by_number(views(out@)),
            unique_numbers(full),
            forall|x: PokemonRec| full.to_multiset().count(x) <= 1,
            forall|i: int, j: int|
                0 <= i < out@.len() && 0 <= j < rest@.len() ==> views(out@)[i].number < views(
                    rest@,
                )[j].number,
        decreases rest@.len(),
    {
        broadcast use vstd::seq_lib::group_to_multiset_ensures;
        broadcast use vstd::multiset::group_multiset_axioms;
        // find the position of the smallest remaining key
        let mut m: usize = 0;
        let mut k: usize = 1;
        while k < rest.len()
            invariant
                0 < rest@.len(),
                m < k <= rest@.len(),
                forall|j: int| 0 <= j < k ==> views(rest@)[m as int].number <= views(rest@)[j].number,
            decreases rest@.len() - k,
        {
            if rest[k].number.value() < rest[m].number.value() {
                m = k;
            }
            k = k + 1;
        }
        let ghost old_out = out@;
        let ghost old_rest = rest@;
        let p = rest.remove(m);
        proof {
            // the remaining records all carry keys strictly above p's
            assert forall|j: int| 0 <= j < rest@.len() implies p@.number < views(rest@)[j].number by {
                let jr: int = if j < m { j } else { j + 1 };
                assert(rest@[j] == old_rest[jr]);
                assert(views(old_rest)[m as int].number <= views(old_rest)[jr].number);
                if views(old_rest)[jr].number == p@.number {
                    // two distinct positions of the input would share a key
                    assert(views(old_rest).to_multiset().count(views(old_rest)[jr]) <= full.to_multiset().count(views(old_rest)[jr]));
                    if views(old_rest)[jr] == p@ {
                        assert(views(old_rest).remove(m as int).to_multiset() == views(old_rest).to_multiset().remove(p@));
                        assert(views(old_rest).remove(m as int)[j] == views(old_rest)[jr]);
                        assert(views(old_rest).remove(m as int).to_multiset().count(p@) >= 1);
                        assert(views(old_rest).to_multiset().count(p@) >= 2);
                        assert(false);
                    } else {
                        let i1 = choose|i: int| 0 <= i < full.len() && full[i] == views(old_rest)[jr];
                        let i2 = choose|i: int| 0 <= i < full.len() && full[i] == p@;
                        assert(full.to_multiset().count(views(old_rest)[jr]) >= 1);
                        assert(full.to_multiset().count(p@) >= 1);
                        assert(full.contains(views(old_rest)[jr]));
                        assert(full.contains(p@));
                        assert(full[i1] == views(old_rest)[jr] && full[i2] == p@ && i1 != i2);
                        assert(false);
                    }
                }
            }
            assert(views(rest@) =~= views(old_rest).remove(m as int));
        }
        out.push(p);
        proof {
            assert(views(out@) =~= views(old_out).push(p@));
            assert(views(out@).to_multiset() == views(old_out).to_multiset().insert(p@));
            assert(views(rest@).to_multiset() == views(old_rest).to_multiset().remove(p@));
            assert(views(old_rest).to_multiset().count(p@) >= 1);
            assert(views(out@).to_multiset().add(views(rest@).to_multiset()) =~= views(
                old_out,
            ).to_multiset().add(views(old_rest).to_multiset()));
            // strict ordering of the grown prefix
            assert forall|i: int, j: int| 0 <= i < j < out@.len() implies views(out@)[i].number
                < views(out@)[j].number by {
                if j == out@.len() - 1 {
                    assert(views(out@)[j] == p@);
                    assert(views(old_out)[i] == views(out@)[i]);
                    assert(views(old_rest)[m as int] == p@);
                }
            }
        }
    }
    proof {
        broadcast use vstd::seq_lib::group_to_multiset_ensures;
        broadcast use vstd::multiset::group_multiset_axioms;

        assert(views(rest@) =~= Seq::<PokemonRec>::empty());
        assert(views(out@).to_multiset().add(views(rest@).to_multiset()) =~= views(out@).to_multiset());
        assert(views(input@) == full);
    }
    out
}

/// The operation set that every storage backend provides. The trait-level
/// contract is what holds of any backend, including those whose state
/// lives outside this process; a concrete backend may promise more.
///
/// A backend whose whole state lives in this process exposes it through
/// `model`; the guarded clauses then say exactly how each operation reads
/// or changes that state. A backend over an external store has no model,
/// and those clauses say nothing of it.
pub trait Repository: Sized {
    /// The backend's record sequence, where one is knowable. The
    /// in-memory backend models its working state; a backend whose state
    /// lives in an external system keeps the default: none.
    open spec fn model(&self) -> Option<Seq<PokemonRec>> {
        None
    }

    /// Store a new record built from already-validated components.
    fn insert(&mut self, number: PokemonNumber, name: PokemonName, types: PokemonTypes) -> (r: Result<
        Pokemon,
        InsertError,
    >)
        requires
            number.wf(),
            name.wf(),
            types.wf(),
        ensures
            r matches Ok(p) ==> p@ == rec_of(number, name, types) && p.wf(),
            old(self).model() matches Some(s) ==> ((contains_number(s, number@) ==> (r matches Err(
                InsertError::Conflict,
            ) && final(self).model() == Some(s))) && (!contains_number(s, number@) ==> (r is Ok
                && final(self).model() == Some(s.push(rec_of(number, name, types)))))),
    ;

    /// Read every stored record, in ascending key order.
    fn fetch_all(&self) -> (r: Result<Vec<Pokemon>, FetchAllError>)
        ensures
            r matches Ok(v) ==> sorted_by_number(views(v@)),
            r matches Ok(v) ==> forall|i: int| 0 <= i < v@.len() ==> (#[trigger] v@[i]).wf(),
            self.model() matches Some(s) ==> (r matches Ok(v) && views(v@).to_multiset()
                == s.to_multiset() && v@.len() == s.len()),
    ;

    /// Read the record stored under the given key.
    fn fetch_one(&self, number: PokemonNumber) -> (r: Result<Pokemon, FetchOneError>)
        requires
            number.wf(),
        ensures
            r matches Ok(p) ==> p@.number == number@ && p.wf(),
            self.model() matches Some(s) ==> ((contains_number(s, number@) ==> (r matches Ok(p)
                && exists|i: int|
                0 <= i < s.len() && s[i].number == number@ && p@ == s[i])) && (!contains_number(
                s,
                number@,
            ) ==> (r matches Err(FetchOneError::NotFound)))),
    ;

    /// Remove the record stored under the given key.
    fn delete(&mut self, number: PokemonNumber) -> (r: Result<(), DeleteError>)
        requires
            number.wf(),
        ensures
            old(self).model() matches Some(s) ==> ((!contains_number(s, number@) ==> (r matches Err(
                DeleteError::NotFound,
            ) && final(self).model() == Some(s))) && (contains_number(s, number@) ==> (r is Ok
                && exists|i: int|
                0 <= i < s.len() && s[i].number == number@ && final(self).model() == Some(
                    s.remove(i),
                )))),
    ;
}

} // verus!
