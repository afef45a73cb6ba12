//! The in-memory backend: the reference implementation and test double.
//! It keeps the records in one owned collection and supports fault
//! injection: a backend built with the error flag fails every operation
//! with an unknown failure before touching the collection.

use vstd::prelude::*;

verus! {

use crate::entities::{Pokemon, PokemonName, PokemonNumber, PokemonRec, PokemonTypes};
use crate::repository::{
    contains_number, rec_of, sort_pokemons, unique_numbers, views, DeleteError,
    FetchAllError, FetchOneError, InsertError, Repository,
};

pub struct InMemoryRepository {
    error: bool,
    pokemons: Vec<Pokemon>,
}

impl View for InMemoryRepository {
    type V = Seq<PokemonRec>;

    closed spec fn view(&self) -> Seq<PokemonRec> {
        views(self.pokemons@)
    }
}

impl InMemoryRepository {
    /// Whether this backend was built to fail every operation.
    pub closed spec fn failing(&self) -> bool {
        self.error
    }

    /// Every stored record is well formed and no two share a key.
    #[verifier::type_invariant]
    spec fn inv(self) -> bool {
        &&& unique_numbers(views(self.pokemons@))
        &&& forall|i: int|
            0 <= i < self.pokemons@.len() ==> (#[trigger] self.pokemons@[i]).wf()
    }

    /// A fresh, empty backend.
    pub fn new() -> (r: Self)
        ensures
            r@ == Seq::<PokemonRec>::empty(),
            !r.failing(),
    {
        let r = InMemoryRepository { error: false, pokemons: Vec::new() };
        proof {
            assert(views(r.pokemons@) =~= Seq::<PokemonRec>::empty());
        }
        r
    }

    /// The same backend, reconfigured to fail every operation.
    pub fn with_error(self) -> (r: Self)
        ensures
            r@ == self@,
            r.failing(),
    {
        proof {
            use_type_invariant(&self);
        }
        InMemoryRepository { error: true, pokemons: self.pokemons }
    }
}

impl Repository for InMemoryRepository {
    /// The whole state is in this process: the record sequence itself,
    /// as long as the backend is not configured to fail.
    open spec fn model(&self) -> Option<Seq<PokemonRec>> {
        if self.failing() {
            None
        } else {
            Some(self@)
        }
    }

    /// Scans for a key collision under exclusive access, then appends.
    fn insert(&mut self, number: PokemonNumber, name: PokemonName, types: PokemonTypes) -> (r:
        Result<Pokemon, InsertError>)
        ensures
            final(self).failing() == old(self).failing(),
            old(self).failing() ==> (r matches Err(InsertError::Unknown) && final(self)@ == old(
                self,
            )@),
            !old(self).failing() && contains_number(old(self)@, number@) ==> (r matches Err(
                InsertError::Conflict,
            ) && final(self)@ == old(self)@),
            !old(self).failing() && !contains_number(old(self)@, number@) ==> (r matches Ok(p)
                && p@ == rec_of(number, name, types) && final(self)@ == old(self)@.push(
                rec_of(number, name, types),
            )),
    {
        if self.error {
            return Err(InsertError::Unknown);
        }
        proof {
            use_type_invariant(&*self);
        }
        let n = self.pokemons.len();
        let mut i: usize = 0;
        while i < n
            invariant
                n == self.pokemons@.len(),
                i <= n,
                *self == *old(self),
                !old(self).failing(),
                forall|j: int| 0 <= j < i ==> views(self.pokemons@)[j].number != number@,
            decreases n - i,
        {
            if self.pokemons[i].number.value() == number.value() {
                proof {
                    assert(views(self.pokemons@)[i as int].number == number@);
                }
                return Err(InsertError::Conflict);
            }
            i = i + 1;
        }
        proof {
            use_type_invariant(&*self);
        }
        let p = Pokemon::new(number, name, types);
        let stored = p.clone();
        let ghost old_entries = self.pokemons@;
        let mut v: Vec<Pokemon> = Vec::new();
        core::mem::swap(&mut v, &mut self.pokemons);
        v.push(stored);
        proof {
            assert(views(v@) =~= views(old_entries).push(rec_of(number, name, types)));
            assert(views(Seq::<Pokemon>::empty()) =~= Seq::<PokemonRec>::empty());
            assert(stored.wf());
            assert forall|a: int, b: int|
                0 <= a < views(v@).len() && 0 <= b < views(v@).len() && a != b implies views(
                v@,
            )[a].number != views(v@)[b].number by {
                if a < views(v@).len() - 1 && b < views(v@).len() - 1 {
                    assert(views(old_entries)[a] == views(v@)[a]);
                    assert(views(old_entries)[b] == views(v@)[b]);
                }
            }
        }
        self.pokemons = v;
        Ok(p)
    }

    /// Copies the collection and sorts the copies by ascending key.
    fn fetch_all(&self) -> (r: Result<Vec<Pokemon>, FetchAllError>)
        ensures
            self.failing() ==> r matches Err(FetchAllError::Unknown),
            !self.failing() ==> (r matches Ok(v) && views(v@).to_multiset()
                == self@.to_multiset() && v@.len() == self@.len()),
    {
        if self.error {
            return Err(FetchAllError::Unknown);
        }
        proof {
            use_type_invariant(&*self);
        }
        let n = self.pokemons.len();
        let mut copies: Vec<Pokemon> = Vec::new();
        let mut i: usize = 0;
        while i < n
            invariant
                n == self.pokemons@.len(),
                i <= n,
                !self.failing(),
                views(copies@) =~= views(self.pokemons@).subrange(0, i as int),
            decreases n - i,
        {
            let ghost prev = copies@;
            copies.push(self.pokemons[i].clone());
            proof {
                let vs = views(self.pokemons@);
                assert(views(copies@) =~= views(prev).push(vs[i as int]));
                assert(vs.subrange(0, (i + 1) as int) =~= vs.subrange(0, i as int).push(
                    vs[i as int],
                ));
            }
            i = i + 1;
        }
        proof {
            use_type_invariant(&*self);
            assert(views(copies@) =~= views(self.pokemons@));
        }
        let sorted = sort_pokemons(copies);
        proof {
            broadcast use vstd::seq_lib::group_to_multiset_ensures;

            use_type_invariant(&*self);
            assert forall|k: int| 0 <= k < sorted@.len() implies (#[trigger] sorted@[k]).wf() by {
                assert(views(sorted@).contains(views(sorted@)[k]));
                assert(self@.to_multiset().count(views(sorted@)[k]) > 0);
                assert(self@.contains(views(sorted@)[k]));
                let j = choose|j: int| 0 <= j < self@.len() && self@[j] == views(sorted@)[k];
                assert(self.pokemons@[j].wf());
                assert(sorted@[k]@ == self.pokemons@[j]@);
            }
        }
        Ok(sorted)
    }

    /// Scans linearly for the first record carrying the key.
    fn fetch_one(&self, number: PokemonNumber) -> (r: Result<Pokemon, FetchOneError>)
        ensures
            self.failing() ==> r matches Err(FetchOneError::Unknown),
            !self.failing() && contains_number(self@, number@) ==> (r matches Ok(p) && exists|
                i: int,
            | 0 <= i < self@.len() && self@[i].number == number@ && p@ == self@[i]),
            !self.failing() ==> (r matches Ok(p) ==> forall|i: int|
                0 <= i < self@.len() && (#[trigger] self@[i]).number == number@ ==> p@
                    == self@[i]),
            !self.failing() && !contains_number(self@, number@) ==> r matches Err(
                FetchOneError::NotFound,
            ),
    {
        if self.error {
            return Err(FetchOneError::Unknown);
        }
        proof {
            use_type_invariant(&*self);
        }
        let n = self.pokemons.len();
        let mut i: usize = 0;
        while i < n
            invariant
                n == self.pokemons@.len(),
                i <= n,
                !self.failing(),
                forall|j: int| 0 <= j < i ==> views(self.pokemons@)[j].number != number@,
            decreases n - i,
        {
            if self.pokemons[i].number.value() == number.value() {
                let found = self.pokemons[i].clone();
                proof {
                    use_type_invariant(&*self);
                    assert(self@[i as int].number == number@ && found@ == self@[i as int]);
                    assert(self.pokemons@[i as int].wf());
                }
                return Ok(found);
            }
            i = i + 1;
        }
        Err(FetchOneError::NotFound)
    }

    /// Scans linearly for the key and removes the record at its position.
    fn delete(&mut self, number: PokemonNumber) -> (r: Result<(), DeleteError>)
        ensures
            final(self).failing() == old(self).failing(),
            old(self).failing() ==> (r matches Err(DeleteError::Unknown) && final(self)@ == old(
                self,
            )@),
            !old(self).failing() && !contains_number(old(self)@, number@) ==> (r matches Err(
                DeleteError::NotFound,
            ) && final(self)@ == old(self)@),
            !old(self).failing() && contains_number(old(self)@, number@) ==> r is Ok && exists|
                i: int,
            |
                0 <= i < old(self)@.len() && old(self)@[i].number == number@ && final(self)@ == old(
                    self,
                )@.remove(i),
    {
        if self.error {
            return Err(DeleteError::Unknown);
        }
        proof {
            use_type_invariant(&*self);
        }
        let n = self.pokemons.len();
        let mut i: usize = 0;
        while i < n
            invariant
                n == self.pokemons@.len(),
                i <= n,
                *self == *old(self),
                !old(self).failing(),
                forall|j: int| 0 <= j < i ==> views(self.pokemons@)[j].number != number@,
            decreases n - i,
        {
            if self.pokemons[i].number.value() == number.value() {
                proof {
                    use_type_invariant(&*self);
                }
                let ghost old_entries = self.pokemons@;
                let mut v: Vec<Pokemon> = Vec::new();
                core::mem::swap(&mut v, &mut self.pokemons);
                v.remove(i);
                proof {
                    assert(views(Seq::<Pokemon>::empty()) =~= Seq::<PokemonRec>::empty());
                    assert(views(v@) =~= views(old_entries).remove(i as int));
                    assert forall|a: int, b: int|
                        0 <= a < views(v@).len() && 0 <= b < views(v@).len() && a != b implies
                        views(v@)[a].number != views(v@)[b].number by {
                        let ar: int = if a < i { a } else { a + 1 };
                        let br: int = if b < i { b } else { b + 1 };
                        assert(views(v@)[a] == views(old_entries)[ar]);
                        assert(views(v@)[b] == views(old_entries)[br]);
                    }
                    assert forall|j: int| 0 <= j < v@.len() implies (#[trigger] v@[j]).wf() by {
                        let jr: int = if j < i { j } else { j + 1 };
                        assert(v@[j] == old_entries[jr]);
                    }
                }
                self.pokemons = v;
                proof {
                    assert(old(self)@[i as int].number == number@);
                    assert(final(self)@ == old(self)@.remove(i as int));
                }
                return Ok(());
            }
            i = i + 1;
        }
        Err(DeleteError::NotFound)
    }
}

/// Law: after a fresh record is appended, its key is present; a second
/// insert of the same key therefore conflicts and leaves the store as it
/// was.
pub proof fn lemma_insert_makes_key_present(s: Seq<PokemonRec>, r: PokemonRec)
    ensures
        contains_number(s.push(r), r.number),
{
    assert(s.push(r)[s.len() as int] == r);
}

/// Law: appending a record with a fresh key keeps keys unique, and any
/// record of the grown store carrying that key is exactly the appended
/// one — so a fetch of that key right after the insert returns it.
pub proof fn lemma_fetch_one_after_insert(s: Seq<PokemonRec>, r: PokemonRec)
    requires
        unique_numbers(s),
        !contains_number(s, r.number),
    ensures
        contains_number(s.push(r), r.number),
        unique_numbers(s.push(r)),
        forall|i: int|
            0 <= i < s.push(r).len() && (#[trigger] s.push(r)[i]).number == r.number ==> s.push(
                r,
            )[i] == r,
{
    assert(s.push(r)[s.len() as int] == r);
    assert forall|i: int|
        0 <= i < s.push(r).len() && (#[trigger] s.push(r)[i]).number == r.number implies s.push(
        r,
    )[i] == r by {
        if i < s.len() {
            assert(s[i] == s.push(r)[i]);
        }
    }
}

/// Law: removing the record at the position of a key removes exactly that
/// record: the store shrinks by one, the key is gone, and every other key
/// is still present.
pub proof fn lemma_delete_removes_exactly_one(s: Seq<PokemonRec>, i: int)
    requires
        unique_numbers(s),
        0 <= i < s.len(),
    ensures
        s.remove(i).len() == s.len() - 1,
        !contains_number(s.remove(i), s[i].number),
        forall|n: u16|
            n != s[i].number ==> contains_number(s.remove(i), n) == contains_number(s, n),
{
    let t = s.remove(i);
    assert forall|n: u16| n != s[i].number implies contains_number(t, n) == contains_number(
        s,
        n,
    ) by {
        if contains_number(s, n) {
            let j = choose|j: int| 0 <= j < s.len() && s[j].number == n;
            let jt: int = if j < i { j } else { j - 1 };
            assert(t[jt] == s[j]);
        }
        if contains_number(t, n) {
            let j = choose|j: int| 0 <= j < t.len() && t[j].number == n;
            let js: int = if j < i { j } else { j + 1 };
            assert(s[js] == t[j]);
        }
    }
    if contains_number(t, s[i].number) {
        let j = choose|j: int| 0 <= j < t.len() && t[j].number == s[i].number;
        let js: int = if j < i { j } else { j + 1 };
        assert(s[js] == t[j]);
    }
}

} // verus!
