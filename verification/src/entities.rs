//! The validated entity model: a catalog record is a bounded numeric key,
//! a non-empty display name, and a non-empty set of category tags drawn
//! from a closed enumeration. Each value type can only be built through a
//! smart constructor, so an invalid value never escapes this module.

use vstd::prelude::*;

verus! {

use vstd::string::StringExecFns;

/// A raw key is acceptable when it lies strictly between 0 and 899.
pub open spec fn valid_number(n: u16) -> bool {
    0 < n < 899
}

/// The bounded integer identifier of a catalog record.
#[derive(Clone, Copy, PartialEq, Eq, Structural, PartialOrd, Ord, Hash, Debug)]
pub struct PokemonNumber(u16);

impl View for PokemonNumber {
    type V = u16;

    closed spec fn view(&self) -> u16 {
        self.0
    }
}

impl PokemonNumber {
    /// A number is well formed exactly when its raw value is in range.
    pub open spec fn wf(self) -> bool {
        valid_number(self@)
    }

    /// Smart constructor: accepts exactly the raw values in range.
    pub fn try_from(n: u16) -> (r: Result<Self, ()>)
        ensures
            r is Ok <==> valid_number(n),
            r matches Ok(v) ==> v@ == n,
    {
        if n > 0 && n < 899 {
            Ok(PokemonNumber(n))
        } else {
            Err(())
        }
    }

    /// The raw value back out of a validated number.
    pub fn value(self) -> (r: u16)
        ensures
            r == self@,
    {
        self.0
    }

    pub fn pikachu() -> (r: Self)
        ensures
            r@ == 25,
    {
        PokemonNumber(25)
    }

    pub fn vulpix() -> (r: Self)
        ensures
            r@ == 37,
    {
        PokemonNumber(37)
    }

    /// An out-of-range number, for exercising failure paths in tests.
    pub fn bad() -> (r: Self)
        ensures
            r@ == 0,
            !r.wf(),
    {
        PokemonNumber(0)
    }
}

/// A raw label is acceptable when it is non-empty.
pub open spec fn valid_name(s: Seq<char>) -> bool {
    s.len() > 0
}

/// The display name of a catalog record. Stored opaquely: no case folding
/// or trimming happens at the type level.
#[derive(Debug)]
pub struct PokemonName(String);

impl View for PokemonName {
    type V = Seq<char>;

    closed spec fn view(&self) -> Seq<char> {
        self.0@
    }
}

impl Clone for PokemonName {
    fn clone(&self) -> (r: Self)
        ensures
            r == *self,
    {
        PokemonName(self.0.clone())
    }
}

impl PokemonName {
    /// A name is well formed exactly when it is non-empty.
    pub open spec fn wf(self) -> bool {
        valid_name(self@)
    }

    /// Smart constructor: accepts exactly the non-empty labels.
    pub fn try_from(name: String) -> (r: Result<Self, ()>)
        ensures
            r is Ok <==> valid_name(name@),
            r matches Ok(v) ==> v@ == name@,
    {
        if name.as_str().is_empty() {
            Err(())
        } else {
            Ok(PokemonName(name))
        }
    }

    /// The raw label back out of a validated name.
    pub fn into_string(self) -> (r: String)
        ensures
            r@ == self@,
    {
        self.0
    }

    /// A borrowed view of the raw label.
    pub fn as_str(&self) -> (r: &str)
        ensures
            r@ == self@,
    {
        self.0.as_str()
    }

    pub fn pikachu() -> (r: Self)
        ensures
            r@ == "Pikachu"@,
    {
        PokemonName(String::from_str("Pikachu"))
    }

    pub fn vulpix() -> (r: Self)
        ensures
            r@ == "Vulpix"@,
    {
        PokemonName(String::from_str("Vulpix"))
    }

    /// An empty label, for exercising failure paths in tests.
    pub fn bad() -> (r: Self)
        ensures
            r@.len() == 0,
            !r.wf(),
    {
        PokemonName(String::new())
    }
}

/// The closed enumeration of category tags.
#[derive(Clone, Copy, PartialEq, Eq, Structural, Hash, Debug)]
pub enum PokemonType {
    Electric,
    Fire,
}

/// A raw tag is acceptable when it spells one of the known categories.
/// Tag parsing is case-sensitive: only the exact spellings are accepted.
pub open spec fn valid_type_str(s: Seq<char>) -> bool {
    s == "Electric"@ || s == "Fire"@
}

/// The category that a raw tag denotes (meaningful when the tag is valid).
pub open spec fn type_of_str(s: Seq<char>) -> PokemonType {
    if s == "Electric"@ {
        PokemonType::Electric
    } else {
        PokemonType::Fire
    }
}

/// The canonical spelling of a category.
pub open spec fn str_of_type(t: PokemonType) -> Seq<char> {
    match t {
        PokemonType::Electric => "Electric"@,
        PokemonType::Fire => "Fire"@,
    }
}

/// Parsing a valid raw tag and spelling it back out returns the input.
pub proof fn lemma_type_str_round_trip(s: Seq<char>)
    requires
        valid_type_str(s),
    ensures
        str_of_type(type_of_str(s)) == s,
{
    reveal_strlit("Electric");
    reveal_strlit("Fire");
}

impl PokemonType {
    /// Smart constructor: accepts exactly the known category spellings.
    pub fn try_from(tipe: String) -> (r: Result<Self, ()>)
        ensures
            r is Ok <==> valid_type_str(tipe@),
            r matches Ok(t) ==> t == type_of_str(tipe@),
    {
        proof {
            reveal_strlit("Electric");
            reveal_strlit("Fire");
        }
        if tipe == String::from_str("Electric") {
            Ok(PokemonType::Electric)
        } else if tipe == String::from_str("Fire") {
            Ok(PokemonType::Fire)
        } else {
            Err(())
        }
    }

    /// The canonical spelling of this category.
    pub fn into_string(self) -> (r: String)
        ensures
            r@ == str_of_type(self),
    {
        match self {
            PokemonType::Electric => String::from_str("Electric"),
            PokemonType::Fire => String::from_str("Fire"),
        }
    }
}

/// A raw tag list is acceptable when it is non-empty and every element
/// spells a known category (all-or-nothing).
pub open spec fn valid_types(ts: Seq<Seq<char>>) -> bool {
    &&& ts.len() > 0
    &&& forall|i: int| 0 <= i < ts.len() ==> valid_type_str(#[trigger] ts[i])
}

/// The ordered, non-empty tag set of a catalog record.
#[derive(Debug)]
pub struct PokemonTypes(Vec<PokemonType>);

impl View for PokemonTypes {
    type V = Seq<PokemonType>;

    closed spec fn view(&self) -> Seq<PokemonType> {
        self.0@
    }
}

impl Clone for PokemonTypes {
    fn clone(&self) -> (r: Self)
        ensures
            r@ == self@,
    {
        let mut out: Vec<PokemonType> = Vec::new();
        let mut i: usize = 0;
        while i < self.0.len()
            invariant
                i <= self.0.len(),
                out@ == self.0@.subrange(0, i as int),
            decreases self.0.len() - i,
        {
            out.push(self.0[i]);
            i = i + 1;
        }
        proof {
            assert(out@ =~= self.0@);
        }
        PokemonTypes(out)
    }
}

impl PokemonTypes {
    /// A tag set is well formed exactly when it is non-empty.
    pub open spec fn wf(self) -> bool {
        self@.len() > 0
    }

    /// Smart constructor: the whole list is rejected if it is empty or if
    /// any single element fails to parse.
    pub fn try_from(types: Vec<String>) -> (r: Result<Self, ()>)
        ensures
            r is Ok <==> valid_types(types@.map_values(|s: String| s@)),
            r matches Ok(ts) ==> {
                &&& ts@.len() == types@.len()
                &&& forall|i: int|
                    0 <= i < types@.len() ==> ts@[i] == type_of_str(#[trigger] types@[i]@)
            },
    {
        if types.len() == 0 {
            return Err(());
        }
        let mut out: Vec<PokemonType> = Vec::new();
        let mut i: usize = 0;
        while i < types.len()
            invariant
                i <= types.len(),
                out@.len() == i,
                forall|j: int| 0 <= j < i ==> valid_type_str(#[trigger] types@[j]@),
                forall|j: int| 0 <= j < i ==> out@[j] == type_of_str(#[trigger] types@[j]@),
            decreases types.len() - i,
        {
            match PokemonType::try_from(types[i].clone()) {
                Ok(t) => out.push(t),
                Err(()) => {
                    proof {
                        assert(!valid_type_str(types@.map_values(|s: String| s@)[i as int]));
                    }
                    return Err(());
                },
            }
            i = i + 1;
        }
        proof {
            let mapped = types@.map_values(|s: String| s@);
            assert(forall|j: int| 0 <= j < mapped.len() ==> valid_type_str(#[trigger] mapped[j]));
        }
        Ok(PokemonTypes(out))
    }

    /// The raw tag list back out of a validated tag set, in canonical
    /// spelling and original order.
    pub fn into_strings(self) -> (r: Vec<String>)
        ensures
            r@.len() == self@.len(),
            forall|i: int| 0 <= i < self@.len() ==> r@[i]@ == str_of_type(#[trigger] self@[i]),
    {
        let mut out: Vec<String> = Vec::new();
        let mut i: usize = 0;
        while i < self.0.len()
            invariant
                i <= self.0.len(),
                out@.len() == i,
                forall|j: int| 0 <= j < i ==> out@[j]@ == str_of_type(#[trigger] self.0@[j]),
            decreases self.0.len() - i,
        {
            out.push(self.0[i].into_string());
            i = i + 1;
        }
        out
    }

    pub fn pikachu() -> (r: Self)
        ensures
            r@ =~= seq![PokemonType::Electric],
    {
        let mut v: Vec<PokemonType> = Vec::new();
        v.push(PokemonType::Electric);
        PokemonTypes(v)
    }

    pub fn vulpix() -> (r: Self)
        ensures
            r@ =~= seq![PokemonType::Fire],
    {
        let mut v: Vec<PokemonType> = Vec::new();
        v.push(PokemonType::Fire);
        PokemonTypes(v)
    }
}

/// The mathematical content of one catalog record.
#[verifier::ext_equal]
pub ghost struct PokemonRec {
    pub number: u16,
    pub name: Seq<char>,
    pub types: Seq<PokemonType>,
}

/// One validated catalog record. Its components carry their own
/// invariants, so a record is only as valid as what it was built from.
#[derive(Debug)]
pub struct Pokemon {
    pub number: PokemonNumber,
    pub name: PokemonName,
    pub types: PokemonTypes,
}

impl View for Pokemon {
    type V = PokemonRec;

    open spec fn view(&self) -> PokemonRec {
        PokemonRec { number: self.number@, name: self.name@, types: self.types@ }
    }
}

impl Clone for Pokemon {
    /// A copy whose mathematical content is exactly this record's.
    fn clone(&self) -> (r: Self)
        ensures
            r@ == self@,
            r.number == self.number,
    {
        Pokemon { number: self.number, name: self.name.clone(), types: self.types.clone() }
    }
}

impl Pokemon {
    /// A record is well formed when all three components are.
    pub open spec fn wf(self) -> bool {
        &&& self.number.wf()
        &&& self.name.wf()
        &&& self.types.wf()
    }

    pub fn new(number: PokemonNumber, name: PokemonName, types: PokemonTypes) -> (r: Self)
        ensures
            r.number == number,
            r.name == name,
            r.types == types,
    {
        Pokemon { number, name, types }
    }

    pub fn pikachu() -> (r: Self)
        ensures
            r@.number == 25,
            r@.name == "Pikachu"@,
            r@.types =~= seq![PokemonType::Electric],
            r.wf(),
    {
        proof {
            reveal_strlit("Pikachu");
        }
        Pokemon {
            number: PokemonNumber::pikachu(),
            name: PokemonName::pikachu(),
            types: PokemonTypes::pikachu(),
        }
    }

    pub fn vulpix() -> (r: Self)
        ensures
            r@.number == 37,
            r@.name == "Vulpix"@,
            r@.types =~= seq![PokemonType::Fire],
            r.wf(),
    {
        proof {
            reveal_strlit("Vulpix");
        }
        Pokemon {
            number: PokemonNumber::vulpix(),
            name: PokemonName::vulpix(),
            types: PokemonTypes::vulpix(),
        }
    }
}

} // verus!
