//! The relational backend: a two-table schema, a header row per record
//! in `pokemons` and one row per (key, tag) pair in `types`. Inserts are
//! transactional; reads re-validate every stored value through the
//! entity constructors, because the database is an external system whose
//! contents this layer does not trust.

use vstd::prelude::*;

verus! {

use crate::entities::{
    type_of_str, valid_name, valid_number, valid_types, Pokemon, PokemonName, PokemonNumber,
    PokemonRec, PokemonTypes,
};
use crate::repository::{
    sort_pokemons, sorted_by_number, unique_numbers, views, DeleteError, FetchAllError,
    FetchOneError, InsertError, Repository,
};

#[verifier::external_type_specification]
#[verifier::external_body]
pub struct ExConnection(rusqlite::Connection);

/// How a failed SQL statement failed: a constraint violation (such as a
/// duplicate primary key) or anything else.
pub enum SqlFailure {
    ConstraintViolation,
    Other,
}

/// Relies on rusqlite::Connection::open_with_flags: opens an existing
/// database file for reading and writing.
#[verifier::external_body]
fn open_connection(path: &str) -> Result<rusqlite::Connection, ()> {
    rusqlite::Connection::open_with_flags(path, rusqlite::OpenFlags::SQLITE_OPEN_READ_WRITE)
        .map_err(|_| ())
}

/// Relies on rusqlite::Connection::execute: runs one parameterless SQL
/// statement and reports how many rows it changed.
#[verifier::external_body]
fn exec_sql(conn: &rusqlite::Connection, sql: &str) -> Result<usize, ()> {
    conn.execute(sql, ()).map_err(|_| ())
}

/// Relies on rusqlite::Connection::execute: runs one SQL statement with
/// a single integer parameter and reports how many rows it changed.
#[verifier::external_body]
fn exec_sql_u16(conn: &rusqlite::Connection, sql: &str, key: u16) -> Result<usize, ()> {
    conn.execute(sql, (key,)).map_err(|_| ())
}

/// Relies on rusqlite::Connection::execute: runs one SQL statement with
/// an integer and a text parameter and reports how many rows it changed.
/// Relies on rusqlite::Error::sqlite_error_code to tell a constraint
/// violation apart from any other failure.
#[verifier::external_body]
fn exec_sql_u16_str(conn: &rusqlite::Connection, sql: &str, key: u16, text: &str) -> Result<
    usize,
    SqlFailure,
> {
    conn.execute(sql, (key, text)).map_err(|e| {
        match e.sqlite_error_code() {
            Some(rusqlite::ErrorCode::ConstraintViolation) => SqlFailure::ConstraintViolation,
            _ => SqlFailure::Other,
        }
    })
}

/// Relies on rusqlite prepare/query_map: runs one parameterless SQL
/// query and collects each row's first two columns as (integer, text).
#[verifier::external_body]
fn query_pairs(conn: &rusqlite::Connection, sql: &str) -> Result<Vec<(u16, String)>, ()> {
    let mut stmt = conn.prepare(sql).map_err(|_| ())?;
    let rows = stmt.query_map((), |row| Ok((row.get(0)?, row.get(1)?))).map_err(|_| ())?;
    rows.collect::<Result<Vec<(u16, String)>, rusqlite::Error>>().map_err(|_| ())
}

/// Relies on rusqlite prepare/query_map: runs one SQL query with a
/// single integer parameter and collects each row's first two columns.
#[verifier::external_body]
fn query_pairs_u16(conn: &rusqlite::Connection, sql: &str, key: u16) -> Result<
    Vec<(u16, String)>,
    (),
> {
    let mut stmt = conn.prepare(sql).map_err(|_| ())?;
    let rows = stmt.query_map((key,), |row| Ok((row.get(0)?, row.get(1)?))).map_err(|_| ())?;
    rows.collect::<Result<Vec<(u16, String)>, rusqlite::Error>>().map_err(|_| ())
}

/// Relies on rusqlite prepare/query_map: runs one SQL query with a
/// single integer parameter and collects each row's first column as text.
#[verifier::external_body]
fn query_strings_u16(conn: &rusqlite::Connection, sql: &str, key: u16) -> Result<Vec<String>, ()> {
    let mut stmt = conn.prepare(sql).map_err(|_| ())?;
    let rows = stmt.query_map((key,), |row| row.get(0)).map_err(|_| ())?;
    rows.collect::<Result<Vec<String>, rusqlite::Error>>().map_err(|_| ())
}

pub struct SqliteRepository {
    conn: rusqlite::Connection,
}

impl SqliteRepository {
    /// Open the database at `path` and turn foreign-key enforcement on.
    /// Fails fast when the file cannot be opened read-write.
    pub fn try_new(path: &str) -> Result<Self, ()> {
        let conn = match open_connection(path) {
            Ok(c) => c,
            Err(_) => {
                return Err(());
            },
        };
        match exec_sql(&conn, "pragma foreign_keys = 1") {
            Ok(_) => Ok(SqliteRepository { conn }),
            Err(_) => Err(()),
        }
    }

    /// A backend over an already-open database connection, for callers
    /// that manage the connection themselves.
    pub fn from_connection(conn: rusqlite::Connection) -> Self {
        SqliteRepository { conn }
    }
}

/// One header row together with its tag rows, exactly as read from the
/// database.
pub struct SqliteRow {
    pub number: u16,
    pub name: String,
    pub tags: Vec<String>,
}

/// The mathematical content a stored row denotes once re-validated.
pub open spec fn row_rec(row: SqliteRow) -> PokemonRec {
    PokemonRec {
        number: row.number,
        name: row.name@,
        types: row.tags@.map_values(|s: String| type_of_str(s@)),
    }
}

/// The mathematical content of a whole list of stored rows.
pub open spec fn mapped_rows(rows: Seq<SqliteRow>) -> Seq<PokemonRec> {
    rows.map_values(|row: SqliteRow| row_rec(row))
}

/// Whether a stored row passes the entity constructors.
pub open spec fn valid_row(row: SqliteRow) -> bool {
    &&& valid_number(row.number)
    &&& valid_name(row.name@)
    &&& valid_types(row.tags@.map_values(|s: String| s@))
}

/// Re-validate one stored row through the entity constructors,
/// all-or-nothing: the store held the values, but this layer does not
/// trust them.
fn assemble_row(row: SqliteRow) -> (r: Result<Pokemon, ()>)
    ensures
        r is Ok <==> valid_row(row),
        r matches Ok(p) ==> p@ == row_rec(row) && p.wf(),
{
    let SqliteRow { number, name, tags } = row;
    match (PokemonNumber::try_from(number), PokemonName::try_from(name), PokemonTypes::try_from(
        tags,
    )) {
        (Ok(n), Ok(pname), Ok(ptypes)) => {
            let p = Pokemon::new(n, pname, ptypes);
            proof {
                assert(p@.types =~= row_rec(row).types);
            }
            Ok(p)
        },
        _ => Err(()),
    }
}

/// Decide a filtered header query's first outcome: no row at all means
/// the key is absent from the store.
pub fn first_header_row(rows: Vec<(u16, String)>) -> (r: Result<(u16, String), FetchOneError>)
    ensures
        (r matches Err(FetchOneError::NotFound)) <==> rows@.len() == 0,
        r is Err ==> (r matches Err(FetchOneError::NotFound)),
        rows@.len() > 0 ==> (r matches Ok(h) && h == rows@[0]),
{
    let mut rest = rows;
    if rest.len() == 0 {
        return Err(FetchOneError::NotFound);
    }
    Ok(rest.remove(0))
}

/// Interpret one stored row as a fetch-one result for the requested
/// key: a row under a different key than the one asked for, or one the
/// constructors reject, means a corrupt store and is an unknown failure.
pub fn fetch_one_from_row(number: u16, row: SqliteRow) -> (r: Result<Pokemon, FetchOneError>)
    ensures
        r is Ok <==> (row.number == number && valid_row(row)),
        r matches Ok(p) ==> p@ == row_rec(row) && p.wf() && p@.number == number,
        r matches Err(e) ==> e is Unknown,
{
    if row.number != number {
        return Err(FetchOneError::Unknown);
    }
    match assemble_row(row) {
        Ok(p) => Ok(p),
        Err(()) => Err(FetchOneError::Unknown),
    }
}

/// Interpret the stored rows as a fetch-all result: every row is
/// re-validated, a store holding one key twice is rejected as corrupt,
/// and the survivors are presented in ascending key order whatever
/// order the database returned them in. No partial lists: one bad row
/// fails the whole operation.
pub fn fetch_all_from_rows(rows: Vec<SqliteRow>) -> (r: Result<Vec<Pokemon>, FetchAllError>)
    ensures
        r is Ok <==> (unique_numbers(mapped_rows(rows@)) && forall|i: int|
            0 <= i < rows@.len() ==> valid_row(#[trigger] rows@[i])),
        r matches Ok(v) ==> {
            &&& views(v@).to_multiset() == mapped_rows(rows@).to_multiset()
            &&& sorted_by_number(views(v@))
            &&& v@.len() == rows@.len()
            &&& forall|i: int| 0 <= i < v@.len() ==> (#[trigger] v@[i]).wf()
        },
{
    let ghost all = rows@;
    let ghost mapped = mapped_rows(rows@);
    let mut rest = rows;
    let mut pokemons: Vec<Pokemon> = Vec::new();
    while rest.len() > 0
        invariant
            pokemons@.len() + rest@.len() == all.len(),
            mapped == mapped_rows(all),
            all == rows@,
            forall|i: int| 0 <= i < rest@.len() ==> #[trigger] rest@[i] == all[pokemons@.len() + i],
            forall|i: int| 0 <= i < pokemons@.len() ==> valid_row(#[trigger] all[i]),
            views(pokemons@) =~= mapped.subrange(0, pokemons@.len() as int),
            forall|k: int| 0 <= k < pokemons@.len() ==> (#[trigger] pokemons@[k]).wf(),
        decreases rest@.len(),
    {
        let ghost done = pokemons@.len() as int;
        let ghost old_rest = rest@;
        let row = rest.remove(0);
        proof {
            assert(row == all[done]);
            assert(forall|i: int| 0 <= i < rest@.len() ==> #[trigger] rest@[i] == old_rest[i + 1]);
        }
        match assemble_row(row) {
            Ok(p) => {
                pokemons.push(p);
                proof {
                    assert(views(pokemons@) =~= mapped.subrange(0, done + 1));
                }
            },
            Err(()) => {
                proof {
                    assert(!valid_row(all[done]));
                    assert(!(forall|i2: int|
                        0 <= i2 < rows@.len() ==> valid_row(#[trigger] rows@[i2]))) by {
                        assert(rows@[done] == all[done]);
                    }
                }
                return Err(FetchAllError::Unknown);
            },
        }
    }
    proof {
        assert(views(pokemons@) =~= mapped);
    }
    // defensively reject a store holding one key twice
    let n = pokemons.len();
    let mut i: usize = 0;
    while i < n
        invariant
            n == pokemons@.len(),
            i <= n,
            views(pokemons@) =~= mapped,
            forall|i2: int| 0 <= i2 < all.len() ==> valid_row(#[trigger] all[i2]),
            all.len() == n,
            all == rows@,
            mapped == mapped_rows(all),
            forall|k: int| 0 <= k < pokemons@.len() ==> (#[trigger] pokemons@[k]).wf(),
            forall|a: int, b: int|
                0 <= a < b < i ==> views(pokemons@)[a].number != views(pokemons@)[b].number,
        decreases n - i,
    {
        let mut j: usize = 0;
        while j < i
            invariant
                i < n,
                n == pokemons@.len(),
                j <= i,
                views(pokemons@) =~= mapped,
                all == rows@,
                all.len() == n,
                mapped == mapped_rows(all),
                forall|a: int, b: int|
                    0 <= a < b < i ==> views(pokemons@)[a].number != views(pokemons@)[b].number,
                forall|a: int|
                    0 <= a < j ==> views(pokemons@)[a].number != views(pokemons@)[i as int].number,
            decreases i - j,
        {
            if pokemons[j].number.value() == pokemons[i].number.value() {
                proof {
                    assert(views(pokemons@)[j as int].number == views(pokemons@)[i as int].number);
                    assert(mapped_rows(rows@)[j as int].number == mapped_rows(
                        rows@,
                    )[i as int].number);
                    assert(!unique_numbers(mapped_rows(rows@)));
                }
                return Err(FetchAllError::Unknown);
            }
            j = j + 1;
        }
        i = i + 1;
    }
    proof {
        assert forall|a: int, b: int|
            0 <= a < views(pokemons@).len() && 0 <= b < views(pokemons@).len() && a != b implies
            views(pokemons@)[a].number != views(pokemons@)[b].number by {
            let lo: int = if a < b { a } else { b };
            let hi: int = if a < b { b } else { a };
            assert(views(pokemons@)[lo].number != views(pokemons@)[hi].number);
        }
    }
    let sorted = sort_pokemons(pokemons);
    proof {
        broadcast use vstd::seq_lib::group_to_multiset_ensures;

        let ghost built = views(pokemons@);
        assert forall|k: int| 0 <= k < sorted@.len() implies (#[trigger] sorted@[k]).wf() by {
            assert(views(sorted@).contains(views(sorted@)[k]));
            assert(built.to_multiset().count(views(sorted@)[k]) > 0);
            assert(built.contains(views(sorted@)[k]));
            let j = choose|j: int| 0 <= j < built.len() && built[j] == views(sorted@)[k];
            assert(pokemons@[j].wf());
            assert(sorted@[k]@ == pokemons@[j]@);
        }
    }
    Ok(sorted)
}

/// Decide a header insert's outcome from how the statement fared: a
/// constraint violation is a duplicate key, so a conflict; any other
/// failure is unknown.
pub fn header_insert_outcome(res: Result<usize, SqlFailure>) -> (r: Result<(), InsertError>)
    ensures
        r is Ok <==> res is Ok,
        (r matches Err(InsertError::Conflict)) <==> (res matches Err(
            SqlFailure::ConstraintViolation,
        )),
        (r matches Err(InsertError::Unknown)) <==> (res matches Err(SqlFailure::Other)),
{
    match res {
        Ok(_) => Ok(()),
        Err(SqlFailure::ConstraintViolation) => Err(InsertError::Conflict),
        Err(SqlFailure::Other) => Err(InsertError::Unknown),
    }
}

/// Decide a conditional delete's outcome from how many rows it changed:
/// zero means the key was absent.
pub fn delete_outcome(changed: usize) -> (r: Result<(), DeleteError>)
    ensures
        r is Ok <==> changed > 0,
        (r matches Err(DeleteError::NotFound)) <==> changed == 0,
{
    if changed == 0 {
        Err(DeleteError::NotFound)
    } else {
        Ok(())
    }
}

impl Repository for SqliteRepository {
    /// One transaction: write the header row, then one row per tag, then
    /// commit. A duplicate key surfaces as a conflict; any other failure
    /// rolls the transaction back so nothing partial becomes durable.
    fn insert(&mut self, number: PokemonNumber, name: PokemonName, types: PokemonTypes) -> (r:
        Result<Pokemon, InsertError>)
    {
        if exec_sql(&self.conn, "begin transaction").is_err() {
            return Err(InsertError::Unknown);
        }
        let header = exec_sql_u16_str(
            &self.conn,
            "insert into pokemons values (?, ?)",
            number.value(),
            name.as_str(),
        );
        match header_insert_outcome(header) {
            Ok(()) => {},
            Err(e) => {
                let _ = exec_sql(&self.conn, "rollback");
                return Err(e);
            },
        }
        let labels = types.clone().into_strings();
        let mut i: usize = 0;
        while i < labels.len()
            decreases labels.len() - i,
        {
            if exec_sql_u16_str(
                &self.conn,
                "insert into types values (?, ?)",
                number.value(),
                labels[i].as_str(),
            ).is_err() {
                let _ = exec_sql(&self.conn, "rollback");
                return Err(InsertError::Unknown);
            }
            i = i + 1;
        }
        match exec_sql(&self.conn, "commit") {
            Ok(_) => Ok(Pokemon::new(number, name, types)),
            Err(_) => {
                let _ = exec_sql(&self.conn, "rollback");
                Err(InsertError::Unknown)
            },
        }
    }

    /// Read every header row and its tag rows, then interpret them:
    /// each row re-validated, a duplicated key rejected, the survivors
    /// in ascending key order.
    fn fetch_all(&self) -> (r: Result<Vec<Pokemon>, FetchAllError>) {
        let pairs = match query_pairs(&self.conn, "select number, name from pokemons") {
            Ok(rows) => rows,
            Err(()) => {
                return Err(FetchAllError::Unknown);
            },
        };
        let mut rows: Vec<SqliteRow> = Vec::new();
        let mut rest = pairs;
        while rest.len() > 0
            decreases rest@.len(),
        {
            let (key, name) = rest.remove(0);
            let tags = match query_strings_u16(
                &self.conn,
                "select name from types where pokemon_number = ?",
                key,
            ) {
                Ok(rows) => rows,
                Err(()) => {
                    return Err(FetchAllError::Unknown);
                },
            };
            rows.push(SqliteRow { number: key, name, tags });
        }
        fetch_all_from_rows(rows)
    }

    /// Read the header row filtered by key and its tag rows, then
    /// interpret them: absent means not found, and a row under another
    /// key or one failing re-validation means a corrupt store.
    fn fetch_one(&self, number: PokemonNumber) -> (r: Result<Pokemon, FetchOneError>) {
        let rows = match query_pairs_u16(
            &self.conn,
            "select number, name from pokemons where number = ?",
            number.value(),
        ) {
            Ok(rows) => rows,
            Err(()) => {
                return Err(FetchOneError::Unknown);
            },
        };
        let (key, name) = match first_header_row(rows) {
            Ok(h) => h,
            Err(e) => {
                return Err(e);
            },
        };
        let tags = match query_strings_u16(
            &self.conn,
            "select name from types where pokemon_number = ?",
            key,
        ) {
            Ok(rows) => rows,
            Err(()) => {
                return Err(FetchOneError::Unknown);
            },
        };
        fetch_one_from_row(number.value(), SqliteRow { number: key, name, tags })
    }

    /// One conditional statement; the schema cascades the tag rows away
    /// with the header row. Zero affected rows means the key was absent.
    fn delete(&mut self, number: PokemonNumber) -> (r: Result<(), DeleteError>) {
        match exec_sql_u16(
            &self.conn,
            "delete from pokemons where number = ?",
            number.value(),
        ) {
            Ok(changed) => delete_outcome(changed),
            Err(()) => Err(DeleteError::Unknown),
        }
    }
}

} // verus!
