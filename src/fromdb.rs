//! Rows of the catalog database as plain values, and the decoding of
//! entities from them, for each schema generation.
use vstd::prelude::*;
use vstd::string::*;

use crate::catalog::CatalogVersion;
use crate::{Error, SqlError};

verus! {

/// The value of one column of a row.
#[derive(Debug, PartialEq)]
pub enum Field {
    Null,
    Integer(i64),
    /// A floating column, carried as its value truncated toward zero: no
    /// decoding reads more of it.
    Real(i64),
    Text(String),
    Blob(Vec<u8>),
}

/// The error of a read of column `i` that does not hold the type asked for.
pub open spec fn col_error(row: Seq<Field>, i: int) -> Error {
    if 0 <= i < row.len() {
        Error::Sql(SqlError::InvalidColumnType(i as usize))
    } else {
        Error::Sql(SqlError::InvalidColumnIndex(i as usize))
    }
}

/// Column `i` read as an integer.
pub open spec fn int_col(row: Seq<Field>, i: int) -> Option<i64> {
    if 0 <= i < row.len() {
        match row[i] {
            Field::Integer(n) => Some(n),
            _ => None,
        }
    } else {
        None
    }
}

/// Column `i` read as a number truncated toward zero.
pub open spec fn real_col(row: Seq<Field>, i: int) -> Option<i64> {
    if 0 <= i < row.len() {
        match row[i] {
            Field::Integer(n) => Some(n),
            Field::Real(n) => Some(n),
            _ => None,
        }
    } else {
        None
    }
}

/// Column `i` read as a flag: an integer, set when it is not zero.
pub open spec fn bool_col(row: Seq<Field>, i: int) -> Option<bool> {
    match int_col(row, i) {
        Some(n) => Some(n != 0),
        None => None,
    }
}

/// Column `i` read as text.
pub open spec fn text_col(row: Seq<Field>, i: int) -> Option<Seq<char>> {
    if 0 <= i < row.len() {
        match row[i] {
            Field::Text(t) => Some(t@),
            _ => None,
        }
    } else {
        None
    }
}

/// Column `i` read as an integer, or `default` if it holds none.
pub open spec fn int_or(row: Seq<Field>, i: int, default: i64) -> i64 {
    match int_col(row, i) {
        Some(n) => n,
        None => default,
    }
}

/// Column `i` read as text, or `default` if it holds none.
pub open spec fn text_or(row: Seq<Field>, i: int, default: Seq<char>) -> Seq<char> {
    match text_col(row, i) {
        Some(t) => t,
        None => default,
    }
}

/// Read column `i` as an integer.
pub fn get_int(row: &Vec<Field>, i: usize) -> (r: Result<i64, Error>)
    ensures
        match int_col(row@, i as int) {
            Some(n) => r == Ok::<i64, Error>(n),
            None => r == Err::<i64, Error>(col_error(row@, i as int)),
        },
{
    if i >= row.len() {
        return Err(Error::Sql(SqlError::InvalidColumnIndex(i)));
    }
    match &row[i] {
        Field::Integer(n) => Ok(*n),
        _ => Err(Error::Sql(SqlError::InvalidColumnType(i))),
    }
}

/// Read column `i` as a number truncated toward zero.
pub fn get_real(row: &Vec<Field>, i: usize) -> (r: Result<i64, Error>)
    ensures
        match real_col(row@, i as int) {
            Some(n) => r == Ok::<i64, Error>(n),
            None => r == Err::<i64, Error>(col_error(row@, i as int)),
        },
{
    if i >= row.len() {
        return Err(Error::Sql(SqlError::InvalidColumnIndex(i)));
    }
    match &row[i] {
        Field::Integer(n) => Ok(*n),
        Field::Real(n) => Ok(*n),
        _ => Err(Error::Sql(SqlError::InvalidColumnType(i))),
    }
}

/// Read column `i` as a flag.
pub fn get_bool(row: &Vec<Field>, i: usize) -> (r: Result<bool, Error>)
    ensures
        match bool_col(row@, i as int) {
            Some(b) => r == Ok::<bool, Error>(b),
            None => r == Err::<bool, Error>(col_error(row@, i as int)),
        },
{
    match get_int(row, i) {
        Ok(n) => Ok(n != 0),
        Err(e) => Err(e),
    }
}

/// Read column `i` as text.
pub fn get_text(row: &Vec<Field>, i: usize) -> (r: Result<String, Error>)
    ensures
        match text_col(row@, i as int) {
            Some(t) => r matches Ok(s) && s@ == t,
            None => r == Err::<String, Error>(col_error(row@, i as int)),
        },
{
    if i >= row.len() {
        return Err(Error::Sql(SqlError::InvalidColumnIndex(i)));
    }
    match &row[i] {
        Field::Text(t) => Ok(t.clone()),
        _ => Err(Error::Sql(SqlError::InvalidColumnType(i))),
    }
}

/// Decoding of an entity type from the rows of a query that depends on the
/// schema generation.
pub trait FromDb: Sized {
    /// Whether `r` is what decoding `row` under `version` gives.
    spec fn decodes(version: CatalogVersion, row: Seq<Field>, r: Result<Self, Error>) -> bool;

    /// Whether decoding `row` under `version` gives an entity.
    spec fn accepts(version: CatalogVersion, row: Seq<Field>) -> bool;

    /// The tables of the query.
    spec fn tables(version: CatalogVersion) -> Seq<char>;

    /// The columns of the query.
    spec fn columns(version: CatalogVersion) -> Seq<char>;

    /// The join condition of the query, empty if there is none.
    spec fn join_where(version: CatalogVersion) -> Seq<char>;

    /// Decode one row of the query built from the tables and columns.
    fn read_from(version: CatalogVersion, row: &Vec<Field>) -> (r: Result<Self, Error>)
        ensures
            Self::decodes(version, row@, r),
            r is Ok <==> Self::accepts(version, row@),
    ;

    /// Tables of the select query.
    fn read_db_tables(version: CatalogVersion) -> (r: &'static str)
        ensures
            r@ == Self::tables(version),
    ;

    /// Columns of the select query.
    fn read_db_columns(version: CatalogVersion) -> (r: &'static str)
        ensures
            r@ == Self::columns(version),
    ;

    /// Join condition of the select query, empty if there is none.
    fn read_join_where(version: CatalogVersion) -> (r: &'static str)
        ensures
            r@ == Self::join_where(version),
    ;
}

/// `SELECT <columns> FROM <tables>`, then ` WHERE <join>` if there is a join.
pub open spec fn select_query(columns: Seq<char>, tables: Seq<char>, join: Seq<char>) -> Seq<char> {
    let base = "SELECT "@ + columns + " FROM "@ + tables;
    if join.len() == 0 {
        base
    } else {
        base + " WHERE "@ + join
    }
}

/// The query that lists the rows of entity type `T` under `version`.
pub fn query_for<T: FromDb>(version: CatalogVersion) -> (r: String)
    ensures
        r@ == select_query(T::columns(version), T::tables(version), T::join_where(version)),
{
    let mut query = String::from_str("SELECT ");
    query.append(T::read_db_columns(version));
    query.append(" FROM ");
    query.append(T::read_db_tables(version));
    let join = T::read_join_where(version);
    if !join.is_empty() {
        query.append(" WHERE ");
        query.append(join);
    }
    query
}

/// The rows that decode to an entity of type `T` under `version`, in order.
pub open spec fn accepted<T: FromDb>(version: CatalogVersion, rows: Seq<Vec<Field>>) -> Seq<
    Seq<Field>,
>
    decreases rows.len(),
{
    if rows.len() == 0 {
        Seq::empty()
    } else {
        let before = accepted::<T>(version, rows.drop_last());
        if T::accepts(version, rows.last()@) {
            before.push(rows.last()@)
        } else {
            before
        }
    }
}

/// Decode every row, keeping the entities and dropping the rows that fail to
/// decode, in the order of the rows.
pub fn decode_rows<T: FromDb>(version: CatalogVersion, rows: &Vec<Vec<Field>>) -> (r: Vec<T>)
    ensures
        r.len() == accepted::<T>(version, rows@).len(),
        forall|k: int|
            0 <= k < r.len() ==> T::decodes(version, accepted::<T>(version, rows@)[k], Ok(#[trigger] r[k])),
{
    let mut out: Vec<T> = Vec::new();
    let mut i: usize = 0;
    while i < rows.len()
        invariant
            i <= rows.len(),
            out.len() == accepted::<T>(version, rows@.take(i as int)).len(),
            forall|k: int|
                0 <= k < out.len() ==> T::decodes(
                    version,
                    accepted::<T>(version, rows@.take(i as int))[k],
                    Ok(#[trigger] out[k]),
                ),
        decreases rows.len() - i,
    {
        assert(rows@.take(i + 1).drop_last() =~= rows@.take(i as int));
        match T::read_from(version, &rows[i]) {
            Ok(entity) => {
                out.push(entity);
            },
            Err(_) => {},
        }
        i += 1;
    }
    assert(rows@.take(rows.len() as int) =~= rows@);
    out
}

} // verus!
