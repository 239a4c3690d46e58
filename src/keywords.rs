use vstd::prelude::*;

use crate::catalog::CatalogVersion;
use crate::fromdb::{get_int, get_text, int_col, int_or, text_col, text_or, col_error, Field, FromDb};
use crate::lrobject::{LrId, LrObject};
use crate::Error;

verus! {

/// A keyword.
#[derive(Debug)]
pub struct Keyword {
    /// Local id.
    pub id: LrId,
    /// Global UUID.
    pub uuid: String,
    /// The keyword itself.
    pub name: String,
    /// The parent. For a top-level keyword, the catalog's root keyword id.
    pub parent: LrId,
}

impl LrObject for Keyword {
    open spec fn spec_id(&self) -> LrId {
        self.id
    }

    open spec fn spec_uuid(&self) -> Seq<char> {
        self.uuid@
    }

    fn id(&self) -> LrId {
        self.id
    }

    fn uuid(&self) -> &str {
        self.uuid.as_str()
    }
}

impl Keyword {
    /// A new keyword.
    pub fn new(id: LrId, parent: LrId, uuid: &str, name: &str) -> (r: Keyword)
        ensures
            r.id == id,
            r.parent == parent,
            r.uuid@ == uuid@,
            r.name@ == name@,
    {
        Keyword { id, parent, uuid: uuid.to_owned(), name: name.to_owned() }
    }
}

impl FromDb for Keyword {
    /// Columns: id, uuid, creation date, name, parent. A keyword without a
    /// name is named "", one without a parent has parent 0.
    open spec fn decodes(version: CatalogVersion, row: Seq<Field>, r: Result<Keyword, Error>) -> bool {
        match (int_col(row, 0), text_col(row, 1)) {
            (Some(id), Some(uuid)) => r matches Ok(k) && k.id == id && k.uuid@ == uuid
                && k.name@ == text_or(row, 3, Seq::empty()) && k.parent == int_or(row, 4, 0),
            (None, _) => r == Err::<Keyword, Error>(col_error(row, 0)),
            (Some(_), None) => r == Err::<Keyword, Error>(col_error(row, 1)),
        }
    }

    open spec fn accepts(version: CatalogVersion, row: Seq<Field>) -> bool {
        int_col(row, 0) is Some && text_col(row, 1) is Some
    }

    open spec fn tables(version: CatalogVersion) -> Seq<char> {
        "AgLibraryKeyword"@
    }

    open spec fn columns(version: CatalogVersion) -> Seq<char> {
        "id_local,id_global,cast(dateCreated as text),name,parent"@
    }

    open spec fn join_where(version: CatalogVersion) -> Seq<char> {
        ""@
    }

    fn read_from(version: CatalogVersion, row: &Vec<Field>) -> (r: Result<Keyword, Error>) {
        let name = match get_text(row, 3) {
            Ok(t) => t,
            Err(_) => String::new(),
        };
        let parent = match get_int(row, 4) {
            Ok(n) => n,
            Err(_) => 0,
        };
        let id = match get_int(row, 0) {
            Ok(n) => n,
            Err(e) => return Err(e),
        };
        let uuid = match get_text(row, 1) {
            Ok(t) => t,
            Err(e) => return Err(e),
        };
        Ok(Keyword { id, uuid, name, parent })
    }

    fn read_db_tables(version: CatalogVersion) -> &'static str {
        "AgLibraryKeyword"
    }

    fn read_db_columns(version: CatalogVersion) -> &'static str {
        "id_local,id_global,cast(dateCreated as text),name,parent"
    }

    fn read_join_where(version: CatalogVersion) -> &'static str {
        ""
    }
}

} // verus!
