use vstd::prelude::*;

use crate::catalog::CatalogVersion;
use crate::content::{content_query, Content};
use crate::fromdb::{col_error, get_int, get_real, get_text, int_col, int_or, real_col, text_col, text_or, Field, FromDb};
use crate::lrobject::LrId;
use crate::text::str_eq;
use crate::Error;

verus! {

/// A collection.
#[derive(Debug)]
pub struct Collection {
    /// Local id of the collection.
    pub id: LrId,
    /// Name of the collection, as the user sees it.
    pub name: String,
    /// Parent of the collection.
    pub parent: LrId,
    /// Whether it is a collection of the system (the quick collection).
    pub system_only: bool,
    /// Content definition of the collection.
    pub content: Option<Content>,
}

/// Whether a tag kind of a 2.x catalog is a collection, and which.
pub open spec fn is_collection_kind(kind: Seq<char>) -> bool {
    kind == "AgCollectionTagKind"@ || kind == "AgQuickCollectionTagKind"@
}

/// The name of a 2.x collection that has none.
pub open spec fn default_name(kind: Seq<char>) -> Seq<char> {
    if kind == "AgQuickCollectionTagKind"@ {
        "Quick Collection"@
    } else {
        Seq::empty()
    }
}

impl FromDb for Collection {
    /// 4.x and 6.x: columns id, genealogy, name, parent, system flag; the
    /// parent is 0 if absent, the others are required. 2.x: columns id,
    /// name, parent, tag kind; tags of other kinds than the two collection
    /// kinds are skipped. Other versions have no collections.
    open spec fn decodes(version: CatalogVersion, row: Seq<Field>, r: Result<Collection, Error>) -> bool {
        match version {
            CatalogVersion::Lr4 | CatalogVersion::Lr6 => if int_col(row, 0) is None {
                r == Err::<Collection, Error>(col_error(row, 0))
            } else if text_col(row, 2) is None {
                r == Err::<Collection, Error>(col_error(row, 2))
            } else if real_col(row, 4) is None {
                r == Err::<Collection, Error>(col_error(row, 4))
            } else {
                r matches Ok(c) && c.id == int_col(row, 0).unwrap() && c.name@ == text_col(row, 2).unwrap()
                    && c.parent == int_or(row, 3, 0) && c.system_only == (real_col(row, 4).unwrap() != 0)
                    && c.content is None
            },
            CatalogVersion::Lr2 => match text_col(row, 3) {
                None => r == Err::<Collection, Error>(col_error(row, 3)),
                Some(kind) => if !is_collection_kind(kind) {
                    r == Err::<Collection, Error>(Error::Skip)
                } else if int_col(row, 0) is None {
                    r == Err::<Collection, Error>(col_error(row, 0))
                } else {
                    r matches Ok(c) && c.id == int_col(row, 0).unwrap()
                        && c.name@ == text_or(row, 1, default_name(kind)) && c.parent == int_or(row, 2, 0)
                        && c.system_only == (kind == "AgQuickCollectionTagKind"@) && c.content is None
                },
            },
            _ => r == Err::<Collection, Error>(Error::UnsupportedVersion),
        }
    }

    open spec fn accepts(version: CatalogVersion, row: Seq<Field>) -> bool {
        match version {
            CatalogVersion::Lr4 | CatalogVersion::Lr6 => int_col(row, 0) is Some && text_col(row, 2) is Some
                && real_col(row, 4) is Some,
            CatalogVersion::Lr2 => text_col(row, 3) matches Some(kind) && is_collection_kind(kind)
                && int_col(row, 0) is Some,
            _ => false,
        }
    }

    open spec fn tables(version: CatalogVersion) -> Seq<char> {
        match version {
            CatalogVersion::Lr4 | CatalogVersion::Lr6 => "AgLibraryCollection"@,
            CatalogVersion::Lr2 => "AgLibraryTag"@,
            _ => ""@,
        }
    }

    open spec fn columns(version: CatalogVersion) -> Seq<char> {
        match version {
            CatalogVersion::Lr4 | CatalogVersion::Lr6 => "id_local,genealogy,name,parent,systemOnly"@,
            CatalogVersion::Lr2 => "id_local,name,parent,kindName"@,
            _ => ""@,
        }
    }

    open spec fn join_where(version: CatalogVersion) -> Seq<char> {
        ""@
    }

    fn read_from(version: CatalogVersion, row: &Vec<Field>) -> (r: Result<Collection, Error>) {
        match version {
            CatalogVersion::Lr4 | CatalogVersion::Lr6 => {
                let id = match get_int(row, 0) {
                    Ok(n) => n,
                    Err(e) => return Err(e),
                };
                let name = match get_text(row, 2) {
                    Ok(t) => t,
                    Err(e) => return Err(e),
                };
                let parent = match get_int(row, 3) {
                    Ok(n) => n,
                    Err(_) => 0,
                };
                let system = match get_real(row, 4) {
                    Ok(n) => n,
                    Err(e) => return Err(e),
                };
                Ok(Collection { id, name, parent, system_only: system != 0, content: None })
            },
            CatalogVersion::Lr2 => {
                let kind = match get_text(row, 3) {
                    Ok(t) => t,
                    Err(e) => return Err(e),
                };
                let quick = str_eq(kind.as_str(), "AgQuickCollectionTagKind");
                let name = match get_text(row, 1) {
                    Ok(t) => t,
                    Err(_) => if quick {
                        "Quick Collection".to_owned()
                    } else {
                        String::new()
                    },
                };
                if !quick && !str_eq(kind.as_str(), "AgCollectionTagKind") {
                    return Err(Error::Skip);
                }
                let id = match get_int(row, 0) {
                    Ok(n) => n,
                    Err(e) => return Err(e),
                };
                let parent = match get_int(row, 2) {
                    Ok(n) => n,
                    Err(_) => 0,
                };
                Ok(Collection { id, name, parent, system_only: quick, content: None })
            },
            _ => Err(Error::UnsupportedVersion),
        }
    }

    fn read_db_tables(version: CatalogVersion) -> &'static str {
        match version {
            CatalogVersion::Lr4 | CatalogVersion::Lr6 => "AgLibraryCollection",
            CatalogVersion::Lr2 => "AgLibraryTag",
            _ => "",
        }
    }

    fn read_db_columns(version: CatalogVersion) -> &'static str {
        match version {
            CatalogVersion::Lr4 | CatalogVersion::Lr6 => "id_local,genealogy,name,parent,systemOnly",
            CatalogVersion::Lr2 => "id_local,name,parent,kindName",
            _ => "",
        }
    }

    fn read_join_where(version: CatalogVersion) -> &'static str {
        ""
    }
}

impl Collection {
    /// The local id of the collection.
    pub fn id(&self) -> (r: LrId)
        ensures
            r == self.id,
    {
        self.id
    }

    /// The query for the content rows of a collection, whose id is
    /// parameter 1.
    pub fn content_query() -> (r: String)
        ensures
            r@ == content_query("AgLibraryCollectionContent"@, "collection"@),
    {
        Content::query("AgLibraryCollectionContent", "collection")
    }
}

} // verus!
