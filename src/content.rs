//! The content definition of a container (a folder or a collection): its
//! filter, its sort, and the rules of a smart collection.
use vstd::prelude::*;
use vstd::string::*;

use crate::fromdb::{get_text, text_col, Field};
use crate::lron::{document, Object, ObjectModel};
use crate::text::str_eq;

verus! {

/// Sorting direction.
#[derive(Clone, Copy, Debug, PartialEq, Eq, Structural)]
pub enum SortDirection {
    /// Ascending sort.
    Ascending,
    /// Descending sort.
    Descending,
    /// Unknown value.
    Unknown,
}

/// The content view of a `Collection` or a `Folder`.
#[derive(Debug, PartialEq)]
pub struct Content {
    /// Filter.
    pub filter: Option<String>,
    /// What to sort on.
    pub sort_type: Option<String>,
    /// Which direction to sort.
    pub sort_direction: Option<SortDirection>,
    /// The rules of the smart collection, if any.
    pub smart_collection: Option<Object>,
}

/// Mathematical model of a `Content`.
pub struct ContentModel {
    pub filter: Option<Seq<char>>,
    pub sort_type: Option<Seq<char>>,
    pub sort_direction: Option<SortDirection>,
    pub smart_collection: Option<ObjectModel>,
}

pub open spec fn text_model(t: Option<String>) -> Option<Seq<char>> {
    match t {
        Some(s) => Some(s@),
        None => None,
    }
}

impl View for Content {
    type V = ContentModel;

    open spec fn view(&self) -> ContentModel {
        ContentModel {
            filter: text_model(self.filter),
            sort_type: text_model(self.sort_type),
            sort_direction: self.sort_direction,
            smart_collection: match self.smart_collection {
                Some(o) => Some(o@),
                None => None,
            },
        }
    }
}

impl Default for Content {
    fn default() -> (r: Content)
        ensures
            r@ == empty_content(),
    {
        Content { filter: None, sort_type: None, sort_direction: None, smart_collection: None }
    }
}

pub open spec fn empty_content() -> ContentModel {
    ContentModel { filter: None, sort_type: None, sort_direction: None, smart_collection: None }
}

/// The sort direction that a stored text names.
pub open spec fn direction_of(t: Seq<char>) -> SortDirection {
    if t == "ascending"@ {
        SortDirection::Ascending
    } else if t == "descending"@ {
        SortDirection::Descending
    } else {
        SortDirection::Unknown
    }
}

/// Whether `m` is the owning module of one of the four fields.
pub open spec fn is_known_module(m: Seq<char>) -> bool {
    m == "com.adobe.ag.library.filter"@ || m == "com.adobe.ag.library.sortType"@ || m
        == "com.adobe.ag.library.sortDirection"@ || m == "ag.library.smart_collection"@
}

/// The content after one row `(content, owningModule)`. A row whose module is
/// not text, or is no known module, changes nothing. A smart collection that
/// does not parse leaves no smart collection.
pub open spec fn content_step(c: ContentModel, row: Seq<Field>) -> ContentModel {
    let value = text_col(row, 0);
    match text_col(row, 1) {
        Some(m) => if m == "com.adobe.ag.library.filter"@ {
            ContentModel { filter: value, ..c }
        } else if m == "com.adobe.ag.library.sortType"@ {
            ContentModel { sort_type: value, ..c }
        } else if m == "com.adobe.ag.library.sortDirection"@ {
            ContentModel {
                sort_direction: match value {
                    Some(t) => Some(direction_of(t)),
                    None => None,
                },
                ..c
            }
        } else if m == "ag.library.smart_collection"@ {
            match value {
                Some(t) => ContentModel { smart_collection: document(t), ..c },
                None => c,
            }
        } else {
            c
        },
        None => c,
    }
}

/// The content that the rows give, each row in turn; the last row of a
/// module wins.
pub open spec fn content_of(rows: Seq<Vec<Field>>) -> ContentModel
    decreases rows.len(),
{
    if rows.len() == 0 {
        empty_content()
    } else {
        content_step(content_of(rows.drop_last()), rows.last()@)
    }
}

/// `SELECT content, owningModule from <table> where <column>=?1`.
pub open spec fn content_query(table: Seq<char>, column: Seq<char>) -> Seq<char> {
    "SELECT content, owningModule from "@ + table + " where "@ + column + "=?1"@
}

/// Each row of a known module sets the field of that module and no other;
/// a row of any other module changes nothing.
pub proof fn lemma_module_dispatch(rows: Seq<Vec<Field>>, row: Vec<Field>)
    ensures
        ({
            let before = content_of(rows);
            let after = content_of(rows.push(row));
            let value = text_col(row@, 0);
            &&& text_col(row@, 1) == Some("com.adobe.ag.library.filter"@) ==> after
                == ContentModel { filter: value, ..before }
            &&& text_col(row@, 1) == Some("com.adobe.ag.library.sortType"@) ==> after
                == ContentModel { sort_type: value, ..before }
            &&& text_col(row@, 1) == Some("com.adobe.ag.library.sortDirection"@) ==> after
                == ContentModel {
                sort_direction: match value {
                    Some(t) => Some(direction_of(t)),
                    None => None,
                },
                ..before
            }
            &&& text_col(row@, 1) == Some("ag.library.smart_collection"@) && value is Some ==> after
                == ContentModel { smart_collection: document(value.unwrap()), ..before }
            &&& !(text_col(row@, 1) matches Some(m) && is_known_module(m)) ==> after == before
        }),
{
    assert(rows.push(row).drop_last() =~= rows);
    reveal_strlit("com.adobe.ag.library.filter");
    reveal_strlit("com.adobe.ag.library.sortType");
    reveal_strlit("com.adobe.ag.library.sortDirection");
    reveal_strlit("ag.library.smart_collection");
    assert("com.adobe.ag.library.sortType"@[21] != "com.adobe.ag.library.filter"@[21]);
    assert("com.adobe.ag.library.sortDirection"@[21] != "com.adobe.ag.library.filter"@[21]);
    assert("com.adobe.ag.library.sortDirection"@[25] != "com.adobe.ag.library.sortType"@[25]);
    assert("com.adobe.ag.library.sortDirection"@ != "com.adobe.ag.library.sortType"@);
    assert("ag.library.smart_collection"@ != "com.adobe.ag.library.filter"@);
    assert("ag.library.smart_collection"@ != "com.adobe.ag.library.sortType"@);
    assert("ag.library.smart_collection"@ != "com.adobe.ag.library.sortDirection"@);
}

impl Content {
    /// The query that lists the `(content, owningModule)` rows of the
    /// container whose id is parameter 1.
    pub fn query(table: &str, container_col: &str) -> (r: String)
        ensures
            r@ == content_query(table@, container_col@),
    {
        let mut query = String::from_str("SELECT content, owningModule from ");
        query.append(table);
        query.append(" where ");
        query.append(container_col);
        query.append("=?1");
        query
    }

    /// The content that the `(content, owningModule)` rows define.
    pub fn from_rows(rows: &Vec<Vec<Field>>) -> (r: Content)
        ensures
            r@ == content_of(rows@),
    {
        let mut content = Content::default();
        let mut i: usize = 0;
        while i < rows.len()
            invariant
                i <= rows.len(),
                content@ == content_of(rows@.take(i as int)),
            decreases rows.len() - i,
        {
            let row = &rows[i];
            assert(rows@.take(i + 1).drop_last() =~= rows@.take(i as int));
            if let Ok(module) = get_text(row, 1) {
                let m = module.as_str();
                if str_eq(m, "com.adobe.ag.library.filter") {
                    content.filter = get_text(row, 0).ok();
                } else if str_eq(m, "com.adobe.ag.library.sortType") {
                    content.sort_type = get_text(row, 0).ok();
                } else if str_eq(m, "com.adobe.ag.library.sortDirection") {
                    content.sort_direction = match get_text(row, 0) {
                        Ok(t) => Some(
                            if str_eq(t.as_str(), "ascending") {
                                SortDirection::Ascending
                            } else if str_eq(t.as_str(), "descending") {
                                SortDirection::Descending
                            } else {
                                SortDirection::Unknown
                            },
                        ),
                        Err(_) => None,
                    };
                } else if str_eq(m, "ag.library.smart_collection") {
                    if let Ok(t) = get_text(row, 0) {
                        content.smart_collection = Object::from_string(t.as_str()).ok();
                    }
                }
            }
            i += 1;
        }
        assert(rows@.take(rows.len() as int) =~= rows@);
        content
    }
}

} // verus!
