//! Reading of Lightroom catalogs: the domain model of a catalog, the
//! decoding of its rows for each schema generation, and the object notation
//! that it stores inside text columns.
use vstd::prelude::*;

pub mod catalog;
pub mod collections;
pub mod content;
pub mod folders;
pub mod fromdb;
pub mod images;
pub mod keywords;
pub mod keywordtree;
pub mod libraryfiles;
pub mod listing;
pub mod lrobject;
pub mod lron;
pub mod text;

pub use catalog::CatalogVersion;
pub use collections::Collection;
pub use content::{Content, SortDirection};
pub use folders::{Folder, Folders, RootFolder};
pub use fromdb::{Field, FromDb};
pub use images::{Image, Properties};
pub use keywords::Keyword;
pub use keywordtree::KeywordTree;
pub use libraryfiles::LibraryFile;
pub use lrobject::{LrId, LrObject};
pub use lron::{Number, ParseError};

verus! {

/// A point.
#[derive(Debug, PartialEq)]
pub struct Point {
    pub x: Number,
    pub y: Number,
}

/// Aspect ratio.
#[derive(Debug, PartialEq, Eq, Clone, Copy)]
pub struct AspectRatio {
    pub width: i32,
    pub height: i32,
}

/// Rectangle. Crop rectangles use 0 to 1 on each axis.
#[derive(Debug, PartialEq)]
pub struct Rect {
    pub top: Number,
    pub bottom: Number,
    pub left: Number,
    pub right: Number,
}

/// Failure of a column read from a database row.
#[derive(Debug, PartialEq)]
pub enum SqlError {
    /// The row has no column at this index.
    InvalidColumnIndex(usize),
    /// The column at this index holds a value of another type.
    InvalidColumnType(usize),
    /// The database driver failed; its message.
    Driver(String),
}

/// Errors of the crate.
#[derive(Debug, PartialEq)]
pub enum Error {
    /// The row is not an entity of the requested kind (when reading rows).
    Skip,
    /// Unsupported catalog version.
    UnsupportedVersion,
    /// A database error.
    Sql(SqlError),
    /// A text that is not a document of the object notation.
    Lron(ParseError),
    /// The operation is not implemented.
    Unimplemented,
}

impl From<ParseError> for Error {
    fn from(err: ParseError) -> (r: Error) {
        Error::Lron(err)
    }
}

impl vstd::std_specs::convert::FromSpecImpl<ParseError> for Error {
    open spec fn obeys_from_spec() -> bool {
        true
    }

    open spec fn from_spec(err: ParseError) -> Error {
        Error::Lron(err)
    }
}

/// Result type of the crate.
pub type Result<T> = std::result::Result<T, Error>;

} // verus!
