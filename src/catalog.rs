use vstd::prelude::*;
use vstd::string::*;

use crate::Error;

verus! {

/// Schema generation of a catalog.
#[derive(Clone, Copy, Debug, PartialEq, Eq, Structural)]
pub enum CatalogVersion {
    /// Unknown version.
    Unknown,
    /// Lightroom 2.x catalog.
    Lr2,
    /// Lightroom 3.x catalog: detected, but no query plan is known for it.
    Lr3,
    /// Lightroom 4.x catalog.
    Lr4,
    /// Lightroom 6.x catalog.
    Lr6,
}

impl CatalogVersion {
    /// Whether the entity queries know the tables and columns of this version.
    pub open spec fn spec_is_supported(self) -> bool {
        self == CatalogVersion::Lr2 || self == CatalogVersion::Lr4 || self == CatalogVersion::Lr6
    }

    /// Return whether this catalog version is supported.
    pub fn is_supported(&self) -> (r: bool)
        ensures
            r == self.spec_is_supported(),
    {
        *self == CatalogVersion::Lr2 || *self == CatalogVersion::Lr4 || *self == CatalogVersion::Lr6
    }
}

/// The schema generation that a catalog version string names by its first
/// two characters: `02`, `03`, `04` and `06` name the four known ones, any
/// other start (or a string too short to have one) names none.
pub open spec fn version_of(v: Seq<char>) -> CatalogVersion {
    if v.len() >= 2 && v[0] == '0' && v[1] == '2' {
        CatalogVersion::Lr2
    } else if v.len() >= 2 && v[0] == '0' && v[1] == '3' {
        CatalogVersion::Lr3
    } else if v.len() >= 2 && v[0] == '0' && v[1] == '4' {
        CatalogVersion::Lr4
    } else if v.len() >= 2 && v[0] == '0' && v[1] == '6' {
        CatalogVersion::Lr6
    } else {
        CatalogVersion::Unknown
    }
}

impl CatalogVersion {
    /// The schema generation of a catalog version string, as stored in the
    /// catalog (`"0400020"`).
    pub fn parse(version: &str) -> (r: CatalogVersion)
        ensures
            r == version_of(version@),
    {
        if version.unicode_len() < 2 || version.get_char(0) != '0' {
            return CatalogVersion::Unknown;
        }
        let c = version.get_char(1);
        if c == '2' {
            CatalogVersion::Lr2
        } else if c == '3' {
            CatalogVersion::Lr3
        } else if c == '4' {
            CatalogVersion::Lr4
        } else if c == '6' {
            CatalogVersion::Lr6
        } else {
            CatalogVersion::Unknown
        }
    }

    /// The query that lists the images of the collection whose id is
    /// parameter 1: 2.x catalogs keep them as tagged images, 3.x to 6.x in a
    /// table of their own; other versions have no known query.
    pub fn collection_images_query(&self) -> (r: Result<&'static str, Error>)
        ensures
            match self {
                CatalogVersion::Lr2 => r matches Ok(q) && q@
                    == "SELECT image FROM AgLibraryTagImage WHERE tag = ?1 AND tagKind = \"AgCollectionTagKind\""@,
                CatalogVersion::Lr3 | CatalogVersion::Lr4 | CatalogVersion::Lr6 => r matches Ok(q) && q@
                    == "SELECT image FROM AgLibraryCollectionImage WHERE collection = ?1"@,
                CatalogVersion::Unknown => r == Err::<&'static str, Error>(Error::UnsupportedVersion),
            },
    {
        match self {
            CatalogVersion::Lr2 => Ok(
                "SELECT image FROM AgLibraryTagImage WHERE tag = ?1 AND tagKind = \"AgCollectionTagKind\"",
            ),
            CatalogVersion::Lr3 | CatalogVersion::Lr4 | CatalogVersion::Lr6 => Ok(
                "SELECT image FROM AgLibraryCollectionImage WHERE collection = ?1",
            ),
            CatalogVersion::Unknown => Err(Error::UnsupportedVersion),
        }
    }
}

} // verus!
