use vstd::prelude::*;

use crate::catalog::CatalogVersion;
use crate::fromdb::{col_error, get_int, get_text, int_col, text_col, Field, FromDb};
use crate::lrobject::{LrId, LrObject};
use crate::Error;

verus! {

/// A file backing `Image`s.
#[derive(Debug)]
pub struct LibraryFile {
    /// Local id.
    pub id: LrId,
    /// Global UUID.
    pub uuid: String,
    /// Basename (no extension) of the file.
    pub basename: String,
    /// Extension of the file.
    pub extension: String,
    /// Id of the `Folder` that holds the file.
    pub folder: LrId,
    /// Extensions of the sidecar(s), comma separated.
    pub sidecar_extensions: String,
}

impl LrObject for LibraryFile {
    open spec fn spec_id(&self) -> LrId {
        self.id
    }

    open spec fn spec_uuid(&self) -> Seq<char> {
        self.uuid@
    }

    fn id(&self) -> LrId {
        self.id
    }

    fn uuid(&self) -> &str {
        self.uuid.as_str()
    }
}

impl FromDb for LibraryFile {
    /// Columns: id, uuid, basename, extension, folder id, sidecar
    /// extensions; all required.
    open spec fn decodes(version: CatalogVersion, row: Seq<Field>, r: Result<LibraryFile, Error>) -> bool {
        if int_col(row, 0) is None {
            r == Err::<LibraryFile, Error>(col_error(row, 0))
        } else if text_col(row, 1) is None {
            r == Err::<LibraryFile, Error>(col_error(row, 1))
        } else if text_col(row, 2) is None {
            r == Err::<LibraryFile, Error>(col_error(row, 2))
        } else if text_col(row, 3) is None {
            r == Err::<LibraryFile, Error>(col_error(row, 3))
        } else if int_col(row, 4) is None {
            r == Err::<LibraryFile, Error>(col_error(row, 4))
        } else if text_col(row, 5) is None {
            r == Err::<LibraryFile, Error>(col_error(row, 5))
        } else {
            r matches Ok(f) && f.id == int_col(row, 0).unwrap() && f.uuid@ == text_col(row, 1).unwrap()
                && f.basename@ == text_col(row, 2).unwrap() && f.extension@ == text_col(row, 3).unwrap()
                && f.folder == int_col(row, 4).unwrap() && f.sidecar_extensions@ == text_col(row, 5).unwrap()
        }
    }

    open spec fn accepts(version: CatalogVersion, row: Seq<Field>) -> bool {
        int_col(row, 0) is Some && text_col(row, 1) is Some && text_col(row, 2) is Some
            && text_col(row, 3) is Some && int_col(row, 4) is Some && text_col(row, 5) is Some
    }

    open spec fn tables(version: CatalogVersion) -> Seq<char> {
        "AgLibraryFile"@
    }

    open spec fn columns(version: CatalogVersion) -> Seq<char> {
        "id_local,id_global,baseName,extension,folder,sidecarExtensions"@
    }

    open spec fn join_where(version: CatalogVersion) -> Seq<char> {
        ""@
    }

    fn read_from(version: CatalogVersion, row: &Vec<Field>) -> (r: Result<LibraryFile, Error>) {
        let id = match get_int(row, 0) {
            Ok(n) => n,
            Err(e) => return Err(e),
        };
        let uuid = match get_text(row, 1) {
            Ok(t) => t,
            Err(e) => return Err(e),
        };
        let basename = match get_text(row, 2) {
            Ok(t) => t,
            Err(e) => return Err(e),
        };
        let extension = match get_text(row, 3) {
            Ok(t) => t,
            Err(e) => return Err(e),
        };
        let folder = match get_int(row, 4) {
            Ok(n) => n,
            Err(e) => return Err(e),
        };
        let sidecar_extensions = match get_text(row, 5) {
            Ok(t) => t,
            Err(e) => return Err(e),
        };
        Ok(LibraryFile { id, uuid, basename, extension, folder, sidecar_extensions })
    }

    fn read_db_tables(version: CatalogVersion) -> &'static str {
        "AgLibraryFile"
    }

    fn read_db_columns(version: CatalogVersion) -> &'static str {
        "id_local,id_global,baseName,extension,folder,sidecarExtensions"
    }

    fn read_join_where(version: CatalogVersion) -> &'static str {
        ""
    }
}

} // verus!
