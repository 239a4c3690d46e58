//! Folders and root folders, and the resolution of a folder's path.
use vstd::prelude::*;
use vstd::string::*;

use crate::catalog::CatalogVersion;
use crate::content::{content_query, Content};
use crate::fromdb::{col_error, get_int, get_text, int_col, text_col, Field, FromDb};
use crate::lrobject::{LrId, LrObject};
use crate::Error;

verus! {

/// A folder: the container of `LibraryFile`s. Each is attached to a
/// `RootFolder`.
#[derive(Debug)]
pub struct Folder {
    /// Local id.
    pub id: LrId,
    /// Global UUID.
    pub uuid: String,
    /// Path from the `RootFolder`.
    pub path_from_root: String,
    /// Id of the `RootFolder`.
    pub root_folder: LrId,
    /// The content definition of the folder.
    pub content: Option<Content>,
}

impl LrObject for Folder {
    open spec fn spec_id(&self) -> LrId {
        self.id
    }

    open spec fn spec_uuid(&self) -> Seq<char> {
        self.uuid@
    }

    fn id(&self) -> LrId {
        self.id
    }

    fn uuid(&self) -> &str {
        self.uuid.as_str()
    }
}

impl FromDb for Folder {
    /// Columns: id, uuid, path from the root, root folder id; all required.
    open spec fn decodes(version: CatalogVersion, row: Seq<Field>, r: Result<Folder, Error>) -> bool {
        match (int_col(row, 0), text_col(row, 1), text_col(row, 2), int_col(row, 3)) {
            (Some(id), Some(uuid), Some(path), Some(root)) => r matches Ok(f) && f.id == id
                && f.uuid@ == uuid && f.path_from_root@ == path && f.root_folder == root
                && f.content is None,
            (None, _, _, _) => r == Err::<Folder, Error>(col_error(row, 0)),
            (Some(_), None, _, _) => r == Err::<Folder, Error>(col_error(row, 1)),
            (Some(_), Some(_), None, _) => r == Err::<Folder, Error>(col_error(row, 2)),
            (Some(_), Some(_), Some(_), None) => r == Err::<Folder, Error>(col_error(row, 3)),
        }
    }

    open spec fn accepts(version: CatalogVersion, row: Seq<Field>) -> bool {
        int_col(row, 0) is Some && text_col(row, 1) is Some && text_col(row, 2) is Some
            && int_col(row, 3) is Some
    }

    open spec fn tables(version: CatalogVersion) -> Seq<char> {
        "AgLibraryFolder"@
    }

    open spec fn columns(version: CatalogVersion) -> Seq<char> {
        "id_local,id_global,pathFromRoot,rootFolder"@
    }

    open spec fn join_where(version: CatalogVersion) -> Seq<char> {
        ""@
    }

    fn read_from(version: CatalogVersion, row: &Vec<Field>) -> (r: Result<Folder, Error>) {
        let id = match get_int(row, 0) {
            Ok(n) => n,
            Err(e) => return Err(e),
        };
        let uuid = match get_text(row, 1) {
            Ok(t) => t,
            Err(e) => return Err(e),
        };
        let path_from_root = match get_text(row, 2) {
            Ok(t) => t,
            Err(e) => return Err(e),
        };
        let root_folder = match get_int(row, 3) {
            Ok(n) => n,
            Err(e) => return Err(e),
        };
        Ok(Folder { id, uuid, path_from_root, root_folder, content: None })
    }

    fn read_db_tables(version: CatalogVersion) -> &'static str {
        "AgLibraryFolder"
    }

    fn read_db_columns(version: CatalogVersion) -> &'static str {
        "id_local,id_global,pathFromRoot,rootFolder"
    }

    fn read_join_where(version: CatalogVersion) -> &'static str {
        ""
    }
}

impl Folder {
    /// A new folder, with an empty path, root folder 0 and no content.
    pub fn new(id: LrId, uuid: &str) -> (r: Folder)
        ensures
            r.id == id,
            r.uuid@ == uuid@,
            r.path_from_root@ == Seq::<char>::empty(),
            r.root_folder == 0,
            r.content is None,
    {
        Folder { id, uuid: uuid.to_owned(), path_from_root: String::new(), root_folder: 0, content: None }
    }

    /// The query for the content rows of a folder, whose id is parameter 1.
    pub fn content_query() -> (r: String)
        ensures
            r@ == content_query("AgFolderContent"@, "containingFolder"@),
    {
        Content::query("AgFolderContent", "containingFolder")
    }
}

/// The ancestor of `Folder`s, at an absolute path.
#[derive(Debug)]
pub struct RootFolder {
    /// Local id.
    pub id: LrId,
    /// Global UUID.
    pub uuid: String,
    /// Absolute path of the `RootFolder`.
    pub absolute_path: String,
    /// (User readable) name of the `RootFolder`.
    pub name: String,
    /// The path relative to the catalog file, where there is one.
    pub relative_path_from_catalog: Option<String>,
}

impl LrObject for RootFolder {
    open spec fn spec_id(&self) -> LrId {
        self.id
    }

    open spec fn spec_uuid(&self) -> Seq<char> {
        self.uuid@
    }

    fn id(&self) -> LrId {
        self.id
    }

    fn uuid(&self) -> &str {
        self.uuid.as_str()
    }
}

impl RootFolder {
    /// A new `RootFolder` with an id and uuid, empty paths and name.
    pub fn new(id: LrId, uuid: &str) -> (r: RootFolder)
        ensures
            r.id == id,
            r.uuid@ == uuid@,
            r.absolute_path@ == Seq::<char>::empty(),
            r.name@ == Seq::<char>::empty(),
            r.relative_path_from_catalog is None,
    {
        RootFolder {
            id,
            uuid: uuid.to_owned(),
            absolute_path: String::new(),
            name: String::new(),
            relative_path_from_catalog: None,
        }
    }
}

impl FromDb for RootFolder {
    /// Columns: id, uuid, absolute path, name, all required; then the path
    /// relative to the catalog, if the column holds text.
    open spec fn decodes(version: CatalogVersion, row: Seq<Field>, r: Result<RootFolder, Error>) -> bool {
        match (int_col(row, 0), text_col(row, 1), text_col(row, 2), text_col(row, 3)) {
            (Some(id), Some(uuid), Some(path), Some(name)) => r matches Ok(f) && f.id == id
                && f.uuid@ == uuid && f.absolute_path@ == path && f.name@ == name
                && crate::content::text_model(f.relative_path_from_catalog) == text_col(row, 4),
            (None, _, _, _) => r == Err::<RootFolder, Error>(col_error(row, 0)),
            (Some(_), None, _, _) => r == Err::<RootFolder, Error>(col_error(row, 1)),
            (Some(_), Some(_), None, _) => r == Err::<RootFolder, Error>(col_error(row, 2)),
            (Some(_), Some(_), Some(_), None) => r == Err::<RootFolder, Error>(col_error(row, 3)),
        }
    }

    open spec fn accepts(version: CatalogVersion, row: Seq<Field>) -> bool {
        int_col(row, 0) is Some && text_col(row, 1) is Some && text_col(row, 2) is Some
            && text_col(row, 3) is Some
    }

    open spec fn tables(version: CatalogVersion) -> Seq<char> {
        "AgLibraryRootFolder"@
    }

    open spec fn columns(version: CatalogVersion) -> Seq<char> {
        "id_local,id_global,absolutePath,name,relativePathFromCatalog"@
    }

    open spec fn join_where(version: CatalogVersion) -> Seq<char> {
        ""@
    }

    fn read_from(version: CatalogVersion, row: &Vec<Field>) -> (r: Result<RootFolder, Error>) {
        let id = match get_int(row, 0) {
            Ok(n) => n,
            Err(e) => return Err(e),
        };
        let uuid = match get_text(row, 1) {
            Ok(t) => t,
            Err(e) => return Err(e),
        };
        let absolute_path = match get_text(row, 2) {
            Ok(t) => t,
            Err(e) => return Err(e),
        };
        let name = match get_text(row, 3) {
            Ok(t) => t,
            Err(e) => return Err(e),
        };
        let relative_path_from_catalog = get_text(row, 4).ok();
        Ok(RootFolder { id, uuid, absolute_path, name, relative_path_from_catalog })
    }

    fn read_db_tables(version: CatalogVersion) -> &'static str {
        "AgLibraryRootFolder"
    }

    fn read_db_columns(version: CatalogVersion) -> &'static str {
        "id_local,id_global,absolutePath,name,relativePathFromCatalog"
    }

    fn read_join_where(version: CatalogVersion) -> &'static str {
        ""
    }
}

/// All the folders of a catalog.
#[derive(Debug)]
pub struct Folders {
    /// The `RootFolder` list.
    pub roots: Vec<RootFolder>,
    /// The `Folder` list.
    pub folders: Vec<Folder>,
}

/// The index of the first root folder of `roots` whose id is `id`.
pub open spec fn root_index(roots: Seq<RootFolder>, id: LrId) -> Option<int> {
    if exists|k: int| 0 <= k < roots.len() && roots[k].id == id {
        Some(
            choose|k: int|
                0 <= k < roots.len() && roots[k].id == id && forall|m: int|
                    0 <= m < k ==> roots[m].id != id,
        )
    } else {
        None
    }
}

/// The absolute path of `folder`: the absolute path of its root folder, then
/// its path from that root, as they are; nothing if no root folder has its id.
pub open spec fn resolved_path(roots: Seq<RootFolder>, folder: Folder) -> Option<Seq<char>> {
    match root_index(roots, folder.root_folder) {
        Some(k) => Some(roots[k].absolute_path@ + folder.path_from_root@),
        None => None,
    }
}

impl Folders {
    /// Empty `Folders`.
    pub fn new() -> (r: Folders)
        ensures
            r.roots@.len() == 0,
            r.folders@.len() == 0,
    {
        Folders { roots: Vec::new(), folders: Vec::new() }
    }

    /// Whether there is no folder and no root folder.
    pub fn is_empty(&self) -> (r: bool)
        ensures
            r == (self.roots@.len() == 0 && self.folders@.len() == 0),
    {
        self.roots.is_empty() && self.folders.is_empty()
    }

    /// Add a `Folder`.
    pub fn add_folder(&mut self, folder: Folder)
        ensures
            final(self).folders@ == old(self).folders@.push(folder),
            final(self).roots@ == old(self).roots@,
    {
        self.folders.push(folder);
    }

    /// Add a `RootFolder`.
    pub fn add_root_folder(&mut self, root_folder: RootFolder)
        ensures
            final(self).roots@ == old(self).roots@.push(root_folder),
            final(self).folders@ == old(self).folders@,
    {
        self.roots.push(root_folder);
    }

    /// Append a vector of `Folder`s.
    pub fn append_folders(&mut self, folders: Vec<Folder>)
        ensures
            final(self).folders@ == old(self).folders@ + folders@,
            final(self).roots@ == old(self).roots@,
    {
        let mut folders = folders;
        self.folders.append(&mut folders);
    }

    /// Append a vector of `RootFolder`s.
    pub fn append_root_folders(&mut self, root_folders: Vec<RootFolder>)
        ensures
            final(self).roots@ == old(self).roots@ + root_folders@,
            final(self).folders@ == old(self).folders@,
    {
        let mut root_folders = root_folders;
        self.roots.append(&mut root_folders);
    }

    /// The first `RootFolder` with the id, if any.
    fn find_root_folder(&self, id: LrId) -> (r: Option<&RootFolder>)
        ensures
            match root_index(self.roots@, id) {
                Some(k) => r == Some(&self.roots@[k]),
                None => r is None,
            },
    {
        let mut k: usize = 0;
        while k < self.roots.len()
            invariant
                k <= self.roots.len(),
                forall|m: int| 0 <= m < k ==> self.roots@[m].id != id,
            decreases self.roots.len() - k,
        {
            if self.roots[k].id == id {
                let ghost first = root_index(self.roots@, id);
                proof {
                    assert(first is Some);
                    let c = first.unwrap();
                    if c != k {
                        assert(self.roots@[c].id == id);
                        assert(c > k ==> self.roots@[k as int].id != id);
                    }
                }
                return Some(&self.roots[k]);
            }
            k += 1;
        }
        None
    }

    /// The absolute path of `folder`: its root folder's absolute path
    /// followed by its path from that root, literally, with no separator
    /// added and no check on disk; nothing if no root folder has its id.
    pub fn resolve_folder_path(&self, folder: &Folder) -> (r: Option<String>)
        ensures
            match resolved_path(self.roots@, *folder) {
                Some(p) => r matches Some(s) && s@ == p,
                None => r is None,
            },
    {
        let root_folder = match self.find_root_folder(folder.root_folder) {
            Some(root) => root,
            None => return None,
        };
        let mut root_path = root_folder.absolute_path.clone();
        root_path.append(folder.path_from_root.as_str());
        Some(root_path)
    }
}

} // verus!
