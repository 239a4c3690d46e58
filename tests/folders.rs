use std::collections::BTreeMap;

use lrcat::listing::{file_paths, folder_paths};
use lrcat::{Field, Folder, Folders, FromDb, LibraryFile, RootFolder};
use lrcat::{CatalogVersion, Error, SqlError};

#[test]
fn test_resolve_folder_path() {
    let mut folders = Folders::new();

    let mut rfolder = RootFolder::new(24, "toplevel");
    rfolder.absolute_path = String::from("/home/hub/Pictures");
    rfolder.name = String::from("Pictures");
    folders.add_root_folder(rfolder);

    let mut folder = Folder::new(42, "foobar");
    folder.root_folder = 24;
    folder.path_from_root = String::from("/2017/10");
    folders.add_folder(folder);

    let resolved = folders.resolve_folder_path(&folders.folders[0]);
    assert!(resolved.is_some());
    let resolved = resolved.unwrap();
    assert_eq!(resolved, "/home/hub/Pictures/2017/10");
}

#[test]
fn unresolved_root_gives_nothing() {
    let mut folders = Folders::new();
    let mut rfolder = RootFolder::new(24, "toplevel");
    rfolder.absolute_path = String::from("/home/hub/Pictures");
    folders.append_root_folders(vec![rfolder]);
    let mut folder = Folder::new(42, "foobar");
    folder.root_folder = 25;
    folder.path_from_root = String::from("/2017/10");
    assert_eq!(folders.resolve_folder_path(&folder), None);
    assert!(!folders.is_empty());
    assert!(Folders::new().is_empty());
}

#[test]
fn first_root_with_the_id_wins() {
    let mut folders = Folders::new();
    let mut a = RootFolder::new(1, "a");
    a.absolute_path = String::from("/a");
    let mut b = RootFolder::new(1, "b");
    b.absolute_path = String::from("/b");
    folders.append_root_folders(vec![a, b]);
    let mut folder = Folder::new(2, "f");
    folder.root_folder = 1;
    folder.path_from_root = String::from("x/");
    folders.append_folders(vec![folder]);
    assert_eq!(folders.resolve_folder_path(&folders.folders[0]), Some(String::from("/ax/")));
}

#[test]
fn folder_rows() {
    let row = vec![
        Field::Integer(42),
        Field::Text("foobar".to_owned()),
        Field::Text("/2017/10".to_owned()),
        Field::Integer(24),
    ];
    let folder = Folder::read_from(CatalogVersion::Lr6, &row).unwrap();
    assert_eq!(folder.id, 42);
    assert_eq!(folder.uuid, "foobar");
    assert_eq!(folder.path_from_root, "/2017/10");
    assert_eq!(folder.root_folder, 24);
    assert!(folder.content.is_none());

    let root = RootFolder::read_from(
        CatalogVersion::Lr2,
        &vec![
            Field::Integer(24),
            Field::Text("toplevel".to_owned()),
            Field::Text("/home/hub/Pictures".to_owned()),
            Field::Text("Pictures".to_owned()),
            Field::Null,
        ],
    )
    .unwrap();
    assert_eq!(root.absolute_path, "/home/hub/Pictures");
    assert_eq!(root.name, "Pictures");
    assert_eq!(root.relative_path_from_catalog, None);

    let bad = vec![Field::Integer(42), Field::Integer(1)];
    assert_eq!(
        Folder::read_from(CatalogVersion::Lr6, &bad).unwrap_err(),
        Error::Sql(SqlError::InvalidColumnType(1))
    );
    assert_eq!(Folder::content_query(), "SELECT content, owningModule from AgFolderContent where containingFolder=?1");
}

#[test]
fn listing_paths() {
    let mut folders = Folders::new();
    let mut rfolder = RootFolder::new(24, "toplevel");
    rfolder.absolute_path = String::from("/home/hub/Pictures");
    folders.add_root_folder(rfolder);
    let mut folder = Folder::new(42, "foobar");
    folder.root_folder = 24;
    folder.path_from_root = String::from("/2017/10/");
    folders.add_folder(folder);
    let mut orphan = Folder::new(43, "orphan");
    orphan.root_folder = 99;
    orphan.path_from_root = String::from("lost/");
    folders.add_folder(orphan);

    let paths = folder_paths(&folders);
    assert_eq!(paths, vec![(42, String::from("/home/hub/Pictures/2017/10/")), (43, String::from("lost/"))]);

    let map: BTreeMap<i64, String> = paths.into_iter().collect();
    let files = vec![
        LibraryFile {
            id: 1,
            uuid: String::new(),
            basename: String::from("IMG_1"),
            extension: String::from("CR2"),
            folder: 42,
            sidecar_extensions: String::from("JPG,,xmp"),
        },
        LibraryFile {
            id: 2,
            uuid: String::new(),
            basename: String::from("IMG_2"),
            extension: String::from("JPG"),
            folder: 7,
            sidecar_extensions: String::new(),
        },
        LibraryFile {
            id: 3,
            uuid: String::new(),
            basename: String::from("IMG_3"),
            extension: String::from("DNG"),
            folder: 43,
            sidecar_extensions: String::new(),
        },
    ];
    assert_eq!(
        file_paths(&files, &map),
        vec![
            String::from("/home/hub/Pictures/2017/10/IMG_1.CR2"),
            String::from("/home/hub/Pictures/2017/10/IMG_1.JPG"),
            String::from("/home/hub/Pictures/2017/10/IMG_1.xmp"),
            String::from("lost/IMG_3.DNG"),
        ]
    );
}
