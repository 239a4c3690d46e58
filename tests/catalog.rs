use lrcat::content::Content;
use lrcat::fromdb::{decode_rows, query_for};
use lrcat::lron::{Object, Pair, Value};
use lrcat::{CatalogVersion, Collection, Error, Field, FromDb, Image, Keyword, LibraryFile, SortDirection};

#[test]
fn version_strings() {
    assert_eq!(CatalogVersion::parse("0200020"), CatalogVersion::Lr2);
    assert_eq!(CatalogVersion::parse("0300025"), CatalogVersion::Lr3);
    assert_eq!(CatalogVersion::parse("0400020"), CatalogVersion::Lr4);
    assert_eq!(CatalogVersion::parse("0600008"), CatalogVersion::Lr6);
    assert_eq!(CatalogVersion::parse("0500000"), CatalogVersion::Unknown);
    assert_eq!(CatalogVersion::parse("1200000"), CatalogVersion::Unknown);
    assert_eq!(CatalogVersion::parse("4"), CatalogVersion::Unknown);
    assert_eq!(CatalogVersion::parse(""), CatalogVersion::Unknown);
}

#[test]
fn supported_versions() {
    assert!(CatalogVersion::Lr2.is_supported());
    assert!(!CatalogVersion::parse("0300025").is_supported());
    assert!(CatalogVersion::Lr4.is_supported());
    assert!(CatalogVersion::Lr6.is_supported());
    assert!(!CatalogVersion::Unknown.is_supported());
}

#[test]
fn collection_image_queries() {
    assert_eq!(
        CatalogVersion::Lr2.collection_images_query(),
        Ok("SELECT image FROM AgLibraryTagImage WHERE tag = ?1 AND tagKind = \"AgCollectionTagKind\"")
    );
    for v in [CatalogVersion::Lr3, CatalogVersion::Lr4, CatalogVersion::Lr6] {
        assert_eq!(v.collection_images_query(), Ok("SELECT image FROM AgLibraryCollectionImage WHERE collection = ?1"));
    }
    assert_eq!(CatalogVersion::Unknown.collection_images_query(), Err(Error::UnsupportedVersion));
}

#[test]
fn select_queries() {
    assert_eq!(
        query_for::<Keyword>(CatalogVersion::Lr4),
        "SELECT id_local,id_global,cast(dateCreated as text),name,parent FROM AgLibraryKeyword"
    );
    assert_eq!(
        query_for::<Collection>(CatalogVersion::Lr2),
        "SELECT id_local,name,parent,kindName FROM AgLibraryTag"
    );
    assert_eq!(
        query_for::<LibraryFile>(CatalogVersion::Lr6),
        "SELECT id_local,id_global,baseName,extension,folder,sidecarExtensions FROM AgLibraryFile"
    );
    let q = query_for::<Image>(CatalogVersion::Lr6);
    assert!(q.ends_with(" WHERE meta.image = img.id_local and props.image = img.id_local"));
}

fn text(s: &str) -> Field {
    Field::Text(s.to_owned())
}

#[test]
fn collection_rows_by_version() {
    let lr4 = vec![Field::Integer(3), text("g"), text("Trips"), Field::Null, Field::Real(1)];
    let c = Collection::read_from(CatalogVersion::Lr4, &lr4).unwrap();
    assert_eq!(c.id(), 3);
    assert_eq!(c.name, "Trips");
    assert_eq!(c.parent, 0);
    assert!(c.system_only);

    let quick = vec![Field::Integer(5), Field::Null, Field::Integer(1), text("AgQuickCollectionTagKind")];
    let c = Collection::read_from(CatalogVersion::Lr2, &quick).unwrap();
    assert_eq!(c.name, "Quick Collection");
    assert_eq!(c.parent, 1);
    assert!(c.system_only);

    let plain = vec![Field::Integer(6), text("Best"), Field::Null, text("AgCollectionTagKind")];
    let c = Collection::read_from(CatalogVersion::Lr2, &plain).unwrap();
    assert_eq!(c.name, "Best");
    assert!(!c.system_only);

    let keyword = vec![Field::Integer(7), text("Tree"), Field::Null, text("AgKeywordTagKind")];
    assert_eq!(Collection::read_from(CatalogVersion::Lr2, &keyword).unwrap_err(), Error::Skip);
    assert_eq!(Collection::read_from(CatalogVersion::Lr3, &lr4).unwrap_err(), Error::UnsupportedVersion);
    assert_eq!(Collection::content_query(), "SELECT content, owningModule from AgLibraryCollectionContent where collection=?1");
}

#[test]
fn rows_that_fail_are_dropped() {
    let rows = vec![
        vec![Field::Integer(1), text("a"), Field::Null, text("one"), Field::Integer(0)],
        vec![Field::Null, text("b")],
        vec![Field::Integer(3), text("c"), Field::Null, text("three"), Field::Integer(1)],
    ];
    let keywords: Vec<Keyword> = decode_rows(CatalogVersion::Lr4, &rows);
    assert_eq!(keywords.len(), 2);
    assert_eq!(keywords[0].name, "one");
    assert_eq!(keywords[1].name, "three");
    assert_eq!(keywords[1].parent, 1);
}

fn module_row(content: Field, module: &str) -> Vec<Field> {
    vec![content, text(module)]
}

#[test]
fn content_from_four_modules() {
    let rows = vec![
        module_row(text("rating > 2"), "com.adobe.ag.library.filter"),
        module_row(text("captureTime"), "com.adobe.ag.library.sortType"),
        module_row(text("descending"), "com.adobe.ag.library.sortDirection"),
        module_row(text("s = { combine = \"intersect\", }"), "ag.library.smart_collection"),
        module_row(text("ignored"), "com.adobe.ag.library.other"),
    ];
    let content = Content::from_rows(&rows);
    assert_eq!(content.filter, Some("rating > 2".to_owned()));
    assert_eq!(content.sort_type, Some("captureTime".to_owned()));
    assert_eq!(content.sort_direction, Some(SortDirection::Descending));
    assert_eq!(
        content.smart_collection,
        Some(Object::Pair(Pair {
            key: "s".to_owned(),
            value: Value::Dict(vec![Object::Pair(Pair {
                key: "combine".to_owned(),
                value: Value::Str("intersect".to_owned()),
            })]),
        }))
    );
}

#[test]
fn content_unknown_module_and_failures() {
    let rows = vec![
        module_row(text("ascending"), "com.adobe.ag.library.sortDirection"),
        module_row(text("x"), "unknown"),
        vec![text("no module"), Field::Integer(3)],
    ];
    let content = Content::from_rows(&rows);
    assert_eq!(content.filter, None);
    assert_eq!(content.sort_type, None);
    assert_eq!(content.sort_direction, Some(SortDirection::Ascending));
    assert!(content.smart_collection.is_none());

    let rows = vec![
        module_row(text("s = {}"), "ag.library.smart_collection"),
        module_row(text("not a document"), "ag.library.smart_collection"),
        module_row(text("sideways"), "com.adobe.ag.library.sortDirection"),
    ];
    let content = Content::from_rows(&rows);
    assert!(content.smart_collection.is_none());
    assert_eq!(content.sort_direction, Some(SortDirection::Unknown));
    assert_eq!(Content::from_rows(&vec![]), Content::default());
}

#[test]
fn content_query_text() {
    assert_eq!(
        Content::query("AgFolderContent", "containingFolder"),
        "SELECT content, owningModule from AgFolderContent where containingFolder=?1"
    );
}
