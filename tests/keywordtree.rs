use std::collections::BTreeMap;

use lrcat::{CatalogVersion, Field, FromDb, Keyword, KeywordTree, LrObject};

#[test]
fn keyword_tree_test() {
    KeywordTree::test();
}

#[test]
fn children_in_ascending_id_order() {
    let mut keywords: BTreeMap<i64, Keyword> = BTreeMap::new();
    keywords.insert(5, Keyword::new(5, 2, "", ""));
    keywords.insert(4, Keyword::new(4, 0, "", ""));
    keywords.insert(3, Keyword::new(3, 2, "", ""));
    keywords.insert(2, Keyword::new(2, 1, "", ""));
    keywords.insert(1, Keyword::new(1, 0, "", ""));

    let mut tree = KeywordTree::new();
    tree.add_children(&keywords);

    assert_eq!(tree.children_for(0), vec![1, 4]);
    assert_eq!(tree.children_for(1), vec![2]);
    assert_eq!(tree.children_for(2), vec![3, 5]);
    assert_eq!(tree.children_for(3), Vec::<i64>::new());
    assert_eq!(tree.children_for(999), Vec::<i64>::new());
}

#[test]
fn keyword_rows() {
    let row = vec![
        Field::Integer(7),
        Field::Text("uuid-7".to_owned()),
        Field::Text("2017-01-01".to_owned()),
        Field::Null,
        Field::Null,
    ];
    let k = Keyword::read_from(CatalogVersion::Lr2, &row).unwrap();
    assert_eq!(k.id(), 7);
    assert_eq!(k.uuid(), "uuid-7");
    assert_eq!(k.name, "");
    assert_eq!(k.parent, 0);
}
