use lrcat::lron::{Object, Pair, Value};
use lrcat::{Number, ParseError};

const SMART: &str = "s = { \
     { \
     criteria = \"rating\", \
     operation = \">\", \
     value = 0, \
     value2 = 0, \
     }, \
     combine = \"intersect\", \
     }";

// The same document as a file would hold it, with a fifth criterion whose
// string is itself a document, escaped line breaks and quotes included.
const NESTED: &str = "s = {\n\
\t{\n\
\t\tcriteria = \"rating\",\n\
\t\toperation = \">\",\n\
\t\tvalue = 0,\n\
\t\tvalue2 = 0,\n\
\t\tsomeOther = \"anObject = {\\\n\
key = \\\"lr\\\",\\\n\
}\\\n\
\",\n\
\t},\n\
\tcombine = \"intersect\",\n\
}\n";

#[test]
fn lron_test_parser() {
    let r = Object::from_string(NESTED);

    assert!(r.is_ok());
    let o = r.unwrap();

    assert!(matches!(o, Object::Pair(_)));
    if let Object::Pair(ref p) = o {
        assert_eq!(p.key, "s");
        assert!(matches!(p.value, Value::Dict(_)));

        if let Value::Dict(ref d) = p.value {
            assert_eq!(d.len(), 2);
            assert!(matches!(d[0], Object::Dict(_)));
            if let Object::Dict(ref d) = d[0] {
                assert_eq!(d.len(), 5);
                assert!(matches!(d[0], Object::Pair(_)));
                assert!(matches!(d[1], Object::Pair(_)));
                assert!(matches!(d[2], Object::Pair(_)));
                assert!(matches!(d[3], Object::Pair(_)));
                assert!(matches!(d[4], Object::Pair(_)));
                if let Object::Pair(ref p) = d[4] {
                    assert_eq!(p.key, "someOther");
                    if let Value::Str(value) = &p.value {
                        let r2 = Object::from_string(&value);
                        assert!(r2.is_ok());
                    }
                    assert_eq!(
                        p.value,
                        Value::Str(
                            "anObject = {\n\
                         key = \"lr\",\n\
                         }\n"
                                .to_owned()
                        )
                    );
                }
            }
            assert!(matches!(d[1], Object::Pair(_)));
            if let Object::Pair(ref p) = d[1] {
                assert_eq!(p.key, "combine");
                assert_eq!(p.value, Value::Str("intersect".to_owned()));
            }
        }
    } else {
        assert!(false);
    }
}

#[test]
fn mod_test_parser() {
    let r = Object::from_string(SMART);

    assert!(r.is_ok());
    if let Some(o) = r.ok() {
        println!("{:?}", o);
    }
}

#[test]
fn smart_collection_tree_shape() {
    let o = Object::from_string(SMART).unwrap();
    let p = match o {
        Object::Pair(p) => p,
        _ => panic!("not a pair"),
    };
    assert_eq!(p.key, "s");
    let d = match p.value {
        Value::Dict(d) => d,
        _ => panic!("not a dict"),
    };
    assert_eq!(d.len(), 2);
    match &d[0] {
        Object::Dict(inner) => {
            assert_eq!(inner.len(), 4);
            assert!(inner.iter().all(|o| matches!(o, Object::Pair(_))));
            assert_eq!(
                inner[0],
                Object::Pair(Pair { key: "criteria".to_owned(), value: Value::Str("rating".to_owned()) })
            );
            assert_eq!(inner[2], Object::Pair(Pair { key: "value".to_owned(), value: Value::Int(0) }));
        }
        _ => panic!("not a dict"),
    }
    assert_eq!(
        d[1],
        Object::Pair(Pair { key: "combine".to_owned(), value: Value::Str("intersect".to_owned()) })
    );
}

#[test]
fn values_of_every_kind() {
    let o = Object::from_string(
        "v = { a = -12, b = true, c = false, d = 1.50, e = ZSTR \"z\", f = { 3, \"s\", ZSTR \"t\" }, [\"k k\"] = -0.25 }",
    )
    .unwrap();
    let d = match o {
        Object::Pair(Pair { value: Value::Dict(d), .. }) => d,
        _ => panic!("not a document"),
    };
    assert_eq!(d.len(), 7);
    assert_eq!(d[0], Object::Pair(Pair { key: "a".to_owned(), value: Value::Int(-12) }));
    assert_eq!(d[1], Object::Pair(Pair { key: "b".to_owned(), value: Value::Bool(true) }));
    assert_eq!(d[2], Object::Pair(Pair { key: "c".to_owned(), value: Value::Bool(false) }));
    assert_eq!(d[3], Object::Pair(Pair { key: "d".to_owned(), value: Value::Float("1.50".to_owned()) }));
    assert_eq!(d[4], Object::Pair(Pair { key: "e".to_owned(), value: Value::ZStr("z".to_owned()) }));
    assert_eq!(
        d[5],
        Object::Pair(Pair {
            key: "f".to_owned(),
            value: Value::Dict(vec![Object::Int(3), Object::Str("s".to_owned()), Object::ZStr("t".to_owned())]),
        })
    );
    assert_eq!(d[6], Object::Pair(Pair { key: "k k".to_owned(), value: Value::Float("-0.25".to_owned()) }));
}

#[test]
fn empty_dict_and_trailing_comma() {
    assert_eq!(
        Object::from_string("name = {}").unwrap(),
        Object::Pair(Pair { key: "name".to_owned(), value: Value::Dict(vec![]) })
    );
    assert_eq!(
        Object::from_string("name = { 1, }\n").unwrap(),
        Object::Pair(Pair { key: "name".to_owned(), value: Value::Dict(vec![Object::Int(1)]) })
    );
}

#[test]
fn integer_limits() {
    let min = Object::from_string("n = { x = -2147483648 }").unwrap();
    assert_eq!(
        min,
        Object::Pair(Pair {
            key: "n".to_owned(),
            value: Value::Dict(vec![Object::Pair(Pair { key: "x".to_owned(), value: Value::Int(i32::MIN) })]),
        })
    );
    assert!(Object::from_string("n = { x = 2147483647 }").is_ok());
    assert!(Object::from_string("n = { x = 2147483648 }").is_err());
}

#[test]
fn parse_errors_carry_position() {
    assert_eq!(
        Object::from_string("= {}").unwrap_err(),
        ParseError { line: 1, column: 1, offset: 0 }
    );
    assert_eq!(
        Object::from_string("name {}").unwrap_err(),
        ParseError { line: 1, column: 6, offset: 5 }
    );
    assert_eq!(
        Object::from_string("name =\n  { a = }").unwrap_err(),
        ParseError { line: 2, column: 3, offset: 9 }
    );
    assert_eq!(
        Object::from_string("name = {} x").unwrap_err(),
        ParseError { line: 1, column: 11, offset: 10 }
    );
    assert!(Object::from_string(" name = {}").is_err());
    assert!(Object::from_string("name = { \"open }").is_err());
}

#[test]
fn number_coercion() {
    assert_eq!(Value::Int(7).to_number(), Some(Number::Int(7)));
    assert_eq!(Value::Float("0.5".to_owned()).to_number(), Some(Number::Float("0.5".to_owned())));
    assert_eq!(Value::Str("7".to_owned()).to_number(), None);
    assert_eq!(Value::Bool(true).to_number(), None);
}

#[test]
fn parse_error_into_crate_error() {
    let err = Object::from_string("x").unwrap_err();
    assert_eq!(lrcat::Error::from(err), lrcat::Error::Lron(ParseError { line: 1, column: 2, offset: 1 }));
}
