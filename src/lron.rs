//! Lron, the object notation that catalogs use to store structured data
//! (filters, smart collection rules, crop geometry) inside text columns.
//!
//! A document has the form
//!
//! ```text
//! name = {
//!   object = {
//!     x = 1.3,
//!     string = "some text",
//!   },
//! }
//! ```
//!
//! The grammar is stated below as spec functions over the characters of
//! the text, and `Object::from_string` is proved to follow it exactly.
use vstd::prelude::*;

use crate::text::{chars_of, push_char};

verus! {

/// A value bound to a key.
#[derive(Debug, PartialEq)]
pub enum Value {
    Dict(Vec<Object>),
    Str(String),
    ZStr(String),
    Int(i32),
    /// A decimal literal, kept as written (`-0.25`).
    Float(String),
    Bool(bool),
}

/// A key/value pair.
#[derive(Debug, PartialEq)]
pub struct Pair {
    pub key: String,
    pub value: Value,
}

/// An element of a dictionary.
#[derive(Debug, PartialEq)]
pub enum Object {
    Dict(Vec<Object>),
    Pair(Pair),
    Str(String),
    ZStr(String),
    Int(i32),
}

/// Mathematical model of an `Object`.
pub enum ObjectModel {
    Dict(Seq<ObjectModel>),
    Pair(Seq<char>, ValueModel),
    Str(Seq<char>),
    ZStr(Seq<char>),
    Int(i32),
}

/// Mathematical model of a `Value`.
pub enum ValueModel {
    Dict(Seq<ObjectModel>),
    Str(Seq<char>),
    ZStr(Seq<char>),
    Int(i32),
    Float(Seq<char>),
    Bool(bool),
}

pub open spec fn object_model(o: &Object) -> ObjectModel
    decreases o,
{
    match o {
        Object::Dict(v) => ObjectModel::Dict(
            Seq::new(
                v.len() as nat,
                |i: int|
                    if 0 <= i < v.len() {
                        object_model(&v[i])
                    } else {
                        ObjectModel::Int(0)
                    },
            ),
        ),
        Object::Pair(p) => ObjectModel::Pair(p.key@, value_model(&p.value)),
        Object::Str(t) => ObjectModel::Str(t@),
        Object::ZStr(t) => ObjectModel::ZStr(t@),
        Object::Int(n) => ObjectModel::Int(*n),
    }
}

pub open spec fn value_model(v: &Value) -> ValueModel
    decreases v,
{
    match v {
        Value::Dict(d) => ValueModel::Dict(
            Seq::new(
                d.len() as nat,
                |i: int|
                    if 0 <= i < d.len() {
                        object_model(&d[i])
                    } else {
                        ObjectModel::Int(0)
                    },
            ),
        ),
        Value::Str(t) => ValueModel::Str(t@),
        Value::ZStr(t) => ValueModel::ZStr(t@),
        Value::Int(n) => ValueModel::Int(*n),
        Value::Float(t) => ValueModel::Float(t@),
        Value::Bool(b) => ValueModel::Bool(*b),
    }
}

/// The models of a sequence of objects, element by element.
pub open spec fn objects_model(v: Seq<Object>) -> Seq<ObjectModel> {
    Seq::new(v.len(), |i: int| object_model(&v[i]))
}

impl View for Object {
    type V = ObjectModel;

    open spec fn view(&self) -> ObjectModel {
        object_model(self)
    }
}

impl View for Value {
    type V = ValueModel;

    open spec fn view(&self) -> ValueModel {
        value_model(self)
    }
}

// ----- The grammar, character by character -----
pub open spec fn is_space(c: char) -> bool {
    c == ' ' || c == '\r' || c == '\n' || c == '\t'
}

pub open spec fn is_digit(c: char) -> bool {
    '0' <= c && c <= '9'
}

pub open spec fn is_ident_char(c: char) -> bool {
    ('a' <= c && c <= 'z') || ('A' <= c && c <= 'Z') || is_digit(c) || c == '_'
}

/// Whether `s` holds character `c` at position `i`.
pub open spec fn char_at(s: Seq<char>, i: int, c: char) -> bool {
    0 <= i < s.len() && s[i] == c
}

/// Whether `s` holds the text `lit` from position `i` on.
pub open spec fn text_at(s: Seq<char>, i: int, lit: Seq<char>) -> bool {
    0 <= i && i + lit.len() <= s.len() && s.subrange(i, i + lit.len()) == lit
}

/// The first position from `i` on that is not a blank.
pub open spec fn ws_end(s: Seq<char>, i: int) -> int
    decreases s.len() - i,
{
    if 0 <= i < s.len() && is_space(s[i]) {
        ws_end(s, i + 1)
    } else {
        i
    }
}

/// The first position from `i` on that is not an identifier character.
pub open spec fn ident_end(s: Seq<char>, i: int) -> int
    decreases s.len() - i,
{
    if 0 <= i < s.len() && is_ident_char(s[i]) {
        ident_end(s, i + 1)
    } else {
        i
    }
}

/// The first position from `i` on that is not a decimal digit.
pub open spec fn digits_end(s: Seq<char>, i: int) -> int
    decreases s.len() - i,
{
    if 0 <= i < s.len() && is_digit(s[i]) {
        digits_end(s, i + 1)
    } else {
        i
    }
}

pub open spec fn digit_value(c: char) -> int {
    (c as u32) as int - 48
}

/// The number that the digits of `s` from `j` up to `e` write in base ten.
pub open spec fn digits_value(s: Seq<char>, j: int, e: int) -> int
    decreases e - j,
{
    if e <= j {
        0
    } else {
        digits_value(s, j, e - 1) * 10 + digit_value(s[e - 1])
    }
}

/// `int := ["-"] digit+`, not followed by `.`, and within the range of `i32`.
pub open spec fn int_at(s: Seq<char>, i: int) -> Option<(i32, int)> {
    let j = if char_at(s, i, '-') {
        i + 1
    } else {
        i
    };
    let e = digits_end(s, j);
    let m = digits_value(s, j, e);
    let n = if j > i {
        -m
    } else {
        m
    };
    if j < e && !char_at(s, e, '.') && i32::MIN <= n <= i32::MAX {
        Some((n as i32, e))
    } else {
        None
    }
}

/// `float := ["-"] digit+ "." digit+`; the literal is kept as written.
pub open spec fn float_at(s: Seq<char>, i: int) -> Option<(Seq<char>, int)> {
    let j = if char_at(s, i, '-') {
        i + 1
    } else {
        i
    };
    let d = digits_end(s, j);
    let e = digits_end(s, d + 1);
    if j < d && char_at(s, d, '.') && d + 1 < e {
        Some((s.subrange(i, e), e))
    } else {
        None
    }
}

/// `bool := "true" | "false"`.
pub open spec fn bool_at(s: Seq<char>, i: int) -> Option<(bool, int)> {
    if text_at(s, i, seq!['t', 'r', 'u', 'e']) {
        Some((true, i + 4))
    } else if text_at(s, i, seq!['f', 'a', 'l', 's', 'e']) {
        Some((false, i + 5))
    } else {
        None
    }
}

/// The rest of a string literal from `k`, up to and including the closing
/// quote: `\"` stands for a quote, a backslash before a line break for the
/// line break, and any other character but a quote for itself.
pub open spec fn string_body(s: Seq<char>, k: int) -> Option<(Seq<char>, int)>
    decreases s.len() - k,
{
    if k < 0 || k >= s.len() {
        None
    } else if s[k] == '\\' && char_at(s, k + 1, '"') {
        match string_body(s, k + 2) {
            Some((t, e)) => Some((seq!['"'] + t, e)),
            None => None,
        }
    } else if s[k] == '\\' && char_at(s, k + 1, '\n') {
        match string_body(s, k + 2) {
            Some((t, e)) => Some((seq!['\n'] + t, e)),
            None => None,
        }
    } else if s[k] != '"' {
        match string_body(s, k + 1) {
            Some((t, e)) => Some((seq![s[k]] + t, e)),
            None => None,
        }
    } else {
        Some((Seq::empty(), k + 1))
    }
}

/// `string := '"' ... '"'`.
pub open spec fn string_at(s: Seq<char>, i: int) -> Option<(Seq<char>, int)> {
    if char_at(s, i, '"') {
        string_body(s, i + 1)
    } else {
        None
    }
}

/// `zstr := "ZSTR" string`, blanks allowed in between.
pub open spec fn zstr_at(s: Seq<char>, i: int) -> Option<(Seq<char>, int)> {
    if text_at(s, i, seq!['Z', 'S', 'T', 'R']) {
        string_at(s, ws_end(s, i + 4))
    } else {
        None
    }
}

/// `identifier := [A-Za-z0-9_]+`.
pub open spec fn ident_at(s: Seq<char>, i: int) -> Option<(Seq<char>, int)> {
    let e = ident_end(s, i);
    if 0 <= i < e {
        Some((s.subrange(i, e), e))
    } else {
        None
    }
}

/// Whether a parse that started at `i` and stopped at `e` moved forward.
pub open spec fn progress(s: Seq<char>, i: int, e: int) -> bool {
    0 <= i < e <= s.len()
}

/// `value := int | bool | float | string | dict | zstr`, tried in this order.
pub open spec fn value_at(s: Seq<char>, i: int) -> Option<(ValueModel, int)>
    decreases s.len() - i, 1nat,
{
    if let Some((n, e)) = int_at(s, i) {
        Some((ValueModel::Int(n), e))
    } else if let Some((b, e)) = bool_at(s, i) {
        Some((ValueModel::Bool(b), e))
    } else if let Some((f, e)) = float_at(s, i) {
        Some((ValueModel::Float(f), e))
    } else if let Some((t, e)) = string_at(s, i) {
        Some((ValueModel::Str(t), e))
    } else if let Some((d, e)) = dict_at(s, i) {
        Some((ValueModel::Dict(d), e))
    } else if let Some((z, e)) = zstr_at(s, i) {
        Some((ValueModel::ZStr(z), e))
    } else {
        None
    }
}

/// `"=" value` after a key that ended at `k`, blanks allowed around `=`.
pub open spec fn binding_at(s: Seq<char>, i: int, k: int) -> Option<(ValueModel, int)>
    decreases s.len() - i, 0nat,
{
    let j = ws_end(s, k);
    let v = ws_end(s, j + 1);
    if char_at(s, j, '=') && progress(s, i, v) {
        value_at(s, v)
    } else {
        None
    }
}

/// `pair := identifier "=" value | "[" string "]" "=" value`.
pub open spec fn pair_at(s: Seq<char>, i: int) -> Option<(Seq<char>, ValueModel, int)>
    decreases s.len() - i, 2nat,
{
    let plain = match ident_at(s, i) {
        Some((key, k)) => match binding_at(s, i, k) {
            Some((v, e)) => Some((key, v, e)),
            None => None,
        },
        None => None,
    };
    if plain is Some {
        plain
    } else if char_at(s, i, '[') {
        match string_at(s, i + 1) {
            Some((key, k)) => if char_at(s, k, ']') {
                match binding_at(s, i, k + 1) {
                    Some((v, e)) => Some((key, v, e)),
                    None => None,
                }
            } else {
                None
            },
            None => None,
        }
    } else {
        None
    }
}

/// `object := dict | pair | string | zstr | int`, tried in this order.
pub open spec fn object_at(s: Seq<char>, i: int) -> Option<(ObjectModel, int)>
    decreases s.len() - i, 3nat,
{
    if let Some((d, e)) = dict_at(s, i) {
        Some((ObjectModel::Dict(d), e))
    } else if let Some((k, v, e)) = pair_at(s, i) {
        Some((ObjectModel::Pair(k, v), e))
    } else if let Some((t, e)) = string_at(s, i) {
        Some((ObjectModel::Str(t), e))
    } else if let Some((z, e)) = zstr_at(s, i) {
        Some((ObjectModel::ZStr(z), e))
    } else if let Some((n, e)) = int_at(s, i) {
        Some((ObjectModel::Int(n), e))
    } else {
        None
    }
}

/// The end of a dictionary whose last element ended at `e`: an optional
/// trailing comma, then `}`.
pub open spec fn dict_close(s: Seq<char>, e: int) -> Option<int> {
    let a = ws_end(s, e);
    let b = if char_at(s, a, ',') {
        ws_end(s, a + 1)
    } else {
        a
    };
    if char_at(s, b, '}') {
        Some(b + 1)
    } else {
        None
    }
}

/// The elements that follow one that ended at `e`, each after a comma, and
/// the end of the dictionary.
pub open spec fn items_at(s: Seq<char>, e: int) -> Option<(Seq<ObjectModel>, int)>
    decreases s.len() - e, 0nat,
{
    let a = ws_end(s, e);
    let k = ws_end(s, a + 1);
    let next = if char_at(s, a, ',') && progress(s, e, k) {
        object_at(s, k)
    } else {
        None
    };
    match next {
        Some((o, f)) => if progress(s, e, f) {
            match items_at(s, f) {
                Some((rest, g)) => Some((seq![o] + rest, g)),
                None => None,
            }
        } else {
            None
        },
        None => match dict_close(s, e) {
            Some(g) => Some((Seq::empty(), g)),
            None => None,
        },
    }
}

/// `dict := "{" (object ("," object)*)? ","? "}"`.
pub open spec fn dict_at(s: Seq<char>, i: int) -> Option<(Seq<ObjectModel>, int)>
    decreases s.len() - i, 0nat,
{
    let j = ws_end(s, i + 1);
    if char_at(s, i, '{') && progress(s, i, j) {
        match object_at(s, j) {
            Some((o, e)) => if progress(s, i, e) {
                match items_at(s, e) {
                    Some((rest, g)) => Some((seq![o] + rest, g)),
                    None => None,
                }
            } else {
                None
            },
            None => match dict_close(s, j) {
                Some(g) => Some((Seq::empty(), g)),
                None => None,
            },
        }
    } else {
        None
    }
}

/// `root := identifier "=" dict`, blanks allowed between the tokens and at
/// the end, nothing else after it.
pub open spec fn document(s: Seq<char>) -> Option<ObjectModel> {
    match ident_at(s, 0) {
        Some((key, k)) => {
            let j = ws_end(s, k);
            let d = ws_end(s, j + 1);
            if char_at(s, j, '=') {
                match dict_at(s, d) {
                    Some((items, e)) => if ws_end(s, e) == s.len() {
                        Some(ObjectModel::Pair(key, ValueModel::Dict(items)))
                    } else {
                        None
                    },
                    None => None,
                }
            } else {
                None
            }
        },
        None => None,
    }
}

/// Where a text that is no document stops being one: at the key, at the
/// `=`, at the dictionary, or at what follows it.
pub open spec fn error_offset(s: Seq<char>) -> int {
    match ident_at(s, 0) {
        Some((key, k)) => {
            let j = ws_end(s, k);
            let d = ws_end(s, j + 1);
            if char_at(s, j, '=') {
                match dict_at(s, d) {
                    Some((items, e)) => ws_end(s, e),
                    None => d,
                }
            } else {
                j
            }
        },
        None => 0,
    }
}

/// Line and column, both counted from 1, of position `off` of `s`.
pub open spec fn line_col(s: Seq<char>, off: int) -> (int, int)
    decreases off,
{
    if off <= 0 {
        (1, 1)
    } else {
        let (l, c) = line_col(s, off - 1);
        if s[off - 1] == '\n' {
            (l + 1, 1)
        } else {
            (l, c + 1)
        }
    }
}

/// A text that is not a document of the notation.
#[derive(Debug, PartialEq, Eq)]
pub struct ParseError {
    /// Line of the error, from 1.
    pub line: usize,
    /// Column of the error, from 1.
    pub column: usize,
    /// Character position of the error, from 0.
    pub offset: usize,
}

// ----- Results of the parsing functions against the grammar -----
pub open spec fn same_end<T>(r: Option<(T, usize)>, sp: Option<(T, int)>) -> bool {
    match (r, sp) {
        (None, None) => true,
        (Some((a, e)), Some((b, f))) => a == b && e as int == f,
        _ => false,
    }
}

pub open spec fn same_text(r: Option<(String, usize)>, sp: Option<(Seq<char>, int)>) -> bool {
    match (r, sp) {
        (None, None) => true,
        (Some((a, e)), Some((b, f))) => a@ == b && e as int == f,
        _ => false,
    }
}

pub open spec fn same_value(r: Option<(Value, usize)>, sp: Option<(ValueModel, int)>) -> bool {
    match (r, sp) {
        (None, None) => true,
        (Some((a, e)), Some((b, f))) => a@ == b && e as int == f,
        _ => false,
    }
}

pub open spec fn same_pair(r: Option<(Pair, usize)>, sp: Option<(Seq<char>, ValueModel, int)>) -> bool {
    match (r, sp) {
        (None, None) => true,
        (Some((a, e)), Some((k, v, f))) => a.key@ == k && a.value@ == v && e as int == f,
        _ => false,
    }
}

pub open spec fn same_object(r: Option<(Object, usize)>, sp: Option<(ObjectModel, int)>) -> bool {
    match (r, sp) {
        (None, None) => true,
        (Some((a, e)), Some((b, f))) => a@ == b && e as int == f,
        _ => false,
    }
}

pub open spec fn same_objects(
    r: Option<(Vec<Object>, usize)>,
    sp: Option<(Seq<ObjectModel>, int)>,
) -> bool {
    match (r, sp) {
        (None, None) => true,
        (Some((a, e)), Some((b, f))) => objects_model(a@) == b && e as int == f,
        _ => false,
    }
}

/// Whether a successful parse from `i` ended after `i`, within `len`.
pub open spec fn advances<T>(r: Option<(T, usize)>, i: int, len: int) -> bool {
    match r {
        Some((_, e)) => i < e <= len,
        None => true,
    }
}

pub proof fn lemma_dict_model(v: Vec<Object>)
    ensures
        Object::Dict(v)@ == ObjectModel::Dict(objects_model(v@)),
        Value::Dict(v)@ == ValueModel::Dict(objects_model(v@)),
{
    let o = object_model(&Object::Dict(v));
    let w = value_model(&Value::Dict(v));
    assert(o->Dict_0 =~= objects_model(v@));
    assert(w->Dict_0 =~= objects_model(v@));
}

proof fn lemma_digits_value_grows(s: Seq<char>, j: int, k: int, e: int)
    requires
        0 <= j <= k <= e <= s.len(),
        forall|m: int| j <= m < e ==> is_digit(s[m]),
    ensures
        digits_value(s, j, k) <= digits_value(s, j, e),
        0 <= digits_value(s, j, k),
    decreases e - j,
{
    if e > k {
        lemma_digits_value_grows(s, j, k, e - 1);
    } else if k > j {
        lemma_digits_value_grows(s, j, k - 1, k - 1);
    }
}

// ----- Executable parsing -----
/// The characters of `s` from `from` up to `to`, as a string.
fn string_of(s: &Vec<char>, from: usize, to: usize) -> (r: String)
    requires
        from <= to <= s.len(),
    ensures
        r@ == s@.subrange(from as int, to as int),
{
    let mut out = String::new();
    let mut k = from;
    while k < to
        invariant
            from <= k <= to <= s.len(),
            out@ == s@.subrange(from as int, k as int),
        decreases to - k,
    {
        push_char(&mut out, s[k]);
        assert(out@ =~= s@.subrange(from as int, k + 1));
        k += 1;
    }
    out
}

fn space(c: char) -> (r: bool)
    ensures
        r == is_space(c),
{
    c == ' ' || c == '\r' || c == '\n' || c == '\t'
}

fn digit(c: char) -> (r: bool)
    ensures
        r == is_digit(c),
{
    '0' <= c && c <= '9'
}

fn ident_char(c: char) -> (r: bool)
    ensures
        r == is_ident_char(c),
{
    ('a' <= c && c <= 'z') || ('A' <= c && c <= 'Z') || ('0' <= c && c <= '9') || c == '_'
}

fn scan_ws(s: &Vec<char>, i: usize) -> (r: usize)
    requires
        i <= s.len(),
    ensures
        r as int == ws_end(s@, i as int),
        i <= r <= s.len(),
{
    let mut k = i;
    while k < s.len() && space(s[k])
        invariant
            i <= k <= s.len(),
            ws_end(s@, i as int) == ws_end(s@, k as int),
        decreases s.len() - k,
    {
        k += 1;
    }
    k
}

fn scan_ident(s: &Vec<char>, i: usize) -> (r: usize)
    requires
        i <= s.len(),
    ensures
        r as int == ident_end(s@, i as int),
        i <= r <= s.len(),
{
    let mut k = i;
    while k < s.len() && ident_char(s[k])
        invariant
            i <= k <= s.len(),
            ident_end(s@, i as int) == ident_end(s@, k as int),
        decreases s.len() - k,
    {
        k += 1;
    }
    k
}

fn scan_digits(s: &Vec<char>, i: usize) -> (r: usize)
    requires
        i <= s.len(),
    ensures
        r as int == digits_end(s@, i as int),
        i <= r <= s.len(),
        forall|m: int| i <= m < r ==> is_digit(s@[m]),
{
    let mut k = i;
    while k < s.len() && digit(s[k])
        invariant
            i <= k <= s.len(),
            digits_end(s@, i as int) == digits_end(s@, k as int),
            forall|m: int| i <= m < k ==> is_digit(s@[m]),
        decreases s.len() - k,
    {
        k += 1;
    }
    k
}

fn has_char(s: &Vec<char>, i: usize, c: char) -> (r: bool)
    ensures
        r == char_at(s@, i as int, c),
{
    i < s.len() && s[i] == c
}

fn has_text(s: &Vec<char>, i: usize, lit: &[char]) -> (r: bool)
    ensures
        r == text_at(s@, i as int, lit@),
{
    if i > s.len() || lit.len() > s.len() - i {
        return false;
    }
    let mut k: usize = 0;
    while k < lit.len()
        invariant
            k <= lit.len(),
            i + lit.len() <= s.len(),
            s@.subrange(i as int, i + k) == lit@.subrange(0, k as int),
        decreases lit.len() - k,
    {
        if s[i + k] != lit[k] {
            assert(s@.subrange(i as int, i + lit.len())[k as int] != lit@[k as int]);
            return false;
        }
        assert(s@.subrange(i as int, i + k + 1) =~= lit@.subrange(0, k + 1));
        k += 1;
    }
    assert(lit@.subrange(0, lit.len() as int) =~= lit@);
    true
}

fn parse_int(s: &Vec<char>, i: usize) -> (r: Option<(i32, usize)>)
    requires
        i <= s.len(),
    ensures
        same_end(r, int_at(s@, i as int)),
        advances(r, i as int, s.len() as int),
{
    let j = if has_char(s, i, '-') {
        i + 1
    } else {
        i
    };
    let e = scan_digits(s, j);
    if e == j || has_char(s, e, '.') {
        return None;
    }
    let mut acc: u64 = 0;
    let mut k = j;
    while k < e
        invariant
            j <= k <= e <= s.len(),
            e as int == digits_end(s@, j as int),
            j == if char_at(s@, i as int, '-') {
                i + 1
            } else {
                i as int
            },
            forall|m: int| j <= m < e ==> is_digit(s@[m]),
            acc as int == digits_value(s@, j as int, k as int),
            acc <= 2147483648,
        decreases e - k,
    {
        let d = (s[k] as u32 - 48) as u64;
        acc = acc * 10 + d;
        assert(acc as int == digits_value(s@, j as int, k + 1));
        if acc > 2147483648 {
            proof {
                lemma_digits_value_grows(s@, j as int, (k + 1) as int, e as int);
            }
            return None;
        }
        k += 1;
    }
    if j > i {
        Some(((0 - acc as i64) as i32, e))
    } else if acc > 2147483647 {
        None
    } else {
        Some((acc as i32, e))
    }
}

fn parse_float(s: &Vec<char>, i: usize) -> (r: Option<(String, usize)>)
    requires
        i <= s.len(),
    ensures
        same_text(r, float_at(s@, i as int)),
        advances(r, i as int, s.len() as int),
{
    let j = if has_char(s, i, '-') {
        i + 1
    } else {
        i
    };
    let d = scan_digits(s, j);
    if d == j || !has_char(s, d, '.') {
        return None;
    }
    let e = scan_digits(s, d + 1);
    if e == d + 1 {
        return None;
    }
    Some((string_of(s, i, e), e))
}

fn parse_bool(s: &Vec<char>, i: usize) -> (r: Option<(bool, usize)>)
    requires
        i <= s.len(),
    ensures
        same_end(r, bool_at(s@, i as int)),
        advances(r, i as int, s.len() as int),
{
    let t = ['t', 'r', 'u', 'e'];
    let f = ['f', 'a', 'l', 's', 'e'];
    assert(t@ == seq!['t', 'r', 'u', 'e']);
    assert(f@ == seq!['f', 'a', 'l', 's', 'e']);
    if has_text(s, i, &t) {
        Some((true, i + 4))
    } else if has_text(s, i, &f) {
        Some((false, i + 5))
    } else {
        None
    }
}

fn parse_string(s: &Vec<char>, i: usize) -> (r: Option<(String, usize)>)
    requires
        i <= s.len(),
    ensures
        same_text(r, string_at(s@, i as int)),
        advances(r, i as int, s.len() as int),
{
    if !has_char(s, i, '"') {
        return None;
    }
    let mut out = String::new();
    let mut k = i + 1;
    loop
        invariant
            i < k <= s.len(),
            string_at(s@, i as int) == match string_body(s@, k as int) {
                Some((t, e)) => Some((out@ + t, e)),
                None => None,
            },
        decreases s.len() - k,
    {
        if k >= s.len() {
            return None;
        }
        let c = s[k];
        if c == '\\' && has_char(s, k + 1, '"') {
            proof {
                assert(forall|t: Seq<char>| (out@.push('"') + t) =~= out@ + (seq!['"'] + t));
            }
            push_char(&mut out, '"');
            k += 2;
        } else if c == '\\' && has_char(s, k + 1, '\n') {
            proof {
                assert(forall|t: Seq<char>| (out@.push('\n') + t) =~= out@ + (seq!['\n'] + t));
            }
            push_char(&mut out, '\n');
            k += 2;
        } else if c != '"' {
            proof {
                assert(forall|t: Seq<char>| (out@.push(c) + t) =~= out@ + (seq![c] + t));
            }
            push_char(&mut out, c);
            k += 1;
        } else {
            assert(out@ + Seq::<char>::empty() =~= out@);
            return Some((out, k + 1));
        }
    }
}

fn parse_zstr(s: &Vec<char>, i: usize) -> (r: Option<(String, usize)>)
    requires
        i <= s.len(),
    ensures
        same_text(r, zstr_at(s@, i as int)),
        advances(r, i as int, s.len() as int),
{
    let z = ['Z', 'S', 'T', 'R'];
    assert(z@ == seq!['Z', 'S', 'T', 'R']);
    if !has_text(s, i, &z) {
        return None;
    }
    let k = scan_ws(s, i + 4);
    parse_string(s, k)
}

fn parse_ident(s: &Vec<char>, i: usize) -> (r: Option<(String, usize)>)
    requires
        i <= s.len(),
    ensures
        same_text(r, ident_at(s@, i as int)),
        advances(r, i as int, s.len() as int),
{
    let e = scan_ident(s, i);
    if e == i {
        None
    } else {
        Some((string_of(s, i, e), e))
    }
}

fn parse_value(s: &Vec<char>, i: usize) -> (r: Option<(Value, usize)>)
    requires
        i <= s.len(),
    ensures
        same_value(r, value_at(s@, i as int)),
        advances(r, i as int, s.len() as int),
    decreases s.len() - i, 1nat,
{
    if let Some((n, e)) = parse_int(s, i) {
        return Some((Value::Int(n), e));
    }
    if let Some((b, e)) = parse_bool(s, i) {
        return Some((Value::Bool(b), e));
    }
    if let Some((f, e)) = parse_float(s, i) {
        return Some((Value::Float(f), e));
    }
    if let Some((t, e)) = parse_string(s, i) {
        return Some((Value::Str(t), e));
    }
    if let Some((d, e)) = parse_dict(s, i) {
        proof {
            lemma_dict_model(d);
        }
        return Some((Value::Dict(d), e));
    }
    if let Some((z, e)) = parse_zstr(s, i) {
        return Some((Value::ZStr(z), e));
    }
    None
}

fn parse_binding(s: &Vec<char>, i: usize, k: usize) -> (r: Option<(Value, usize)>)
    requires
        i < k <= s.len(),
    ensures
        same_value(r, binding_at(s@, i as int, k as int)),
        advances(r, i as int, s.len() as int),
    decreases s.len() - i, 0nat,
{
    let j = scan_ws(s, k);
    if !has_char(s, j, '=') {
        return None;
    }
    let v = scan_ws(s, j + 1);
    parse_value(s, v)
}

fn parse_pair(s: &Vec<char>, i: usize) -> (r: Option<(Pair, usize)>)
    requires
        i <= s.len(),
    ensures
        same_pair(r, pair_at(s@, i as int)),
        advances(r, i as int, s.len() as int),
    decreases s.len() - i, 2nat,
{
    if let Some((key, k)) = parse_ident(s, i) {
        if let Some((value, e)) = parse_binding(s, i, k) {
            return Some((Pair { key, value }, e));
        }
    }
    if !has_char(s, i, '[') {
        return None;
    }
    match parse_string(s, i + 1) {
        Some((key, k)) => {
            if !has_char(s, k, ']') {
                return None;
            }
            match parse_binding(s, i, k + 1) {
                Some((value, e)) => Some((Pair { key, value }, e)),
                None => None,
            }
        },
        None => None,
    }
}

fn parse_object(s: &Vec<char>, i: usize) -> (r: Option<(Object, usize)>)
    requires
        i <= s.len(),
    ensures
        same_object(r, object_at(s@, i as int)),
        advances(r, i as int, s.len() as int),
    decreases s.len() - i, 3nat,
{
    if let Some((d, e)) = parse_dict(s, i) {
        proof {
            lemma_dict_model(d);
        }
        return Some((Object::Dict(d), e));
    }
    if let Some((p, e)) = parse_pair(s, i) {
        return Some((Object::Pair(p), e));
    }
    if let Some((t, e)) = parse_string(s, i) {
        return Some((Object::Str(t), e));
    }
    if let Some((z, e)) = parse_zstr(s, i) {
        return Some((Object::ZStr(z), e));
    }
    if let Some((n, e)) = parse_int(s, i) {
        return Some((Object::Int(n), e));
    }
    None
}

fn parse_dict_close(s: &Vec<char>, e: usize) -> (r: Option<usize>)
    requires
        e <= s.len(),
    ensures
        match dict_close(s@, e as int) {
            Some(g) => r == Some(g as usize) && e < g <= s.len(),
            None => r is None,
        },
{
    let a = scan_ws(s, e);
    let b = if has_char(s, a, ',') {
        scan_ws(s, a + 1)
    } else {
        a
    };
    if has_char(s, b, '}') {
        Some(b + 1)
    } else {
        None
    }
}

fn parse_dict(s: &Vec<char>, i: usize) -> (r: Option<(Vec<Object>, usize)>)
    requires
        i <= s.len(),
    ensures
        same_objects(r, dict_at(s@, i as int)),
        advances(r, i as int, s.len() as int),
    decreases s.len() - i, 0nat,
{
    if !has_char(s, i, '{') {
        return None;
    }
    let j = scan_ws(s, i + 1);
    let mut items: Vec<Object> = Vec::new();
    let mut e: usize;
    match parse_object(s, j) {
        Some((o, f)) => {
            items.push(o);
            e = f;
            assert(objects_model(items@) =~= seq![o@]);
        },
        None => {
            return match parse_dict_close(s, j) {
                Some(g) => {
                    assert(objects_model(items@) =~= Seq::<ObjectModel>::empty());
                    Some((items, g))
                },
                None => None,
            };
        },
    }
    loop
        invariant
            i < e <= s.len(),
            dict_at(s@, i as int) == match items_at(s@, e as int) {
                Some((rest, g)) => Some((objects_model(items@) + rest, g)),
                None => None,
            },
        decreases s.len() - e,
    {
        let a = scan_ws(s, e);
        if has_char(s, a, ',') {
            let k = scan_ws(s, a + 1);
            if let Some((o, f)) = parse_object(s, k) {
                let ghost before = items@;
                let ghost om = o@;
                proof {
                    let old_items = objects_model(before);
                    assert(forall|rest: Seq<ObjectModel>|
                        old_items + (seq![om] + rest) =~= old_items.push(om) + rest);
                }
                items.push(o);
                assert(objects_model(items@) =~= objects_model(before).push(om));
                e = f;
                continue;
            }
        }
        return match parse_dict_close(s, e) {
            Some(g) => {
                assert(objects_model(items@) + Seq::<ObjectModel>::empty() =~= objects_model(items@));
                Some((items, g))
            },
            None => None,
        };
    }
}

/// The line and column of position `off` of `s`.
fn position_of(s: &Vec<char>, off: usize) -> (r: (usize, usize))
    requires
        off <= s.len(),
        off < usize::MAX,
    ensures
        (r.0 as int, r.1 as int) == line_col(s@, off as int),
{
    let mut line: usize = 1;
    let mut column: usize = 1;
    let mut k: usize = 0;
    while k < off
        invariant
            k <= off <= s.len(),
            off < usize::MAX,
            (line as int, column as int) == line_col(s@, k as int),
            line <= k + 1,
            column <= k + 1,
        decreases off - k,
    {
        if s[k] == '\n' {
            line += 1;
            column = 1;
        } else {
            column += 1;
        }
        k += 1;
    }
    (line, column)
}

impl Object {
    /// Parse a document of the notation: `name = { ... }`. The result is the
    /// pair that binds the name to the dictionary; a text that is no
    /// document gives an error at the position where it stops being one.
    pub fn from_string(text: &str) -> (r: Result<Object, ParseError>)
        ensures
            match r {
                Ok(o) => document(text@) == Some(o@),
                Err(err) => {
                    &&& document(text@) is None
                    &&& err.offset as int == error_offset(text@)
                    &&& err.offset < usize::MAX ==> (err.line as int, err.column as int)
                        == line_col(text@, err.offset as int)
                },
            },
    {
        let s = chars_of(text);
        let fail: usize;
        match parse_ident(&s, 0) {
            Some((key, k)) => {
                let j = scan_ws(&s, k);
                if has_char(&s, j, '=') {
                    let d = scan_ws(&s, j + 1);
                    match parse_dict(&s, d) {
                        Some((items, e)) => {
                            let end = scan_ws(&s, e);
                            if end == s.len() {
                                proof {
                                    lemma_dict_model(items);
                                }
                                return Ok(Object::Pair(Pair { key, value: Value::Dict(items) }));
                            }
                            fail = end;
                        },
                        None => {
                            fail = d;
                        },
                    }
                } else {
                    fail = j;
                }
            },
            None => {
                fail = 0;
            },
        }
        if fail == usize::MAX {
            return Err(ParseError { line: usize::MAX, column: usize::MAX, offset: fail });
        }
        let (line, column) = position_of(&s, fail);
        Err(ParseError { line, column, offset: fail })
    }
}

/// A number of the notation, whichever literal wrote it.
#[derive(Debug, PartialEq)]
pub enum Number {
    Int(i32),
    /// A decimal literal, kept as written.
    Float(String),
}

/// Mathematical model of a `Number`.
pub enum NumberModel {
    Int(i32),
    Float(Seq<char>),
}

impl View for Number {
    type V = NumberModel;

    open spec fn view(&self) -> NumberModel {
        match self {
            Number::Int(n) => NumberModel::Int(*n),
            Number::Float(t) => NumberModel::Float(t@),
        }
    }
}

/// The number that a value holds, if it is an integer or a decimal.
pub open spec fn number_of(v: ValueModel) -> Option<NumberModel> {
    match v {
        ValueModel::Int(n) => Some(NumberModel::Int(n)),
        ValueModel::Float(t) => Some(NumberModel::Float(t)),
        _ => None,
    }
}

impl Value {
    /// The number this value holds, whether it was written as an integer
    /// or as a decimal; nothing for other values.
    pub fn to_number(&self) -> (r: Option<Number>)
        ensures
            match number_of(self@) {
                Some(n) => r matches Some(m) && m@ == n,
                None => r is None,
            },
    {
        match self {
            Value::Int(n) => Some(Number::Int(*n)),
            Value::Float(t) => Some(Number::Float(t.clone())),
            _ => None,
        }
    }
}

} // verus!
