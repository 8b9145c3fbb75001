//! A parsed JSON document, and the field readers that record decoding is built from.
use vstd::prelude::*;

verus! {

/// A JSON value as handed over by a JSON parser.
///
/// Numbers are kept only when they are integers that fit in an `i64`: no field
/// of the records accepts any other number.
#[derive(Debug)]
pub enum JsonValue {
    Null,
    Bool(bool),
    Int(i64),
    /// A number with a fraction or exponent, or an integer beyond `i64`.
    OtherNumber,
    Str(String),
    Array(Vec<JsonValue>),
    /// The members of an object, in the order the parser hands them over.
    Object(Vec<(String, JsonValue)>),
}

/// What a decoder found where it expected something else.
#[derive(Debug, Clone, Copy, PartialEq, Eq)]
pub enum Shape {
    Missing,
    Null,
    Bool,
    Number,
    Str,
    Array,
    Object,
    /// Text that is not JSON at all.
    Invalid,
}

/// A value that does not have the shape a record field asks for.
#[derive(Debug, Clone)]
pub struct Mismatch {
    /// The key of the offending member (empty for a whole document).
    pub field: String,
    pub found: Shape,
}

/// The key of a mismatch and the shape found there.
pub type Fail = (Seq<char>, Shape);

impl View for Mismatch {
    type V = Fail;

    open spec fn view(&self) -> Fail {
        (self.field@, self.found)
    }
}

pub open spec fn shape_of(v: JsonValue) -> Shape {
    match v {
        JsonValue::Null => Shape::Null,
        JsonValue::Bool(_) => Shape::Bool,
        JsonValue::Int(_) => Shape::Number,
        JsonValue::OtherNumber => Shape::Number,
        JsonValue::Str(_) => Shape::Str,
        JsonValue::Array(_) => Shape::Array,
        JsonValue::Object(_) => Shape::Object,
    }
}

pub open spec fn shape_at(v: Option<JsonValue>) -> Shape {
    match v {
        Some(x) => shape_of(x),
        None => Shape::Missing,
    }
}

/// The value of the first member named `key`.
pub open spec fn lookup(fields: Seq<(String, JsonValue)>, key: Seq<char>) -> Option<JsonValue>
    decreases fields.len(),
{
    if fields.len() == 0 {
        None
    } else if fields[0].0@ == key {
        Some(fields[0].1)
    } else {
        lookup(fields.drop_first(), key)
    }
}

/// A required string.
pub open spec fn dec_str(v: Option<JsonValue>) -> Option<Seq<char>> {
    match v {
        Some(JsonValue::Str(s)) => Some(s@),
        _ => None,
    }
}

/// An optional string: absent and `null` both read as `None`.
pub open spec fn dec_opt_str(v: Option<JsonValue>) -> Option<Option<Seq<char>>> {
    match v {
        None => Some(None),
        Some(JsonValue::Null) => Some(None),
        Some(JsonValue::Str(s)) => Some(Some(s@)),
        _ => None,
    }
}

/// A required integer.
pub open spec fn dec_int(v: Option<JsonValue>) -> Option<i64> {
    match v {
        Some(JsonValue::Int(n)) => Some(n),
        _ => None,
    }
}

/// An optional integer: absent and `null` both read as `None`.
pub open spec fn dec_opt_int(v: Option<JsonValue>) -> Option<Option<i64>> {
    match v {
        None => Some(None),
        Some(JsonValue::Null) => Some(None),
        Some(JsonValue::Int(n)) => Some(Some(n)),
        _ => None,
    }
}

/// The first shape other than a string among `items`, if there is one.
pub open spec fn first_non_str(items: Seq<JsonValue>) -> Option<Shape>
    decreases items.len(),
{
    if items.len() == 0 {
        None
    } else {
        match first_non_str(items.drop_last()) {
            Some(s) => Some(s),
            None => match items.last() {
                JsonValue::Str(_) => None,
                x => Some(shape_of(x)),
            },
        }
    }
}

proof fn lemma_first_non_str_prefix(s: Seq<JsonValue>, k: int)
    requires
        0 <= k <= s.len(),
        first_non_str(s.subrange(0, k)) is Some,
    ensures
        first_non_str(s) == first_non_str(s.subrange(0, k)),
    decreases s.len() - k,
{
    if k < s.len() {
        assert(s.subrange(0, k + 1).drop_last() =~= s.subrange(0, k));
        lemma_first_non_str_prefix(s, k + 1);
    } else {
        assert(s.subrange(0, k) =~= s);
    }
}

pub open spec fn str_items(items: Seq<JsonValue>) -> Seq<Seq<char>> {
    items.map_values(|x: JsonValue| dec_str(Some(x))->0)
}

/// A required list of strings: on success, the strings in order; on failure,
/// the shape that was found (of the member, or of the first element that is
/// not a string).
pub open spec fn dec_str_list(v: Option<JsonValue>) -> Result<Seq<Seq<char>>, Shape> {
    match v {
        Some(JsonValue::Array(items)) => match first_non_str(items@) {
            None => Ok(str_items(items@)),
            Some(s) => Err(s),
        },
        x => Err(shape_at(x)),
    }
}

pub open spec fn strings_view(v: Seq<String>) -> Seq<Seq<char>> {
    v.map_values(|s: String| s@)
}

/// Finds the first member named `key`.
pub fn find<'a>(fields: &'a Vec<(String, JsonValue)>, key: &str) -> (r: Option<&'a JsonValue>)
    ensures
        match r {
            Some(x) => lookup(fields@, key@) == Some(*x),
            None => lookup(fields@, key@) is None,
        },
{
    let wanted = key.to_owned();
    let mut i: usize = 0;
    proof {
        assert(fields@.subrange(0, fields@.len() as int) =~= fields@);
    }
    while i < fields.len()
        invariant
            i <= fields@.len(),
            wanted@ == key@,
            lookup(fields@, key@) == lookup(fields@.subrange(i as int, fields@.len() as int), key@),
        decreases fields.len() - i,
    {
        let ghost rest = fields@.subrange(i as int, fields@.len() as int);
        assert(rest[0] == fields@[i as int]);
        if fields[i].0 == wanted {
            return Some(&fields[i].1);
        }
        proof {
            assert(rest.drop_first() =~= fields@.subrange(i + 1, fields@.len() as int));
        }
        i = i + 1;
    }
    None
}

pub fn shape(v: &JsonValue) -> (r: Shape)
    ensures
        r == shape_of(*v),
{
    match v {
        JsonValue::Null => Shape::Null,
        JsonValue::Bool(_) => Shape::Bool,
        JsonValue::Int(_) => Shape::Number,
        JsonValue::OtherNumber => Shape::Number,
        JsonValue::Str(_) => Shape::Str,
        JsonValue::Array(_) => Shape::Array,
        JsonValue::Object(_) => Shape::Object,
    }
}

fn shape_of_found(v: Option<&JsonValue>) -> (r: Shape)
    ensures
        r == shape_at(
            match v {
                Some(x) => Some(*x),
                None => None,
            },
        ),
{
    match v {
        Some(x) => shape(x),
        None => Shape::Missing,
    }
}

fn mismatch(key: &str, found: Shape) -> (r: Mismatch)
    ensures
        r@ == (key@, found),
{
    Mismatch { field: key.to_owned(), found }
}

/// Reads the required string member `key`.
pub fn take_str(fields: &Vec<(String, JsonValue)>, key: &str) -> (r: Result<String, Mismatch>)
    ensures
        match r {
            Ok(s) => dec_str(lookup(fields@, key@)) == Some(s@),
            Err(e) => dec_str(lookup(fields@, key@)) is None && e@ == (key@, shape_at(lookup(fields@, key@))),
        },
{
    let v = find(fields, key);
    match v {
        Some(JsonValue::Str(s)) => Ok(s.clone()),
        _ => Err(mismatch(key, shape_of_found(v))),
    }
}

/// Reads the optional string member `key`.
pub fn take_opt_str(fields: &Vec<(String, JsonValue)>, key: &str) -> (r: Result<Option<String>, Mismatch>)
    ensures
        match r {
            Ok(Some(s)) => dec_opt_str(lookup(fields@, key@)) == Some(Some(s@)),
            Ok(None) => dec_opt_str(lookup(fields@, key@)) == Some(None::<Seq<char>>),
            Err(e) => dec_opt_str(lookup(fields@, key@)) is None && e@ == (key@, shape_at(lookup(fields@, key@))),
        },
{
    let v = find(fields, key);
    match v {
        None => Ok(None),
        Some(JsonValue::Null) => Ok(None),
        Some(JsonValue::Str(s)) => Ok(Some(s.clone())),
        _ => Err(mismatch(key, shape_of_found(v))),
    }
}

/// Reads the required integer member `key`.
pub fn take_int(fields: &Vec<(String, JsonValue)>, key: &str) -> (r: Result<i64, Mismatch>)
    ensures
        match r {
            Ok(n) => dec_int(lookup(fields@, key@)) == Some(n),
            Err(e) => dec_int(lookup(fields@, key@)) is None && e@ == (key@, shape_at(lookup(fields@, key@))),
        },
{
    let v = find(fields, key);
    match v {
        Some(JsonValue::Int(n)) => Ok(*n),
        _ => Err(mismatch(key, shape_of_found(v))),
    }
}

/// Reads the optional integer member `key`.
pub fn take_opt_int(fields: &Vec<(String, JsonValue)>, key: &str) -> (r: Result<Option<i64>, Mismatch>)
    ensures
        match r {
            Ok(n) => dec_opt_int(lookup(fields@, key@)) == Some(n),
            Err(e) => dec_opt_int(lookup(fields@, key@)) is None && e@ == (key@, shape_at(lookup(fields@, key@))),
        },
{
    let v = find(fields, key);
    match v {
        None => Ok(None),
        Some(JsonValue::Null) => Ok(None),
        Some(JsonValue::Int(n)) => Ok(Some(*n)),
        _ => Err(mismatch(key, shape_of_found(v))),
    }
}

/// Reads the required list-of-strings member `key`.
pub fn take_str_list(fields: &Vec<(String, JsonValue)>, key: &str) -> (r: Result<Vec<String>, Mismatch>)
    ensures
        match r {
            Ok(v) => dec_str_list(lookup(fields@, key@)) == Ok::<_, Shape>(strings_view(v@)),
            Err(e) => dec_str_list(lookup(fields@, key@)) == Err::<Seq<Seq<char>>, _>(e.found) && e.field@ == key@,
        },
{
    let v = find(fields, key);
    match v {
        Some(JsonValue::Array(items)) => {
            let mut out: Vec<String> = Vec::new();
            let mut i: usize = 0;
            while i < items.len()
                invariant
                    i <= items@.len(),
                    lookup(fields@, key@) == Some(JsonValue::Array(*items)),
                    first_non_str(items@.subrange(0, i as int)) is None,
                    strings_view(out@) =~= str_items(items@.subrange(0, i as int)),
                decreases items.len() - i,
            {
                proof {
                    assert(items@.subrange(0, i + 1).drop_last() =~= items@.subrange(0, i as int));
                }
                match &items[i] {
                    JsonValue::Str(s) => {
                        out.push(s.clone());
                    },
                    x => {
                        proof {
                            assert(items@.subrange(0, i + 1).last() == items@[i as int]);
                            assert(first_non_str(items@.subrange(0, i + 1)) == Some(shape_of(*x)));
                            lemma_first_non_str_prefix(items@, i + 1);
                        }
                        return Err(mismatch(key, shape(x)));
                    },
                }
                proof {
                    assert(str_items(items@.subrange(0, i + 1)) =~= str_items(items@.subrange(0, i as int)).push(
                        dec_str(Some(items@[i as int]))->0));
                }
                i = i + 1;
            }
            proof {
                assert(items@.subrange(0, items@.len() as int) =~= items@);
            }
            Ok(out)
        },
        _ => Err(mismatch(key, shape_of_found(v))),
    }
}

} // verus!

verus! {

/// Reads the members of the required object member `key`.
pub fn take_object<'a>(fields: &'a Vec<(String, JsonValue)>, key: &str) -> (r: Result<&'a Vec<(String, JsonValue)>, Mismatch>)
    ensures
        match r {
            Ok(inner) => lookup(fields@, key@) == Some(JsonValue::Object(*inner)),
            Err(e) => !(lookup(fields@, key@) matches Some(JsonValue::Object(_))) && e@ == (key@, shape_at(lookup(fields@, key@))),
        },
{
    let v = find(fields, key);
    match v {
        Some(JsonValue::Object(inner)) => Ok(inner),
        _ => Err(mismatch(key, shape_of_found(v))),
    }
}

} // verus!
