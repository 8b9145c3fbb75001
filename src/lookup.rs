//! Looking up one record: the request URL, and what a response turns into.
use vstd::prelude::*;
use crate::json::{JsonValue, Mismatch, Shape, shape_of};
use crate::md::{Markdown, ToMarkdown};
use crate::monster::{Monster, monster_json_ok, monster_is, monster_fail, monster_md};
use crate::slug::{hyphenate, hyphenated};
use crate::spell::{Spell, spell_json_ok, spell_is, spell_fail, spell_md};

verus! {

/// The two kinds of record that can be looked up.
#[derive(Debug, Clone, Copy, PartialEq, Eq)]
pub enum SearchType {
    Monster,
    Spell,
}

/// Why a lookup produced no record.
#[derive(Debug, Clone)]
pub enum LookupError {
    /// The request did not complete (network, name resolution, timeout).
    Transport(String),
    /// The service answered with a status other than success.
    Remote { status: u16, url: String },
    /// The body does not have the shape of the record asked for.
    SchemaMismatch { field: String, found: Shape },
}

impl LookupError {
    /// The error for a record that did not decode.
    pub fn from_mismatch(m: Mismatch) -> (r: LookupError)
        ensures
            r matches LookupError::SchemaMismatch { field, found } && field@ == m.field@ && found == m.found,
    {
        LookupError::SchemaMismatch { field: m.field, found: m.found }
    }
}

/// The root of the service.
pub open spec fn api_root() -> Seq<char> {
    "https://api.open5e.com/"@
}

pub open spec fn collection(kind: SearchType) -> Seq<char> {
    match kind {
        SearchType::Monster => "monsters/"@,
        SearchType::Spell => "spells/"@,
    }
}

/// The lower-case form of a text, as `str::to_lowercase` gives it.
pub uninterp spec fn lower_of(s: Seq<char>) -> Seq<char>;

/// Relies on `str::to_lowercase`: its result depends on the text alone, and
/// the empty text stays empty.
#[verifier::external_body]
fn lowercase(s: &str) -> (r: String)
    ensures
        r@ == lower_of(s@),
        s@.len() == 0 ==> r@.len() == 0,
{
    s.to_lowercase()
}

/// The path segment for a record name: lower case, with hyphens for spaces.
pub open spec fn slug_of(name: Seq<char>) -> Seq<char> {
    hyphenated(lower_of(name))
}

/// Turns a record name into its path segment.
pub fn slug(name: &str) -> (r: String)
    ensures
        r@ == slug_of(name@),
{
    let lower = lowercase(name);
    hyphenate(lower.as_str())
}

/// The address of the collection of records of `kind`.
pub open spec fn collection_url(kind: SearchType) -> Seq<char> {
    api_root() + collection(kind)
}

/// Appends the collection of `kind` to `out`.
fn push_collection(kind: SearchType, out: &mut String)
    ensures
        final(out)@ == old(out)@ + collection(kind),
{
    match kind {
        SearchType::Monster => out.append("monsters/"),
        SearchType::Spell => out.append("spells/"),
    }
}

/// The address of the listing of records of `kind`, whose pages a walk follows.
pub fn listing_url(kind: SearchType) -> (r: String)
    ensures
        r@ == collection_url(kind),
{
    let mut out = String::from_str("https://api.open5e.com/");
    push_collection(kind, &mut out);
    out
}

/// The address of the record of `kind` named `name`.
pub fn record_url(kind: SearchType, name: &str) -> (r: String)
    ensures
        r@ == collection_url(kind) + slug_of(name@),
{
    let mut out = listing_url(kind);
    let s = slug(name);
    out.append(s.as_str());
    out
}

/// Whether an HTTP status reports success.
pub open spec fn is_success(status: u16) -> bool {
    200 <= status <= 299
}

pub fn success(status: u16) -> (r: bool)
    ensures
        r == is_success(status),
{
    200 <= status && status <= 299
}

/// Whether `r` is what a successful response with body `v` gives for `kind`:
/// the markdown of the record the body decodes to, or the mismatch that stops
/// it decoding.
pub open spec fn decoded_outcome(kind: SearchType, v: JsonValue, r: Result<Markdown, LookupError>) -> bool {
    match r {
        Ok(md) => match v {
            JsonValue::Object(fs) => match kind {
                SearchType::Monster => monster_json_ok(v) && exists|m: Monster|
                    monster_is(m, fs@) && md.0@ == #[trigger] monster_md(m),
                SearchType::Spell => spell_json_ok(v) && exists|s: Spell|
                    spell_is(s, fs@) && md.0@ == #[trigger] spell_md(s),
            },
            _ => false,
        },
        Err(LookupError::SchemaMismatch { field, found }) => match v {
            JsonValue::Object(fs) => match kind {
                SearchType::Monster => !monster_json_ok(v) && monster_fail(fs@, (field@, found)),
                SearchType::Spell => !spell_json_ok(v) && spell_fail(fs@, (field@, found)),
            },
            x => field@.len() == 0 && found == shape_of(x),
        },
        Err(_) => false,
    }
}

/// Decodes a record of `kind` from a JSON document and renders it.
pub fn render_record(kind: SearchType, v: &JsonValue) -> (r: Result<Markdown, LookupError>)
    ensures
        decoded_outcome(kind, *v, r),
        r is Ok <==> match kind {
            SearchType::Monster => monster_json_ok(*v),
            SearchType::Spell => spell_json_ok(*v),
        },
{
    match kind {
        SearchType::Monster => match Monster::from_json(v) {
            Ok(m) => {
                let md = m.to_md();
                Ok(md)
            },
            Err(e) => Err(LookupError::from_mismatch(e)),
        },
        SearchType::Spell => match Spell::from_json(v) {
            Ok(s) => {
                let md = s.to_md();
                Ok(md)
            },
            Err(e) => Err(LookupError::from_mismatch(e)),
        },
    }
}

/// What a response to the request for `url` turns into: a failure status is a
/// remote error; a body that is not JSON (`None`) or not a record of `kind` is
/// a mismatch; otherwise the record's markdown.
pub fn render_response(kind: SearchType, url: &str, status: u16, body: Option<&JsonValue>) -> (r: Result<
    Markdown,
    LookupError,
>)
    ensures
        !is_success(status) ==> (r matches Err(LookupError::Remote { status: s, url: u }) && s == status && u@
            == url@),
        is_success(status) && body is None ==> (r matches Err(LookupError::SchemaMismatch { field, found })
            && field@.len() == 0 && found == Shape::Invalid),
        is_success(status) && body is Some ==> decoded_outcome(kind, *body->0, r),
{
    if !success(status) {
        return Err(LookupError::Remote { status, url: url.to_owned() });
    }
    match body {
        None => Err(LookupError::SchemaMismatch { field: String::new(), found: Shape::Invalid }),
        Some(v) => render_record(kind, v),
    }
}

} // verus!
