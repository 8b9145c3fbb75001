//! The paged listing: its envelope, and the walk from page to page.
use vstd::prelude::*;
use crate::json::{
    JsonValue, Mismatch, Fail, Shape, lookup, shape_of, shape_at, dec_int, dec_opt_str, find, shape, take_int, take_opt_str,
};
use crate::action::opt_str_view;
use crate::lookup::{LookupError, SearchType, collection_url, is_success, listing_url, success};
use crate::monster::{Monster, monster_json_ok, monster_json_fail, monster_is};
use crate::spell::{Spell, spell_json_ok, spell_json_fail, spell_is};

verus! {

/// One page of a listing.
#[derive(Debug, Clone)]
pub struct Page<T> {
    /// The number of records in the whole listing.
    pub count: i64,
    /// The address of the next page, if there is one.
    pub next: Option<String>,
    /// The address of the previous page, if there is one.
    pub previous: Option<String>,
    /// The records of this page, in order.
    pub results: Vec<T>,
}

/// The records of one page, of either kind.
#[derive(Debug, Clone)]
pub enum Listing {
    Monsters(Vec<Monster>),
    Spells(Vec<Spell>),
}

/// Whether a record of `kind` decodes from `v`.
pub open spec fn record_ok(kind: SearchType, v: JsonValue) -> bool {
    match kind {
        SearchType::Monster => monster_json_ok(v),
        SearchType::Spell => spell_json_ok(v),
    }
}

/// Whether the members of a page envelope decode, with every result a record
/// of `kind`.
pub open spec fn page_ok(kind: SearchType, v: JsonValue) -> bool {
    match v {
        JsonValue::Object(fs) => {
            &&& dec_int(lookup(fs@, "count"@)) is Some
            &&& dec_opt_str(lookup(fs@, "next"@)) is Some
            &&& dec_opt_str(lookup(fs@, "previous"@)) is Some
            &&& lookup(fs@, "results"@) matches Some(JsonValue::Array(items))
            &&& forall|i: int| 0 <= i < items@.len() ==> record_ok(kind, #[trigger] items@[i])
        },
        _ => false,
    }
}

/// The address of the next page that the envelope `v` names.
pub open spec fn next_of(v: JsonValue) -> Option<Seq<char>> {
    match v {
        JsonValue::Object(fs) => dec_opt_str(lookup(fs@, "next"@))->0,
        _ => None,
    }
}

/// The results member of the envelope `v`.
pub open spec fn results_of(v: JsonValue) -> Seq<JsonValue> {
    match v {
        JsonValue::Object(fs) => match lookup(fs@, "results"@) {
            Some(JsonValue::Array(items)) => items@,
            _ => Seq::empty(),
        },
        _ => Seq::empty(),
    }
}

/// Whether `p` holds what the envelope `v` decodes to, apart from its records.
pub open spec fn header_is<T>(p: Page<T>, v: JsonValue) -> bool {
    match v {
        JsonValue::Object(fs) => {
            &&& Some(p.count) == dec_int(lookup(fs@, "count"@))
            &&& Some(opt_str_view(p.next)) == dec_opt_str(lookup(fs@, "next"@))
            &&& Some(opt_str_view(p.previous)) == dec_opt_str(lookup(fs@, "previous"@))
            &&& p.results@.len() == results_of(v).len()
        },
        _ => false,
    }
}

/// Whether `e` is the failure of a record of `kind` decoding from `v`.
pub open spec fn record_fail(kind: SearchType, v: JsonValue, e: Fail) -> bool {
    match kind {
        SearchType::Monster => monster_json_fail(v, e),
        SearchType::Spell => spell_json_fail(v, e),
    }
}

/// Whether `e` names a header member of the envelope `v` that does not decode
/// and the shape found there, or the shape of a document that is no object.
pub open spec fn header_fail(v: JsonValue, e: Fail) -> bool {
    match v {
        JsonValue::Object(fs) => {
            let fs = fs@;
            ||| dec_int(lookup(fs, "count"@)) is None && e == ("count"@, shape_at(lookup(fs, "count"@)))
            ||| dec_opt_str(lookup(fs, "next"@)) is None && e == ("next"@, shape_at(lookup(fs, "next"@)))
            ||| dec_opt_str(lookup(fs, "previous"@)) is None && e == ("previous"@, shape_at(
                lookup(fs, "previous"@),
            ))
            ||| !(lookup(fs, "results"@) matches Some(JsonValue::Array(_))) && e == ("results"@, shape_at(
                lookup(fs, "results"@),
            ))
        },
        x => e == (Seq::<char>::empty(), shape_of(x)),
    }
}

/// Whether `e` names what stops the envelope `v` decoding with records of
/// `kind`: a header failure, or the failure of one of the results.
pub open spec fn page_fail(kind: SearchType, v: JsonValue, e: Fail) -> bool {
    ||| header_fail(v, e)
    ||| exists|i: int| 0 <= i < results_of(v).len() && #[trigger] record_fail(kind, results_of(v)[i], e)
}

fn page_header(v: &JsonValue) -> (r: Result<(i64, Option<String>, Option<String>, &Vec<JsonValue>), Mismatch>)
    ensures
        match r {
            Ok((count, next, previous, items)) => v matches JsonValue::Object(fs) && Some(count) == dec_int(
                lookup(fs@, "count"@),
            ) && Some(opt_str_view(next)) == dec_opt_str(lookup(fs@, "next"@)) && Some(opt_str_view(previous))
                == dec_opt_str(lookup(fs@, "previous"@)) && lookup(fs@, "results"@) == Some(
                JsonValue::Array(*items),
            ),
            Err(e) => header_fail(*v, e@) && !(v matches JsonValue::Object(fs) && dec_int(lookup(fs@, "count"@)) is Some && dec_opt_str(
                lookup(fs@, "next"@),
            ) is Some && dec_opt_str(lookup(fs@, "previous"@)) is Some && lookup(fs@, "results"@) matches Some(
                JsonValue::Array(_),
            )),
        },
{
    match v {
        JsonValue::Object(fs) => {
            let count = take_int(fs, "count")?;
            let next = take_opt_str(fs, "next")?;
            let previous = take_opt_str(fs, "previous")?;
            let found = find(fs, "results");
            match found {
                Some(JsonValue::Array(items)) => Ok((count, next, previous, items)),
                _ => Err(Mismatch { field: "results".to_owned(), found: match found {
                    Some(x) => shape(x),
                    None => Shape::Missing,
                } }),
            }
        },
        _ => Err(Mismatch { field: String::new(), found: shape(v) }),
    }
}

/// Whether each record of `rs` is what the matching result of `v` decodes to.
pub open spec fn monsters_are(rs: Seq<Monster>, v: JsonValue) -> bool {
    rs.len() == results_of(v).len() && forall|i: int|
        0 <= i < rs.len() ==> (results_of(v)[i] matches JsonValue::Object(fs) && monster_is(#[trigger] rs[i], fs@))
}

/// Whether each record of `rs` is what the matching result of `v` decodes to.
pub open spec fn spells_are(rs: Seq<Spell>, v: JsonValue) -> bool {
    rs.len() == results_of(v).len() && forall|i: int|
        0 <= i < rs.len() ==> (results_of(v)[i] matches JsonValue::Object(fs) && spell_is(#[trigger] rs[i], fs@))
}

/// Decodes a page envelope of creature records.
pub fn monster_page(v: &JsonValue) -> (r: Result<Page<Monster>, Mismatch>)
    ensures
        r is Ok <==> page_ok(SearchType::Monster, *v),
        r matches Ok(p) ==> header_is(p, *v) && monsters_are(p.results@, *v),
        r matches Err(e) ==> page_fail(SearchType::Monster, *v, e@),
{
    let (count, next, previous, items) = page_header(v)?;
    let mut out: Vec<Monster> = Vec::new();
    let mut i: usize = 0;
    while i < items.len()
        invariant
            i <= items@.len(),
            results_of(*v) == items@,
            out@.len() == i,
            forall|j: int| 0 <= j < i ==> record_ok(SearchType::Monster, #[trigger] items@[j]),
            forall|j: int|
                0 <= j < i ==> (items@[j] matches JsonValue::Object(fs) && monster_is(#[trigger] out@[j], fs@)),
        decreases items.len() - i,
    {
        match Monster::from_json(&items[i]) {
            Ok(m) => out.push(m),
            Err(e) => {
                assert(record_fail(SearchType::Monster, results_of(*v)[i as int], e@));
                return Err(e);
            },
        }
        i = i + 1;
    }
    Ok(Page { count, next, previous, results: out })
}

/// Decodes a page envelope of spell records.
pub fn spell_page(v: &JsonValue) -> (r: Result<Page<Spell>, Mismatch>)
    ensures
        r is Ok <==> page_ok(SearchType::Spell, *v),
        r matches Ok(p) ==> header_is(p, *v) && spells_are(p.results@, *v),
        r matches Err(e) ==> page_fail(SearchType::Spell, *v, e@),
{
    let (count, next, previous, items) = page_header(v)?;
    let mut out: Vec<Spell> = Vec::new();
    let mut i: usize = 0;
    while i < items.len()
        invariant
            i <= items@.len(),
            results_of(*v) == items@,
            out@.len() == i,
            forall|j: int| 0 <= j < i ==> record_ok(SearchType::Spell, #[trigger] items@[j]),
            forall|j: int|
                0 <= j < i ==> (items@[j] matches JsonValue::Object(fs) && spell_is(#[trigger] out@[j], fs@)),
        decreases items.len() - i,
    {
        match Spell::from_json(&items[i]) {
            Ok(m) => out.push(m),
            Err(e) => {
                assert(record_fail(SearchType::Spell, results_of(*v)[i as int], e@));
                return Err(e);
            },
        }
        i = i + 1;
    }
    Ok(Page { count, next, previous, results: out })
}

/// Whether `l` holds the records of `kind` that the envelope `v` decodes to.
pub open spec fn listing_is(kind: SearchType, l: Listing, v: JsonValue) -> bool {
    match l {
        Listing::Monsters(rs) => kind == SearchType::Monster && monsters_are(rs@, v),
        Listing::Spells(rs) => kind == SearchType::Spell && spells_are(rs@, v),
    }
}

/// A walk through the pages of a listing, one request at a time.
#[derive(Debug, Clone)]
pub struct PageWalk {
    /// The kind of record listed.
    pub kind: SearchType,
    /// How many pages have been taken.
    pub pages: u64,
    /// The address to request next; `None` once the walk has ended.
    pub next: Option<String>,
}

impl PageWalk {
    /// A walk that begins at the first page of `kind`'s listing.
    pub fn start(kind: SearchType) -> (r: PageWalk)
        ensures
            r.kind == kind,
            r.pages == 0,
            opt_str_view(r.next) == Some(collection_url(kind)),
    {
        PageWalk { kind, pages: 0, next: Some(listing_url(kind)) }
    }

    /// Whether the walk has ended.
    pub fn is_done(&self) -> (r: bool)
        ensures
            r == self.next is None,
    {
        self.next.is_none()
    }

    /// Takes the response to the request for `next`: a page that decodes is
    /// counted and its records returned, and the walk goes on to the page it
    /// names, or ends where it names none. Any failure ends the walk.
    pub fn on_response(&mut self, status: u16, body: Option<&JsonValue>) -> (r: Result<Listing, LookupError>)
        requires
            old(self).next is Some,
            old(self).pages < u64::MAX,
        ensures
            final(self).kind == old(self).kind,
            !is_success(status) ==> (r matches Err(LookupError::Remote { status: s, url: u }) && s == status
                && u@ == old(self).next->0@),
            is_success(status) && body is None ==> (r matches Err(LookupError::SchemaMismatch { found, .. })
                && found == Shape::Invalid),
            is_success(status) && body is Some ==> (r is Ok <==> page_ok(old(self).kind, *body->0)),
            r matches Ok(l) ==> body is Some && listing_is(old(self).kind, l, *body->0) && final(self).pages
                == old(self).pages + 1 && opt_str_view(final(self).next) == next_of(*body->0),
            r matches Err(LookupError::SchemaMismatch { .. }) ==> is_success(status),
            is_success(status) && body is Some && !page_ok(old(self).kind, *body->0) ==> (r matches Err(
                LookupError::SchemaMismatch { .. },
            )),
            r is Err ==> final(self).next is None && final(self).pages == old(self).pages,
    {
        let url = match self.next.take() {
            Some(u) => u,
            None => String::new(),
        };
        if !success(status) {
            return Err(LookupError::Remote { status, url });
        }
        let v = match body {
            None => {
                return Err(LookupError::SchemaMismatch { field: String::new(), found: Shape::Invalid });
            },
            Some(v) => v,
        };
        let (listing, next) = match self.kind {
            SearchType::Monster => match monster_page(v) {
                Ok(p) => (Listing::Monsters(p.results), p.next),
                Err(e) => {
                    return Err(LookupError::from_mismatch(e));
                },
            },
            SearchType::Spell => match spell_page(v) {
                Ok(p) => (Listing::Spells(p.results), p.next),
                Err(e) => {
                    return Err(LookupError::from_mismatch(e));
                },
            },
        };
        self.pages = self.pages + 1;
        self.next = next;
        Ok(listing)
    }
}

} // verus!
