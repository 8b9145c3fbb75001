use fiender::json::{JsonValue, Shape};
use fiender::lookup::{listing_url, record_url, render_response, slug, LookupError, SearchType};
use fiender::page::{monster_page, Listing, PageWalk};
use fiender::slug::hyphenate;

fn s(t: &str) -> JsonValue {
    JsonValue::Str(t.to_string())
}

fn obj(members: Vec<(&str, JsonValue)>) -> JsonValue {
    JsonValue::Object(members.into_iter().map(|(k, v)| (k.to_string(), v)).collect())
}

fn spell_json(name: &str) -> JsonValue {
    let mut m = vec![("name", s(name)), ("level_int", JsonValue::Int(1))];
    for k in [
        "slug", "desc", "higher_level", "page", "range", "components", "material", "ritual", "duration",
        "concentration", "casting_time", "level", "school", "dnd_class", "archetype", "circles", "document__slug",
        "document__title", "document__license_url",
    ] {
        m.push((k, s("x")));
    }
    obj(m)
}

fn envelope(next: JsonValue, results: Vec<JsonValue>) -> JsonValue {
    obj(vec![
        ("count", JsonValue::Int(results.len() as i64)),
        ("next", next),
        ("previous", JsonValue::Null),
        ("results", JsonValue::Array(results)),
    ])
}

#[test]
fn slug_is_lower_case_with_hyphens() {
    assert_eq!(slug("Ancient Red Dragon"), "ancient-red-dragon");
    assert_eq!(slug("fireball"), "fireball");
    assert_eq!(slug(""), "");
    let once = slug("Ancient Red Dragon");
    assert_eq!(slug(&once), once);
    assert_eq!(hyphenate("a b  c"), "a-b--c");
}

#[test]
fn urls_of_records_and_listings() {
    assert_eq!(record_url(SearchType::Monster, "Ancient Red Dragon"), "https://api.open5e.com/monsters/ancient-red-dragon");
    assert_eq!(record_url(SearchType::Spell, "Fireball"), "https://api.open5e.com/spells/fireball");
    assert_eq!(listing_url(SearchType::Spell), "https://api.open5e.com/spells/");
}

#[test]
fn scenario_not_found_is_remote_error() {
    let url = "https://api.open5e.com/monsters/nothing";
    let body = obj(vec![("detail", s("Not found."))]);
    match render_response(SearchType::Monster, url, 404, Some(&body)) {
        Err(LookupError::Remote { status, url: u }) => {
            assert_eq!(status, 404);
            assert_eq!(u, url);
        },
        Err(e) => panic!("unexpected error {:?}", e),
        Ok(_) => panic!("rendered a record for a failed request"),
    }
    assert!(matches!(render_response(SearchType::Spell, url, 500, None), Err(LookupError::Remote { status: 500, .. })));
}

#[test]
fn successful_response_renders_record() {
    let md = render_response(SearchType::Spell, "u", 200, Some(&spell_json("Light"))).ok().unwrap();
    assert!(md.0.starts_with("\n###Name: Light\n"));
}

#[test]
fn bad_bodies_are_mismatches() {
    match render_response(SearchType::Spell, "u", 200, None) {
        Err(LookupError::SchemaMismatch { found, .. }) => assert_eq!(found, Shape::Invalid),
        _ => panic!("expected a mismatch"),
    }
    match render_response(SearchType::Monster, "u", 200, Some(&spell_json("Light"))) {
        Err(LookupError::SchemaMismatch { field, found }) => {
            assert_eq!(field, "size");
            assert_eq!(found, Shape::Missing);
        },
        _ => panic!("expected a mismatch"),
    }
}

#[test]
fn scenario_last_page_ends_walk() {
    let mut walk = PageWalk::start(SearchType::Spell);
    assert!(!walk.is_done());
    assert_eq!(walk.next.as_deref(), Some("https://api.open5e.com/spells/"));
    let page = envelope(JsonValue::Null, vec![spell_json("Light"), spell_json("Shield")]);
    match walk.on_response(200, Some(&page)).ok().unwrap() {
        Listing::Spells(v) => {
            assert_eq!(v.len(), 2);
            assert_eq!(v[1].name, "Shield");
        },
        Listing::Monsters(_) => panic!("wrong kind"),
    }
    assert!(walk.is_done());
    assert_eq!(walk.pages, 1);
}

#[test]
fn walk_follows_next_page() {
    let mut walk = PageWalk::start(SearchType::Spell);
    let page = envelope(s("https://api.open5e.com/spells/?page=2"), vec![spell_json("Light")]);
    assert!(walk.on_response(200, Some(&page)).is_ok());
    assert!(!walk.is_done());
    assert_eq!(walk.next.as_deref(), Some("https://api.open5e.com/spells/?page=2"));
    let last = envelope(JsonValue::Null, vec![]);
    assert!(walk.on_response(200, Some(&last)).is_ok());
    assert!(walk.is_done());
    assert_eq!(walk.pages, 2);
}

#[test]
fn walk_stops_on_failure() {
    let mut walk = PageWalk::start(SearchType::Monster);
    let r = walk.on_response(503, None);
    assert!(matches!(r, Err(LookupError::Remote { status: 503, .. })));
    assert!(walk.is_done());
    assert_eq!(walk.pages, 0);

    let mut walk = PageWalk::start(SearchType::Monster);
    let page = envelope(JsonValue::Null, vec![s("not a record")]);
    match walk.on_response(200, Some(&page)) {
        Err(LookupError::SchemaMismatch { found, .. }) => assert_eq!(found, Shape::Str),
        _ => panic!("expected a mismatch"),
    }
    assert!(walk.is_done());
}

#[test]
fn envelope_members_are_required() {
    let e = monster_page(&obj(vec![("count", JsonValue::Int(0))])).err().unwrap();
    assert_eq!(e.field, "results");
    assert_eq!(e.found, Shape::Missing);
    let p = monster_page(&envelope(JsonValue::Null, vec![])).ok().unwrap();
    assert_eq!(p.count, 0);
    assert!(p.next.is_none());
    assert!(p.results.is_empty());
}

#[test]
fn walk_rejects_body_that_is_no_page() {
    let mut walk = PageWalk::start(SearchType::Spell);
    match walk.on_response(200, Some(&obj(vec![("count", s("many"))]))) {
        Err(LookupError::SchemaMismatch { field, found }) => {
            assert_eq!(field, "count");
            assert_eq!(found, Shape::Str);
        },
        _ => panic!("expected a mismatch"),
    }
    assert!(walk.is_done());
}
