//! Spell records: decoding and markdown.
use vstd::prelude::*;
use crate::json::{
    JsonValue, Mismatch, Fail, lookup, shape_of, shape_at, dec_str, dec_int, shape, take_str, take_int,
};
use crate::md::{Markdown, ToMarkdown};

verus! {

/// A spell record.
#[derive(Debug, Clone)]
pub struct Spell {
    pub slug: String,
    pub name: String,
    pub desc: String,
    pub higher_level: String,
    pub page: String,
    pub range: String,
    pub components: String,
    pub material: String,
    pub ritual: String,
    pub duration: String,
    pub concentration: String,
    pub casting_time: String,
    pub level: String,
    pub level_int: i64,
    pub school: String,
    pub dnd_class: String,
    pub archetype: String,
    pub circles: String,
    /// The `document__slug` member.
    pub document_slug: String,
    /// The `document__title` member.
    pub document_title: String,
    /// The `document__license_url` member.
    pub document_license_url: String,
}

/// Whether every member that a spell reads decodes.
pub open spec fn spell_ok(fs: Seq<(String, JsonValue)>) -> bool {
    &&& dec_str(lookup(fs, "slug"@)) is Some
    &&& dec_str(lookup(fs, "name"@)) is Some
    &&& dec_str(lookup(fs, "desc"@)) is Some
    &&& dec_str(lookup(fs, "higher_level"@)) is Some
    &&& dec_str(lookup(fs, "page"@)) is Some
    &&& dec_str(lookup(fs, "range"@)) is Some
    &&& dec_str(lookup(fs, "components"@)) is Some
    &&& dec_str(lookup(fs, "material"@)) is Some
    &&& dec_str(lookup(fs, "ritual"@)) is Some
    &&& dec_str(lookup(fs, "duration"@)) is Some
    &&& dec_str(lookup(fs, "concentration"@)) is Some
    &&& dec_str(lookup(fs, "casting_time"@)) is Some
    &&& dec_str(lookup(fs, "level"@)) is Some
    &&& dec_int(lookup(fs, "level_int"@)) is Some
    &&& dec_str(lookup(fs, "school"@)) is Some
    &&& dec_str(lookup(fs, "dnd_class"@)) is Some
    &&& dec_str(lookup(fs, "archetype"@)) is Some
    &&& dec_str(lookup(fs, "circles"@)) is Some
    &&& dec_str(lookup(fs, "document__slug"@)) is Some
    &&& dec_str(lookup(fs, "document__title"@)) is Some
    &&& dec_str(lookup(fs, "document__license_url"@)) is Some
}

/// Whether `x` holds what the members decode to.
pub open spec fn spell_is(x: Spell, fs: Seq<(String, JsonValue)>) -> bool {
    &&& x.slug@ == dec_str(lookup(fs, "slug"@))->0
    &&& x.name@ == dec_str(lookup(fs, "name"@))->0
    &&& x.desc@ == dec_str(lookup(fs, "desc"@))->0
    &&& x.higher_level@ == dec_str(lookup(fs, "higher_level"@))->0
    &&& x.page@ == dec_str(lookup(fs, "page"@))->0
    &&& x.range@ == dec_str(lookup(fs, "range"@))->0
    &&& x.components@ == dec_str(lookup(fs, "components"@))->0
    &&& x.material@ == dec_str(lookup(fs, "material"@))->0
    &&& x.ritual@ == dec_str(lookup(fs, "ritual"@))->0
    &&& x.duration@ == dec_str(lookup(fs, "duration"@))->0
    &&& x.concentration@ == dec_str(lookup(fs, "concentration"@))->0
    &&& x.casting_time@ == dec_str(lookup(fs, "casting_time"@))->0
    &&& x.level@ == dec_str(lookup(fs, "level"@))->0
    &&& x.level_int == dec_int(lookup(fs, "level_int"@))->0
    &&& x.school@ == dec_str(lookup(fs, "school"@))->0
    &&& x.dnd_class@ == dec_str(lookup(fs, "dnd_class"@))->0
    &&& x.archetype@ == dec_str(lookup(fs, "archetype"@))->0
    &&& x.circles@ == dec_str(lookup(fs, "circles"@))->0
    &&& x.document_slug@ == dec_str(lookup(fs, "document__slug"@))->0
    &&& x.document_title@ == dec_str(lookup(fs, "document__title"@))->0
    &&& x.document_license_url@ == dec_str(lookup(fs, "document__license_url"@))->0
}

/// Whether `e` names a member that does not decode, and what was found there.
pub open spec fn spell_fail(fs: Seq<(String, JsonValue)>, e: Fail) -> bool {
    ||| dec_str(lookup(fs, "slug"@)) is None && e == ("slug"@, shape_at(lookup(fs, "slug"@)))
    ||| dec_str(lookup(fs, "name"@)) is None && e == ("name"@, shape_at(lookup(fs, "name"@)))
    ||| dec_str(lookup(fs, "desc"@)) is None && e == ("desc"@, shape_at(lookup(fs, "desc"@)))
    ||| dec_str(lookup(fs, "higher_level"@)) is None && e == ("higher_level"@, shape_at(lookup(fs, "higher_level"@)))
    ||| dec_str(lookup(fs, "page"@)) is None && e == ("page"@, shape_at(lookup(fs, "page"@)))
    ||| dec_str(lookup(fs, "range"@)) is None && e == ("range"@, shape_at(lookup(fs, "range"@)))
    ||| dec_str(lookup(fs, "components"@)) is None && e == ("components"@, shape_at(lookup(fs, "components"@)))
    ||| dec_str(lookup(fs, "material"@)) is None && e == ("material"@, shape_at(lookup(fs, "material"@)))
    ||| dec_str(lookup(fs, "ritual"@)) is None && e == ("ritual"@, shape_at(lookup(fs, "ritual"@)))
    ||| dec_str(lookup(fs, "duration"@)) is None && e == ("duration"@, shape_at(lookup(fs, "duration"@)))
    ||| dec_str(lookup(fs, "concentration"@)) is None && e == ("concentration"@, shape_at(lookup(fs, "concentration"@)))
    ||| dec_str(lookup(fs, "casting_time"@)) is None && e == ("casting_time"@, shape_at(lookup(fs, "casting_time"@)))
    ||| dec_str(lookup(fs, "level"@)) is None && e == ("level"@, shape_at(lookup(fs, "level"@)))
    ||| dec_int(lookup(fs, "level_int"@)) is None && e == ("level_int"@, shape_at(lookup(fs, "level_int"@)))
    ||| dec_str(lookup(fs, "school"@)) is None && e == ("school"@, shape_at(lookup(fs, "school"@)))
    ||| dec_str(lookup(fs, "dnd_class"@)) is None && e == ("dnd_class"@, shape_at(lookup(fs, "dnd_class"@)))
    ||| dec_str(lookup(fs, "archetype"@)) is None && e == ("archetype"@, shape_at(lookup(fs, "archetype"@)))
    ||| dec_str(lookup(fs, "circles"@)) is None && e == ("circles"@, shape_at(lookup(fs, "circles"@)))
    ||| dec_str(lookup(fs, "document__slug"@)) is None && e == ("document__slug"@, shape_at(lookup(fs, "document__slug"@)))
    ||| dec_str(lookup(fs, "document__title"@)) is None && e == ("document__title"@, shape_at(lookup(fs, "document__title"@)))
    ||| dec_str(lookup(fs, "document__license_url"@)) is None && e == ("document__license_url"@, shape_at(lookup(fs, "document__license_url"@)))
}

impl Spell {
    /// Decodes the members of a JSON object; members it does not read are ignored.
    pub fn from_fields(fs: &Vec<(String, JsonValue)>) -> (r: Result<Spell, Mismatch>)
        ensures
            r is Ok <==> spell_ok(fs@),
            r matches Ok(x) ==> spell_is(x, fs@),
            r matches Err(e) ==> spell_fail(fs@, e@),
    {
            let slug = take_str(fs, "slug")?;
            let name = take_str(fs, "name")?;
            let desc = take_str(fs, "desc")?;
            let higher_level = take_str(fs, "higher_level")?;
            let page = take_str(fs, "page")?;
            let range = take_str(fs, "range")?;
            let components = take_str(fs, "components")?;
            let material = take_str(fs, "material")?;
            let ritual = take_str(fs, "ritual")?;
            let duration = take_str(fs, "duration")?;
            let concentration = take_str(fs, "concentration")?;
            let casting_time = take_str(fs, "casting_time")?;
            let level = take_str(fs, "level")?;
            let level_int = take_int(fs, "level_int")?;
            let school = take_str(fs, "school")?;
            let dnd_class = take_str(fs, "dnd_class")?;
            let archetype = take_str(fs, "archetype")?;
            let circles = take_str(fs, "circles")?;
            let document_slug = take_str(fs, "document__slug")?;
            let document_title = take_str(fs, "document__title")?;
            let document_license_url = take_str(fs, "document__license_url")?;
        Ok(Spell {
            slug,
            name,
            desc,
            higher_level,
            page,
            range,
            components,
            material,
            ritual,
            duration,
            concentration,
            casting_time,
            level,
            level_int,
            school,
            dnd_class,
            archetype,
            circles,
            document_slug,
            document_title,
            document_license_url,
        })
    }
}

/// Whether a JSON document decodes as a spell.
pub open spec fn spell_json_ok(v: JsonValue) -> bool {
    match v {
        JsonValue::Object(fs) => spell_ok(fs@),
        _ => false,
    }
}

/// Whether `e` names a member of `v` that does not decode as a spell member,
/// or the shape of a document that is no object.
pub open spec fn spell_json_fail(v: JsonValue, e: Fail) -> bool {
    match v {
        JsonValue::Object(fs) => spell_fail(fs@, e),
        x => e == (Seq::<char>::empty(), shape_of(x)),
    }
}

impl Spell {
    /// Decodes a spell from a JSON document, which must be an object.
    pub fn from_json(v: &JsonValue) -> (r: Result<Spell, Mismatch>)
        ensures
            r is Ok <==> spell_json_ok(*v),
            r matches Ok(x) ==> (v matches JsonValue::Object(fs) && spell_is(x, fs@)),
            r matches Err(e) ==> spell_json_fail(*v, e@),
    {
        match v {
            JsonValue::Object(fs) => Spell::from_fields(fs),
            _ => Err(Mismatch { field: String::new(), found: shape(v) }),
        }
    }
}

/// The markdown of a spell: name, level, casting time, range, components,
/// duration, description, school, class and archetype, in that order.
pub open spec fn spell_md(s: Spell) -> Seq<char> {
    "\n###Name: "@ + s.name@ + "\n*Level "@ + s.level@ + "*\n___\n- **Casting Time:** "@ + s.casting_time@
        + " action\n- **Range:** "@ + s.range@ + " feet\n- **Components:** "@ + s.components@
        + "\n- **Duration:** "@ + s.duration@ + "\n\n"@ + s.desc@ + "\n\n- **School:** "@ + s.school@
        + "\n- **Class:** "@ + s.dnd_class@ + "\n- **Archetype:** "@ + s.archetype@ + "\n"@
}

impl ToMarkdown for Spell {
    open spec fn markdown_of(&self) -> Seq<char> {
        spell_md(*self)
    }

    fn to_md(&self) -> (r: Markdown) {
        let mut out = String::new();
        out.append("\n###Name: ");
        out.append(self.name.as_str());
        out.append("\n*Level ");
        out.append(self.level.as_str());
        out.append("*\n___\n- **Casting Time:** ");
        out.append(self.casting_time.as_str());
        out.append(" action\n- **Range:** ");
        out.append(self.range.as_str());
        out.append(" feet\n- **Components:** ");
        out.append(self.components.as_str());
        out.append("\n- **Duration:** ");
        out.append(self.duration.as_str());
        out.append("\n\n");
        out.append(self.desc.as_str());
        out.append("\n\n- **School:** ");
        out.append(self.school.as_str());
        out.append("\n- **Class:** ");
        out.append(self.dnd_class.as_str());
        out.append("\n- **Archetype:** ");
        out.append(self.archetype.as_str());
        out.append("\n");
        assert(out@ =~= spell_md(*self));
        Markdown(out)
    }
}

/// Rendering is deterministic: two spells decoded from the same members
/// render to the same text.
pub proof fn lemma_spell_md_deterministic(a: Spell, b: Spell, fs: Seq<(String, JsonValue)>)
    requires
        spell_is(a, fs),
        spell_is(b, fs),
    ensures
        spell_md(a) == spell_md(b),
{
}

} // verus!
