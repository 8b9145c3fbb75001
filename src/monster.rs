//! Creature records: decoding and markdown.
use vstd::prelude::*;
use crate::action::{
    Action, ActionView, actions_view, spec_action, spec_actions, spec_action_list, action_md, actions_md, opt_str_view, take_actions, push_actions_md,
};
use crate::json::{
    JsonValue, Mismatch, Fail, Shape, lookup, shape_of, shape_at, dec_str, dec_opt_str, dec_int, dec_opt_int,
    dec_str_list, strings_view, shape, take_str, take_opt_str, take_int, take_opt_int, take_str_list, take_object,
};
use crate::md::{Markdown, ToMarkdown};
use crate::text::{int_text, opt_int_text, push_int, push_opt_int};

verus! {

/// Movement speeds, in feet.
#[derive(Debug, Clone)]
pub struct Speeds {
    pub walk: Option<i64>,
    pub run: Option<i64>,
}

/// Whether every member that movement speeds read decodes.
pub open spec fn speeds_ok(fs: Seq<(String, JsonValue)>) -> bool {
    &&& dec_opt_int(lookup(fs, "walk"@)) is Some
    &&& dec_opt_int(lookup(fs, "run"@)) is Some
}

/// Whether `x` holds what the members decode to.
pub open spec fn speeds_is(x: Speeds, fs: Seq<(String, JsonValue)>) -> bool {
    &&& x.walk == dec_opt_int(lookup(fs, "walk"@))->0
    &&& x.run == dec_opt_int(lookup(fs, "run"@))->0
}

/// Whether `e` names a member that does not decode, and what was found there.
pub open spec fn speeds_fail(fs: Seq<(String, JsonValue)>, e: Fail) -> bool {
    ||| dec_opt_int(lookup(fs, "walk"@)) is None && e == ("walk"@, shape_at(lookup(fs, "walk"@)))
    ||| dec_opt_int(lookup(fs, "run"@)) is None && e == ("run"@, shape_at(lookup(fs, "run"@)))
}

impl Speeds {
    /// Decodes the members of a JSON object; members it does not read are ignored.
    pub fn from_fields(fs: &Vec<(String, JsonValue)>) -> (r: Result<Speeds, Mismatch>)
        ensures
            r is Ok <==> speeds_ok(fs@),
            r matches Ok(x) ==> speeds_is(x, fs@),
            r matches Err(e) ==> speeds_fail(fs@, e@),
    {
            let walk = take_opt_int(fs, "walk")?;
            let run = take_opt_int(fs, "run")?;
        Ok(Speeds {
            walk,
            run,
        })
    }
}

/// Skill modifiers; each is absent when the creature has no bonus in it.
#[derive(Debug, Clone)]
pub struct Skills {
    pub acrobatics: Option<i64>,
    pub animal_handling: Option<i64>,
    pub arcana: Option<i64>,
    pub athletics: Option<i64>,
    pub deception: Option<i64>,
    pub endurance: Option<i64>,
    pub history: Option<i64>,
    pub insight: Option<i64>,
    pub intimidation: Option<i64>,
    pub investigation: Option<i64>,
    pub medicine: Option<i64>,
    pub nature: Option<i64>,
    pub perception: Option<i64>,
    /// Read from the service's own key, which is spelled this way.
    pub performanc: Option<i64>,
    pub persuasion: Option<i64>,
    pub religion: Option<i64>,
    pub sleight_of_hand: Option<i64>,
    pub stealth: Option<i64>,
    pub streetwise: Option<i64>,
    pub survival: Option<i64>,
}

/// Whether every member that skill modifiers read decodes.
pub open spec fn skills_ok(fs: Seq<(String, JsonValue)>) -> bool {
    &&& dec_opt_int(lookup(fs, "acrobatics"@)) is Some
    &&& dec_opt_int(lookup(fs, "animal_handling"@)) is Some
    &&& dec_opt_int(lookup(fs, "arcana"@)) is Some
    &&& dec_opt_int(lookup(fs, "athletics"@)) is Some
    &&& dec_opt_int(lookup(fs, "deception"@)) is Some
    &&& dec_opt_int(lookup(fs, "endurance"@)) is Some
    &&& dec_opt_int(lookup(fs, "history"@)) is Some
    &&& dec_opt_int(lookup(fs, "insight"@)) is Some
    &&& dec_opt_int(lookup(fs, "intimidation"@)) is Some
    &&& dec_opt_int(lookup(fs, "investigation"@)) is Some
    &&& dec_opt_int(lookup(fs, "medicine"@)) is Some
    &&& dec_opt_int(lookup(fs, "nature"@)) is Some
    &&& dec_opt_int(lookup(fs, "perception"@)) is Some
    &&& dec_opt_int(lookup(fs, "performanc"@)) is Some
    &&& dec_opt_int(lookup(fs, "persuasion"@)) is Some
    &&& dec_opt_int(lookup(fs, "religion"@)) is Some
    &&& dec_opt_int(lookup(fs, "sleight_of_hand"@)) is Some
    &&& dec_opt_int(lookup(fs, "stealth"@)) is Some
    &&& dec_opt_int(lookup(fs, "streetwise"@)) is Some
    &&& dec_opt_int(lookup(fs, "survival"@)) is Some
}

/// Whether `x` holds what the members decode to.
pub open spec fn skills_is(x: Skills, fs: Seq<(String, JsonValue)>) -> bool {
    &&& x.acrobatics == dec_opt_int(lookup(fs, "acrobatics"@))->0
    &&& x.animal_handling == dec_opt_int(lookup(fs, "animal_handling"@))->0
    &&& x.arcana == dec_opt_int(lookup(fs, "arcana"@))->0
    &&& x.athletics == dec_opt_int(lookup(fs, "athletics"@))->0
    &&& x.deception == dec_opt_int(lookup(fs, "deception"@))->0
    &&& x.endurance == dec_opt_int(lookup(fs, "endurance"@))->0
    &&& x.history == dec_opt_int(lookup(fs, "history"@))->0
    &&& x.insight == dec_opt_int(lookup(fs, "insight"@))->0
    &&& x.intimidation == dec_opt_int(lookup(fs, "intimidation"@))->0
    &&& x.investigation == dec_opt_int(lookup(fs, "investigation"@))->0
    &&& x.medicine == dec_opt_int(lookup(fs, "medicine"@))->0
    &&& x.nature == dec_opt_int(lookup(fs, "nature"@))->0
    &&& x.perception == dec_opt_int(lookup(fs, "perception"@))->0
    &&& x.performanc == dec_opt_int(lookup(fs, "performanc"@))->0
    &&& x.persuasion == dec_opt_int(lookup(fs, "persuasion"@))->0
    &&& x.religion == dec_opt_int(lookup(fs, "religion"@))->0
    &&& x.sleight_of_hand == dec_opt_int(lookup(fs, "sleight_of_hand"@))->0
    &&& x.stealth == dec_opt_int(lookup(fs, "stealth"@))->0
    &&& x.streetwise == dec_opt_int(lookup(fs, "streetwise"@))->0
    &&& x.survival == dec_opt_int(lookup(fs, "survival"@))->0
}

/// Whether `e` names a member that does not decode, and what was found there.
pub open spec fn skills_fail(fs: Seq<(String, JsonValue)>, e: Fail) -> bool {
    ||| dec_opt_int(lookup(fs, "acrobatics"@)) is None && e == ("acrobatics"@, shape_at(lookup(fs, "acrobatics"@)))
    ||| dec_opt_int(lookup(fs, "animal_handling"@)) is None && e == ("animal_handling"@, shape_at(lookup(fs, "animal_handling"@)))
    ||| dec_opt_int(lookup(fs, "arcana"@)) is None && e == ("arcana"@, shape_at(lookup(fs, "arcana"@)))
    ||| dec_opt_int(lookup(fs, "athletics"@)) is None && e == ("athletics"@, shape_at(lookup(fs, "athletics"@)))
    ||| dec_opt_int(lookup(fs, "deception"@)) is None && e == ("deception"@, shape_at(lookup(fs, "deception"@)))
    ||| dec_opt_int(lookup(fs, "endurance"@)) is None && e == ("endurance"@, shape_at(lookup(fs, "endurance"@)))
    ||| dec_opt_int(lookup(fs, "history"@)) is None && e == ("history"@, shape_at(lookup(fs, "history"@)))
    ||| dec_opt_int(lookup(fs, "insight"@)) is None && e == ("insight"@, shape_at(lookup(fs, "insight"@)))
    ||| dec_opt_int(lookup(fs, "intimidation"@)) is None && e == ("intimidation"@, shape_at(lookup(fs, "intimidation"@)))
    ||| dec_opt_int(lookup(fs, "investigation"@)) is None && e == ("investigation"@, shape_at(lookup(fs, "investigation"@)))
    ||| dec_opt_int(lookup(fs, "medicine"@)) is None && e == ("medicine"@, shape_at(lookup(fs, "medicine"@)))
    ||| dec_opt_int(lookup(fs, "nature"@)) is None && e == ("nature"@, shape_at(lookup(fs, "nature"@)))
    ||| dec_opt_int(lookup(fs, "perception"@)) is None && e == ("perception"@, shape_at(lookup(fs, "perception"@)))
    ||| dec_opt_int(lookup(fs, "performanc"@)) is None && e == ("performanc"@, shape_at(lookup(fs, "performanc"@)))
    ||| dec_opt_int(lookup(fs, "persuasion"@)) is None && e == ("persuasion"@, shape_at(lookup(fs, "persuasion"@)))
    ||| dec_opt_int(lookup(fs, "religion"@)) is None && e == ("religion"@, shape_at(lookup(fs, "religion"@)))
    ||| dec_opt_int(lookup(fs, "sleight_of_hand"@)) is None && e == ("sleight_of_hand"@, shape_at(lookup(fs, "sleight_of_hand"@)))
    ||| dec_opt_int(lookup(fs, "stealth"@)) is None && e == ("stealth"@, shape_at(lookup(fs, "stealth"@)))
    ||| dec_opt_int(lookup(fs, "streetwise"@)) is None && e == ("streetwise"@, shape_at(lookup(fs, "streetwise"@)))
    ||| dec_opt_int(lookup(fs, "survival"@)) is None && e == ("survival"@, shape_at(lookup(fs, "survival"@)))
}

impl Skills {
    /// Decodes the members of a JSON object; members it does not read are ignored.
    pub fn from_fields(fs: &Vec<(String, JsonValue)>) -> (r: Result<Skills, Mismatch>)
        ensures
            r is Ok <==> skills_ok(fs@),
            r matches Ok(x) ==> skills_is(x, fs@),
            r matches Err(e) ==> skills_fail(fs@, e@),
    {
            let acrobatics = take_opt_int(fs, "acrobatics")?;
            let animal_handling = take_opt_int(fs, "animal_handling")?;
            let arcana = take_opt_int(fs, "arcana")?;
            let athletics = take_opt_int(fs, "athletics")?;
            let deception = take_opt_int(fs, "deception")?;
            let endurance = take_opt_int(fs, "endurance")?;
            let history = take_opt_int(fs, "history")?;
            let insight = take_opt_int(fs, "insight")?;
            let intimidation = take_opt_int(fs, "intimidation")?;
            let investigation = take_opt_int(fs, "investigation")?;
            let medicine = take_opt_int(fs, "medicine")?;
            let nature = take_opt_int(fs, "nature")?;
            let perception = take_opt_int(fs, "perception")?;
            let performanc = take_opt_int(fs, "performanc")?;
            let persuasion = take_opt_int(fs, "persuasion")?;
            let religion = take_opt_int(fs, "religion")?;
            let sleight_of_hand = take_opt_int(fs, "sleight_of_hand")?;
            let stealth = take_opt_int(fs, "stealth")?;
            let streetwise = take_opt_int(fs, "streetwise")?;
            let survival = take_opt_int(fs, "survival")?;
        Ok(Skills {
            acrobatics,
            animal_handling,
            arcana,
            athletics,
            deception,
            endurance,
            history,
            insight,
            intimidation,
            investigation,
            medicine,
            nature,
            perception,
            performanc,
            persuasion,
            religion,
            sleight_of_hand,
            stealth,
            streetwise,
            survival,
        })
    }
}

/// A creature record.
#[derive(Debug, Clone)]
pub struct Monster {
    pub slug: String,
    pub name: String,
    pub size: String,
    /// The creature's type (the `type` member).
    pub race: String,
    pub subtype: String,
    pub group: Option<String>,
    pub alignment: String,
    pub armor_class: i64,
    pub armor_desc: Option<String>,
    pub hit_points: i64,
    pub hit_dice: String,
    pub speed: Speeds,
    pub strength: i64,
    pub dexterity: i64,
    pub constitution: i64,
    pub intelligence: i64,
    pub wisdom: i64,
    pub charisma: i64,
    pub strength_save: Option<i64>,
    pub dexterity_save: Option<i64>,
    pub constitution_save: Option<i64>,
    pub intelligence_save: Option<i64>,
    pub wisdom_save: Option<i64>,
    pub charisma_save: Option<i64>,
    pub perception: Option<i64>,
    pub skills: Skills,
    pub damage_vulnerabilities: String,
    pub damage_resistances: String,
    pub damage_immunities: String,
    pub condition_immunities: String,
    pub senses: String,
    pub languages: String,
    pub challenge_rating: String,
    pub actions: Vec<Action>,
    pub reactions: Vec<Action>,
    pub legendary_desc: String,
    pub legendary_actions: Vec<Action>,
    pub special_abilities: Vec<Action>,
    pub spell_list: Vec<String>,
    pub img_main: Option<String>,
    /// The `document__slug` member.
    pub document_slug: String,
    /// The `document__title` member.
    pub document_title: String,
    /// The `document__license_url` member.
    pub document_license_url: String,
}

/// Whether every member that a creature reads decodes.
pub open spec fn monster_ok(fs: Seq<(String, JsonValue)>) -> bool {
    &&& dec_str(lookup(fs, "slug"@)) is Some
    &&& dec_str(lookup(fs, "name"@)) is Some
    &&& dec_str(lookup(fs, "size"@)) is Some
    &&& dec_str(lookup(fs, "type"@)) is Some
    &&& dec_str(lookup(fs, "subtype"@)) is Some
    &&& dec_opt_str(lookup(fs, "group"@)) is Some
    &&& dec_str(lookup(fs, "alignment"@)) is Some
    &&& dec_int(lookup(fs, "armor_class"@)) is Some
    &&& dec_opt_str(lookup(fs, "armor_desc"@)) is Some
    &&& dec_int(lookup(fs, "hit_points"@)) is Some
    &&& dec_str(lookup(fs, "hit_dice"@)) is Some
    &&& match lookup(fs, "speed"@) { Some(JsonValue::Object(inner)) => speeds_ok(inner@), _ => false }
    &&& dec_int(lookup(fs, "strength"@)) is Some
    &&& dec_int(lookup(fs, "dexterity"@)) is Some
    &&& dec_int(lookup(fs, "constitution"@)) is Some
    &&& dec_int(lookup(fs, "intelligence"@)) is Some
    &&& dec_int(lookup(fs, "wisdom"@)) is Some
    &&& dec_int(lookup(fs, "charisma"@)) is Some
    &&& dec_opt_int(lookup(fs, "strength_save"@)) is Some
    &&& dec_opt_int(lookup(fs, "dexterity_save"@)) is Some
    &&& dec_opt_int(lookup(fs, "constitution_save"@)) is Some
    &&& dec_opt_int(lookup(fs, "intelligence_save"@)) is Some
    &&& dec_opt_int(lookup(fs, "wisdom_save"@)) is Some
    &&& dec_opt_int(lookup(fs, "charisma_save"@)) is Some
    &&& dec_opt_int(lookup(fs, "perception"@)) is Some
    &&& match lookup(fs, "skills"@) { Some(JsonValue::Object(inner)) => skills_ok(inner@), _ => false }
    &&& dec_str(lookup(fs, "damage_vulnerabilities"@)) is Some
    &&& dec_str(lookup(fs, "damage_resistances"@)) is Some
    &&& dec_str(lookup(fs, "damage_immunities"@)) is Some
    &&& dec_str(lookup(fs, "condition_immunities"@)) is Some
    &&& dec_str(lookup(fs, "senses"@)) is Some
    &&& dec_str(lookup(fs, "languages"@)) is Some
    &&& dec_str(lookup(fs, "challenge_rating"@)) is Some
    &&& spec_action_list(lookup(fs, "actions"@), "actions"@) is Ok
    &&& spec_action_list(lookup(fs, "reactions"@), "reactions"@) is Ok
    &&& dec_str(lookup(fs, "legendary_desc"@)) is Some
    &&& spec_action_list(lookup(fs, "legendary_actions"@), "legendary_actions"@) is Ok
    &&& spec_action_list(lookup(fs, "special_abilities"@), "special_abilities"@) is Ok
    &&& dec_str_list(lookup(fs, "spell_list"@)) is Ok
    &&& dec_opt_str(lookup(fs, "img_main"@)) is Some
    &&& dec_str(lookup(fs, "document__slug"@)) is Some
    &&& dec_str(lookup(fs, "document__title"@)) is Some
    &&& dec_str(lookup(fs, "document__license_url"@)) is Some
}

/// Whether `x` holds what the members decode to.
pub open spec fn monster_is(x: Monster, fs: Seq<(String, JsonValue)>) -> bool {
    &&& x.slug@ == dec_str(lookup(fs, "slug"@))->0
    &&& x.name@ == dec_str(lookup(fs, "name"@))->0
    &&& x.size@ == dec_str(lookup(fs, "size"@))->0
    &&& x.race@ == dec_str(lookup(fs, "type"@))->0
    &&& x.subtype@ == dec_str(lookup(fs, "subtype"@))->0
    &&& opt_str_view(x.group) == dec_opt_str(lookup(fs, "group"@))->0
    &&& x.alignment@ == dec_str(lookup(fs, "alignment"@))->0
    &&& x.armor_class == dec_int(lookup(fs, "armor_class"@))->0
    &&& opt_str_view(x.armor_desc) == dec_opt_str(lookup(fs, "armor_desc"@))->0
    &&& x.hit_points == dec_int(lookup(fs, "hit_points"@))->0
    &&& x.hit_dice@ == dec_str(lookup(fs, "hit_dice"@))->0
    &&& match lookup(fs, "speed"@) { Some(JsonValue::Object(inner)) => speeds_is(x.speed, inner@), _ => false }
    &&& x.strength == dec_int(lookup(fs, "strength"@))->0
    &&& x.dexterity == dec_int(lookup(fs, "dexterity"@))->0
    &&& x.constitution == dec_int(lookup(fs, "constitution"@))->0
    &&& x.intelligence == dec_int(lookup(fs, "intelligence"@))->0
    &&& x.wisdom == dec_int(lookup(fs, "wisdom"@))->0
    &&& x.charisma == dec_int(lookup(fs, "charisma"@))->0
    &&& x.strength_save == dec_opt_int(lookup(fs, "strength_save"@))->0
    &&& x.dexterity_save == dec_opt_int(lookup(fs, "dexterity_save"@))->0
    &&& x.constitution_save == dec_opt_int(lookup(fs, "constitution_save"@))->0
    &&& x.intelligence_save == dec_opt_int(lookup(fs, "intelligence_save"@))->0
    &&& x.wisdom_save == dec_opt_int(lookup(fs, "wisdom_save"@))->0
    &&& x.charisma_save == dec_opt_int(lookup(fs, "charisma_save"@))->0
    &&& x.perception == dec_opt_int(lookup(fs, "perception"@))->0
    &&& match lookup(fs, "skills"@) { Some(JsonValue::Object(inner)) => skills_is(x.skills, inner@), _ => false }
    &&& x.damage_vulnerabilities@ == dec_str(lookup(fs, "damage_vulnerabilities"@))->0
    &&& x.damage_resistances@ == dec_str(lookup(fs, "damage_resistances"@))->0
    &&& x.damage_immunities@ == dec_str(lookup(fs, "damage_immunities"@))->0
    &&& x.condition_immunities@ == dec_str(lookup(fs, "condition_immunities"@))->0
    &&& x.senses@ == dec_str(lookup(fs, "senses"@))->0
    &&& x.languages@ == dec_str(lookup(fs, "languages"@))->0
    &&& x.challenge_rating@ == dec_str(lookup(fs, "challenge_rating"@))->0
    &&& actions_view(x.actions@) == spec_action_list(lookup(fs, "actions"@), "actions"@)->Ok_0
    &&& actions_view(x.reactions@) == spec_action_list(lookup(fs, "reactions"@), "reactions"@)->Ok_0
    &&& x.legendary_desc@ == dec_str(lookup(fs, "legendary_desc"@))->0
    &&& actions_view(x.legendary_actions@) == spec_action_list(lookup(fs, "legendary_actions"@), "legendary_actions"@)->Ok_0
    &&& actions_view(x.special_abilities@) == spec_action_list(lookup(fs, "special_abilities"@), "special_abilities"@)->Ok_0
    &&& strings_view(x.spell_list@) == dec_str_list(lookup(fs, "spell_list"@))->Ok_0
    &&& opt_str_view(x.img_main) == dec_opt_str(lookup(fs, "img_main"@))->0
    &&& x.document_slug@ == dec_str(lookup(fs, "document__slug"@))->0
    &&& x.document_title@ == dec_str(lookup(fs, "document__title"@))->0
    &&& x.document_license_url@ == dec_str(lookup(fs, "document__license_url"@))->0
}

/// Whether `e` names a member that does not decode, and what was found there.
pub open spec fn monster_fail(fs: Seq<(String, JsonValue)>, e: Fail) -> bool {
    ||| dec_str(lookup(fs, "slug"@)) is None && e == ("slug"@, shape_at(lookup(fs, "slug"@)))
    ||| dec_str(lookup(fs, "name"@)) is None && e == ("name"@, shape_at(lookup(fs, "name"@)))
    ||| dec_str(lookup(fs, "size"@)) is None && e == ("size"@, shape_at(lookup(fs, "size"@)))
    ||| dec_str(lookup(fs, "type"@)) is None && e == ("type"@, shape_at(lookup(fs, "type"@)))
    ||| dec_str(lookup(fs, "subtype"@)) is None && e == ("subtype"@, shape_at(lookup(fs, "subtype"@)))
    ||| dec_opt_str(lookup(fs, "group"@)) is None && e == ("group"@, shape_at(lookup(fs, "group"@)))
    ||| dec_str(lookup(fs, "alignment"@)) is None && e == ("alignment"@, shape_at(lookup(fs, "alignment"@)))
    ||| dec_int(lookup(fs, "armor_class"@)) is None && e == ("armor_class"@, shape_at(lookup(fs, "armor_class"@)))
    ||| dec_opt_str(lookup(fs, "armor_desc"@)) is None && e == ("armor_desc"@, shape_at(lookup(fs, "armor_desc"@)))
    ||| dec_int(lookup(fs, "hit_points"@)) is None && e == ("hit_points"@, shape_at(lookup(fs, "hit_points"@)))
    ||| dec_str(lookup(fs, "hit_dice"@)) is None && e == ("hit_dice"@, shape_at(lookup(fs, "hit_dice"@)))
    ||| match lookup(fs, "speed"@) { Some(JsonValue::Object(inner)) => speeds_fail(inner@, e), v => e == ("speed"@, shape_at(v)) }
    ||| dec_int(lookup(fs, "strength"@)) is None && e == ("strength"@, shape_at(lookup(fs, "strength"@)))
    ||| dec_int(lookup(fs, "dexterity"@)) is None && e == ("dexterity"@, shape_at(lookup(fs, "dexterity"@)))
    ||| dec_int(lookup(fs, "constitution"@)) is None && e == ("constitution"@, shape_at(lookup(fs, "constitution"@)))
    ||| dec_int(lookup(fs, "intelligence"@)) is None && e == ("intelligence"@, shape_at(lookup(fs, "intelligence"@)))
    ||| dec_int(lookup(fs, "wisdom"@)) is None && e == ("wisdom"@, shape_at(lookup(fs, "wisdom"@)))
    ||| dec_int(lookup(fs, "charisma"@)) is None && e == ("charisma"@, shape_at(lookup(fs, "charisma"@)))
    ||| dec_opt_int(lookup(fs, "strength_save"@)) is None && e == ("strength_save"@, shape_at(lookup(fs, "strength_save"@)))
    ||| dec_opt_int(lookup(fs, "dexterity_save"@)) is None && e == ("dexterity_save"@, shape_at(lookup(fs, "dexterity_save"@)))
    ||| dec_opt_int(lookup(fs, "constitution_save"@)) is None && e == ("constitution_save"@, shape_at(lookup(fs, "constitution_save"@)))
    ||| dec_opt_int(lookup(fs, "intelligence_save"@)) is None && e == ("intelligence_save"@, shape_at(lookup(fs, "intelligence_save"@)))
    ||| dec_opt_int(lookup(fs, "wisdom_save"@)) is None && e == ("wisdom_save"@, shape_at(lookup(fs, "wisdom_save"@)))
    ||| dec_opt_int(lookup(fs, "charisma_save"@)) is None && e == ("charisma_save"@, shape_at(lookup(fs, "charisma_save"@)))
    ||| dec_opt_int(lookup(fs, "perception"@)) is None && e == ("perception"@, shape_at(lookup(fs, "perception"@)))
    ||| match lookup(fs, "skills"@) { Some(JsonValue::Object(inner)) => skills_fail(inner@, e), v => e == ("skills"@, shape_at(v)) }
    ||| dec_str(lookup(fs, "damage_vulnerabilities"@)) is None && e == ("damage_vulnerabilities"@, shape_at(lookup(fs, "damage_vulnerabilities"@)))
    ||| dec_str(lookup(fs, "damage_resistances"@)) is None && e == ("damage_resistances"@, shape_at(lookup(fs, "damage_resistances"@)))
    ||| dec_str(lookup(fs, "damage_immunities"@)) is None && e == ("damage_immunities"@, shape_at(lookup(fs, "damage_immunities"@)))
    ||| dec_str(lookup(fs, "condition_immunities"@)) is None && e == ("condition_immunities"@, shape_at(lookup(fs, "condition_immunities"@)))
    ||| dec_str(lookup(fs, "senses"@)) is None && e == ("senses"@, shape_at(lookup(fs, "senses"@)))
    ||| dec_str(lookup(fs, "languages"@)) is None && e == ("languages"@, shape_at(lookup(fs, "languages"@)))
    ||| dec_str(lookup(fs, "challenge_rating"@)) is None && e == ("challenge_rating"@, shape_at(lookup(fs, "challenge_rating"@)))
    ||| spec_action_list(lookup(fs, "actions"@), "actions"@) == Err::<Seq<ActionView>, Fail>(e)
    ||| spec_action_list(lookup(fs, "reactions"@), "reactions"@) == Err::<Seq<ActionView>, Fail>(e)
    ||| dec_str(lookup(fs, "legendary_desc"@)) is None && e == ("legendary_desc"@, shape_at(lookup(fs, "legendary_desc"@)))
    ||| spec_action_list(lookup(fs, "legendary_actions"@), "legendary_actions"@) == Err::<Seq<ActionView>, Fail>(e)
    ||| spec_action_list(lookup(fs, "special_abilities"@), "special_abilities"@) == Err::<Seq<ActionView>, Fail>(e)
    ||| dec_str_list(lookup(fs, "spell_list"@)) == Err::<Seq<Seq<char>>, Shape>(e.1) && e.0 == "spell_list"@
    ||| dec_opt_str(lookup(fs, "img_main"@)) is None && e == ("img_main"@, shape_at(lookup(fs, "img_main"@)))
    ||| dec_str(lookup(fs, "document__slug"@)) is None && e == ("document__slug"@, shape_at(lookup(fs, "document__slug"@)))
    ||| dec_str(lookup(fs, "document__title"@)) is None && e == ("document__title"@, shape_at(lookup(fs, "document__title"@)))
    ||| dec_str(lookup(fs, "document__license_url"@)) is None && e == ("document__license_url"@, shape_at(lookup(fs, "document__license_url"@)))
}

impl Monster {
    /// Decodes the members of a JSON object; members it does not read are ignored.
    pub fn from_fields(fs: &Vec<(String, JsonValue)>) -> (r: Result<Monster, Mismatch>)
        ensures
            r is Ok <==> monster_ok(fs@),
            r matches Ok(x) ==> monster_is(x, fs@),
            r matches Err(e) ==> monster_fail(fs@, e@),
    {
            let slug = take_str(fs, "slug")?;
            let name = take_str(fs, "name")?;
            let size = take_str(fs, "size")?;
            let race = take_str(fs, "type")?;
            let subtype = take_str(fs, "subtype")?;
            let group = take_opt_str(fs, "group")?;
            let alignment = take_str(fs, "alignment")?;
            let armor_class = take_int(fs, "armor_class")?;
            let armor_desc = take_opt_str(fs, "armor_desc")?;
            let hit_points = take_int(fs, "hit_points")?;
            let hit_dice = take_str(fs, "hit_dice")?;
            let speed = Speeds::from_fields(take_object(fs, "speed")?)?;
            let strength = take_int(fs, "strength")?;
            let dexterity = take_int(fs, "dexterity")?;
            let constitution = take_int(fs, "constitution")?;
            let intelligence = take_int(fs, "intelligence")?;
            let wisdom = take_int(fs, "wisdom")?;
            let charisma = take_int(fs, "charisma")?;
            let strength_save = take_opt_int(fs, "strength_save")?;
            let dexterity_save = take_opt_int(fs, "dexterity_save")?;
            let constitution_save = take_opt_int(fs, "constitution_save")?;
            let intelligence_save = take_opt_int(fs, "intelligence_save")?;
            let wisdom_save = take_opt_int(fs, "wisdom_save")?;
            let charisma_save = take_opt_int(fs, "charisma_save")?;
            let perception = take_opt_int(fs, "perception")?;
            let skills = Skills::from_fields(take_object(fs, "skills")?)?;
            let damage_vulnerabilities = take_str(fs, "damage_vulnerabilities")?;
            let damage_resistances = take_str(fs, "damage_resistances")?;
            let damage_immunities = take_str(fs, "damage_immunities")?;
            let condition_immunities = take_str(fs, "condition_immunities")?;
            let senses = take_str(fs, "senses")?;
            let languages = take_str(fs, "languages")?;
            let challenge_rating = take_str(fs, "challenge_rating")?;
            let actions = take_actions(fs, "actions")?;
            let reactions = take_actions(fs, "reactions")?;
            let legendary_desc = take_str(fs, "legendary_desc")?;
            let legendary_actions = take_actions(fs, "legendary_actions")?;
            let special_abilities = take_actions(fs, "special_abilities")?;
            let spell_list = take_str_list(fs, "spell_list")?;
            let img_main = take_opt_str(fs, "img_main")?;
            let document_slug = take_str(fs, "document__slug")?;
            let document_title = take_str(fs, "document__title")?;
            let document_license_url = take_str(fs, "document__license_url")?;
        Ok(Monster {
            slug,
            name,
            size,
            race,
            subtype,
            group,
            alignment,
            armor_class,
            armor_desc,
            hit_points,
            hit_dice,
            speed,
            strength,
            dexterity,
            constitution,
            intelligence,
            wisdom,
            charisma,
            strength_save,
            dexterity_save,
            constitution_save,
            intelligence_save,
            wisdom_save,
            charisma_save,
            perception,
            skills,
            damage_vulnerabilities,
            damage_resistances,
            damage_immunities,
            condition_immunities,
            senses,
            languages,
            challenge_rating,
            actions,
            reactions,
            legendary_desc,
            legendary_actions,
            special_abilities,
            spell_list,
            img_main,
            document_slug,
            document_title,
            document_license_url,
        })
    }
}

/// Whether a JSON document decodes as a creature.
pub open spec fn monster_json_ok(v: JsonValue) -> bool {
    match v {
        JsonValue::Object(fs) => monster_ok(fs@),
        _ => false,
    }
}

/// Whether `e` names a member of `v` that does not decode as a creature member,
/// or the shape of a document that is no object.
pub open spec fn monster_json_fail(v: JsonValue, e: Fail) -> bool {
    match v {
        JsonValue::Object(fs) => monster_fail(fs@, e),
        x => e == (Seq::<char>::empty(), shape_of(x)),
    }
}

impl Monster {
    /// Decodes a creature from a JSON document, which must be an object.
    pub fn from_json(v: &JsonValue) -> (r: Result<Monster, Mismatch>)
        ensures
            r is Ok <==> monster_json_ok(*v),
            r matches Ok(x) ==> (v matches JsonValue::Object(fs) && monster_is(x, fs@)),
            r matches Err(e) ==> monster_json_fail(*v, e@),
    {
        match v {
            JsonValue::Object(fs) => Monster::from_fields(fs),
            _ => Err(Mismatch { field: String::new(), found: shape(v) }),
        }
    }
}

/// The lines of `s` joined with line breaks.
pub open spec fn join_lines(s: Seq<Seq<char>>) -> Seq<char>
    decreases s.len(),
{
    if s.len() == 0 {
        Seq::empty()
    } else if s.len() == 1 {
        s[0]
    } else {
        join_lines(s.drop_last()) + "\n"@ + s.last()
    }
}

fn push_lines(lines: &Vec<String>, out: &mut String)
    ensures
        final(out)@ == old(out)@ + join_lines(strings_view(lines@)),
{
    let ghost start = out@;
    let mut i: usize = 0;
    while i < lines.len()
        invariant
            i <= lines@.len(),
            out@ == start + join_lines(strings_view(lines@.subrange(0, i as int))),
        decreases lines.len() - i,
    {
        proof {
            assert(strings_view(lines@.subrange(0, i + 1)).drop_last() =~= strings_view(lines@.subrange(0, i as int)));
        }
        if i > 0 {
            out.append("\n");
        }
        out.append(lines[i].as_str());
        proof {
            assert(out@ =~= start + join_lines(strings_view(lines@.subrange(0, i + 1))));
        }
        i = i + 1;
    }
    proof {
        assert(lines@.subrange(0, lines@.len() as int) =~= lines@);
    }
}

/// Name, type, armor class, hit points and hit dice.
pub open spec fn monster_head(m: Monster) -> Seq<char> {
    "\n###Name:  "@ + m.name@ + "\n**Race:** "@ + m.race@ + "\n- **Armor Class** "@ + int_text(m.armor_class as int)
        + "\n- **Hit Points** "@ + int_text(m.hit_points as int) + "\n- **Hit Dice** "@ + m.hit_dice@
}

/// The table of ability scores and saving throws.
pub open spec fn monster_table(m: Monster) -> Seq<char> {
    monster_scores(m) + monster_saves(m)
}

/// The table's heading and its row of ability scores.
pub open spec fn monster_scores(m: Monster) -> Seq<char> {
    "\n\n|STR|DEX|CON|INT|WIS|CHA|\n|:---:|:---:|:---:|:---:|:---:|:---:|\n|"@ + int_text(m.strength as int) + "|"@
        + int_text(m.dexterity as int) + "|"@ + int_text(m.constitution as int) + "|"@ + int_text(m.intelligence as int)
        + "|"@ + int_text(m.wisdom as int) + "|"@ + int_text(m.charisma as int) + "|\n|"@
}

/// The table's row of saving throws.
pub open spec fn monster_saves(m: Monster) -> Seq<char> {
    opt_int_text(m.strength_save) + "|"@ + opt_int_text(m.dexterity_save) + "|"@
        + opt_int_text(m.constitution_save) + "|"@ + opt_int_text(m.intelligence_save) + "|"@
        + opt_int_text(m.wisdom_save) + "|"@ + opt_int_text(m.charisma_save) + "|\n___"@
}

/// Condition immunities, passive perception, languages, challenge and spells.
pub open spec fn monster_traits(m: Monster) -> Seq<char> {
    "\n- **Condition Immunities** "@ + m.condition_immunities@ + "\n- **Passive Perception** "@
        + opt_int_text(m.perception) + "\n- **Languages** "@ + m.languages@ + "\n- **Challenge** "@
        + m.challenge_rating@ + "\n\n**Spells:**\n"@ + join_lines(strings_view(m.spell_list@))
}

/// The entries of the four action-like lists under one heading: actions,
/// reactions, legendary actions, then special abilities.
pub open spec fn monster_actions(m: Monster) -> Seq<char> {
    "\n\n**Actions:**\n"@ + actions_md(actions_view(m.actions@)) + actions_md(actions_view(m.reactions@))
        + actions_md(actions_view(m.legendary_actions@)) + actions_md(actions_view(m.special_abilities@)) + "\n"@
}

/// The markdown of a creature.
pub open spec fn monster_md(m: Monster) -> Seq<char> {
    monster_head(m) + monster_table(m) + monster_traits(m) + monster_actions(m)
}

impl Monster {
    fn push_head(&self, out: &mut String)
        ensures
            final(out)@ == old(out)@ + monster_head(*self),
    {
        let ghost start = out@;
        out.append("\n###Name:  ");
        out.append(self.name.as_str());
        out.append("\n**Race:** ");
        out.append(self.race.as_str());
        out.append("\n- **Armor Class** ");
        push_int(out, self.armor_class);
        out.append("\n- **Hit Points** ");
        push_int(out, self.hit_points);
        out.append("\n- **Hit Dice** ");
        out.append(self.hit_dice.as_str());
        assert(out@ =~= start + monster_head(*self));
    }

    fn push_table(&self, out: &mut String)
        ensures
            final(out)@ == old(out)@ + monster_table(*self),
    {
        let ghost start = out@;
        self.push_scores(out);
        self.push_saves(out);
        assert(out@ =~= start + monster_table(*self));
    }

    fn push_scores(&self, out: &mut String)
        ensures
            final(out)@ == old(out)@ + monster_scores(*self),
    {
        let ghost start = out@;
        out.append("\n\n|STR|DEX|CON|INT|WIS|CHA|\n|:---:|:---:|:---:|:---:|:---:|:---:|\n|");
        push_int(out, self.strength);
        out.append("|");
        push_int(out, self.dexterity);
        out.append("|");
        push_int(out, self.constitution);
        out.append("|");
        push_int(out, self.intelligence);
        out.append("|");
        push_int(out, self.wisdom);
        out.append("|");
        push_int(out, self.charisma);
        out.append("|\n|");
        assert(out@ =~= start + monster_scores(*self));
    }

    fn push_saves(&self, out: &mut String)
        ensures
            final(out)@ == old(out)@ + monster_saves(*self),
    {
        let ghost start = out@;
        push_opt_int(out, self.strength_save);
        out.append("|");
        push_opt_int(out, self.dexterity_save);
        out.append("|");
        push_opt_int(out, self.constitution_save);
        out.append("|");
        push_opt_int(out, self.intelligence_save);
        out.append("|");
        push_opt_int(out, self.wisdom_save);
        out.append("|");
        push_opt_int(out, self.charisma_save);
        out.append("|\n___");
        assert(out@ =~= start + monster_saves(*self));
    }

    fn push_traits(&self, out: &mut String)
        ensures
            final(out)@ == old(out)@ + monster_traits(*self),
    {
        let ghost start = out@;
        out.append("\n- **Condition Immunities** ");
        out.append(self.condition_immunities.as_str());
        out.append("\n- **Passive Perception** ");
        push_opt_int(out, self.perception);
        out.append("\n- **Languages** ");
        out.append(self.languages.as_str());
        out.append("\n- **Challenge** ");
        out.append(self.challenge_rating.as_str());
        out.append("\n\n**Spells:**\n");
        push_lines(&self.spell_list, out);
        assert(out@ =~= start + monster_traits(*self));
    }

    fn push_action_lists(&self, out: &mut String)
        ensures
            final(out)@ == old(out)@ + monster_actions(*self),
    {
        let ghost start = out@;
        out.append("\n\n**Actions:**\n");
        push_actions_md(&self.actions, out);
        push_actions_md(&self.reactions, out);
        push_actions_md(&self.legendary_actions, out);
        push_actions_md(&self.special_abilities, out);
        out.append("\n");
        assert(out@ =~= start + monster_actions(*self));
    }
}

impl ToMarkdown for Monster {
    open spec fn markdown_of(&self) -> Seq<char> {
        monster_md(*self)
    }

    fn to_md(&self) -> (r: Markdown) {
        let mut out = String::new();
        self.push_head(&mut out);
        self.push_table(&mut out);
        self.push_traits(&mut out);
        self.push_action_lists(&mut out);
        assert(out@ =~= monster_md(*self));
        Markdown(out)
    }
}

/// Rendering is deterministic: two creatures decoded from the same members
/// render to the same text.
pub proof fn lemma_monster_md_deterministic(a: Monster, b: Monster, fs: Seq<(String, JsonValue)>)
    requires
        monster_is(a, fs),
        monster_is(b, fs),
    ensures
        monster_md(a) == monster_md(b),
{
    assert(monster_head(a) == monster_head(b));
    assert(monster_table(a) == monster_table(b));
    assert(monster_traits(a) == monster_traits(b));
    assert(monster_actions(a) == monster_actions(b));
}

/// A creature whose actions member is a bare string, with its other
/// action-like lists empty, ends with an Actions section that holds that name
/// as a heading, an empty description line, and no line of combat numbers.
pub proof fn lemma_string_actions_md(m: Monster, fs: Seq<(String, JsonValue)>, name: String)
    requires
        monster_is(m, fs),
        lookup(fs, "actions"@) == Some(JsonValue::Str(name)),
        name@.len() > 0,
        m.reactions@.len() == 0,
        m.legendary_actions@.len() == 0,
        m.special_abilities@.len() == 0,
    ensures
        monster_actions(m) == "\n\n**Actions:**\n"@ + ("1. **"@ + name@ + "**\n"@ + Seq::<char>::empty() + "\n"@
            + "\n"@) + "\n"@,
{
    let v = actions_view(m.actions@);
    assert(v == seq![crate::action::named_only(name@)]);
    crate::action::lemma_entry_without_numbers_md(v[0]);
    assert(v.drop_last() =~= Seq::<ActionView>::empty());
    assert(actions_md(v.drop_last()) == Seq::<char>::empty());
    assert(actions_md(v) =~= action_md(v[0]));
    assert(actions_view(m.reactions@) =~= Seq::<ActionView>::empty());
    assert(actions_view(m.legendary_actions@) =~= Seq::<ActionView>::empty());
    assert(actions_view(m.special_abilities@) =~= Seq::<ActionView>::empty());
    assert(monster_actions(m) =~= "\n\n**Actions:**\n"@ + ("1. **"@ + name@ + "**\n"@ + Seq::<char>::empty()
        + "\n"@ + "\n"@) + "\n"@);
}

/// A creature whose actions member is an array of one entry object with a
/// name, a description and an attack bonus only, with its other action-like
/// lists empty, ends with an Actions section that holds the heading, the
/// description line, and a line with the attack bonus.
pub proof fn lemma_attack_entry_md(
    m: Monster,
    fs: Seq<(String, JsonValue)>,
    items: Vec<JsonValue>,
    a: ActionView,
    n: i64,
)
    requires
        monster_is(m, fs),
        lookup(fs, "actions"@) == Some(JsonValue::Array(items)),
        items@.len() == 1,
        spec_action(items@[0], "actions"@) == Ok::<_, Fail>(a),
        a.name.len() > 0,
        a.attack_bonus == Some(n),
        a.damage_dice is None,
        a.damage_bonus is None,
        m.reactions@.len() == 0,
        m.legendary_actions@.len() == 0,
        m.special_abilities@.len() == 0,
    ensures
        monster_actions(m) == "\n\n**Actions:**\n"@ + ("1. **"@ + a.name + "**\n"@ + a.desc + "\n"@
            + "*Attack Bonus:* "@ + int_text(n as int) + "  "@ + "\n"@) + "\n"@,
{
    let v = actions_view(m.actions@);
    assert(items@.drop_last() =~= Seq::<JsonValue>::empty());
    assert(items@.last() == items@[0]);
    assert(spec_actions(items@.drop_last(), "actions"@) == Ok::<_, Fail>(Seq::<ActionView>::empty()));
    assert(Seq::<ActionView>::empty().push(a) =~= seq![a]);
    assert(v == seq![a]);
    crate::action::lemma_entry_with_attack_bonus_md(a, n);
    assert(v.drop_last() =~= Seq::<ActionView>::empty());
    assert(actions_md(v.drop_last()) == Seq::<char>::empty());
    assert(actions_md(v) =~= action_md(v[0]));
    assert(actions_view(m.reactions@) =~= Seq::<ActionView>::empty());
    assert(actions_view(m.legendary_actions@) =~= Seq::<ActionView>::empty());
    assert(actions_view(m.special_abilities@) =~= Seq::<ActionView>::empty());
    assert(monster_actions(m) =~= "\n\n**Actions:**\n"@ + ("1. **"@ + a.name + "**\n"@ + a.desc + "\n"@
        + "*Attack Bonus:* "@ + int_text(n as int) + "  "@ + "\n"@) + "\n"@);
}

} // verus!
