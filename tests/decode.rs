use fiender::action::{decode_action_list, Action};
use fiender::json::{JsonValue, Shape};
use fiender::md::ToMarkdown;
use fiender::monster::Monster;
use fiender::spell::Spell;
use fiender::text::int_string;

fn s(t: &str) -> JsonValue {
    JsonValue::Str(t.to_string())
}

fn obj(members: Vec<(&str, JsonValue)>) -> JsonValue {
    JsonValue::Object(members.into_iter().map(|(k, v)| (k.to_string(), v)).collect())
}

fn entry(name: &str, desc: &str, attack_bonus: Option<i64>) -> JsonValue {
    let mut m = vec![("name", s(name)), ("desc", s(desc))];
    if let Some(n) = attack_bonus {
        m.push(("attack_bonus", JsonValue::Int(n)));
    }
    obj(m)
}

fn monster_members(actions: JsonValue) -> Vec<(&'static str, JsonValue)> {
    vec![
        ("slug", s("goblin")),
        ("name", s("Goblin")),
        ("size", s("Small")),
        ("type", s("humanoid")),
        ("subtype", s("goblinoid")),
        ("group", JsonValue::Null),
        ("alignment", s("neutral evil")),
        ("armor_class", JsonValue::Int(15)),
        ("armor_desc", s("leather armor, shield")),
        ("hit_points", JsonValue::Int(7)),
        ("hit_dice", s("2d6")),
        ("speed", obj(vec![("walk", JsonValue::Int(30))])),
        ("strength", JsonValue::Int(8)),
        ("dexterity", JsonValue::Int(14)),
        ("constitution", JsonValue::Int(10)),
        ("intelligence", JsonValue::Int(10)),
        ("wisdom", JsonValue::Int(8)),
        ("charisma", JsonValue::Int(8)),
        ("strength_save", JsonValue::Null),
        ("dexterity_save", JsonValue::Int(4)),
        ("constitution_save", JsonValue::Null),
        ("intelligence_save", JsonValue::Null),
        ("wisdom_save", JsonValue::Null),
        ("charisma_save", JsonValue::Int(-1)),
        ("perception", JsonValue::Null),
        ("skills", obj(vec![("stealth", JsonValue::Int(6))])),
        ("damage_vulnerabilities", s("")),
        ("damage_resistances", s("")),
        ("damage_immunities", s("")),
        ("condition_immunities", s("")),
        ("senses", s("darkvision 60 ft., passive Perception 9")),
        ("languages", s("Common, Goblin")),
        ("challenge_rating", s("1/4")),
        ("actions", actions),
        ("reactions", s("")),
        ("legendary_desc", s("")),
        ("legendary_actions", s("")),
        ("special_abilities", JsonValue::Array(vec![entry("Nimble Escape", "Disengage or Hide.", None)])),
        ("spell_list", JsonValue::Array(vec![])),
        ("img_main", JsonValue::Null),
        ("document__slug", s("wotc-srd")),
        ("document__title", s("Systems Reference Document")),
        ("document__license_url", s("http://open5e.com/legal")),
    ]
}

fn monster_json(actions: JsonValue) -> JsonValue {
    obj(monster_members(actions))
}

fn spell_json() -> JsonValue {
    obj(vec![
        ("slug", s("fireball")),
        ("name", s("Fireball")),
        ("desc", s("A bright streak flashes.")),
        ("higher_level", s("")),
        ("page", s("phb 241")),
        ("range", s("150")),
        ("components", s("V, S, M")),
        ("material", s("bat guano")),
        ("ritual", s("no")),
        ("duration", s("Instantaneous")),
        ("concentration", s("no")),
        ("casting_time", s("1")),
        ("level", s("3rd-level")),
        ("level_int", JsonValue::Int(3)),
        ("school", s("Evocation")),
        ("dnd_class", s("Sorcerer, Wizard")),
        ("archetype", s("")),
        ("circles", s("")),
        ("document__slug", s("wotc-srd")),
        ("document__title", s("Systems Reference Document")),
        ("document__license_url", s("http://open5e.com/legal")),
    ])
}

fn only(v: Vec<Action>) -> Action {
    assert_eq!(v.len(), 1);
    v.into_iter().next().unwrap()
}

#[test]
fn string_action_is_one_bare_entry() {
    let a = only(decode_action_list(&s("Bite"), "actions").unwrap());
    assert_eq!(a.name, "Bite");
    assert_eq!(a.desc, "");
    assert_eq!(a.attack_bonus, None);
    assert_eq!(a.damage_dice, None);
    assert_eq!(a.damage_bonus, None);
}

#[test]
fn array_actions_keep_order_and_fields() {
    let full = obj(vec![
        ("name", s("Claw")),
        ("desc", s("Melee attack.")),
        ("attack_bonus", JsonValue::Int(5)),
        ("damage_dice", s("1d6")),
        ("damage_bonus", JsonValue::Int(2)),
    ]);
    let v = JsonValue::Array(vec![full, entry("Bite", "Bites.", None)]);
    let r = decode_action_list(&v, "actions").unwrap();
    assert_eq!(r.len(), 2);
    assert_eq!(r[0].name, "Claw");
    assert_eq!(r[0].desc, "Melee attack.");
    assert_eq!(r[0].attack_bonus, Some(5));
    assert_eq!(r[0].damage_dice.as_deref(), Some("1d6"));
    assert_eq!(r[0].damage_bonus, Some(2));
    assert_eq!(r[1].name, "Bite");
    assert_eq!(r[1].attack_bonus, None);
}

#[test]
fn empty_array_gives_no_actions() {
    assert!(decode_action_list(&JsonValue::Array(vec![]), "actions").unwrap().is_empty());
}

#[test]
fn other_shapes_are_mismatches() {
    let cases = vec![
        (JsonValue::Int(3), Shape::Number),
        (JsonValue::OtherNumber, Shape::Number),
        (obj(vec![("name", s("x"))]), Shape::Object),
        (JsonValue::Null, Shape::Null),
        (JsonValue::Bool(true), Shape::Bool),
    ];
    for (v, shape) in cases {
        let e = decode_action_list(&v, "reactions").unwrap_err();
        assert_eq!(e.field, "reactions");
        assert_eq!(e.found, shape);
    }
}

#[test]
fn malformed_entry_names_its_member() {
    let v = JsonValue::Array(vec![entry("Claw", "x", None), obj(vec![("desc", s("no name"))])]);
    let e = decode_action_list(&v, "actions").unwrap_err();
    assert_eq!(e.field, "name");
    assert_eq!(e.found, Shape::Missing);
    let v = JsonValue::Array(vec![s("Claw")]);
    let e = decode_action_list(&v, "actions").unwrap_err();
    assert_eq!(e.field, "actions");
    assert_eq!(e.found, Shape::Str);
}

#[test]
fn monster_decodes_all_members() {
    let m = Monster::from_json(&monster_json(s("Bite"))).unwrap();
    assert_eq!(m.name, "Goblin");
    assert_eq!(m.race, "humanoid");
    assert_eq!(m.armor_class, 15);
    assert_eq!(m.group, None);
    assert_eq!(m.speed.walk, Some(30));
    assert_eq!(m.speed.run, None);
    assert_eq!(m.skills.stealth, Some(6));
    assert_eq!(m.skills.arcana, None);
    assert_eq!(m.dexterity_save, Some(4));
    assert_eq!(m.document_slug, "wotc-srd");
    assert_eq!(m.special_abilities.len(), 1);
    assert_eq!(m.reactions.len(), 1);
    assert_eq!(m.reactions[0].name, "");
}

#[test]
fn monster_mismatches() {
    let e = Monster::from_json(&JsonValue::Array(vec![])).unwrap_err();
    assert_eq!(e.field, "");
    assert_eq!(e.found, Shape::Array);

    let mut members = monster_members(s("Bite"));
    members.retain(|(k, _)| *k != "hit_points");
    let e = Monster::from_json(&obj(members)).unwrap_err();
    assert_eq!(e.field, "hit_points");
    assert_eq!(e.found, Shape::Missing);

    let e = Monster::from_json(&monster_json(JsonValue::Null)).unwrap_err();
    assert_eq!(e.field, "actions");
    assert_eq!(e.found, Shape::Null);

    let mut members = monster_members(s("Bite"));
    for m in members.iter_mut() {
        if m.0 == "skills" {
            m.1 = obj(vec![("stealth", s("six"))]);
        }
    }
    let e = Monster::from_json(&obj(members)).unwrap_err();
    assert_eq!(e.field, "stealth");
    assert_eq!(e.found, Shape::Str);
}

#[test]
fn scenario_string_action_renders_bare_heading() {
    let m = Monster::from_json(&monster_json(s("Bite"))).unwrap();
    let md = m.to_md().0;
    assert!(md.contains("**Actions:**\n1. **Bite**\n\n\n"));
    assert!(!md.contains("*Attack Bonus:*"));
}

#[test]
fn scenario_entry_renders_combat_numbers() {
    let claw = obj(vec![("name", s("Claw")), ("desc", s("Melee attack.")), ("attack_bonus", JsonValue::Int(5))]);
    let m = Monster::from_json(&monster_json(JsonValue::Array(vec![claw]))).unwrap();
    let md = m.to_md().0;
    assert!(md.contains("1. **Claw**\nMelee attack.\n*Attack Bonus:* 5  \n"));
}

#[test]
fn monster_renders_in_order() {
    let m = Monster::from_json(&monster_json(s("Bite"))).unwrap();
    let md = m.to_md().0;
    let expected = "\n###Name:  Goblin\n**Race:** humanoid\n- **Armor Class** 15\n- **Hit Points** 7\n- **Hit Dice** 2d6\n\n\
|STR|DEX|CON|INT|WIS|CHA|\n|:---:|:---:|:---:|:---:|:---:|:---:|\n|8|14|10|10|8|8|\n\
|None|Some(4)|None|None|None|Some(-1)|\n___\n- **Condition Immunities** \n- **Passive Perception** None\n\
- **Languages** Common, Goblin\n- **Challenge** 1/4\n\n**Spells:**\n\n\n**Actions:**\n1. **Bite**\n\n\n\
1. **Nimble Escape**\nDisengage or Hide.\n\n\n";
    assert_eq!(md, expected);
}

#[test]
fn spell_list_is_one_per_line() {
    let mut members = monster_members(s("Bite"));
    for m in members.iter_mut() {
        if m.0 == "spell_list" {
            m.1 = JsonValue::Array(vec![s("a"), s("b")]);
        }
    }
    let md = Monster::from_json(&obj(members)).unwrap().to_md().0;
    assert!(md.contains("**Spells:**\na\nb\n\n**Actions:**"));
}

#[test]
fn rendering_is_deterministic() {
    let a = Monster::from_json(&monster_json(s("Bite"))).unwrap().to_md().0;
    let b = Monster::from_json(&monster_json(s("Bite"))).unwrap().to_md().0;
    assert_eq!(a, b);
    let a = Spell::from_json(&spell_json()).unwrap().to_md().0;
    let b = Spell::from_json(&spell_json()).unwrap().to_md().0;
    assert_eq!(a, b);
}

#[test]
fn spell_renders_in_order() {
    let md = Spell::from_json(&spell_json()).unwrap().to_md();
    let expected = "\n###Name: Fireball\n*Level 3rd-level*\n___\n- **Casting Time:** 1 action\n- **Range:** 150 feet\n\
- **Components:** V, S, M\n- **Duration:** Instantaneous\n\nA bright streak flashes.\n\n- **School:** Evocation\n\
- **Class:** Sorcerer, Wizard\n- **Archetype:** \n";
    assert_eq!(md.as_str(), expected);
}

#[test]
fn spell_mismatch_names_member() {
    let e = Spell::from_json(&obj(vec![("slug", JsonValue::Int(1))])).unwrap_err();
    assert_eq!(e.field, "slug");
    assert_eq!(e.found, Shape::Number);
}

#[test]
fn integers_in_decimal() {
    assert_eq!(int_string(0), "0");
    assert_eq!(int_string(5), "5");
    assert_eq!(int_string(-42), "-42");
    assert_eq!(int_string(1234567890), "1234567890");
    assert_eq!(int_string(i64::MIN), "-9223372036854775808");
    assert_eq!(int_string(i64::MAX), "9223372036854775807");
}

#[test]
fn text_ends_with_actions_when_other_lists_are_empty() {
    let mut members = monster_members(s("Bite"));
    for m in members.iter_mut() {
        if m.0 == "reactions" || m.0 == "legendary_actions" || m.0 == "special_abilities" {
            m.1 = JsonValue::Array(vec![]);
        }
    }
    let md = Monster::from_json(&obj(members)).unwrap().to_md().0;
    assert!(md.ends_with("\n\n**Actions:**\n1. **Bite**\n\n\n\n"));
    assert!(!md.contains("Reactions"));
}

#[test]
fn entries_of_all_lists_follow_in_order() {
    let mut members = monster_members(JsonValue::Array(vec![entry("Claw", "a", None)]));
    for m in members.iter_mut() {
        if m.0 == "reactions" {
            m.1 = JsonValue::Array(vec![entry("Parry", "b", None)]);
        }
        if m.0 == "legendary_actions" {
            m.1 = s("Detect");
        }
    }
    let md = Monster::from_json(&obj(members)).unwrap().to_md().0;
    assert!(md.ends_with(
        "**Actions:**\n1. **Claw**\na\n\n1. **Parry**\nb\n\n1. **Detect**\n\n\n1. **Nimble Escape**\nDisengage or Hide.\n\n\n"
    ));
}
