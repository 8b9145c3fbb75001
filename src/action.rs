//! Action-like entries of a creature: decoding from either of the two shapes
//! the service uses, and their markdown.
use vstd::prelude::*;
use crate::json::{
    JsonValue, Mismatch, Fail, Shape, lookup, shape_of, shape_at, dec_str, dec_opt_str, dec_opt_int,
    find, shape, take_str, take_opt_str, take_opt_int,
};
use crate::text::{int_text, push_int};

verus! {

/// One action, reaction, legendary action or special ability.
///
/// An entry whose name is empty stands for "nothing" and renders as no text.
#[derive(Debug, Clone, Default)]
pub struct Action {
    pub name: String,
    pub desc: String,
    pub attack_bonus: Option<i64>,
    pub damage_dice: Option<String>,
    pub damage_bonus: Option<i64>,
}

pub struct ActionView {
    pub name: Seq<char>,
    pub desc: Seq<char>,
    pub attack_bonus: Option<i64>,
    pub damage_dice: Option<Seq<char>>,
    pub damage_bonus: Option<i64>,
}

pub open spec fn opt_str_view(o: Option<String>) -> Option<Seq<char>> {
    match o {
        Some(s) => Some(s@),
        None => None,
    }
}

impl View for Action {
    type V = ActionView;

    open spec fn view(&self) -> ActionView {
        ActionView {
            name: self.name@,
            desc: self.desc@,
            attack_bonus: self.attack_bonus,
            damage_dice: opt_str_view(self.damage_dice),
            damage_bonus: self.damage_bonus,
        }
    }
}

pub open spec fn actions_view(v: Seq<Action>) -> Seq<ActionView> {
    v.map_values(|a: Action| a@)
}

/// The entry that a bare string stands for: that name, and nothing else.
pub open spec fn named_only(name: Seq<char>) -> ActionView {
    ActionView {
        name,
        desc: Seq::empty(),
        attack_bonus: None,
        damage_dice: None,
        damage_bonus: None,
    }
}

/// Decoding one element of an action list, which must be an object; `key` is
/// the list's own key, named when the element is not an object.
pub open spec fn spec_action(v: JsonValue, key: Seq<char>) -> Result<ActionView, Fail> {
    match v {
        JsonValue::Object(fs) => {
            let fs = fs@;
            let name = lookup(fs, "name"@);
            let desc = lookup(fs, "desc"@);
            let ab = lookup(fs, "attack_bonus"@);
            let dd = lookup(fs, "damage_dice"@);
            let db = lookup(fs, "damage_bonus"@);
            if dec_str(name) is None {
                Err(("name"@, shape_at(name)))
            } else if dec_str(desc) is None {
                Err(("desc"@, shape_at(desc)))
            } else if dec_opt_int(ab) is None {
                Err(("attack_bonus"@, shape_at(ab)))
            } else if dec_opt_str(dd) is None {
                Err(("damage_dice"@, shape_at(dd)))
            } else if dec_opt_int(db) is None {
                Err(("damage_bonus"@, shape_at(db)))
            } else {
                Ok(
                    ActionView {
                        name: dec_str(name)->0,
                        desc: dec_str(desc)->0,
                        attack_bonus: dec_opt_int(ab)->0,
                        damage_dice: dec_opt_str(dd)->0,
                        damage_bonus: dec_opt_int(db)->0,
                    },
                )
            }
        },
        x => Err((key, shape_of(x))),
    }
}

/// Decoding the elements of an action list in order; the first failure wins.
pub open spec fn spec_actions(items: Seq<JsonValue>, key: Seq<char>) -> Result<Seq<ActionView>, Fail>
    decreases items.len(),
{
    if items.len() == 0 {
        Ok(Seq::empty())
    } else {
        match spec_actions(items.drop_last(), key) {
            Err(e) => Err(e),
            Ok(prev) => match spec_action(items.last(), key) {
                Err(e) => Err(e),
                Ok(a) => Ok(prev.push(a)),
            },
        }
    }
}

/// Decoding an action-like member: a string is one entry of that name, an
/// array is one entry per element, and anything else (or nothing) is a
/// mismatch on `key`.
pub open spec fn spec_action_list(v: Option<JsonValue>, key: Seq<char>) -> Result<Seq<ActionView>, Fail> {
    match v {
        Some(JsonValue::Str(s)) => Ok(seq![named_only(s@)]),
        Some(JsonValue::Array(items)) => spec_actions(items@, key),
        x => Err((key, shape_at(x))),
    }
}

pub open spec fn actions_result(r: Result<Vec<Action>, Mismatch>) -> Result<Seq<ActionView>, Fail> {
    match r {
        Ok(v) => Ok(actions_view(v@)),
        Err(e) => Err(e@),
    }
}

fn decode_action(v: &JsonValue, key: &str) -> (r: Result<Action, Mismatch>)
    ensures
        match r {
            Ok(a) => spec_action(*v, key@) == Ok::<_, Fail>(a@),
            Err(e) => spec_action(*v, key@) == Err::<ActionView, _>(e@),
        },
{
    match v {
        JsonValue::Object(fs) => {
            let name = take_str(fs, "name")?;
            let desc = take_str(fs, "desc")?;
            let attack_bonus = take_opt_int(fs, "attack_bonus")?;
            let damage_dice = take_opt_str(fs, "damage_dice")?;
            let damage_bonus = take_opt_int(fs, "damage_bonus")?;
            Ok(Action { name, desc, attack_bonus, damage_dice, damage_bonus })
        },
        _ => Err(Mismatch { field: key.to_owned(), found: shape(v) }),
    }
}

/// Decodes an action-like member of a creature, named `key`, from either of
/// its two shapes: a bare string, or an array of entry objects.
pub fn decode_action_list(v: &JsonValue, key: &str) -> (r: Result<Vec<Action>, Mismatch>)
    ensures
        actions_result(r) == spec_action_list(Some(*v), key@),
{
    match v {
        JsonValue::Str(s) => {
            let a = Action {
                name: s.clone(),
                desc: String::new(),
                attack_bonus: None,
                damage_dice: None,
                damage_bonus: None,
            };
            let out = vec![a];
            assert(actions_view(out@) =~= seq![named_only(s@)]);
            Ok(out)
        },
        JsonValue::Array(items) => {
            let mut out: Vec<Action> = Vec::new();
            let mut i: usize = 0;
            proof {
                assert(items@.subrange(0, 0) =~= Seq::<JsonValue>::empty());
                assert(actions_view(out@) =~= Seq::<ActionView>::empty());
            }
            while i < items.len()
                invariant
                    i <= items@.len(),
                    *v == JsonValue::Array(*items),
                    spec_actions(items@.subrange(0, i as int), key@) == Ok::<_, Fail>(actions_view(out@)),
                decreases items.len() - i,
            {
                let ghost prev = items@.subrange(0, i as int);
                proof {
                    assert(items@.subrange(0, i + 1).drop_last() =~= prev);
                    assert(items@.subrange(0, i + 1).last() == items@[i as int]);
                }
                let a = decode_action(&items[i], key);
                match a {
                    Ok(a) => {
                        let ghost before = out@;
                        out.push(a);
                        assert(actions_view(out@) =~= actions_view(before).push(a@));
                    },
                    Err(e) => {
                        proof {
                            lemma_actions_prefix_err(items@, i + 1, key@);
                        }
                        return Err(e);
                    },
                }
                i = i + 1;
            }
            proof {
                assert(items@.subrange(0, items@.len() as int) =~= items@);
            }
            Ok(out)
        },
        _ => Err(Mismatch { field: key.to_owned(), found: shape(v) }),
    }
}

proof fn lemma_actions_prefix_err(s: Seq<JsonValue>, k: int, key: Seq<char>)
    requires
        0 <= k <= s.len(),
        spec_actions(s.subrange(0, k), key) is Err,
    ensures
        spec_actions(s, key) == spec_actions(s.subrange(0, k), key),
    decreases s.len() - k,
{
    if k < s.len() {
        assert(s.subrange(0, k + 1).drop_last() =~= s.subrange(0, k));
        lemma_actions_prefix_err(s, k + 1, key);
    } else {
        assert(s.subrange(0, k) =~= s);
    }
}

/// Reads the action-like member `key`, which must be present.
pub fn take_actions(fields: &Vec<(String, JsonValue)>, key: &str) -> (r: Result<Vec<Action>, Mismatch>)
    ensures
        actions_result(r) == spec_action_list(lookup(fields@, key@), key@),
{
    match find(fields, key) {
        Some(v) => decode_action_list(v, key),
        None => Err(Mismatch { field: key.to_owned(), found: Shape::Missing }),
    }
}

/// The markdown of one entry: nothing for an empty name; else a numbered bold
/// heading, the description, and the combat numbers that are present.
pub open spec fn action_md(a: ActionView) -> Seq<char> {
    if a.name.len() == 0 {
        Seq::empty()
    } else {
        "1. **"@ + a.name + "**\n"@ + a.desc + "\n"@
            + match a.attack_bonus {
                Some(n) => "*Attack Bonus:* "@ + int_text(n as int) + "  "@,
                None => Seq::empty(),
            }
            + match a.damage_dice {
                Some(d) => "*Damage Dice:* "@ + d + "  "@,
                None => Seq::empty(),
            }
            + match a.damage_bonus {
                Some(n) => "*Damage Bonus:* "@ + int_text(n as int),
                None => Seq::empty(),
            }
            + "\n"@
    }
}

/// The markdown of a list of entries, one after the other.
pub open spec fn actions_md(s: Seq<ActionView>) -> Seq<char>
    decreases s.len(),
{
    if s.len() == 0 {
        Seq::empty()
    } else {
        actions_md(s.drop_last()) + action_md(s.last())
    }
}

impl Action {
    /// Appends the markdown of this entry.
    pub fn push_md(&self, out: &mut String)
        ensures
            final(out)@ == old(out)@ + action_md(self@),
    {
        if self.name.unicode_len() != 0 {
            let ghost start = out@;
            out.append("1. **");
            out.append(self.name.as_str());
            out.append("**\n");
            out.append(self.desc.as_str());
            out.append("\n");
            let ghost head = out@;
            if let Some(ab) = self.attack_bonus {
                out.append("*Attack Bonus:* ");
                push_int(out, ab);
                out.append("  ");
            }
            let ghost after_ab = out@;
            if let Some(dd) = &self.damage_dice {
                out.append("*Damage Dice:* ");
                out.append(dd.as_str());
                out.append("  ");
            }
            let ghost after_dd = out@;
            if let Some(db) = self.damage_bonus {
                out.append("*Damage Bonus:* ");
                push_int(out, db);
            }
            let ghost after_db = out@;
            out.append("\n");
            proof {
                let a = self@;
                let p1 = match a.attack_bonus {
                    Some(n) => "*Attack Bonus:* "@ + int_text(n as int) + "  "@,
                    None => Seq::<char>::empty(),
                };
                let p2 = match a.damage_dice {
                    Some(d) => "*Damage Dice:* "@ + d + "  "@,
                    None => Seq::<char>::empty(),
                };
                let p3 = match a.damage_bonus {
                    Some(n) => "*Damage Bonus:* "@ + int_text(n as int),
                    None => Seq::<char>::empty(),
                };
                assert(head =~= start + ("1. **"@ + a.name + "**\n"@ + a.desc + "\n"@));
                assert(after_ab =~= head + p1);
                assert(after_dd =~= after_ab + p2);
                assert(after_db =~= after_dd + p3);
                assert(final(out)@ =~= start + action_md(a));
            }
        }
    }
}

/// Appends the markdown of each entry, in order.
pub fn push_actions_md(list: &Vec<Action>, out: &mut String)
    ensures
        final(out)@ == old(out)@ + actions_md(actions_view(list@)),
{
    let ghost start = out@;
    let mut i: usize = 0;
    while i < list.len()
        invariant
            i <= list@.len(),
            out@ == start + actions_md(actions_view(list@.subrange(0, i as int))),
        decreases list.len() - i,
    {
        proof {
            assert(actions_view(list@.subrange(0, i + 1)).drop_last() =~= actions_view(list@.subrange(0, i as int)));
        }
        list[i].push_md(out);
        proof {
            assert(out@ =~= start + actions_md(actions_view(list@.subrange(0, i + 1))));
        }
        i = i + 1;
    }
    proof {
        assert(list@.subrange(0, list@.len() as int) =~= list@);
    }
}

/// A bare string decodes to exactly one entry: that name, an empty
/// description and no combat numbers.
pub proof fn lemma_string_is_one_entry(s: String, key: Seq<char>)
    ensures
        spec_action_list(Some(JsonValue::Str(s)), key) == Ok::<_, Fail>(seq![named_only(s@)]),
        named_only(s@).desc.len() == 0,
        named_only(s@).attack_bonus is None && named_only(s@).damage_dice is None && named_only(s@).damage_bonus is None,
{
}

/// An array of well-formed entry objects decodes to one entry per element, in
/// order, each with every field its object gives.
pub proof fn lemma_array_is_entry_per_element(items: Seq<JsonValue>, key: Seq<char>)
    requires
        forall|i: int| 0 <= i < items.len() ==> #[trigger] spec_action(items[i], key) is Ok,
    ensures
        spec_actions(items, key) is Ok,
        spec_actions(items, key)->Ok_0.len() == items.len(),
        forall|i: int|
            0 <= i < items.len() ==> #[trigger] spec_actions(items, key)->Ok_0[i] == spec_action(items[i], key)->Ok_0,
    decreases items.len(),
{
    if items.len() > 0 {
        let prefix = items.drop_last();
        assert forall|i: int| 0 <= i < prefix.len() implies #[trigger] spec_action(prefix[i], key) is Ok by {
            assert(prefix[i] == items[i]);
        }
        lemma_array_is_entry_per_element(prefix, key);
        assert(spec_action(items[items.len() - 1], key) is Ok);
        let r = spec_actions(items, key)->Ok_0;
        assert forall|i: int| 0 <= i < items.len() implies #[trigger] r[i] == spec_action(items[i], key)->Ok_0 by {
            if i < items.len() - 1 {
                assert(prefix[i] == items[i]);
            }
        }
    }
}

/// Any other shape where an action-like member belongs (a number, an object,
/// `null`, a boolean, or nothing) is a mismatch on that member, naming what
/// was found.
pub proof fn lemma_other_shape_is_mismatch(v: Option<JsonValue>, key: Seq<char>)
    requires
        !(v matches Some(JsonValue::Str(_))),
        !(v matches Some(JsonValue::Array(_))),
    ensures
        spec_action_list(v, key) == Err::<Seq<ActionView>, _>((key, shape_at(v))),
{
}

/// An entry with a name and no combat numbers renders as its heading, its
/// description line, and no line of numbers.
pub proof fn lemma_entry_without_numbers_md(a: ActionView)
    requires
        a.name.len() > 0,
        a.attack_bonus is None,
        a.damage_dice is None,
        a.damage_bonus is None,
    ensures
        action_md(a) == "1. **"@ + a.name + "**\n"@ + a.desc + "\n"@ + "\n"@,
{
    assert(action_md(a) =~= "1. **"@ + a.name + "**\n"@ + a.desc + "\n"@ + "\n"@);
}

/// An entry with a name and an attack bonus only renders as its heading, its
/// description line, and a line with the attack bonus alone.
pub proof fn lemma_entry_with_attack_bonus_md(a: ActionView, n: i64)
    requires
        a.name.len() > 0,
        a.attack_bonus == Some(n),
        a.damage_dice is None,
        a.damage_bonus is None,
    ensures
        action_md(a) == "1. **"@ + a.name + "**\n"@ + a.desc + "\n"@ + "*Attack Bonus:* "@ + int_text(n as int)
            + "  "@ + "\n"@,
{
    assert(action_md(a) =~= "1. **"@ + a.name + "**\n"@ + a.desc + "\n"@ + "*Attack Bonus:* "@ + int_text(
        n as int,
    ) + "  "@ + "\n"@);
}

} // verus!
