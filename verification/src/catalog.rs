//! The catalog of what the game's script engine knows: the lists that can
//! be iterated, the steps from one scope to another, and the triggers and
//! effects, each with the scope types that it applies to.

use vstd::prelude::*;
use vstd::string::StringExecFns;
use crate::item::Item;
use crate::scopes::{
    SCOPE_ACTIVITY, SCOPE_ARMY, SCOPE_ARTIFACT, SCOPE_BOOL, SCOPE_CHARACTER, SCOPE_CULTURE, SCOPE_DYNASTY,
    SCOPE_DYNASTY_HOUSE, SCOPE_FACTION, SCOPE_FAITH, SCOPE_FLAG, SCOPE_LANDED_TITLE, SCOPE_NONE, SCOPE_PROVINCE,
    SCOPE_RELIGION, SCOPE_SCHEME, SCOPE_SECRET, SCOPE_STORY_CYCLE, SCOPE_VALUE, SCOPE_WAR, Scopes,
};
use crate::token::str_eq;

verus! {

/// The kind of argument that a trigger or an effect takes.
#[derive(Clone, Copy, Debug, PartialEq, Eq, Structural)]
pub enum Arg {
    /// `yes` or `no`.
    Bool,
    /// A number, a named script value or an expression block.
    Value,
    /// A scope of the given types.
    Target(Scopes),
    /// The name of a definition of the given kind.
    Item(Item),
    /// A nested block of triggers or effects, like the one it stands in.
    Block,
}

/// One entry of the catalog.
#[derive(Debug)]
pub struct Rule {
    pub name: String,
    /// The scope types that the entry applies to.
    pub from: Scopes,
    /// For a list or a step, the scope type that it leads to.
    pub to: Scopes,
    /// For a trigger or an effect, the argument that it takes.
    pub arg: Arg,
}

/// The position of the first rule called `name` at or after position `i`.
pub open spec fn rule_from(rules: Seq<Rule>, name: Seq<char>, i: int) -> Option<int>
    decreases rules.len() - i,
{
    if i < 0 || i >= rules.len() {
        None
    } else if rules[i].name@ == name {
        Some(i)
    } else {
        rule_from(rules, name, i + 1)
    }
}

/// The first rule called `name`.
pub open spec fn rule_named(rules: Seq<Rule>, name: Seq<char>) -> Option<Rule> {
    match rule_from(rules, name, 0) {
        Some(i) => Some(rules[i]),
        None => None,
    }
}

/// The first rule called `name`.
pub fn find_rule<'a>(rules: &'a Vec<Rule>, name: &str) -> (r: Option<&'a Rule>)
    ensures
        r == (match rule_named(rules@, name@) {
            Some(rule) => Some(&rule),
            None => None,
        }),
{
    let mut i: usize = 0;
    while i < rules.len()
        invariant
            i <= rules@.len(),
            rule_from(rules@, name@, 0) == rule_from(rules@, name@, i as int),
        decreases rules@.len() - i,
    {
        if str_eq(rules[i].name.as_str(), name) {
            return Some(&rules[i]);
        }
        i += 1;
    }
    None
}

/// What the script engine knows.
#[derive(Debug)]
pub struct Catalog {
    /// The lists, by the name that follows `every_`, `ordered_`, `random_`
    /// or `any_`.
    pub iterators: Vec<Rule>,
    /// The steps from a scope to a related one.
    pub transitions: Vec<Rule>,
    pub triggers: Vec<Rule>,
    pub effects: Vec<Rule>,
}

impl Catalog {
    /// A catalog that knows nothing.
    pub fn new() -> (r: Catalog)
        ensures
            r.iterators@.len() == 0,
            r.transitions@.len() == 0,
            r.triggers@.len() == 0,
            r.effects@.len() == 0,
    {
        Catalog { iterators: Vec::new(), transitions: Vec::new(), triggers: Vec::new(), effects: Vec::new() }
    }

    /// Adds a list of things of type `to` that a scope of the types `from`
    /// has.
    pub fn add_iterator(&mut self, name: &str, from: Scopes, to: Scopes)
        ensures
            final(self).iterators@.len() == old(self).iterators@.len() + 1,
            final(self).iterators@.last().name@ == name@,
            final(self).iterators@.last().from == from,
            final(self).iterators@.last().to == to,
            final(self).iterators@.drop_last() == old(self).iterators@,
            final(self).transitions == old(self).transitions,
            final(self).triggers == old(self).triggers,
            final(self).effects == old(self).effects,
    {
        self.iterators.push(Rule { name: String::from_str(name), from, to, arg: Arg::Block });
        assert(self.iterators@.drop_last() =~= old(self).iterators@);
    }

    /// Adds a step from a scope of the types `from` to one of type `to`.
    pub fn add_transition(&mut self, name: &str, from: Scopes, to: Scopes)
        ensures
            final(self).transitions@.len() == old(self).transitions@.len() + 1,
            final(self).transitions@.last().name@ == name@,
            final(self).transitions@.last().from == from,
            final(self).transitions@.last().to == to,
            final(self).transitions@.drop_last() == old(self).transitions@,
            final(self).iterators == old(self).iterators,
            final(self).triggers == old(self).triggers,
            final(self).effects == old(self).effects,
    {
        self.transitions.push(Rule { name: String::from_str(name), from, to, arg: Arg::Block });
        assert(self.transitions@.drop_last() =~= old(self).transitions@);
    }

    /// Adds a trigger for scopes of the types `from`.
    pub fn add_trigger(&mut self, name: &str, from: Scopes, arg: Arg)
        ensures
            final(self).triggers@.len() == old(self).triggers@.len() + 1,
            final(self).triggers@.last().name@ == name@,
            final(self).triggers@.last().from == from,
            final(self).triggers@.last().arg == arg,
            final(self).triggers@.drop_last() == old(self).triggers@,
            final(self).iterators == old(self).iterators,
            final(self).transitions == old(self).transitions,
            final(self).effects == old(self).effects,
    {
        self.triggers.push(Rule { name: String::from_str(name), from, to: from, arg });
        assert(self.triggers@.drop_last() =~= old(self).triggers@);
    }

    /// Adds an effect for scopes of the types `from`.
    pub fn add_effect(&mut self, name: &str, from: Scopes, arg: Arg)
        ensures
            final(self).effects@.len() == old(self).effects@.len() + 1,
            final(self).effects@.last().name@ == name@,
            final(self).effects@.last().from == from,
            final(self).effects@.last().arg == arg,
            final(self).effects@.drop_last() == old(self).effects@,
            final(self).iterators == old(self).iterators,
            final(self).transitions == old(self).transitions,
            final(self).triggers == old(self).triggers,
    {
        self.effects.push(Rule { name: String::from_str(name), from, to: from, arg });
        assert(self.effects@.drop_last() =~= old(self).effects@);
    }

    /// The list called `name`: the scope types that have it and the scope
    /// type of its elements.
    pub fn iterator(&self, name: &str) -> (r: Option<(Scopes, Scopes)>)
        ensures
            r == (match rule_named(self.iterators@, name@) {
                Some(rule) => Some((rule.from, rule.to)),
                None => None,
            }),
    {
        match find_rule(&self.iterators, name) {
            Some(rule) => Some((rule.from, rule.to)),
            None => None,
        }
    }

    /// The step called `name`: the scope types that it starts from and the
    /// scope type that it leads to.
    pub fn transition(&self, name: &str) -> (r: Option<(Scopes, Scopes)>)
        ensures
            r == (match rule_named(self.transitions@, name@) {
                Some(rule) => Some((rule.from, rule.to)),
                None => None,
            }),
    {
        match find_rule(&self.transitions, name) {
            Some(rule) => Some((rule.from, rule.to)),
            None => None,
        }
    }

    /// The trigger called `name`: the scope types that it applies to and
    /// its argument.
    pub fn trigger(&self, name: &str) -> (r: Option<(Scopes, Arg)>)
        ensures
            r == (match rule_named(self.triggers@, name@) {
                Some(rule) => Some((rule.from, rule.arg)),
                None => None,
            }),
    {
        match find_rule(&self.triggers, name) {
            Some(rule) => Some((rule.from, rule.arg)),
            None => None,
        }
    }

    /// The effect called `name`: the scope types that it applies to and its
    /// argument.
    pub fn effect(&self, name: &str) -> (r: Option<(Scopes, Arg)>)
        ensures
            r == (match rule_named(self.effects@, name@) {
                Some(rule) => Some((rule.from, rule.arg)),
                None => None,
            }),
    {
        match find_rule(&self.effects, name) {
            Some(rule) => Some((rule.from, rule.arg)),
            None => None,
        }
    }
}

/// The scope type that a name in snake case stands for.
pub open spec fn scope_named(name: Seq<char>) -> Option<Scopes> {
    if name == "none"@ {
        Some(Scopes { bits: SCOPE_NONE })
    } else if name == "value"@ {
        Some(Scopes { bits: SCOPE_VALUE })
    } else if name == "bool"@ {
        Some(Scopes { bits: SCOPE_BOOL })
    } else if name == "flag"@ {
        Some(Scopes { bits: SCOPE_FLAG })
    } else if name == "character"@ {
        Some(Scopes { bits: SCOPE_CHARACTER })
    } else if name == "landed_title"@ {
        Some(Scopes { bits: SCOPE_LANDED_TITLE })
    } else if name == "province"@ {
        Some(Scopes { bits: SCOPE_PROVINCE })
    } else if name == "culture"@ {
        Some(Scopes { bits: SCOPE_CULTURE })
    } else if name == "faith"@ {
        Some(Scopes { bits: SCOPE_FAITH })
    } else if name == "religion"@ {
        Some(Scopes { bits: SCOPE_RELIGION })
    } else if name == "dynasty"@ {
        Some(Scopes { bits: SCOPE_DYNASTY })
    } else if name == "dynasty_house"@ {
        Some(Scopes { bits: SCOPE_DYNASTY_HOUSE })
    } else if name == "war"@ {
        Some(Scopes { bits: SCOPE_WAR })
    } else if name == "army"@ {
        Some(Scopes { bits: SCOPE_ARMY })
    } else if name == "scheme"@ {
        Some(Scopes { bits: SCOPE_SCHEME })
    } else if name == "secret"@ {
        Some(Scopes { bits: SCOPE_SECRET })
    } else if name == "activity"@ {
        Some(Scopes { bits: SCOPE_ACTIVITY })
    } else if name == "artifact"@ {
        Some(Scopes { bits: SCOPE_ARTIFACT })
    } else if name == "faction"@ {
        Some(Scopes { bits: SCOPE_FACTION })
    } else if name == "story_cycle"@ {
        Some(Scopes { bits: SCOPE_STORY_CYCLE })
    } else {
        None
    }
}

/// The scope type that a name in snake case stands for.
pub fn scope_from_snake_case(s: &str) -> (r: Option<Scopes>)
    ensures
        r == scope_named(s@),
{
    if str_eq(s, "none") {
        Some(Scopes { bits: SCOPE_NONE })
    } else if str_eq(s, "value") {
        Some(Scopes { bits: SCOPE_VALUE })
    } else if str_eq(s, "bool") {
        Some(Scopes { bits: SCOPE_BOOL })
    } else if str_eq(s, "flag") {
        Some(Scopes { bits: SCOPE_FLAG })
    } else if str_eq(s, "character") {
        Some(Scopes { bits: SCOPE_CHARACTER })
    } else if str_eq(s, "landed_title") {
        Some(Scopes { bits: SCOPE_LANDED_TITLE })
    } else if str_eq(s, "province") {
        Some(Scopes { bits: SCOPE_PROVINCE })
    } else if str_eq(s, "culture") {
        Some(Scopes { bits: SCOPE_CULTURE })
    } else if str_eq(s, "faith") {
        Some(Scopes { bits: SCOPE_FAITH })
    } else if str_eq(s, "religion") {
        Some(Scopes { bits: SCOPE_RELIGION })
    } else if str_eq(s, "dynasty") {
        Some(Scopes { bits: SCOPE_DYNASTY })
    } else if str_eq(s, "dynasty_house") {
        Some(Scopes { bits: SCOPE_DYNASTY_HOUSE })
    } else if str_eq(s, "war") {
        Some(Scopes { bits: SCOPE_WAR })
    } else if str_eq(s, "army") {
        Some(Scopes { bits: SCOPE_ARMY })
    } else if str_eq(s, "scheme") {
        Some(Scopes { bits: SCOPE_SCHEME })
    } else if str_eq(s, "secret") {
        Some(Scopes { bits: SCOPE_SECRET })
    } else if str_eq(s, "activity") {
        Some(Scopes { bits: SCOPE_ACTIVITY })
    } else if str_eq(s, "artifact") {
        Some(Scopes { bits: SCOPE_ARTIFACT })
    } else if str_eq(s, "faction") {
        Some(Scopes { bits: SCOPE_FACTION })
    } else if str_eq(s, "story_cycle") {
        Some(Scopes { bits: SCOPE_STORY_CYCLE })
    } else {
        None
    }
}

} // verus!
