//! Decisions: actions that a player can take from a menu.

use vstd::prelude::*;
use vstd::string::StringExecFns;
use crate::block::{all_fields, field_is_yes, last_field, BV, Block, BlockItem, Shape};
use crate::desc::{desc_diags, verify_desc_locas};
use crate::everything::Everything;
use crate::index::{entry_at, NameIndex};
use crate::item::Item;
use crate::report::{diag, diag_info, DiagnosticView, ErrorKey, Severity, Sink};
use crate::token::{FileKind, Token};
use crate::validator::{
    advice_diags, checked, claim, fields_diags, has_field, law_one_per_unclaimed, missing_field_msg, per_kind,
    remaining_diags, required_diags, unclaimed, unknown_field_msg, FieldKind, Validator,
};

verus! {

/// A decision: its key, the `@name = value` settings of its file that
/// precede it, and its definition.
#[derive(Debug)]
pub struct Decision {
    pub key: Token,
    pub values: Vec<(Token, Token)>,
    pub block: Block,
}

/// The decisions that were loaded, by name.
pub struct Decisions {
    index: NameIndex,
    list: Vec<Decision>,
}

/// What a decision is: its key, the settings that it can use, and its
/// definition.
pub struct DecisionView {
    pub key: Token,
    pub values: Seq<(Token, Token)>,
    pub block: Block,
}

impl View for Decision {
    type V = DecisionView;

    open spec fn view(&self) -> DecisionView {
        DecisionView { key: self.key, values: self.values@, block: self.block }
    }
}

/// What loading a decision reports, where `other` is the key of the
/// decision that had the name before: one that takes the name of another
/// of the same or of a higher precedence redefines it. A decision of the
/// mod takes the place of one of the game in silence.
pub open spec fn load_decision_diags(key: Token, other: Option<Token>) -> Seq<DiagnosticView> {
    match other {
        Some(first) => if first.loc().kind.rank() >= key.loc().kind.rank() {
            seq![
                diag(
                    Severity::Error,
                    ErrorKey::Duplicate,
                    *key.loc(),
                    "decision redefines an existing decision"@,
                ),
                diag(Severity::Info, ErrorKey::Duplicate, *first.loc(), "the other decision is here"@),
            ]
        } else {
            Seq::empty()
        },
        None => Seq::empty(),
    }
}

/// A decision that takes the name of another is reported exactly when it
/// is of the same or of a weaker precedence than the other: as an error
/// at its own key, with a note at the key of the other. One of a stronger
/// precedence takes the place of the other in silence.
pub proof fn law_redefinition(key: Token, first: Token)
    ensures
        first.loc().kind.rank() >= key.loc().kind.rank() ==> {
            &&& load_decision_diags(key, Some(first)).len() == 2
            &&& load_decision_diags(key, Some(first))[0].key == ErrorKey::Duplicate
            &&& load_decision_diags(key, Some(first))[0].severity == Severity::Error
            &&& load_decision_diags(key, Some(first))[0].loc == *key.loc()
            &&& load_decision_diags(key, Some(first))[1].loc == *first.loc()
        },
        first.loc().kind.rank() < key.loc().kind.rank() ==> load_decision_diags(key, Some(first)).len() == 0,
        key.loc().kind == FileKind::Mod && first.loc().kind == FileKind::Vanilla ==> load_decision_diags(
            key,
            Some(first),
        ).len() == 0,
        key.loc().kind == FileKind::Vanilla ==> load_decision_diags(key, Some(first)).len() == 2,
        load_decision_diags(key, None).len() == 0,
{
}

impl Decision {
    /// A decision from its parts.
    pub fn new(key: Token, block: Block, values: Vec<(Token, Token)>) -> (r: Self)
        ensures
            r == (Decision { key, values, block }),
    {
        Decision { key, values, block }
    }
}

impl Decisions {
    #[verifier::type_invariant]
    closed spec fn inv(&self) -> bool {
        forall|k: (u8, Seq<char>)| #[trigger]
            self.index@.contains_key(k) ==> self.index@[k] < self.list@.len()
                && self.list@[self.index@[k] as int].key@ == k.1
    }

    /// The decisions, in the order of their first loading.
    pub closed spec fn defs(&self) -> Seq<Decision> {
        self.list@
    }

    /// The position of the decision called `name`.
    pub closed spec fn position(&self, name: Seq<char>) -> Option<usize> {
        entry_at(self.index@, (0u8, name))
    }

    /// The decision called `name`.
    pub open spec fn lookup(&self, name: Seq<char>) -> Option<Decision> {
        match self.position(name) {
            Some(i) => Some(self.defs()[i as int]),
            None => None,
        }
    }

    /// The key of the decision called `name`.
    pub open spec fn key_of(&self, name: Seq<char>) -> Option<Token> {
        match self.position(name) {
            Some(i) => Some(self.defs()[i as int].key),
            None => None,
        }
    }

    /// The positions of the decisions, by name.
    pub open spec fn names(&self) -> Map<Seq<char>, usize> {
        Map::new(|n: Seq<char>| self.position(n) is Some, |n: Seq<char>| self.position(n)->0)
    }

    /// What the decisions are, in the order of their first loading.
    pub open spec fn views(&self) -> Seq<DecisionView> {
        self.defs().map_values(|d: Decision| d@)
    }

    /// A store without decisions.
    pub fn new() -> (r: Decisions)
        ensures
            r.defs().len() == 0,
            forall|name: Seq<char>| r.position(name) is None,
    {
        Decisions { index: NameIndex::new(), list: Vec::new() }
    }

    /// The position of the decision called `name`.
    pub fn find(&self, name: &str) -> (r: Option<usize>)
        ensures
            r == self.position(name@),
            r matches Some(i) ==> i < self.defs().len() && self.defs()[i as int].key@ == name@,
    {
        proof {
            use_type_invariant(self);
        }
        let r = self.index.get(0, name);
        proof {
            if r is Some {
                assert(self.index@.contains_key((0u8, name@)));
            }
        }
        r
    }

    /// Whether a decision called `name` is defined.
    pub fn is_defined(&self, name: &str) -> (r: bool)
        ensures
            r == self.position(name@) is Some,
    {
        self.find(name).is_some()
    }

    /// The number of decisions.
    pub fn len(&self) -> (n: usize)
        ensures
            n == self.defs().len(),
    {
        self.list.len()
    }

    /// The decision at a position.
    pub fn get(&self, i: usize) -> (r: &Decision)
        requires
            i < self.defs().len(),
        ensures
            *r == self.defs()[i as int],
    {
        &self.list[i]
    }

    /// Stores a decision under the text of its key, in place of one that
    /// had the name before.
    pub fn load_decision(&mut self, key: Token, block: Block, values: Vec<(Token, Token)>, sink: &mut Sink)
        ensures
            final(self).lookup(key@) == Some(Decision { key, values, block }),
            forall|n: Seq<char>| n != key@ ==> #[trigger] final(self).position(n) == old(self).position(n),
            final(self).defs() == (match old(self).position(key@) {
                Some(i) => old(self).defs().update(i as int, Decision { key, values, block }),
                None => old(self).defs().push(Decision { key, values, block }),
            }),
            final(self).position(key@) == Some(
                match old(self).position(key@) {
                    Some(i) => i,
                    None => old(self).defs().len() as usize,
                },
            ),
            final(sink)@ == old(sink)@ + load_decision_diags(key, old(self).key_of(key@)),
    {
        proof {
            use_type_invariant(&*self);
        }
        let found = self.find(key.as_str());
        let ghost name = key@;
        let mut taken = Decisions::new();
        std::mem::swap(self, &mut taken);
        let Decisions { mut index, mut list } = taken;
        match found {
            Some(i) => {
                let other = &list[i];
                if other.key.loc().kind.rank() >= key.loc().kind.rank() {
                    sink.error(key.loc(), ErrorKey::Duplicate, "decision redefines an existing decision");
                    sink.info(other.key.loc(), ErrorKey::Duplicate, "the other decision is here");
                    assert(sink@ =~= old(sink)@ + load_decision_diags(key, Some(list@[i as int].key)));
                } else {
                    assert(sink@ + Seq::<DiagnosticView>::empty() =~= sink@);
                }
                list[i] = Decision::new(key, block, values);
                assert(index@.contains_key((0u8, name)));
            },
            None => {
                assert(sink@ + Seq::<DiagnosticView>::empty() =~= sink@);
                let n = list.len();
                list.push(Decision::new(key, block, values));
                let _ = index.insert(0, list[n].key.as_str(), n);
            },
        }
        *self = Decisions { index, list };
    }
}

/// Whether one of the first `n` blocks has a field called `name`.
pub open spec fn seen_before(blocks: Seq<&Block>, name: Seq<char>, n: int) -> bool
    decreases n,
{
    n > 0 && (has_field(blocks[n - 1].items@, name) || seen_before(blocks, name, n - 1))
}

/// What is reported of one cost in one block: if the block sets it and an
/// earlier block did, the later value overrides the earlier one, which is
/// reported at the later value.
pub open spec fn override_diags(block: &Block, name: Seq<char>, msg: Seq<char>, seen: bool) -> Seq<DiagnosticView> {
    match last_field(block.items@, name, Shape::Any, block.items@.len() as int) {
        Some(i) => if seen {
            seq![diag(Severity::Warning, ErrorKey::Conflict, block.items@[i]->Field_2.spec_loc(), msg)]
        } else {
            Seq::empty()
        },
        None => Seq::empty(),
    }
}

/// What is reported of the first `n` cost blocks.
pub open spec fn cost_diags_upto(blocks: Seq<&Block>, n: int) -> Seq<DiagnosticView>
    decreases n,
{
    if n <= 0 {
        Seq::empty()
    } else {
        cost_diags_upto(blocks, n - 1) + override_diags(
            blocks[n - 1],
            "gold"@,
            "This value of the gold cost overrides the previously set cost."@,
            seen_before(blocks, "gold"@, n - 1),
        ) + override_diags(
            blocks[n - 1],
            "prestige"@,
            "This value of the prestige cost overrides the previously set cost."@,
            seen_before(blocks, "prestige"@, n - 1),
        ) + override_diags(
            blocks[n - 1],
            "piety"@,
            "This value of the piety cost overrides the previously set cost."@,
            seen_before(blocks, "piety"@, n - 1),
        )
    }
}

/// What is reported of the cost blocks of one definition. Costs of
/// different kinds from several blocks add up; two costs of the same kind
/// do not: the later one counts alone.
pub open spec fn cost_diags(blocks: Seq<&Block>) -> Seq<DiagnosticView> {
    if blocks.len() > 1 {
        cost_diags_upto(blocks, blocks.len() as int)
    } else {
        Seq::empty()
    }
}

/// Reports the override of one cost by `block`, and notes that the block
/// sets it.
fn check_one_cost(block: &Block, name: &str, msg: &str, seen: bool, sink: &mut Sink) -> (r: bool)
    ensures
        final(sink)@ == old(sink)@ + override_diags(block, name@, msg@, seen),
        r == (seen || has_field(block.items@, name@)),
{
    match block.get_field(name) {
        Some(bv) => {
            if seen {
                sink.warn(bv.loc(), ErrorKey::Conflict, msg);
                assert(sink@ =~= old(sink)@ + override_diags(block, name@, msg@, seen));
            } else {
                assert(sink@ + Seq::<DiagnosticView>::empty() =~= sink@);
            }
            true
        },
        None => {
            assert(sink@ + Seq::<DiagnosticView>::empty() =~= sink@);
            seen
        },
    }
}

/// Reports each cost that a later block of the same definition sets again.
pub fn check_cost(blocks: &Vec<&Block>, sink: &mut Sink)
    ensures
        final(sink)@ == old(sink)@ + cost_diags(blocks@),
{
    let mut seen_gold = false;
    let mut seen_prestige = false;
    let mut seen_piety = false;
    assert(sink@ + Seq::<DiagnosticView>::empty() =~= sink@);
    if blocks.len() > 1 {
        let mut i: usize = 0;
        while i < blocks.len()
            invariant
                i <= blocks@.len(),
                seen_gold == seen_before(blocks@, "gold"@, i as int),
                seen_prestige == seen_before(blocks@, "prestige"@, i as int),
                seen_piety == seen_before(blocks@, "piety"@, i as int),
                sink@ == old(sink)@ + cost_diags_upto(blocks@, i as int),
            decreases blocks@.len() - i,
        {
            let cost = blocks[i];
            let ghost s0 = sink@;
            seen_gold = check_one_cost(
                cost,
                "gold",
                "This value of the gold cost overrides the previously set cost.",
                seen_gold,
                sink,
            );
            seen_prestige = check_one_cost(
                cost,
                "prestige",
                "This value of the prestige cost overrides the previously set cost.",
                seen_prestige,
                sink,
            );
            seen_piety = check_one_cost(
                cost,
                "piety",
                "This value of the piety cost overrides the previously set cost.",
                seen_piety,
                sink,
            );
            assert(sink@ =~= old(sink)@ + cost_diags_upto(blocks@, i + 1));
            i += 1;
        }
    }
}

/// Of two cost blocks, what is reported is what the second overrides: one
/// conflict for each kind of cost that both set, at the value in the second
/// block. If both set gold and the second sets nothing else, that is
/// exactly one conflict, at the second block's gold.
pub proof fn law_second_cost_overrides(first: &Block, second: &Block)
    ensures
        cost_diags(seq![first, second]) == override_diags(
            second,
            "gold"@,
            "This value of the gold cost overrides the previously set cost."@,
            has_field(first.items@, "gold"@),
        ) + override_diags(
            second,
            "prestige"@,
            "This value of the prestige cost overrides the previously set cost."@,
            has_field(first.items@, "prestige"@),
        ) + override_diags(
            second,
            "piety"@,
            "This value of the piety cost overrides the previously set cost."@,
            has_field(first.items@, "piety"@),
        ),
        has_field(first.items@, "gold"@) && has_field(second.items@, "gold"@) && !has_field(
            second.items@,
            "prestige"@,
        ) && !has_field(second.items@, "piety"@) ==> cost_diags(seq![first, second]) == seq![
            diag(
                Severity::Warning,
                ErrorKey::Conflict,
                second.items@[last_field(
                    second.items@,
                    "gold"@,
                    Shape::Any,
                    second.items@.len() as int,
                )->0]->Field_2.spec_loc(),
                "This value of the gold cost overrides the previously set cost."@,
            ),
        ],
{
    let blocks = seq![first, second];
    reveal_with_fuel(cost_diags_upto, 3);
    reveal_with_fuel(seen_before, 3);
    assert(cost_diags_upto(blocks, 0) =~= Seq::<DiagnosticView>::empty());
    assert(!seen_before(blocks, "gold"@, 0));
    assert(override_diags(first, "gold"@, "This value of the gold cost overrides the previously set cost."@, false)
        =~= Seq::<DiagnosticView>::empty());
    assert(override_diags(
        first,
        "prestige"@,
        "This value of the prestige cost overrides the previously set cost."@,
        false,
    ) =~= Seq::<DiagnosticView>::empty());
    assert(override_diags(first, "piety"@, "This value of the piety cost overrides the previously set cost."@, false)
        =~= Seq::<DiagnosticView>::empty());
    assert(cost_diags_upto(blocks, 1) =~= Seq::<DiagnosticView>::empty());
    assert(cost_diags(blocks) =~= override_diags(
        second,
        "gold"@,
        "This value of the gold cost overrides the previously set cost."@,
        has_field(first.items@, "gold"@),
    ) + override_diags(
        second,
        "prestige"@,
        "This value of the prestige cost overrides the previously set cost."@,
        has_field(first.items@, "prestige"@),
    ) + override_diags(
        second,
        "piety"@,
        "This value of the piety cost overrides the previously set cost."@,
        has_field(first.items@, "piety"@),
    ));
}

/// What the validation of one cost block reports: a cost that is set
/// twice in the block, and every field that is no cost.
pub open spec fn validate_cost_diags(block: &Block, data: &Everything) -> Seq<DiagnosticView> {
    let items = block.items@;
    let n = items.len() as int;
    let none = Seq::new(items.len(), |i: int| false);
    fields_diags(items, "gold"@, true, per_kind(FieldKind::Any, data), n) + fields_diags(
        items,
        "prestige"@,
        true,
        per_kind(FieldKind::Any, data),
        n,
    ) + fields_diags(items, "piety"@, true, per_kind(FieldKind::Any, data), n) + remaining_diags(
        items,
        claim(claim(claim(none, items, "gold"@), items, "prestige"@), items, "piety"@),
        n,
    )
}

/// Validates one cost block: it may set gold, prestige and piety, each a
/// number or a script value, and nothing else.
pub fn validate_cost(block: &Block, data: &Everything, sink: &mut Sink)
    ensures
        final(sink)@ == old(sink)@ + validate_cost_diags(block, data),
{
    let mut vd = Validator::new(block, data);
    assert(vd.marks() =~= Seq::new(block.items@.len(), |i: int| false));
    // These can all be script values
    let _ = vd.field("gold", sink);
    let _ = vd.field("prestige", sink);
    let _ = vd.field("piety", sink);
    let _ = vd.warn_remaining(sink);
    assert(sink@ =~= old(sink)@ + validate_cost_diags(block, data));
}

/// Whether a decision can have a field called `name`.
pub open spec fn decision_field(name: Seq<char>) -> bool {
    ||| name == "picture"@
    ||| name == "extra_picture"@
    ||| name == "major"@
    ||| name == "sort_order"@
    ||| name == "is_invisible"@
    ||| name == "ai_goal"@
    ||| name == "ai_check_interval"@
    ||| name == "cooldown"@
    ||| name == "confirm_click_sound"@
    ||| name == "selection_tooltip"@
    ||| name == "title"@
    ||| name == "desc"@
    ||| name == "confirm_text"@
    ||| name == "is_shown"@
    ||| name == "is_valid_showing_failures_only"@
    ||| name == "is_valid"@
    ||| name == "cost"@
    ||| name == "minimum_cost"@
    ||| name == "effect"@
    ||| name == "ai_potential"@
    ||| name == "ai_will_do"@
    ||| name == "should_create_alert"@
    ||| name == "widget"@
}

/// The marks after the fields that a decision can have were claimed.
pub open spec fn decision_marks(items: Seq<BlockItem>) -> Seq<bool> {
    Seq::new(items.len(), |i: int| items[i] is Field && decision_field(items[i]->Field_0@))
}

/// What is reported of a decision without a picture.
pub open spec fn missing_picture(block: &Block) -> DiagnosticView {
    diag(Severity::Error, ErrorKey::FieldMissing, block.loc, missing_field_msg("picture"@))
}

/// What is reported of a field that a decision cannot have.
pub open spec fn unknown_diag(item: BlockItem) -> DiagnosticView {
    diag(Severity::Warning, ErrorKey::UnknownField, *item->Field_0.loc(), unknown_field_msg(item->Field_0@))
}

/// What is reported of the picture that the field `name` gives: the field
/// holds a token, which names a file that was loaded.
pub open spec fn picture_diags(block: &Block, name: Seq<char>, data: &Everything) -> Seq<DiagnosticView> {
    checked(block, name, FieldKind::Value, data) + (match last_field(
        block.items@,
        name,
        Shape::Value,
        block.items@.len() as int,
    ) {
        Some(j) => data.missing_diags(
            Item::File,
            block.items@[j]->Field_2->Value_0@,
            *block.items@[j]->Field_2->Value_0.loc(),
        ),
        None => Seq::empty(),
    })
}

/// What is reported of the pictures of a decision, of which it needs one.
#[verifier::opaque]
pub open spec fn pictures_diags(block: &Block, data: &Everything) -> Seq<DiagnosticView> {
    required_diags(block, "picture"@, Severity::Error) + picture_diags(block, "picture"@, data) + picture_diags(
        block,
        "extra_picture"@,
        data,
    )
}

/// What is reported of the fields that say how a decision is shown and how
/// the computer players treat it. A goal of the computer players is
/// checked at all times, so an interval is not needed beside it.
#[verifier::opaque]
pub open spec fn display_diags(block: &Block, data: &Everything) -> Seq<DiagnosticView> {
    checked(block, "major"@, FieldKind::Bool, data) + checked(block, "sort_order"@, FieldKind::Integer, data)
        + checked(block, "is_invisible"@, FieldKind::Bool, data) + checked(block, "ai_goal"@, FieldKind::Bool, data)
        + checked(block, "ai_check_interval"@, FieldKind::Integer, data) + (if field_is_yes(
        block.items@,
        "ai_goal"@,
    ) == Some(true) {
        advice_diags(block.items@, "ai_check_interval"@, "not needed if ai_goal = yes"@)
    } else {
        Seq::empty()
    }) + checked(block, "cooldown"@, FieldKind::Block, data) + checked(
        block,
        "confirm_click_sound"@,
        FieldKind::Value,
        data,
    )
}

/// What is reported of one text of a decision: the field `name` holds a
/// description; without the field, the text is the localization key made of
/// the decision's key and `suffix`.
pub open spec fn text_diags(
    key: Token,
    block: &Block,
    name: Seq<char>,
    suffix: Seq<char>,
    data: &Everything,
) -> Seq<DiagnosticView> {
    checked(block, name, FieldKind::Any, data) + (match last_field(
        block.items@,
        name,
        Shape::Any,
        block.items@.len() as int,
    ) {
        Some(j) => desc_diags(block.items@[j]->Field_2, data),
        None => data.missing_diags(Item::Localization, key@ + suffix, *key.loc()),
    })
}

/// What is reported of the texts of a decision.
#[verifier::opaque]
pub open spec fn texts_diags(key: Token, block: &Block, data: &Everything) -> Seq<DiagnosticView> {
    text_diags(key, block, "selection_tooltip"@, "_tooltip"@, data) + text_diags(key, block, "title"@, ""@, data)
        + text_diags(key, block, "desc"@, "_desc"@, data) + text_diags(key, block, "confirm_text"@, "_confirm"@, data)
}

/// The blocks, in order, of the fields called `name` that hold a block.
pub open spec fn blocks_named<'a>(block: &'a Block, name: Seq<char>) -> Seq<&'a Block> {
    Seq::new(
        all_fields(block.items@, name, Shape::Block, block.items@.len() as int).len(),
        |k: int|
            &block.items@[all_fields(block.items@, name, Shape::Block, block.items@.len() as int)[k]]->Field_2->Block_0,
    )
}

/// What the validation of the first `n` cost blocks reports, each by
/// itself.
pub open spec fn each_cost_diags(blocks: Seq<&Block>, data: &Everything, n: int) -> Seq<DiagnosticView>
    decreases n,
{
    if n <= 0 {
        Seq::empty()
    } else {
        each_cost_diags(blocks, data, n - 1) + validate_cost_diags(blocks[n - 1], data)
    }
}

/// What is reported of the costs called `name`: each holds a block; the
/// blocks are validated each by itself, and then against each other.
#[verifier::opaque]
pub open spec fn costs_diags(block: &Block, name: Seq<char>, data: &Everything) -> Seq<DiagnosticView> {
    let blocks = blocks_named(block, name);
    fields_diags(block.items@, name, false, per_kind(FieldKind::Block, data), block.items@.len() as int)
        + each_cost_diags(blocks, data, blocks.len() as int) + cost_diags(blocks)
}

/// What is reported of the fields that say when a decision can be taken
/// and what it costs.
#[verifier::opaque]
pub open spec fn rules_diags(block: &Block, data: &Everything) -> Seq<DiagnosticView> {
    checked(block, "is_shown"@, FieldKind::Block, data) + checked(
        block,
        "is_valid_showing_failures_only"@,
        FieldKind::Block,
        data,
    ) + checked(block, "is_valid"@, FieldKind::Block, data) + costs_diags(block, "cost"@, data) + costs_diags(
        block,
        "minimum_cost"@,
        data,
    )
}

/// What is reported of the fields that say what a decision does and when
/// the computer players take it.
#[verifier::opaque]
pub open spec fn effects_diags(block: &Block, data: &Everything) -> Seq<DiagnosticView> {
    checked(block, "effect"@, FieldKind::Block, data) + checked(block, "ai_potential"@, FieldKind::Block, data)
        + checked(block, "ai_will_do"@, FieldKind::Block, data) + checked(
        block,
        "should_create_alert"@,
        FieldKind::Block,
        data,
    ) + checked(block, "widget"@, FieldKind::Any, data)
}

/// What the validation of a decision reports: what is wrong with its
/// pictures, with how it is shown, with its texts and with its rules, and
/// then each field that a decision cannot have.
pub open spec fn decision_diags(key: Token, block: &Block, data: &Everything) -> Seq<DiagnosticView> {
    pictures_diags(block, data) + display_diags(block, data) + texts_diags(key, block, data) + rules_diags(
        block,
        data,
    ) + effects_diags(block, data) + remaining_diags(
        block.items@,
        decision_marks(block.items@),
        block.items@.len() as int,
    )
}

/// Whether the marks are those of `old` and of the fields that `named`
/// holds of.
pub open spec fn marked(new: Seq<bool>, old: Seq<bool>, items: Seq<BlockItem>, named: spec_fn(Seq<char>) -> bool) -> bool {
    &&& new.len() == old.len()
    &&& forall|i: int|
        0 <= i < new.len() ==> #[trigger] new[i] == (old[i] || (items[i] is Field && named(items[i]->Field_0@)))
}

/// Whether a field called `name` says which picture a decision has.
pub open spec fn picture_field(name: Seq<char>) -> bool {
    name == "picture"@ || name == "extra_picture"@
}

/// Whether a field called `name` says how a decision is shown or how the
/// computer players treat it.
pub open spec fn display_field(name: Seq<char>) -> bool {
    ||| name == "major"@
    ||| name == "sort_order"@
    ||| name == "is_invisible"@
    ||| name == "ai_goal"@
    ||| name == "ai_check_interval"@
    ||| name == "cooldown"@
    ||| name == "confirm_click_sound"@
}

/// Whether a field called `name` holds a text of a decision.
pub open spec fn text_field(name: Seq<char>) -> bool {
    ||| name == "selection_tooltip"@
    ||| name == "title"@
    ||| name == "desc"@
    ||| name == "confirm_text"@
}

/// Whether a field called `name` says when a decision can be taken or
/// what it costs.
pub open spec fn rule_field(name: Seq<char>) -> bool {
    ||| name == "is_shown"@
    ||| name == "is_valid_showing_failures_only"@
    ||| name == "is_valid"@
    ||| name == "cost"@
    ||| name == "minimum_cost"@
}

/// Whether a field called `name` says what a decision does or when the
/// computer players take it.
pub open spec fn effect_field(name: Seq<char>) -> bool {
    ||| name == "effect"@
    ||| name == "ai_potential"@
    ||| name == "ai_will_do"@
    ||| name == "should_create_alert"@
    ||| name == "widget"@
}

impl Decision {
    /// Checks a description that the decision gives in the field `name`,
    /// or else the localization key that is made of the decision's key and
    /// `suffix`.
    fn check_text(&self, vd: &mut Validator, name: &str, suffix: &str, data: &Everything, sink: &mut Sink)
        requires
            old(vd).wf(),
            old(vd).data() == data,
        ensures
            final(vd).wf(),
            final(vd).block() == old(vd).block(),
            final(vd).data() == old(vd).data(),
            final(vd).marks() == claim(old(vd).marks(), old(vd).block().items@, name@),
            final(sink)@ == old(sink)@ + text_diags(self.key, old(vd).block(), name@, suffix@, data),
    {
        match vd.field(name, sink) {
            Some(bv) => {
                verify_desc_locas(bv, data, sink);
            },
            None => {
                let mut loca = String::from_str(self.key.as_str());
                loca.append(suffix);
                let _ = data.verify_exists_implied(Item::Localization, loca.as_str(), &self.key, sink);
            },
        }
        assert(sink@ =~= old(sink)@ + text_diags(self.key, old(vd).block(), name@, suffix@, data));
    }

    /// Validates the blocks of the costs called `name`, each by itself and
    /// then against each other.
    fn check_costs(&self, vd: &mut Validator, name: &str, data: &Everything, sink: &mut Sink)
        requires
            old(vd).wf(),
            old(vd).data() == data,
        ensures
            final(vd).wf(),
            final(vd).block() == old(vd).block(),
            final(vd).data() == old(vd).data(),
            final(vd).marks() == claim(old(vd).marks(), old(vd).block().items@, name@),
            final(sink)@ == old(sink)@ + costs_diags(old(vd).block(), name@, data),
    {
        reveal(costs_diags);
        let block = vd.get_block();
        let _ = vd.field_blocks(name, sink);
        let ghost s1 = sink@;
        // cost can have multiple definitions and they will be combined
        // however, two costs of the same type are not summed
        let blocks = block.get_field_blocks(name);
        assert(blocks@ =~= blocks_named(block, name@));
        assert(sink@ + Seq::<DiagnosticView>::empty() =~= sink@);
        let mut i: usize = 0;
        while i < blocks.len()
            invariant
                i <= blocks@.len(),
                sink@ == s1 + each_cost_diags(blocks@, data, i as int),
            decreases blocks@.len() - i,
        {
            validate_cost(blocks[i], data, sink);
            assert(sink@ =~= s1 + each_cost_diags(blocks@, data, i + 1));
            i += 1;
        }
        check_cost(&blocks, sink);
        assert(sink@ =~= old(sink)@ + costs_diags(block, name@, data));
    }

    /// Claims and checks the picture that the field `name` gives.
    fn check_picture(vd: &mut Validator, name: &str, data: &Everything, sink: &mut Sink)
        requires
            old(vd).wf(),
            old(vd).data() == data,
        ensures
            final(vd).wf(),
            final(vd).block() == old(vd).block(),
            final(vd).data() == old(vd).data(),
            final(vd).marks() == claim(old(vd).marks(), old(vd).block().items@, name@),
            final(sink)@ == old(sink)@ + picture_diags(old(vd).block(), name@, data),
    {
        if let Some(token) = vd.field_value(name, sink) {
            let _ = data.verify_exists(Item::File, token, sink);
        }
        assert(sink@ =~= old(sink)@ + picture_diags(old(vd).block(), name@, data));
    }

    /// Claims and checks the pictures of the decision, of which it needs
    /// one.
    fn check_pictures(&self, vd: &mut Validator, data: &Everything, sink: &mut Sink)
        requires
            old(vd).wf(),
            old(vd).data() == data,
        ensures
            final(vd).wf(),
            final(vd).block() == old(vd).block(),
            final(vd).data() == old(vd).data(),
            final(sink)@ == old(sink)@ + pictures_diags(old(vd).block(), data),
            marked(final(vd).marks(), old(vd).marks(), old(vd).block().items@, |name: Seq<char>| picture_field(name)),
    {
        reveal(pictures_diags);
        let _ = vd.req_field("picture", sink);
        Self::check_picture(vd, "picture", data, sink);
        Self::check_picture(vd, "extra_picture", data, sink);
        assert(sink@ =~= old(sink)@ + pictures_diags(old(vd).block(), data));
    }

    /// Claims and checks the fields of the decision that say how it is
    /// shown and how the computer players treat it.
    fn check_display(&self, vd: &mut Validator, data: &Everything, sink: &mut Sink)
        requires
            old(vd).wf(),
            old(vd).data() == data,
        ensures
            final(vd).wf(),
            final(vd).block() == old(vd).block(),
            final(vd).data() == old(vd).data(),
            final(sink)@ == old(sink)@ + display_diags(old(vd).block(), data),
            marked(final(vd).marks(), old(vd).marks(), old(vd).block().items@, |name: Seq<char>| display_field(name)),
    {
        reveal(display_diags);
        let block = vd.get_block();
        let _ = vd.field_bool("major", sink);
        let _ = vd.field_integer("sort_order", sink);
        let _ = vd.field_bool("is_invisible", sink);
        let _ = vd.field_bool("ai_goal", sink);
        let _ = vd.field_integer("ai_check_interval", sink);
        let ai_goal = match block.get_field_bool("ai_goal") {
            Some(b) => b,
            None => false,
        };
        if ai_goal {
            vd.advice_field("ai_check_interval", "not needed if ai_goal = yes", sink);
        }
        let _ = vd.field_block("cooldown", sink);
        // kind of looks like a filename but it isn't.
        let _ = vd.field_value("confirm_click_sound", sink);
        assert(sink@ =~= old(sink)@ + display_diags(block, data));
    }

    /// Claims and checks the texts of the decision.
    fn check_texts(&self, vd: &mut Validator, data: &Everything, sink: &mut Sink)
        requires
            old(vd).wf(),
            old(vd).data() == data,
        ensures
            final(vd).wf(),
            final(vd).block() == old(vd).block(),
            final(vd).data() == old(vd).data(),
            final(sink)@ == old(sink)@ + texts_diags(self.key, old(vd).block(), data),
            marked(final(vd).marks(), old(vd).marks(), old(vd).block().items@, |name: Seq<char>| text_field(name)),
    {
        reveal(texts_diags);
        self.check_text(vd, "selection_tooltip", "_tooltip", data, sink);
        self.check_text(vd, "title", "", data, sink);
        self.check_text(vd, "desc", "_desc", data, sink);
        self.check_text(vd, "confirm_text", "_confirm", data, sink);
        assert(sink@ =~= old(sink)@ + texts_diags(self.key, old(vd).block(), data));
    }

    /// Claims and checks the fields of the decision that say when it can
    /// be taken and what it costs.
    fn check_rules(&self, vd: &mut Validator, data: &Everything, sink: &mut Sink)
        requires
            old(vd).wf(),
            old(vd).data() == data,
        ensures
            final(vd).wf(),
            final(vd).block() == old(vd).block(),
            final(vd).data() == old(vd).data(),
            final(sink)@ == old(sink)@ + rules_diags(old(vd).block(), data),
            marked(final(vd).marks(), old(vd).marks(), old(vd).block().items@, |name: Seq<char>| rule_field(name)),
    {
        reveal(rules_diags);
        let _ = vd.field_block("is_shown", sink);
        let _ = vd.field_block("is_valid_showing_failures_only", sink);
        let _ = vd.field_block("is_valid", sink);
        self.check_costs(vd, "cost", data, sink);
        self.check_costs(vd, "minimum_cost", data, sink);
        assert(sink@ =~= old(sink)@ + rules_diags(old(vd).block(), data));
    }

    /// Claims and checks the fields of the decision that say what it does
    /// and when the computer players take it.
    fn check_effects(&self, vd: &mut Validator, data: &Everything, sink: &mut Sink)
        requires
            old(vd).wf(),
            old(vd).data() == data,
        ensures
            final(vd).wf(),
            final(vd).block() == old(vd).block(),
            final(vd).data() == old(vd).data(),
            final(sink)@ == old(sink)@ + effects_diags(old(vd).block(), data),
            marked(final(vd).marks(), old(vd).marks(), old(vd).block().items@, |name: Seq<char>| effect_field(name)),
    {
        reveal(effects_diags);
        let _ = vd.field_block("effect", sink);
        let _ = vd.field_block("ai_potential", sink);
        let _ = vd.field_block("ai_will_do", sink);
        let _ = vd.field_block("should_create_alert", sink);
        let _ = vd.field("widget", sink);
        assert(sink@ =~= old(sink)@ + effects_diags(old(vd).block(), data));
    }

    /// Validates the decision: the fields that a decision can have are
    /// checked, each against what it should hold, and every other field is
    /// reported as unknown. A decision needs a picture; its texts are
    /// descriptions, or by default the localization keys made of its key.
    pub fn validate(&self, data: &Everything, sink: &mut Sink)
        ensures
            final(sink)@ == old(sink)@ + decision_diags(self.key, &self.block, data),
    {
        let mut vd = Validator::new(&self.block, data);
        self.check_pictures(&mut vd, data, sink);
        self.check_display(&mut vd, data, sink);
        self.check_texts(&mut vd, data, sink);
        self.check_rules(&mut vd, data, sink);
        self.check_effects(&mut vd, data, sink);
        assert(vd.marks() =~= decision_marks(self.block.items@));
        let _ = vd.warn_remaining(sink);
        assert(sink@ =~= old(sink)@ + decision_diags(self.key, &self.block, data));
    }
}

/// Of a decision without a picture, that is reported first. Every field
/// that a decision cannot have is reported as unknown.
pub proof fn law_decision_fields(key: Token, block: &Block, data: &Everything)
    ensures
        !has_field(block.items@, "picture"@) ==> decision_diags(key, block, data).len() > 0 && decision_diags(
            key,
            block,
            data,
        )[0] == missing_picture(block),
        forall|i: int|
            0 <= i < block.items@.len() && (#[trigger] block.items@[i]) is Field && !decision_field(
                block.items@[i]->Field_0@,
            ) ==> decision_diags(key, block, data).contains(unknown_diag(block.items@[i])),
{
    let items = block.items@;
    let n = items.len() as int;
    let marks = decision_marks(items);
    let before = pictures_diags(block, data) + display_diags(block, data) + texts_diags(key, block, data)
        + rules_diags(block, data) + effects_diags(block, data);
    law_one_per_unclaimed(items, marks, n);
    assert forall|i: int| 0 <= i < n && (#[trigger] items[i]) is Field && !decision_field(
        items[i]->Field_0@,
    ) implies decision_diags(key, block, data).contains(unknown_diag(items[i])) by {
        assert(!marks[i]);
        assert(unclaimed(items, marks, n).contains(i));
        let k = choose|k: int| 0 <= k < unclaimed(items, marks, n).len() && unclaimed(items, marks, n)[k] == i;
        assert(decision_diags(key, block, data)[before.len() + k] == unknown_diag(items[i]));
    }
    if !has_field(items, "picture"@) {
        reveal(pictures_diags);
        assert(required_diags(block, "picture"@, Severity::Error)[0] == missing_picture(block));
        assert(decision_diags(key, block, data)[0] == missing_picture(block));
    }
}

/// What the validation of the first `n` decisions reports.
pub open spec fn decisions_diags(defs: Seq<Decision>, data: &Everything, n: int) -> Seq<DiagnosticView>
    decreases n,
{
    if n <= 0 {
        Seq::empty()
    } else {
        decisions_diags(defs, data, n - 1) + decision_diags(defs[n - 1].key, &defs[n - 1].block, data)
    }
}

/// A copy of the settings.
fn clone_values(values: &Vec<(Token, Token)>) -> (r: Vec<(Token, Token)>)
    ensures
        r@ == values@,
{
    let mut r: Vec<(Token, Token)> = Vec::new();
    let mut i: usize = 0;
    while i < values.len()
        invariant
            i <= values@.len(),
            r@ == values@.take(i as int),
        decreases values@.len() - i,
    {
        r.push((values[i].0.clone(), values[i].1.clone()));
        assert(values@.take(i + 1) =~= values@.take(i as int).push(values@[i as int]));
        i += 1;
    }
    assert(values@.take(i as int) =~= values@);
    r
}

/// How far the loading of a file has come: the decisions and their
/// positions by name, the settings that were read, and what was reported.
pub struct FileLoad {
    pub defs: Seq<DecisionView>,
    pub at: Map<Seq<char>, usize>,
    pub values: Seq<(Token, Token)>,
    pub diags: Seq<DiagnosticView>,
}

/// The loading after the decision `key = block` was stored: it takes the
/// place of one that had the name before, or else comes last; it can use
/// the settings that were read before it.
pub open spec fn stored(load: FileLoad, key: Token, block: Block) -> FileLoad {
    let d = DecisionView { key, values: load.values, block };
    match entry_at(load.at, key@) {
        Some(i) => FileLoad {
            defs: load.defs.update(i as int, d),
            at: load.at,
            values: load.values,
            diags: load.diags + load_decision_diags(key, Some(load.defs[i as int].key)),
        },
        None => FileLoad {
            defs: load.defs.push(d),
            at: load.at.insert(key@, load.defs.len() as usize),
            values: load.values,
            diags: load.diags,
        },
    }
}

/// The loading after one more node of the file.
pub open spec fn load_step(load: FileLoad, item: BlockItem) -> FileLoad {
    match item {
        BlockItem::Keyword(key) => FileLoad {
            defs: load.defs,
            at: load.at,
            values: load.values,
            diags: load.diags.push(
                diag_info(
                    Severity::Error,
                    ErrorKey::Validation,
                    *key.loc(),
                    "unexpected token"@,
                    "Did you forget an = ?"@,
                ),
            ),
        },
        BlockItem::Field(key, _, BV::Value(value)) => if "@"@.is_prefix_of(key@) {
            FileLoad { defs: load.defs, at: load.at, values: load.values.push((key, value)), diags: load.diags }
        } else {
            FileLoad {
                defs: load.defs,
                at: load.at,
                values: load.values,
                diags: load.diags.push(
                    diag(Severity::Error, ErrorKey::Validation, *key.loc(), "unknown setting in decision file"@),
                ),
            }
        },
        BlockItem::Field(key, _, BV::Block(b)) => stored(load, key, b),
        BlockItem::Block(b) => FileLoad {
            defs: load.defs,
            at: load.at,
            values: load.values,
            diags: load.diags.push(diag(Severity::Error, ErrorKey::Validation, b.loc, "unexpected block"@)),
        },
    }
}

/// The loading of the nodes of a file, in source order, into the
/// decisions `defs` with the positions `at`.
pub open spec fn file_loaded(defs: Seq<DecisionView>, at: Map<Seq<char>, usize>, items: Seq<BlockItem>) -> FileLoad
    decreases items.len(),
{
    if items.len() == 0 {
        FileLoad { defs, at, values: Seq::empty(), diags: Seq::empty() }
    } else {
        load_step(file_loaded(defs, at, items.drop_last()), items.last())
    }
}

impl Decisions {
    /// Validates every decision, in the order of their first loading.
    pub fn validate(&self, data: &Everything, sink: &mut Sink)
        ensures
            final(sink)@ == old(sink)@ + decisions_diags(self.defs(), data, self.defs().len() as int),
    {
        assert(sink@ + Seq::<DiagnosticView>::empty() =~= sink@);
        let mut i: usize = 0;
        while i < self.len()
            invariant
                i <= self.defs().len(),
                sink@ == old(sink)@ + decisions_diags(self.defs(), data, i as int),
            decreases self.defs().len() - i,
        {
            self.get(i).validate(data, sink);
            assert(sink@ =~= old(sink)@ + decisions_diags(self.defs(), data, i + 1));
            i += 1;
        }
    }

    /// Loads the decisions of one parsed file of the kind, as `load_file`
    /// does. What is found in a file of the game itself is not reported:
    /// the mod is what is examined.
    pub fn load_file_of_kind(&mut self, kind: FileKind, block: Block, sink: &mut Sink)
        ensures
            final(self).views() == file_loaded(old(self).views(), old(self).names(), block.items@).defs,
            final(self).names() == file_loaded(old(self).views(), old(self).names(), block.items@).at,
            final(sink)@ == old(sink)@ + (if kind == FileKind::Mod {
                file_loaded(old(self).views(), old(self).names(), block.items@).diags
            } else {
                Seq::empty()
            }),
    {
        match kind {
            FileKind::Mod => {
                self.load_file(block, sink);
            },
            FileKind::Vanilla => {
                let mut unreported = Sink::new();
                self.load_file(block, &mut unreported);
                assert(sink@ + Seq::<DiagnosticView>::empty() =~= sink@);
            },
        }
    }

    /// Loads the decisions of one parsed file. Each `key = { ... }` of the
    /// file is a decision. A `@name = value` is a setting that the
    /// decisions after it can use; any other `key = value` and any bare
    /// word is reported.
    pub fn load_file(&mut self, block: Block, sink: &mut Sink)
        ensures
            final(self).views() == file_loaded(old(self).views(), old(self).names(), block.items@).defs,
            final(self).names() == file_loaded(old(self).views(), old(self).names(), block.items@).at,
            final(sink)@ == old(sink)@ + file_loaded(old(self).views(), old(self).names(), block.items@).diags,
    {
        let mut decision_values: Vec<(Token, Token)> = Vec::new();
        let Block { items, loc } = block;
        let ghost views = self.views();
        let ghost names = self.names();
        proof {
            assert(sink@ + Seq::<DiagnosticView>::empty() =~= sink@);
            assert(items@.take(0) =~= Seq::<BlockItem>::empty());
        }
        for item in it: items
            invariant
                it.seq() == items@,
                views == old(self).views(),
                names == old(self).names(),
                self.views() == file_loaded(views, names, items@.take(it.index() as int)).defs,
                self.names() == file_loaded(views, names, items@.take(it.index() as int)).at,
                decision_values@ == file_loaded(views, names, items@.take(it.index() as int)).values,
                sink@ == old(sink)@ + file_loaded(views, names, items@.take(it.index() as int)).diags,
        {
            let ghost before = *self;
            let ghost s_before = sink@;
            let ghost n = it.index() as int;
            let ghost so_far = file_loaded(views, names, items@.take(n));
            proof {
                use_type_invariant(&*self);
                assert(forall|name: Seq<char>|
                    (#[trigger] before.position(name)) matches Some(i) ==> i < before.defs().len());
                assert(items@.take(n + 1).drop_last() =~= items@.take(n));
                assert(items@.take(n + 1).last() == item);
                assert(forall|name: Seq<char>| before.position(name) == entry_at(so_far.at, name));
            }
            match item {
                BlockItem::Keyword(key) => {
                    sink.error_info(key.loc(), ErrorKey::Validation, "unexpected token", "Did you forget an = ?");
                },
                BlockItem::Field(key, _, BV::Value(value)) => {
                    if key.starts_with("@") {
                        decision_values.push((key, value));
                    } else {
                        sink.error(key.loc(), ErrorKey::Validation, "unknown setting in decision file");
                    }
                },
                BlockItem::Field(key, _, BV::Block(b)) => {
                    self.load_decision(key, b, clone_values(&decision_values), sink);
                    proof {
                        let next = stored(so_far, key, b);
                        assert(self.views() =~= next.defs);
                        assert(self.names() =~= next.at);
                    }
                },
                BlockItem::Block(b) => {
                    sink.error(&b.loc, ErrorKey::Validation, "unexpected block");
                },
            }
            proof {
                let next = file_loaded(views, names, items@.take(n + 1));
                assert(sink@ =~= old(sink)@ + next.diags);
            }
        }
        assert(items@.take(items@.len() as int) =~= items@);
    }
}

} // verus!
