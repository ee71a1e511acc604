//! Script values: named, reusable numeric expressions.

use vstd::prelude::*;
use vstd::string::StringExecFns;
use crate::block::{last_field, lemma_field_smaller, BV, Block, BlockItem, Comparator, Shape};
use crate::cache::{Caches, Site};
use crate::catalog::{scope_from_snake_case, scope_named};
use crate::chain::{chain_end, chain_findings, chain_known, validate_scope_chain};
use crate::context::{
    law_close_gives_back, law_compatibility_reports_once, law_expect_narrows, ContextView, ScopeContext,
};
use crate::everything::Everything;
use crate::expression::{
    after, armed_at, arms, beside_ends, body_marks, branch_out, call_out, chain_operand_out, closed, else_limit_diags,
    expression_out, expression_state, field_out, fields_out, fresh_context, grammar_at, grammar_diag, grammar_diags,
    grammar_of, head_diags, head_marks, inferred, inside_diags, is_field_at, iterator_out, key_class, left,
    limit_diags, limit_out, next_state, no_marks, nothing, nothing_yet_msg, only, operand_out, precheck_out,
    range_out, simple_diags, state_at, steering_out, stray_fields, target_ok_this_out, values_walk, walk_fields,
    walk_operand_out, walked_list, words_of, KeyClass, Outcome, State,
};
use crate::helpers::{added, dup_diags, dup_error, extends, lemma_added_first, lemma_added_stays, TriBool};
use crate::index::{entry_at, NameIndex};
use crate::item::Item;
use crate::report::{diag, diag_info, DiagnosticView, ErrorKey, Severity, Sink};
use crate::scopes::{SCOPE_ALL, SCOPE_VALUE, Scopes};
use crate::token::{is_number_text, lowercase_of, piece_loc, split_ranges, Token};
use crate::validate::{
    comes_to, fits, kept, lemma_after, lemma_only, lemma_reports_after, precheck_iterator_fields, reports,
    scope_iterator, spec_value_scopes, split_iterator_key, state, validate_inside_iterator, validate_iterator_fields,
    validate_normal_trigger, validate_target_ok_this, value_scopes, ListType, Tooltipped,
};
use crate::validator::{claim, required_diags, Validator};

verus! {

/// A named script value: its key, the expression that defines it, and the
/// scope types that the configuration says it is for, if it says any.
#[derive(Debug)]
pub struct ScriptValue {
    pub key: Token,
    pub bv: BV,
    pub scope_override: Option<Scopes>,
}

/// The script values that were loaded, by name.
pub struct ScriptValues {
    overrides: NameIndex,
    override_list: Vec<Scopes>,
    index: NameIndex,
    list: Vec<ScriptValue>,
}

/// What loading a script value reports: one that takes the name of another
/// of the same or of a higher precedence is a duplicate.
pub open spec fn load_diags(key: Token, other: Option<ScriptValue>) -> Seq<DiagnosticView> {
    match other {
        Some(sv) => if sv.key.loc().kind.rank() >= key.loc().kind.rank() {
            dup_diags(*key.loc(), *sv.key.loc(), "script value"@)
        } else {
            Seq::empty()
        },
        None => Seq::empty(),
    }
}

impl ScriptValue {
    /// Whether the script value is only the word `yes` or `no`.
    pub open spec fn says_yes_or_no(&self) -> bool {
        self.bv is Value && (self.bv->Value_0@ == "yes"@ || self.bv->Value_0@ == "no"@)
    }

    /// A script value from its parts.
    pub fn new(key: Token, bv: BV, scope_override: Option<Scopes>) -> (r: Self)
        ensures
            r == (ScriptValue { key, bv, scope_override }),
    {
        ScriptValue { key, bv, scope_override }
    }
}

impl ScriptValues {
    #[verifier::type_invariant]
    closed spec fn inv(&self) -> bool {
        &&& forall|k: (u8, Seq<char>)| #[trigger]
            self.index@.contains_key(k) ==> self.index@[k] < self.list@.len()
                && self.list@[self.index@[k] as int].key@ == k.1
        &&& forall|k: (u8, Seq<char>)| #[trigger]
            self.overrides@.contains_key(k) ==> self.overrides@[k] < self.override_list@.len()
    }

    /// The script values, in the order of their first loading.
    pub closed spec fn defs(&self) -> Seq<ScriptValue> {
        self.list@
    }

    /// The position of the script value called `name`.
    pub closed spec fn position(&self, name: Seq<char>) -> Option<usize> {
        entry_at(self.index@, (0u8, name))
    }

    /// The script value called `name`.
    pub open spec fn lookup(&self, name: Seq<char>) -> Option<ScriptValue> {
        match self.position(name) {
            Some(i) => Some(self.defs()[i as int]),
            None => None,
        }
    }

    /// The scope types that the configuration gives for `name`.
    pub closed spec fn override_of(&self, name: Seq<char>) -> Option<Scopes> {
        match entry_at(self.overrides@, (0u8, name)) {
            Some(i) => Some(self.override_list@[i as int]),
            None => None,
        }
    }

    /// A store without script values.
    pub fn new() -> (r: ScriptValues)
        ensures
            r.defs().len() == 0,
            forall|name: Seq<char>| r.position(name) is None,
            forall|name: Seq<char>| r.override_of(name) is None,
    {
        ScriptValues {
            overrides: NameIndex::new(),
            override_list: Vec::new(),
            index: NameIndex::new(),
            list: Vec::new(),
        }
    }

    /// The position of the script value called `name`.
    pub fn find(&self, name: &str) -> (r: Option<usize>)
        ensures
            r == self.position(name@),
            r matches Some(i) ==> i < self.defs().len() && self.defs()[i as int].key@ == name@,
    {
        proof {
            use_type_invariant(self);
        }
        let r = self.index.get(0, name);
        proof {
            if r is Some {
                assert(self.index@.contains_key((0u8, name@)));
            }
        }
        r
    }

    /// Whether a script value called `key` is defined.
    pub fn is_defined(&self, key: &str) -> (r: bool)
        ensures
            r == self.position(key@) is Some,
    {
        self.find(key).is_some()
    }

    /// The number of script values.
    pub fn len(&self) -> (n: usize)
        ensures
            n == self.defs().len(),
    {
        self.list.len()
    }

    /// The script value at a position.
    pub fn get(&self, i: usize) -> (r: &ScriptValue)
        requires
            i < self.defs().len(),
        ensures
            *r == self.defs()[i as int],
    {
        &self.list[i]
    }

    /// The scope types that the configuration gives for `name`.
    pub fn scope_override(&self, name: &str) -> (r: Option<Scopes>)
        ensures
            r == self.override_of(name@),
    {
        proof {
            use_type_invariant(self);
        }
        match self.overrides.get(0, name) {
            Some(i) => {
                assert(self.overrides@.contains_key((0u8, name@)));
                Some(self.override_list[i])
            },
            None => None,
        }
    }

    /// Records the scope types that script values called `name` are for.
    pub fn set_override(&mut self, name: &str, scopes: Scopes)
        ensures
            final(self).override_of(name@) == Some(scopes),
            forall|n: Seq<char>| n != name@ ==> #[trigger] final(self).override_of(n) == old(self).override_of(n),
            final(self).defs() == old(self).defs(),
            forall|n: Seq<char>| #[trigger] final(self).position(n) == old(self).position(n),
    {
        proof {
            use_type_invariant(&*self);
        }
        let mut taken = ScriptValues::new();
        std::mem::swap(self, &mut taken);
        let ScriptValues { mut overrides, mut override_list, index, list } = taken;
        let n = override_list.len();
        override_list.push(scopes);
        let _ = overrides.insert(0, name, n);
        *self = ScriptValues { overrides, override_list, index, list };
    }

    /// Stores a script value under the text of its key, in place of one
    /// that had the name before. It gets the scope types that the
    /// configuration gives for the name.
    pub fn load_item(&mut self, key: Token, bv: BV, sink: &mut Sink)
        ensures
            final(self).lookup(key@) == Some(
                ScriptValue { key, bv, scope_override: old(self).override_of(key@) },
            ),
            forall|n: Seq<char>| n != key@ ==> #[trigger] final(self).position(n) == old(self).position(n),
            final(self).defs() == (match old(self).position(key@) {
                Some(i) => old(self).defs().update(
                    i as int,
                    ScriptValue { key, bv, scope_override: old(self).override_of(key@) },
                ),
                None => old(self).defs().push(ScriptValue { key, bv, scope_override: old(self).override_of(key@) }),
            }),
            final(self).position(key@) == Some(
                match old(self).position(key@) {
                    Some(i) => i,
                    None => old(self).defs().len() as usize,
                },
            ),
            forall|n: Seq<char>| #[trigger] final(self).override_of(n) == old(self).override_of(n),
            final(sink)@ == old(sink)@ + load_diags(key, old(self).lookup(key@)),
    {
        proof {
            use_type_invariant(&*self);
        }
        let found = self.find(key.as_str());
        let scope_override = self.scope_override(key.as_str());
        let ghost name = key@;
        let mut taken = ScriptValues::new();
        std::mem::swap(self, &mut taken);
        let ScriptValues { overrides, override_list, mut index, mut list } = taken;
        match found {
            Some(i) => {
                let other = &list[i];
                if other.key.loc().kind.rank() >= key.loc().kind.rank() {
                    dup_error(&key, &other.key, "script value", sink);
                } else {
                    assert(sink@ + Seq::<DiagnosticView>::empty() =~= sink@);
                }
                list[i] = ScriptValue::new(key, bv, scope_override);
                assert(index@.contains_key((0u8, name)));
            },
            None => {
                assert(sink@ + Seq::<DiagnosticView>::empty() =~= sink@);
                let n = list.len();
                list.push(ScriptValue::new(key, bv, scope_override));
                let _ = index.insert(0, list[n].key.as_str(), n);
            },
        }
        *self = ScriptValues { overrides, override_list, index, list };
    }

    /// The positions of the script values, by name.
    pub open spec fn names(&self) -> Map<Seq<char>, usize> {
        Map::new(|n: Seq<char>| self.position(n) is Some, |n: Seq<char>| self.position(n)->0)
    }

    /// Loads the script values of one parsed file: each `key = value` and
    /// each `key = { ... }` of the file is a script value; a bare word and
    /// a bare block are reported.
    pub fn load_file(&mut self, block: Block, sink: &mut Sink)
        ensures
            final(self).defs() == file_loaded(old(self), block.items@).defs,
            final(self).names() == file_loaded(old(self), block.items@).at,
            forall|n: Seq<char>| #[trigger] final(self).override_of(n) == old(self).override_of(n),
            final(sink)@ == old(sink)@ + file_loaded(old(self), block.items@).diags,
    {
        let Block { items, loc } = block;
        let ghost start = *self;
        proof {
            assert(sink@ + Seq::<DiagnosticView>::empty() =~= sink@);
            assert(items@.take(0) =~= Seq::<BlockItem>::empty());
        }
        for item in it: items
            invariant
                it.seq() == items@,
                start == *old(self),
                self.defs() == file_loaded(&start, items@.take(it.index() as int)).defs,
                self.names() == file_loaded(&start, items@.take(it.index() as int)).at,
                forall|n: Seq<char>| #[trigger] self.override_of(n) == start.override_of(n),
                sink@ == old(sink)@ + file_loaded(&start, items@.take(it.index() as int)).diags,
        {
            let ghost before = *self;
            let ghost n = it.index() as int;
            let ghost so_far = file_loaded(&start, items@.take(n));
            proof {
                use_type_invariant(&*self);
                assert(forall|name: Seq<char>|
                    (#[trigger] before.position(name)) matches Some(i) ==> i < before.defs().len());
                assert(items@.take(n + 1).drop_last() =~= items@.take(n));
                assert(items@.take(n + 1).last() == item);
                assert(forall|name: Seq<char>| before.position(name) == entry_at(so_far.at, name));
            }
            match item {
                BlockItem::Keyword(key) => {
                    sink.error_info(key.loc(), ErrorKey::Validation, "unexpected token", "Did you forget an = ?");
                },
                BlockItem::Field(key, _, bv) => {
                    self.load_item(key, bv, sink);
                    proof {
                        let next = value_stored(so_far, key, bv, start.override_of(key@));
                        assert(self.defs() =~= next.defs);
                        assert(self.names() =~= next.at);
                    }
                },
                BlockItem::Block(b) => {
                    sink.error(&b.loc, ErrorKey::Validation, "unexpected block");
                },
            }
            proof {
                let next = file_loaded(&start, items@.take(n + 1));
                assert(sink@ =~= old(sink)@ + next.diags);
            }
        }
        assert(items@.take(items@.len() as int) =~= items@);
    }
}

/// How far the loading of a file has come: the script values and their
/// positions by name, and what was reported.
pub struct FileLoad {
    pub defs: Seq<ScriptValue>,
    pub at: Map<Seq<char>, usize>,
    pub diags: Seq<DiagnosticView>,
}

/// The loading after the script value `key = bv` was stored, for which the
/// configuration gives the scope types `scopes`: it takes the place of one
/// that had the name before, or else comes last.
pub open spec fn value_stored(load: FileLoad, key: Token, bv: BV, scopes: Option<Scopes>) -> FileLoad {
    let v = ScriptValue { key, bv, scope_override: scopes };
    match entry_at(load.at, key@) {
        Some(i) => FileLoad {
            defs: load.defs.update(i as int, v),
            at: load.at,
            diags: load.diags + load_diags(key, Some(load.defs[i as int])),
        },
        None => FileLoad {
            defs: load.defs.push(v),
            at: load.at.insert(key@, load.defs.len() as usize),
            diags: load.diags,
        },
    }
}

/// The loading of the nodes of a file, in source order, into the store.
pub open spec fn file_loaded(store: &ScriptValues, items: Seq<BlockItem>) -> FileLoad
    decreases items.len(),
{
    if items.len() == 0 {
        FileLoad { defs: store.defs(), at: store.names(), diags: Seq::empty() }
    } else {
        let load = file_loaded(store, items.drop_last());
        match items.last() {
            BlockItem::Keyword(key) => FileLoad {
                defs: load.defs,
                at: load.at,
                diags: load.diags.push(
                    diag_info(
                        Severity::Error,
                        ErrorKey::Validation,
                        *key.loc(),
                        "unexpected token"@,
                        "Did you forget an = ?"@,
                    ),
                ),
            },
            BlockItem::Field(key, _, bv) => value_stored(load, key, bv, store.override_of(key@)),
            BlockItem::Block(b) => FileLoad {
                defs: load.defs,
                at: load.at,
                diags: load.diags.push(diag(Severity::Error, ErrorKey::Validation, b.loc, "unexpected block"@)),
            },
        }
    }
}

/// What the classification of a key gives beside the class: for a walk over
/// a known list, the list's name and its scope types.
pub struct Classified {
    pub class: KeyClass,
    pub list: Option<(Token, Scopes, Scopes)>,
}

/// Whether `list` names a list that leads from the scopes `from` to the
/// scopes `to`.
pub open spec fn lists(list: Option<(Token, Scopes, Scopes)>, from: Scopes, to: Scopes) -> bool {
    list is Some && walk_from(list->0) == from && walk_to(list->0) == to
}

/// The scopes in which a list can be walked.
pub open spec fn walk_from(list: (Token, Scopes, Scopes)) -> Scopes {
    list.1
}

/// The scopes of a list's elements.
pub open spec fn walk_to(list: (Token, Scopes, Scopes)) -> Scopes {
    list.2
}

/// Finds what a key of a numeric expression does.
pub fn classify(token: &Token, data: &Everything) -> (r: Classified)
    ensures
        r.class == key_class(token@, &data.catalog),
        r.class is Iterator ==> lists(r.list, walked_list(token@, data).from, walked_list(token@, data).to),
{
    reveal(key_class);
    let none: Option<(Token, Scopes, Scopes)> = None;
    if token.is("save_temporary_scope_as") {
        Classified { class: KeyClass::SaveScope, list: none }
    } else if token.is("save_temporary_value_as") {
        Classified { class: KeyClass::SaveValue, list: none }
    } else if token.is("value") {
        Classified { class: KeyClass::Value, list: none }
    } else if token.is("add") || token.is("subtract") || token.is("min") || token.is("max") {
        Classified { class: KeyClass::Add, list: none }
    } else if token.is("multiply") || token.is("divide") || token.is("modulo") {
        Classified { class: KeyClass::Multiply, list: none }
    } else if token.is("round") || token.is("ceiling") || token.is("floor") {
        Classified { class: KeyClass::Round, list: none }
    } else if token.is("fixed_range") || token.is("integer_range") {
        Classified { class: KeyClass::Range, list: none }
    } else if token.is("if") {
        Classified { class: KeyClass::If, list: none }
    } else if token.is("else_if") {
        Classified { class: KeyClass::ElseIf, list: none }
    } else if token.is("else") {
        Classified { class: KeyClass::Else, list: none }
    } else {
        match split_iterator_key(token) {
            Some((lt, it_name)) => match scope_iterator(&it_name, data) {
                Some((inscopes, outscope)) => Classified {
                    class: KeyClass::Iterator(lt),
                    list: Some((it_name, inscopes, outscope)),
                },
                None => Classified { class: KeyClass::Ignored, list: none },
            },
            None => Classified { class: KeyClass::Chain, list: none },
        }
    }
}

/// Claims the fields called `limit`, each of which must hold a block, and
/// returns the key and the block of the last that does.
fn claim_limit<'a>(vd: &mut Validator<'a>, sink: &mut Sink) -> (r: Option<(&'a Token, &'a Block)>)
    requires
        old(vd).wf(),
    ensures
        final(vd).wf(),
        final(vd).block() == old(vd).block(),
        final(vd).data() == old(vd).data(),
        final(vd).marks() == claim(old(vd).marks(), old(vd).block().items@, "limit"@),
        final(sink)@ == old(sink)@ + limit_diags(old(vd).block(), old(vd).data()),
        r is Some == last_field(
            old(vd).block().items@,
            "limit"@,
            Shape::Block,
            old(vd).block().items@.len() as int,
        ) is Some,
        r matches Some((k, b)) ==> {
            let j = last_field(
                old(vd).block().items@,
                "limit"@,
                Shape::Block,
                old(vd).block().items@.len() as int,
            )->0;
            &&& *k == old(vd).block().items@[j]->Field_0
            &&& *b == old(vd).block().items@[j]->Field_2->Block_0
            &&& decreases_to!(*old(vd).block() => *b)
        },
{
    let block = vd.get_block();
    let _ = vd.field_blocks("limit", sink);
    match block.find_last("limit", Shape::Block) {
        Some(j) => match &block.items[j] {
            BlockItem::Field(key, _, BV::Block(b)) => {
                proof {
                    lemma_field_smaller(block, j as int);
                }
                Some((key, b))
            },
            _ => None,
        },
        None => None,
    }
}

/// Claims `desc` and `format`, and checks them as the names of
/// localization keys or as free text. Returns the marks that result.
fn claim_head(mut vd: Validator, check_desc: bool, sink: &mut Sink) -> (r: Vec<bool>)
    requires
        vd.wf(),
    ensures
        r@ == head_marks(vd.marks(), vd.block().items@),
        r@.len() == vd.block().items@.len(),
        final(sink)@ == old(sink)@ + head_diags(vd.block(), vd.data(), check_desc),
{
    if check_desc {
        let _ = vd.field_item("desc", Item::Localization, sink);
        let _ = vd.field_item("format", Item::Localization, sink);
    } else {
        let _ = vd.field_value("desc", sink);
        let _ = vd.field_value("format", sink);
    }
    assert(sink@ =~= old(sink)@ + head_diags(vd.block(), vd.data(), check_desc));
    vd.into_marks()
}

/// Whether the validation of the first `i` nodes of an expression did what
/// its outcome says.
#[verifier::opaque]
spec fn walked_so_far(
    block: &Block,
    marks: Seq<bool>,
    data: &Everything,
    check_desc: bool,
    start: TriBool,
    st0: State,
    i: int,
    c: ContextView,
    caches: &Caches,
    s: Seq<DiagnosticView>,
    s0: Seq<DiagnosticView>,
) -> bool {
    comes_to(walk_fields(block, marks, data, check_desc, start, st0, i), c, caches, s, s0)
}

/// One more node keeps what holds of the nodes so far.
proof fn lemma_walk_step(
    block: &Block,
    marks: Seq<bool>,
    data: &Everything,
    check_desc: bool,
    start: TriBool,
    st0: State,
    i: int,
    c_new: ContextView,
    k_new: &Caches,
    c_mid: ContextView,
    k_mid: &Caches,
    s_new: Seq<DiagnosticView>,
    s_mid: Seq<DiagnosticView>,
    s0: Seq<DiagnosticView>,
)
    requires
        0 <= i < block.items@.len(),
        walked_so_far(block, marks, data, check_desc, start, st0, i, c_mid, k_mid, s_mid, s0),
        0 <= k_mid.budget() <= st0.fuel,
        is_field_at(block.items@, marks, i) ==> comes_to(
            field_out(
                block.items@[i]->Field_0,
                block.items@[i]->Field_1,
                block.items@[i]->Field_2,
                data,
                check_desc,
                state_at(block.items@, marks, &data.catalog, start, i),
                armed_at(block.items@, marks, &data.catalog, i),
                state(c_mid, k_mid),
            ),
            c_new,
            k_new,
            s_new,
            s_mid,
        ),
        !is_field_at(block.items@, marks, i) ==> c_new == c_mid && *k_new == *k_mid && s_new == s_mid,
    ensures
        walked_so_far(block, marks, data, check_desc, start, st0, i + 1, c_new, k_new, s_new, s0),
{
    reveal(walked_so_far);
    let w = walk_fields(block, marks, data, check_desc, start, st0, i);
    assert(left(w, st0) == state(c_mid, k_mid));
    if is_field_at(block.items@, marks, i) {
        lemma_after(
            w,
            field_out(
                block.items@[i]->Field_0,
                block.items@[i]->Field_1,
                block.items@[i]->Field_2,
                data,
                check_desc,
                state_at(block.items@, marks, &data.catalog, start, i),
                armed_at(block.items@, marks, &data.catalog, i),
                state(c_mid, k_mid),
            ),
            c_mid,
            c_new,
            k_mid,
            k_new,
            s0,
            s_mid,
            s_new,
        );
    }
}

/// Whether the validation of the values of the first `i` nodes that are
/// fields called `name` did what its outcome says.
#[verifier::opaque]
spec fn valued_so_far(
    block: &Block,
    name: Seq<char>,
    data: &Everything,
    check_desc: bool,
    st0: State,
    i: int,
    c: ContextView,
    caches: &Caches,
    s: Seq<DiagnosticView>,
    s0: Seq<DiagnosticView>,
) -> bool {
    comes_to(values_walk(block, name, data, check_desc, st0, i), c, caches, s, s0)
}

/// One more node keeps what holds of the nodes so far.
proof fn lemma_value_step(
    block: &Block,
    name: Seq<char>,
    data: &Everything,
    check_desc: bool,
    st0: State,
    i: int,
    c_new: ContextView,
    k_new: &Caches,
    c_mid: ContextView,
    k_mid: &Caches,
    s_new: Seq<DiagnosticView>,
    s_mid: Seq<DiagnosticView>,
    s0: Seq<DiagnosticView>,
)
    requires
        0 <= i < block.items@.len(),
        valued_so_far(block, name, data, check_desc, st0, i, c_mid, k_mid, s_mid, s0),
        0 <= k_mid.budget() <= st0.fuel,
        block.items@[i].is_named(name) ==> comes_to(
            expression_out(block.items@[i]->Field_2, data, check_desc, state(c_mid, k_mid)),
            c_new,
            k_new,
            s_new,
            s_mid,
        ),
        !block.items@[i].is_named(name) ==> c_new == c_mid && *k_new == *k_mid && s_new == s_mid,
    ensures
        valued_so_far(block, name, data, check_desc, st0, i + 1, c_new, k_new, s_new, s0),
{
    reveal(valued_so_far);
    let w = values_walk(block, name, data, check_desc, st0, i);
    assert(left(w, st0) == state(c_mid, k_mid));
    if block.items@[i].is_named(name) {
        lemma_after(
            w,
            expression_out(block.items@[i]->Field_2, data, check_desc, state(c_mid, k_mid)),
            c_mid,
            c_new,
            k_mid,
            k_new,
            s0,
            s_mid,
            s_new,
        );
    }
}

/// Whether what `g` gives for the positions below `n` stands in `added` in
/// the order of the positions: `starts` gives for each position a place in
/// `added`, no place before the place of an earlier position, and what `g`
/// gives for the position stands at that place, before the place of the
/// next position.
#[verifier::opaque]
pub open spec fn in_source_order(
    g: spec_fn(int) -> Option<DiagnosticView>,
    n: int,
    added: Seq<DiagnosticView>,
    starts: Seq<int>,
) -> bool {
    &&& starts.len() == n
    &&& forall|k: int| 0 <= k < n ==> 0 <= #[trigger] starts[k] <= added.len()
    &&& forall|k: int, l: int| 0 <= k < l < n ==> #[trigger] starts[k] <= #[trigger] starts[l]
    &&& forall|k: int|
        0 <= k < n ==> (#[trigger] g(k) matches Some(d) ==> starts[k] < added.len() && added[starts[k]] == d && (k + 1
            < n ==> starts[k] < starts[k + 1]))
}

/// If what `g` gives for the positions below `i` stands in source order in
/// what was added between `old` and `mid`, and what it gives for `i` was
/// added first between `mid` and `new`, then what it gives for the
/// positions up to `i` stands in source order in what was added between
/// `old` and `new`.
proof fn lemma_source_order_step(
    g: spec_fn(int) -> Option<DiagnosticView>,
    i: int,
    starts: Seq<int>,
    new: Seq<DiagnosticView>,
    mid: Seq<DiagnosticView>,
    old: Seq<DiagnosticView>,
)
    requires
        0 <= i,
        extends(mid, old),
        extends(new, mid),
        in_source_order(g, i, added(mid, old), starts),
        g(i) matches Some(d) ==> added(new, mid).len() > 0 && added(new, mid)[0] == d,
    ensures
        in_source_order(g, i + 1, added(new, old), starts.push(mid.len() - old.len())),
{
    reveal(in_source_order);
    let next = starts.push(mid.len() - old.len());
    let a0 = added(mid, old);
    let a1 = added(new, old);
    assert forall|k: int| 0 <= k < i + 1 implies (#[trigger] g(k) matches Some(d) ==> next[k] < a1.len() && a1[next[k]]
        == d && (k + 1 < i + 1 ==> next[k] < next[k + 1])) by {
        if let Some(d) = g(k) {
            if k < i {
                assert(next[k] == starts[k]);
                assert(a0[starts[k]] == d);
                assert(new[old.len() + starts[k]] == mid[old.len() + starts[k]]);
                if k + 1 < i {
                    assert(next[k + 1] == starts[k + 1]);
                }
            } else {
                assert(added(new, mid)[0] == d);
                assert(new[mid.len() as int] == d);
            }
        }
    }
    assert forall|k: int, l: int| 0 <= k < l < i + 1 implies #[trigger] next[k] <= #[trigger] next[l] by {
        if l < i {
            assert(next[k] == starts[k] && next[l] == starts[l]);
        } else {
            assert(next[k] == starts[k]);
        }
    }
    assert forall|k: int| 0 <= k < i + 1 implies 0 <= #[trigger] next[k] <= a1.len() by {
        if k < i {
            assert(next[k] == starts[k]);
        }
    }
}

/// If what `g` gives for the positions before `i` was added to the sink
/// between `old` and `mid`, and what it gives for `i` was added first
/// between `mid` and `new`, then what it gives for the positions up to `i`
/// was added between `old` and `new`.
proof fn lemma_next_reported(
    g: spec_fn(int) -> Option<DiagnosticView>,
    i: int,
    new: Seq<DiagnosticView>,
    mid: Seq<DiagnosticView>,
    old: Seq<DiagnosticView>,
)
    requires
        extends(mid, old),
        extends(new, mid),
        forall|k: int| 0 <= k < i ==> (#[trigger] g(k) matches Some(d) ==> added(mid, old).contains(d)),
        g(i) matches Some(d) ==> added(new, mid).len() > 0 && added(new, mid)[0] == d,
    ensures
        forall|k: int| 0 <= k < i + 1 ==> (#[trigger] g(k) matches Some(d) ==> added(new, old).contains(d)),
{
    assert forall|k: int| 0 <= k < i + 1 implies (#[trigger] g(k) matches Some(d) ==> added(new, old).contains(
        d,
    )) by {
        if let Some(d) = g(k) {
            if k < i {
                lemma_added_stays(new, mid, old, d);
            } else {
                assert(added(new, mid)[0] == d);
                assert(new[mid.len() as int] == d);
                assert(added(new, old)[mid.len() - old.len()] == d);
            }
        }
    }
}

impl ScriptValue {
    /// Validates one field of a numeric expression. `have_value` says
    /// whether the expression has a value before the field, and `armed`
    /// whether an `else_if` or `else` may stand here. Returns whether the
    /// expression has a value after the field, and whether an `else_if` or
    /// `else` may follow.
    pub fn validate_key(
        token: &Token,
        op: Comparator,
        bv: &BV,
        data: &Everything,
        sc: &mut ScopeContext,
        have_value: TriBool,
        armed: bool,
        check_desc: bool,
        caches: &mut Caches,
        sink: &mut Sink,
    ) -> (r: (TriBool, bool))
        requires
            fits(old(caches), data),
        ensures
            kept(final(sc)@, old(sc)@, final(caches), old(caches), final(sink)@, old(sink)@),
            r.0 == next_state(token@, *bv, &data.catalog, have_value),
            r.1 == arms(token@, *bv, &data.catalog),
            grammar_diag(*token, &data.catalog, have_value, armed) matches Some(d) ==> added(
                final(sink)@,
                old(sink)@,
            ).len() > 0 && added(final(sink)@, old(sink)@)[0] == d,
            comes_to(
                field_out(*token, op, *bv, data, check_desc, have_value, armed, state(old(sc)@, old(caches))),
                final(sc)@,
                final(caches),
                final(sink)@,
                old(sink)@,
            ),
        decreases old(caches).budget(), 1int, bv, 7int,
    {
        let classified = classify(token, data);
        Self::report_grammar(token, classified.class, data, have_value, armed, sink);
        let ghost s1 = sink@;
        let ghost reported = only(
            state(old(sc)@, old(caches)),
            grammar_diags(*token, &data.catalog, have_value, armed),
        );
        let ghost class = classified.class;
        let r = Self::validate_operand(token, op, bv, classified, data, sc, have_value, check_desc, caches, sink);
        proof {
            if let Some(d) = grammar_diag(*token, &data.catalog, have_value, armed) {
                lemma_added_first(sink@, old(sink)@, d);
            }
            lemma_after(
                reported,
                operand_out(class, *token, op, *bv, data, check_desc, have_value, state(old(sc)@, old(caches))),
                old(sc)@,
                sc@,
                old(caches),
                caches,
                old(sink)@,
                s1,
                sink@,
            );
        }
        r
    }

    /// Reports what the grammar itself finds wrong with a key.
    fn report_grammar(
        token: &Token,
        class: KeyClass,
        data: &Everything,
        have_value: TriBool,
        armed: bool,
        sink: &mut Sink,
    )
        requires
            class == key_class(token@, &data.catalog),
        ensures
            final(sink)@ == old(sink)@ + grammar_diags(*token, &data.catalog, have_value, armed),
            final(sink)@ == (match grammar_diag(*token, &data.catalog, have_value, armed) {
                Some(d) => old(sink)@.push(d),
                None => old(sink)@,
            }),
    {
        match class {
            KeyClass::Value => {
                match have_value {
                    TriBool::True => {
                        sink.warn(
                            token.loc(),
                            ErrorKey::Logic,
                            "setting value here will overwrite the previous calculations",
                        );
                    },
                    _ => {},
                }
            },
            KeyClass::Multiply | KeyClass::Round => {
                match have_value {
                    TriBool::False => {
                        Self::warn_nothing_yet(token, sink);
                    },
                    _ => {},
                }
            },
            KeyClass::Range => {
                match have_value {
                    TriBool::True => {
                        sink.warn(
                            token.loc(),
                            ErrorKey::Logic,
                            "using fixed_range here will overwrite the previous calculations",
                        );
                    },
                    _ => {},
                }
            },
            KeyClass::ElseIf => {
                if !armed {
                    sink.warn(token.loc(), ErrorKey::Validation, "`else_if` without preceding `if`");
                }
            },
            KeyClass::Else => {
                if !armed {
                    sink.warn(token.loc(), ErrorKey::Validation, "`else` without preceding `if`");
                }
            },
            KeyClass::Iterator(ltype) => {
                match ltype {
                    ListType::Any => {
                        sink.error(
                            token.loc(),
                            ErrorKey::Validation,
                            "cannot use `any_` iterators in a script value",
                        );
                    },
                    _ => {},
                }
            },
            _ => {},
        }
        assert(sink@ =~= old(sink)@ + grammar_diags(*token, &data.catalog, have_value, armed));
    }

    /// Validates the value of a field of a numeric expression, as the
    /// field's class asks.
    fn validate_operand(
        token: &Token,
        op: Comparator,
        bv: &BV,
        classified: Classified,
        data: &Everything,
        sc: &mut ScopeContext,
        have_value: TriBool,
        check_desc: bool,
        caches: &mut Caches,
        sink: &mut Sink,
    ) -> (r: (TriBool, bool))
        requires
            fits(old(caches), data),
            classified.class == key_class(token@, &data.catalog),
            classified.class is Iterator ==> lists(
                classified.list,
                walked_list(token@, data).from,
                walked_list(token@, data).to,
            ),
        ensures
            kept(final(sc)@, old(sc)@, final(caches), old(caches), final(sink)@, old(sink)@),
            r.0 == next_state(token@, *bv, &data.catalog, have_value),
            r.1 == arms(token@, *bv, &data.catalog),
            comes_to(
                operand_out(
                    classified.class,
                    *token,
                    op,
                    *bv,
                    data,
                    check_desc,
                    have_value,
                    state(old(sc)@, old(caches)),
                ),
                final(sc)@,
                final(caches),
                final(sink)@,
                old(sink)@,
            ),
        decreases old(caches).budget(), 1int, bv, 6int,
    {
        let Classified { class, list } = classified;
        proof {
            lemma_only(sc@, Seq::empty(), caches, sink@);
        }
        match class {
            KeyClass::SaveScope => {
                if let Some(name) = bv.expect_value(sink) {
                    sc.save_current_scope(name);
                }
                (have_value, false)
            },
            KeyClass::SaveValue => {
                if let Some(name) = bv.expect_value(sink) {
                    sc.define_name(name.as_str(), Scopes { bits: SCOPE_VALUE }, name.loc());
                }
                (have_value, false)
            },
            KeyClass::Value | KeyClass::Add => {
                let _ = Self::validate_bv_2(bv, data, sc, check_desc, caches, sink);
                (TriBool::True, false)
            },
            KeyClass::Multiply => {
                let _ = Self::validate_bv_2(bv, data, sc, check_desc, caches, sink);
                (have_value, false)
            },
            KeyClass::Round => {
                if let Some(value) = bv.expect_value(sink) {
                    if !value.is("yes") && !value.is("no") {
                        sink.warn(value.loc(), ErrorKey::Validation, "expected yes or no");
                    }
                }
                assert(sink@ =~= old(sink)@ + simple_diags(class, *bv));
                (have_value, false)
            },
            KeyClass::Range => {
                if let Some(block) = bv.expect_block(sink) {
                    Self::validate_minmax_range(block, data, sc, check_desc, caches, sink);
                }
                (TriBool::True, false)
            },
            KeyClass::If | KeyClass::ElseIf => {
                if let Some(block) = bv.expect_block(sink) {
                    Self::validate_if(block, data, sc, check_desc, caches, sink);
                }
                (TriBool::Maybe, true)
            },
            KeyClass::Else => {
                let mut rearmed = false;
                if let Some(block) = bv.expect_block(sink) {
                    Self::validate_else(block, data, sc, check_desc, caches, sink);
                    // An `else` with a `limit` works like an `else_if`, so
                    // another branch may follow it.
                    rearmed = block.has_key("limit");
                }
                (TriBool::Maybe, rearmed)
            },
            KeyClass::Iterator(ListType::Any) => (have_value, false),
            KeyClass::Iterator(ltype) => {
                let state = match list {
                    Some((it_name, inscopes, outscope)) => Self::validate_walk(
                        token,
                        bv,
                        ltype,
                        &it_name,
                        inscopes,
                        outscope,
                        data,
                        sc,
                        have_value,
                        check_desc,
                        caches,
                        sink,
                    ),
                    None => have_value,
                };
                (state, false)
            },
            KeyClass::Ignored => (have_value, false),
            KeyClass::Chain => {
                let state = Self::validate_chained(token, op, bv, data, sc, have_value, check_desc, caches, sink);
                (state, false)
            },
        }
    }

    /// Validates a walk over a list: the active scope must have the list,
    /// and the block is validated in the scope of the list's elements.
    fn validate_walk(
        token: &Token,
        bv: &BV,
        ltype: ListType,
        it_name: &Token,
        inscopes: Scopes,
        outscope: Scopes,
        data: &Everything,
        sc: &mut ScopeContext,
        have_value: TriBool,
        check_desc: bool,
        caches: &mut Caches,
        sink: &mut Sink,
    ) -> (r: TriBool)
        requires
            fits(old(caches), data),
            inscopes == walked_list(token@, data).from,
            outscope == walked_list(token@, data).to,
        ensures
            kept(final(sc)@, old(sc)@, final(caches), old(caches), final(sink)@, old(sink)@),
            r == if bv is Block { TriBool::Maybe } else { have_value },
            comes_to(
                walk_operand_out(ltype, *token, *bv, data, check_desc, state(old(sc)@, old(caches))),
                final(sc)@,
                final(caches),
                final(sink)@,
                old(sink)@,
            ),
        decreases old(caches).budget(), 1int, bv, 5int,
    {
        proof {
            law_expect_narrows(sc@, inscopes);
        }
        sc.expect(inscopes, token, sink);
        let ghost narrowed = only(
            state(old(sc)@, old(caches)).expect(inscopes),
            old(sc)@.expect_diags(inscopes, token@, *token.loc()),
        );
        let ghost c1 = sc@;
        let ghost s1 = sink@;
        if let Some(block) = bv.expect_block(sink) {
            precheck_iterator_fields(ltype, block, data, sc, caches, sink);
            let ghost checked = after(narrowed, precheck_out(ltype, block, data, narrowed.st));
            let ghost (c2, k2, s2) = (sc@, *caches, sink@);
            proof {
                lemma_after(
                    narrowed,
                    precheck_out(ltype, block, data, narrowed.st),
                    c1,
                    c2,
                    old(caches),
                    &k2,
                    old(sink)@,
                    s1,
                    s2,
                );
            }
            sc.open_scope(outscope, token);
            let ghost opened = sc@;
            Self::validate_iterator(ltype, it_name, block, data, sc, check_desc, caches, sink);
            let ghost inside = sc@;
            sc.close();
            proof {
                law_close_gives_back(c2, opened, inside);
                lemma_after(
                    checked,
                    closed(iterator_out(ltype, block, data, check_desc, state(opened, &k2)), c2),
                    c2,
                    sc@,
                    &k2,
                    caches,
                    old(sink)@,
                    s2,
                    sink@,
                );
            }
            TriBool::Maybe
        } else {
            proof {
                lemma_after(
                    narrowed,
                    only(narrowed.st, bv.expect_block_diags()),
                    c1,
                    sc@,
                    old(caches),
                    caches,
                    old(sink)@,
                    s1,
                    sink@,
                );
            }
            have_value
        }
    }

    /// Validates a field whose key is a scope chain: the chain is followed
    /// in a scope under construction, and if it leads somewhere and the
    /// value is a block, the block is validated as a numeric expression in
    /// the scope that the chain leads to.
    fn validate_chained(
        token: &Token,
        op: Comparator,
        bv: &BV,
        data: &Everything,
        sc: &mut ScopeContext,
        have_value: TriBool,
        check_desc: bool,
        caches: &mut Caches,
        sink: &mut Sink,
    ) -> (r: TriBool)
        requires
            fits(old(caches), data),
        ensures
            kept(final(sc)@, old(sc)@, final(caches), old(caches), final(sink)@, old(sink)@),
            r == if chain_known(token@, &data.catalog) && bv is Block { TriBool::Maybe } else { have_value },
            comes_to(
                chain_operand_out(*token, op, *bv, data, check_desc, have_value, state(old(sc)@, old(caches))),
                final(sc)@,
                final(caches),
                final(sink)@,
                old(sink)@,
            ),
        decreases old(caches).budget(), 1int, bv, 5int,
    {
        let mut having = have_value;
        sc.open_builder();
        let quiet = match op {
            Comparator::QEq => true,
            _ => false,
        };
        let ghost started = sc@;
        let known = validate_scope_chain(token, data, sc, quiet, sink);
        let ghost followed = only(
            state(old(sc)@, old(caches)).with(chain_end(*token, started, &data.catalog)),
            chain_findings(*token, started, &data.catalog, op == Comparator::QEq),
        );
        let ghost s1 = sink@;
        let ghost c1 = sc@;
        if known {
            if let Some(block) = bv.expect_block(sink) {
                sc.finalize_builder();
                let vd = Validator::new(block, data);
                assert(vd.marks() =~= no_marks(block));
                let _ = Self::validate_inner(vd, data, sc, have_value, check_desc, caches, sink);
                having = TriBool::Maybe;
                proof {
                    lemma_after(
                        only(followed.st.finalize(), followed.diags),
                        fields_out(block, no_marks(block), data, check_desc, have_value, followed.st.finalize()),
                        c1.finalize(),
                        sc@,
                        old(caches),
                        caches,
                        old(sink)@,
                        s1,
                        sink@,
                    );
                }
            } else {
                proof {
                    lemma_after(
                        followed,
                        only(followed.st, bv.expect_block_diags()),
                        c1,
                        sc@,
                        old(caches),
                        caches,
                        old(sink)@,
                        s1,
                        sink@,
                    );
                }
            }
        }
        let ghost inside = sc@;
        sc.close();
        proof {
            law_close_gives_back(old(sc)@, started, inside);
        }
        having
    }

    /// Reports an operation on a value that is not there yet.
    fn warn_nothing_yet(token: &Token, sink: &mut Sink)
        ensures
            final(sink)@ == old(sink)@.push(
                diag(Severity::Warning, ErrorKey::Logic, *token.loc(), nothing_yet_msg(token@)),
            ),
    {
        let mut msg = String::from_str("nothing to ");
        msg.append(token.as_str());
        msg.append(" yet");
        sink.warn(token.loc(), ErrorKey::Logic, msg.as_str());
    }

    /// Validates the fields of a numeric expression that the validator has
    /// not claimed, in source order. `have_value` says whether the
    /// expression has a value at the start; the result says whether it has
    /// one at the end.
    pub fn validate_inner(
        vd: Validator,
        data: &Everything,
        sc: &mut ScopeContext,
        have_value: TriBool,
        check_desc: bool,
        caches: &mut Caches,
        sink: &mut Sink,
    ) -> (r: TriBool)
        requires
            fits(old(caches), data),
            vd.wf(),
            vd.data() == data,
        ensures
            kept(final(sc)@, old(sc)@, final(caches), old(caches), final(sink)@, old(sink)@),
            r == state_at(
                vd.block().items@,
                head_marks(vd.marks(), vd.block().items@),
                &data.catalog,
                have_value,
                vd.block().items@.len() as int,
            ),
            forall|i: int|
                0 <= i < vd.block().items@.len() ==> (#[trigger] grammar_at(
                    vd.block().items@,
                    head_marks(vd.marks(), vd.block().items@),
                    &data.catalog,
                    have_value,
                    i,
                ) matches Some(d) ==> added(final(sink)@, old(sink)@).contains(d)),
            exists|starts: Seq<int>|
                in_source_order(
                    grammar_of(
                        vd.block().items@,
                        head_marks(vd.marks(), vd.block().items@),
                        &data.catalog,
                        have_value,
                    ),
                    vd.block().items@.len() as int,
                    added(final(sink)@, old(sink)@),
                    starts,
                ),
            comes_to(
                fields_out(vd.block(), vd.marks(), data, check_desc, have_value, state(old(sc)@, old(caches))),
                final(sc)@,
                final(caches),
                final(sink)@,
                old(sink)@,
            ),
        decreases old(caches).budget(), 1int, vd.block(), 0int,
    {
        let block = vd.get_block();
        let claimed = claim_head(vd, check_desc, sink);
        let ghost marks = head_marks(vd.marks(), block.items@);
        let ghost st0 = state(old(sc)@, old(caches));
        let ghost s_first = sink@;
        let ghost g = grammar_of(block.items@, marks, &data.catalog, have_value);
        let ghost mut starts: Seq<int> = Seq::empty();
        proof {
            assert(s_first + Seq::<DiagnosticView>::empty() =~= s_first);
            assert(walked_so_far(block, marks, data, check_desc, have_value, st0, 0, sc@, caches, sink@, s_first)) by {
                reveal(walked_so_far);
            }
            assert(in_source_order(g, 0, added(sink@, old(sink)@), starts)) by {
                reveal(in_source_order);
            }
        }
        let mut having = have_value;
        let mut armed = false;
        let mut i: usize = 0;
        while i < block.items.len()
            invariant
                i <= block.items@.len(),
                fits(old(caches), data),
                st0 == state(old(sc)@, old(caches)),
                kept(sc@, old(sc)@, caches, old(caches), sink@, old(sink)@),
                extends(s_first, old(sink)@),
                extends(sink@, s_first),
                block == vd.block(),
                claimed@ == marks,
                marks.len() == block.items@.len(),
                having == state_at(block.items@, marks, &data.catalog, have_value, i as int),
                armed == armed_at(block.items@, marks, &data.catalog, i as int),
                g == grammar_of(block.items@, marks, &data.catalog, have_value),
                forall|k: int| 0 <= k < i ==> (#[trigger] g(k) matches Some(d) ==> added(sink@, old(sink)@).contains(d)),
                in_source_order(g, i as int, added(sink@, old(sink)@), starts),
                walked_so_far(block, marks, data, check_desc, have_value, st0, i as int, sc@, caches, sink@, s_first),
            decreases block.items@.len() - i,
        {
            let ghost s_mid = sink@;
            let ghost c_mid = sc@;
            let ghost k_mid = *caches;
            match &block.items[i] {
                BlockItem::Field(token, op, bv) => {
                    if !claimed[i] {
                        proof {
                            lemma_field_smaller(block, i as int);
                        }
                        let (next, rearmed) = Self::validate_key(
                            token,
                            *op,
                            bv,
                            data,
                            sc,
                            having,
                            armed,
                            check_desc,
                            caches,
                            sink,
                        );
                        having = next;
                        armed = rearmed;
                    }
                },
                _ => {},
            }
            proof {
                lemma_next_reported(g, i as int, sink@, s_mid, old(sink)@);
                lemma_source_order_step(g, i as int, starts, sink@, s_mid, old(sink)@);
                starts = starts.push(s_mid.len() - old(sink)@.len());
                lemma_walk_step(
                    block,
                    marks,
                    data,
                    check_desc,
                    have_value,
                    st0,
                    i as int,
                    sc@,
                    caches,
                    c_mid,
                    &k_mid,
                    sink@,
                    s_mid,
                    s_first,
                );
            }
            i += 1;
        }
        proof {
            assert forall|k: int| 0 <= k < block.items@.len() implies (#[trigger] grammar_at(
                block.items@,
                marks,
                &data.catalog,
                have_value,
                k,
            ) matches Some(d) ==> added(sink@, old(sink)@).contains(d)) by {
                assert(g(k) == grammar_at(block.items@, marks, &data.catalog, have_value, k));
            }
            reveal(walked_so_far);
            lemma_only(old(sc)@, head_diags(block, data, check_desc), old(caches), old(sink)@);
            lemma_after(
                only(st0, head_diags(block, data, check_desc)),
                walk_fields(block, marks, data, check_desc, have_value, st0, block.items@.len() as int),
                old(sc)@,
                sc@,
                old(caches),
                caches,
                old(sink)@,
                s_first,
                sink@,
            );
        }
        having
    }

    /// Validates the walk over a list: the `limit` on its elements, the
    /// fields that steer it, and the numeric expression that is its body.
    fn validate_iterator(
        ltype: ListType,
        it_name: &Token,
        block: &Block,
        data: &Everything,
        sc: &mut ScopeContext,
        check_desc: bool,
        caches: &mut Caches,
        sink: &mut Sink,
    )
        requires
            fits(old(caches), data),
        ensures
            kept(final(sc)@, old(sc)@, final(caches), old(caches), final(sink)@, old(sink)@),
            comes_to(
                iterator_out(ltype, block, data, check_desc, state(old(sc)@, old(caches))),
                final(sc)@,
                final(caches),
                final(sink)@,
                old(sink)@,
            ),
        decreases old(caches).budget(), 1int, block, 3int,
    {
        let mut vd = Validator::new(block, data);
        assert(vd.marks() =~= no_marks(block));
        Self::validate_limit(&mut vd, false, data, sc, caches, sink);
        let ghost limited = after(
            only(state(old(sc)@, old(caches)), limit_diags(block, data)),
            limit_out(block, data, state(old(sc)@, old(caches))),
        );
        let ghost (c1, k1, s1) = (sc@, *caches, sink@);
        validate_iterator_fields(ltype, data, sc, &mut vd, caches, sink);
        let ghost steered = after(limited, steering_out(ltype, block, data, limited.st));
        let ghost (c2, k2, s2) = (sc@, *caches, sink@);
        proof {
            lemma_after(limited, steering_out(ltype, block, data, limited.st), c1, c2, &k1, &k2, old(sink)@, s1, s2);
        }
        validate_inside_iterator(it_name.as_str(), ltype, block, data, sc, &mut vd, Tooltipped::No, sink);
        let ghost inside = after(steered, only(steered.st, inside_diags(block, data)));
        let ghost s3 = sink@;
        proof {
            lemma_after(steered, only(steered.st, inside_diags(block, data)), c2, c2, &k2, &k2, old(sink)@, s2, s3);
        }
        let _ = Self::validate_inner(vd, data, sc, TriBool::Maybe, check_desc, caches, sink);
        proof {
            lemma_after(
                inside,
                fields_out(block, body_marks(ltype, block), data, check_desc, TriBool::Maybe, inside.st),
                c2,
                sc@,
                &k2,
                caches,
                old(sink)@,
                s3,
                sink@,
            );
        }
    }

    /// Claims the `limit` of a block and validates it as a block of
    /// triggers. With `is_else` a `limit` that holds a block is remarked
    /// on, since `else_if` is the usual way to write it.
    fn validate_limit(
        vd: &mut Validator,
        is_else: bool,
        data: &Everything,
        sc: &mut ScopeContext,
        caches: &mut Caches,
        sink: &mut Sink,
    )
        requires
            fits(old(caches), data),
            old(vd).wf(),
            old(vd).data() == data,
        ensures
            kept(final(sc)@, old(sc)@, final(caches), old(caches), final(sink)@, old(sink)@),
            final(vd).wf(),
            final(vd).block() == old(vd).block(),
            final(vd).data() == old(vd).data(),
            final(vd).marks() == claim(old(vd).marks(), old(vd).block().items@, "limit"@),
            comes_to(after(
                    only(
                        state(old(sc)@, old(caches)),
                        if is_else {
                            limit_diags(old(vd).block(), data) + else_limit_diags(old(vd).block())
                        } else {
                            limit_diags(old(vd).block(), data)
                        },
                    ),
                    limit_out(old(vd).block(), data, state(old(sc)@, old(caches))),
                ), final(sc)@, final(caches), final(sink)@, old(sink)@),
        decreases old(caches).budget(), 1int, old(vd).block(), 1int,
    {
        let ghost block = vd.block();
        let found = claim_limit(vd, sink);
        if let Some((key, b)) = found {
            if is_else {
                sink.advice_info(
                    key.loc(),
                    ErrorKey::IfElse,
                    "`else` with a `limit` does work, but may indicate a mistake",
                    "normally you would use `else_if` instead.",
                );
            }
        }
        let ghost first = only(
            state(old(sc)@, old(caches)),
            if is_else {
                limit_diags(block, data) + else_limit_diags(block)
            } else {
                limit_diags(block, data)
            });
        let ghost s1 = sink@;
        assert(s1 =~= old(sink)@ + first.diags);
        if let Some((_, b)) = found {
            validate_normal_trigger(b, data, sc, Tooltipped::No, caches, sink);
        } else {
            proof {
                lemma_only(sc@, Seq::empty(), caches, sink@);
            }
        }
        proof {
            lemma_after(
                first,
                limit_out(block, data, state(old(sc)@, old(caches))),
                old(sc)@,
                sc@,
                old(caches),
                caches,
                old(sink)@,
                s1,
                sink@,
            );
        }
    }

    /// Validates a range: a block with the two required numeric
    /// expressions `min` and `max`.
    fn validate_minmax_range(
        block: &Block,
        data: &Everything,
        sc: &mut ScopeContext,
        check_desc: bool,
        caches: &mut Caches,
        sink: &mut Sink,
    )
        requires
            fits(old(caches), data),
        ensures
            kept(final(sc)@, old(sc)@, final(caches), old(caches), final(sink)@, old(sink)@),
            comes_to(
                range_out(block, data, check_desc, state(old(sc)@, old(caches))),
                final(sc)@,
                final(caches),
                final(sink)@,
                old(sink)@,
            ),
        decreases old(caches).budget(), 1int, block, 2int,
    {
        let mut vd = Validator::new(block, data);
        assert(vd.marks() =~= no_marks(block));
        let _ = vd.req_field("min", sink);
        let _ = vd.req_field("max", sink);
        let ghost first = only(
            state(old(sc)@, old(caches)),
            required_diags(block, "min"@, Severity::Error) + required_diags(block, "max"@, Severity::Error));
        let ghost s1 = sink@;
        assert(s1 =~= old(sink)@ + first.diags);
        Self::validate_named(block, "min", data, sc, check_desc, caches, sink);
        let ghost mins = after(
            first,
            values_walk(block, "min"@, data, check_desc, state(old(sc)@, old(caches)), block.items@.len() as int),
        );
        let ghost (c2, k2, s2) = (sc@, *caches, sink@);
        proof {
            lemma_after(
                first,
                values_walk(block, "min"@, data, check_desc, state(old(sc)@, old(caches)), block.items@.len() as int),
                old(sc)@,
                c2,
                old(caches),
                &k2,
                old(sink)@,
                s1,
                s2,
            );
        }
        Self::validate_named(block, "max", data, sc, check_desc, caches, sink);
        let ghost maxs = after(
            mins,
            values_walk(block, "max"@, data, check_desc, mins.st, block.items@.len() as int),
        );
        let ghost (c3, k3, s3) = (sc@, *caches, sink@);
        proof {
            lemma_after(
                mins,
                values_walk(block, "max"@, data, check_desc, mins.st, block.items@.len() as int),
                c2,
                c3,
                &k2,
                &k3,
                old(sink)@,
                s2,
                s3,
            );
        }
        let _ = vd.field_bvs("min", sink);
        let _ = vd.field_bvs("max", sink);
        vd.finish(sink);
        proof {
            lemma_only(c3, beside_ends(block), &k3, s3);
            lemma_after(maxs, only(maxs.st, beside_ends(block)), c3, sc@, &k3, caches, old(sink)@, s3, sink@);
        }
    }

    /// Validates the value of each field called `name` as a numeric
    /// expression, in source order.
    fn validate_named(
        block: &Block,
        name: &str,
        data: &Everything,
        sc: &mut ScopeContext,
        check_desc: bool,
        caches: &mut Caches,
        sink: &mut Sink,
    )
        requires
            fits(old(caches), data),
        ensures
            kept(final(sc)@, old(sc)@, final(caches), old(caches), final(sink)@, old(sink)@),
            comes_to(
                values_walk(block, name@, data, check_desc, state(old(sc)@, old(caches)), block.items@.len() as int),
                final(sc)@,
                final(caches),
                final(sink)@,
                old(sink)@,
            ),
        decreases old(caches).budget(), 1int, block, 1int,
    {
        let ghost st0 = state(old(sc)@, old(caches));
        proof {
            assert(sink@ + Seq::<DiagnosticView>::empty() =~= sink@);
            assert(valued_so_far(block, name@, data, check_desc, st0, 0, sc@, caches, sink@, old(sink)@)) by {
                reveal(valued_so_far);
            }
        }
        let mut i: usize = 0;
        while i < block.items.len()
            invariant
                i <= block.items@.len(),
                fits(old(caches), data),
                st0 == state(old(sc)@, old(caches)),
                kept(sc@, old(sc)@, caches, old(caches), sink@, old(sink)@),
                valued_so_far(block, name@, data, check_desc, st0, i as int, sc@, caches, sink@, old(sink)@),
            decreases block.items@.len() - i,
        {
            let ghost s_mid = sink@;
            let ghost c_mid = sc@;
            let ghost k_mid = *caches;
            if block.items[i].has_name(name, Shape::Any) {
                match &block.items[i] {
                    BlockItem::Field(_, _, bv) => {
                        proof {
                            lemma_field_smaller(block, i as int);
                        }
                        let _ = Self::validate_bv_2(bv, data, sc, check_desc, caches, sink);
                    },
                    _ => {},
                }
            }
            proof {
                lemma_value_step(
                    block,
                    name@,
                    data,
                    check_desc,
                    st0,
                    i as int,
                    sc@,
                    caches,
                    c_mid,
                    &k_mid,
                    sink@,
                    s_mid,
                    old(sink)@,
                );
            }
            i += 1;
        }
        proof {
            reveal(valued_so_far);
        }
    }

    /// Validates the block of an `if` or `else_if`: its `limit`, which it
    /// should have, as a trigger, and the rest as a numeric expression.
    fn validate_if(
        block: &Block,
        data: &Everything,
        sc: &mut ScopeContext,
        check_desc: bool,
        caches: &mut Caches,
        sink: &mut Sink,
    )
        requires
            fits(old(caches), data),
        ensures
            kept(final(sc)@, old(sc)@, final(caches), old(caches), final(sink)@, old(sink)@),
            comes_to(
                branch_out(block, data, check_desc, state(old(sc)@, old(caches)), false),
                final(sc)@,
                final(caches),
                final(sink)@,
                old(sink)@,
            ),
        decreases old(caches).budget(), 1int, block, 2int,
    {
        let mut vd = Validator::new(block, data);
        assert(vd.marks() =~= no_marks(block));
        let _ = vd.req_field_warn("limit", sink);
        let ghost missing = only(state(old(sc)@, old(caches)), required_diags(block, "limit"@, Severity::Warning));
        let ghost s1 = sink@;
        Self::validate_limit(&mut vd, false, data, sc, caches, sink);
        let ghost first = only(
            state(old(sc)@, old(caches)),
            required_diags(block, "limit"@, Severity::Warning) + limit_diags(block, data),
        );
        let ghost limited = after(first, limit_out(block, data, state(old(sc)@, old(caches))));
        let ghost (c2, k2, s2) = (sc@, *caches, sink@);
        proof {
            let claimed = after(
                only(state(old(sc)@, old(caches)), limit_diags(block, data)),
                limit_out(block, data, state(old(sc)@, old(caches))),
            );
            lemma_only(old(sc)@, missing.diags, old(caches), old(sink)@);
            lemma_after(missing, claimed, old(sc)@, c2, old(caches), &k2, old(sink)@, s1, s2);
            assert(after(missing, claimed).diags =~= limited.diags);
        }
        let _ = Self::validate_inner(vd, data, sc, TriBool::Maybe, check_desc, caches, sink);
        proof {
            lemma_after(limited, fields_out(
                    block,
                    claim(no_marks(block), block.items@, "limit"@),
                    data,
                    check_desc,
                    TriBool::Maybe,
                    limited.st,
                ), c2, sc@, &k2, caches, old(sink)@, s2, sink@);
        }
    }

    /// Validates the block of an `else`: a `limit` is allowed, and remarked
    /// on, since `else_if` is the usual way to write it.
    fn validate_else(
        block: &Block,
        data: &Everything,
        sc: &mut ScopeContext,
        check_desc: bool,
        caches: &mut Caches,
        sink: &mut Sink,
    )
        requires
            fits(old(caches), data),
        ensures
            kept(final(sc)@, old(sc)@, final(caches), old(caches), final(sink)@, old(sink)@),
            comes_to(
                branch_out(block, data, check_desc, state(old(sc)@, old(caches)), true),
                final(sc)@,
                final(caches),
                final(sink)@,
                old(sink)@,
            ),
        decreases old(caches).budget(), 1int, block, 2int,
    {
        let mut vd = Validator::new(block, data);
        assert(vd.marks() =~= no_marks(block));
        Self::validate_limit(&mut vd, true, data, sc, caches, sink);
        let ghost first = only(state(old(sc)@, old(caches)), limit_diags(block, data) + else_limit_diags(block));
        let ghost limited = after(first, limit_out(block, data, state(old(sc)@, old(caches))));
        let ghost (c2, k2, s2) = (sc@, *caches, sink@);
        let _ = Self::validate_inner(vd, data, sc, TriBool::Maybe, check_desc, caches, sink);
        proof {
            lemma_after(limited, fields_out(
                    block,
                    claim(no_marks(block), block.items@, "limit"@),
                    data,
                    check_desc,
                    TriBool::Maybe,
                    limited.st,
                ), c2, sc@, &k2, caches, old(sink)@, s2, sink@);
        }
    }

    /// Validates a numeric expression: a token that stands for a value, a
    /// range of two such tokens, or a block of operations. Returns whether
    /// the expression has a value.
    pub fn validate_bv_2(
        bv: &BV,
        data: &Everything,
        sc: &mut ScopeContext,
        check_desc: bool,
        caches: &mut Caches,
        sink: &mut Sink,
    ) -> (r: TriBool)
        requires
            fits(old(caches), data),
        ensures
            kept(final(sc)@, old(sc)@, final(caches), old(caches), final(sink)@, old(sink)@),
            r == expression_state(*bv, data),
            bv is Value ==> final(sc)@ == old(sc)@,
            comes_to(
                expression_out(*bv, data, check_desc, state(old(sc)@, old(caches))),
                final(sc)@,
                final(caches),
                final(sink)@,
                old(sink)@,
            ),
        decreases old(caches).budget(), 1int, bv, 2int,
    {
        // A script value is often set to another with `value = this`, so
        // `this` is accepted as a target here.
        match bv {
            BV::Value(t) => {
                validate_target_ok_this(t, data, sc, value_scopes(), caches, sink);
                TriBool::True
            },
            BV::Block(b) => {
                let mut vd = Validator::new(b, data);
                let is_range = b.items.len() > 0 && match &b.items[0] {
                    BlockItem::Field(_, _, _) => false,
                    _ => true,
                };
                if is_range {
                    // It's a range like { 1 5 }
                    assert(vd.marks() =~= no_marks(b));
                    let vec = vd.values();
                    proof {
                        assert(vec@.len() == words_of(b).len());
                        assert forall|k: int| 0 <= k < vec@.len() implies *(#[trigger] vec@[k]) == words_of(b)[k] by {}
                    }
                    let ghost st0 = state(old(sc)@, old(caches));
                    if vec.len() == 2 {
                        validate_target_ok_this(vec[0], data, sc, value_scopes(), caches, sink);
                        let ghost first = target_ok_this_out(*vec@[0], data, spec_value_scopes(), st0);
                        let ghost (c1, k1, s1) = (sc@, *caches, sink@);
                        validate_target_ok_this(vec[1], data, sc, value_scopes(), caches, sink);
                        proof {
                            lemma_after(
                                first,
                                target_ok_this_out(*vec@[1], data, spec_value_scopes(), state(c1, &k1)),
                                c1,
                                sc@,
                                &k1,
                                caches,
                                old(sink)@,
                                s1,
                                sink@,
                            );
                        }
                    } else {
                        sink.warn(&b.loc, ErrorKey::Validation, "invalid script value range");
                        proof {
                            lemma_only(
                                old(sc)@,
                                seq![
                                    diag(Severity::Warning, ErrorKey::Validation, b.loc, "invalid script value range"@),
                                ],
                                old(caches),
                                old(sink)@,
                            );
                        }
                    }
                    let ghost ends = if words_of(b).len() == 2 {
                        let first = target_ok_this_out(words_of(b)[0], data, spec_value_scopes(), st0);
                        after(first, target_ok_this_out(words_of(b)[1], data, spec_value_scopes(), left(first, st0)))
                    } else {
                        only(
                            st0,
                            seq![diag(Severity::Warning, ErrorKey::Validation, b.loc, "invalid script value range"@)],
                        )
                    };
                    let ghost (c2, k2, s2) = (sc@, *caches, sink@);
                    vd.finish(sink);
                    proof {
                        lemma_only(c2, stray_fields(b), &k2, s2);
                        lemma_after(
                            ends,
                            only(ends.st, stray_fields(b)),
                            c2,
                            sc@,
                            &k2,
                            caches,
                            old(sink)@,
                            s2,
                            sink@,
                        );
                    }
                    TriBool::True
                } else {
                    assert(vd.marks() =~= no_marks(b));
                    Self::validate_inner(vd, data, sc, TriBool::False, check_desc, caches, sink)
                }
            },
        }
    }

    /// Validates a numeric expression whose `desc` and `format` name
    /// localization keys.
    pub fn validate_bv(bv: &BV, data: &Everything, sc: &mut ScopeContext, caches: &mut Caches, sink: &mut Sink) -> (r:
        TriBool)
        requires
            fits(old(caches), data),
        ensures
            kept(final(sc)@, old(sc)@, final(caches), old(caches), final(sink)@, old(sink)@),
            r == expression_state(*bv, data),
            bv is Value ==> final(sc)@ == old(sc)@,
            comes_to(
                expression_out(*bv, data, true, state(old(sc)@, old(caches))),
                final(sc)@,
                final(caches),
                final(sink)@,
                old(sink)@,
            ),
        decreases old(caches).budget(), 1int, bv, 3int,
    {
        Self::validate_bv_2(bv, data, sc, true, caches, sink)
    }

    /// Validates a numeric expression whose `desc` and `format` are free
    /// text.
    pub fn validate_bv_no_breakdown(
        bv: &BV,
        data: &Everything,
        sc: &mut ScopeContext,
        caches: &mut Caches,
        sink: &mut Sink,
    ) -> (r: TriBool)
        requires
            fits(old(caches), data),
        ensures
            kept(final(sc)@, old(sc)@, final(caches), old(caches), final(sink)@, old(sink)@),
            r == expression_state(*bv, data),
            bv is Value ==> final(sc)@ == old(sc)@,
            comes_to(
                expression_out(*bv, data, false, state(old(sc)@, old(caches))),
                final(sc)@,
                final(caches),
                final(sink)@,
                old(sink)@,
            ),
        decreases old(caches).budget(), 1int, bv, 3int,
    {
        Self::validate_bv_2(bv, data, sc, false, caches, sink)
    }

    /// Checks the caller's context against the context that this script
    /// value is remembered to have inferred for the call site of `key`.
    /// Returns whether there was one to check against. `d` is the position
    /// of the script value in the registry.
    pub fn cached_compat(&self, d: usize, key: &Token, sc: &mut ScopeContext, caches: &Caches, sink: &mut Sink) -> (r:
        bool)
        requires
            d < caches.list@.len(),
        ensures
            final(sc)@ == old(sc)@,
            r == caches.has(d as int, key.loc().site()),
            final(sink)@ == old(sink)@ + (if r {
                old(sc)@.compatibility_diags(
                    caches.list@[d as int].contexts()[key.loc().site()],
                    key@,
                    *key.loc(),
                )
            } else {
                Seq::empty()
            }),
    {
        match caches.get(d, key.loc().site()) {
            Some(our_sc) => {
                let _ = sc.expect_compatibility(our_sc, key, sink);
                true
            },
            None => {
                assert(sink@ + Seq::<DiagnosticView>::empty() =~= sink@);
                false
            },
        }
    }

    /// Validates the use of this script value at the call site of `key`,
    /// in the caller's context `sc`. If the call site is remembered, only
    /// the caller's context is checked against what was inferred for it.
    /// If not, a first context is remembered for the site, then the body is
    /// validated in a context of its own, the caller's context is checked
    /// against the result, and the result is remembered in place of the
    /// first. A reference back to this call site from inside the body so
    /// meets the first context, and goes no further. `d` is the position of
    /// the script value in the registry.
    pub fn validate_call(
        &self,
        d: usize,
        key: &Token,
        data: &Everything,
        sc: &mut ScopeContext,
        caches: &mut Caches,
        sink: &mut Sink,
    )
        requires
            fits(old(caches), data),
            d < data.scriptvalues.defs().len(),
            *self == data.scriptvalues.defs()[d as int],
        ensures
            final(sc)@ == old(sc)@,
            kept(final(sc)@, old(sc)@, final(caches), old(caches), final(sink)@, old(sink)@),
            final(caches).has(d as int, key.loc().site()),
            !old(caches).has(d as int, key.loc().site()) ==> final(caches).budget() < old(caches).budget(),
            !old(caches).has(d as int, key.loc().site()) ==> remembered(
                final(caches).list@[d as int].contexts()[key.loc().site()],
                self.scope_override,
            ),
            comes_to(
                call_out(d as int, *key, data, state(old(sc)@, old(caches))),
                final(sc)@,
                final(caches),
                final(sink)@,
                old(sink)@,
            ),
        decreases old(caches).budget(), 0int, key, 1int,
    {
        let site = key.loc().site();
        let ghost st0 = state(old(sc)@, old(caches));
        if !self.cached_compat(d, key, sc, caches, sink) {
            let mut our_sc = ScopeContext::new_unrooted(Scopes::all(), self.key.clone());
            our_sc.set_strict_scopes(false);
            caches.put(d, site, our_sc.clone());
            proof {
                caches.lemma_budget_nonnegative();
            }
            let ghost k1 = *caches;
            let ghost inner = State {
                c: fresh_context(),
                memo: st0.memo.update(d as int, st0.memo[d as int].insert(site, fresh_context())),
                fuel: st0.fuel - 1,
            };
            proof {
                assert(k1.memo() =~= inner.memo);
                assert(state(our_sc@, &k1) == inner);
            }
            let _ = Self::validate_bv(&self.bv, data, &mut our_sc, caches, sink);
            let ghost body = expression_out(self.bv, data, true, inner);
            let ghost k2 = *caches;
            let ghost after_body = our_sc@;
            if let Some(scopes) = self.scope_override {
                our_sc = ScopeContext::new_unrooted(scopes, self.key.clone());
                our_sc.set_strict_scopes(false);
            }
            let _ = sc.expect_compatibility(&our_sc, key, sink);
            assert(caches.has(d as int, site));
            let ghost found = our_sc@;
            caches.put(d, site, our_sc);
            proof {
                assert(found == inferred(self.scope_override, after_body));
                assert(caches.memo() =~= k2.memo().update(d as int, k2.memo()[d as int].insert(site, found)));
                assert(sink@ =~= old(sink)@ + (body.diags + old(sc)@.compatibility_diags(found, key@, *key.loc())));
            }
        }
    }

    /// Validates this script value by itself. One that only says `yes` or
    /// `no` needs no validation. `d` is the position of the script value in
    /// the registry.
    pub fn validate(&self, d: usize, data: &Everything, caches: &mut Caches, sink: &mut Sink)
        requires
            fits(old(caches), data),
            d < data.scriptvalues.defs().len(),
            *self == data.scriptvalues.defs()[d as int],
        ensures
            final(caches).holds_all_of(old(caches)),
            fits(final(caches), data),
            extends(final(sink)@, old(sink)@),
            !self.says_yes_or_no() ==> final(caches).has(d as int, self.key.loc().site()),
            reports(
                alone_out(d as int, data, state(fresh_context(), old(caches))),
                final(caches),
                final(sink)@,
                old(sink)@,
            ),
    {
        assert(sink@ + Seq::<DiagnosticView>::empty() =~= sink@);
        // For some reason, script values can be set to bools as well
        if let Some(token) = self.bv.get_value() {
            if token.is("yes") || token.is("no") {
                return;
            }
        }
        let mut sc = ScopeContext::new_unrooted(Scopes::all(), self.key.clone());
        sc.set_strict_scopes(false);
        self.validate_call(d, &self.key, data, &mut sc, caches, sink);
    }
}

/// A use of a script value at a call site that is remembered validates
/// nothing again: the state stays as it is, and at most one diagnostic is
/// reported, which says that the caller's context and the remembered one
/// have no scope type in common.
pub proof fn law_remembered_call(d: int, key: Token, data: &Everything, st: State)
    requires
        0 <= d < st.memo.len(),
        d < data.scriptvalues.defs().len(),
        st.memo[d].contains_key(key.loc().site()),
    ensures
        call_out(d, key, data, st).st == st,
        call_out(d, key, data, st).diags.len() <= 1,
        call_out(d, key, data, st).diags.len() == 1 <==> !st.c.this.intersects(st.memo[d][key.loc().site()].this),
        call_out(d, key, data, st).diags.len() == 1 ==> call_out(d, key, data, st).diags[0].key == ErrorKey::Scopes,
{
    law_compatibility_reports_once(st.c, st.memo[d][key.loc().site()], key@, *key.loc());
}

/// Two script values of which each says only the name of the other: the
/// validation of a use of the first ends. It validates the first, then
/// the second for the use in the first, then the first for the use in the
/// second; the use of the second that it comes to then is remembered, and
/// it goes no further. It reports nothing, and remembers a fresh context
/// for each of the three call sites.
pub proof fn law_cycle_ends(data: &Everything, key: Token, st: State)
    requires
        data.scriptvalues.defs().len() == 2,
        data.scriptvalues.defs()[0].bv is Value,
        data.scriptvalues.defs()[1].bv is Value,
        !is_number_text(data.scriptvalues.defs()[0].bv->Value_0@),
        !is_number_text(data.scriptvalues.defs()[1].bv->Value_0@),
        data.scriptvalues.position(data.scriptvalues.defs()[0].bv->Value_0@) == Some(1usize),
        data.scriptvalues.position(data.scriptvalues.defs()[1].bv->Value_0@) == Some(0usize),
        data.scriptvalues.defs()[0].scope_override is None,
        data.scriptvalues.defs()[1].scope_override is None,
        key.loc().site() != data.scriptvalues.defs()[1].bv->Value_0.loc().site(),
        st.c == fresh_context(),
        st.memo == seq![Map::<Site, ContextView>::empty(), Map::<Site, ContextView>::empty()],
        st.fuel >= 3,
    ensures
        call_out(0, key, data, st).diags == Seq::<DiagnosticView>::empty(),
        call_out(0, key, data, st).st.c == st.c,
        call_out(0, key, data, st).st.fuel == st.fuel - 3,
        call_out(0, key, data, st).st.memo == seq![
            Map::<Site, ContextView>::empty().insert(key.loc().site(), fresh_context()).insert(
                data.scriptvalues.defs()[1].bv->Value_0.loc().site(),
                fresh_context(),
            ),
            Map::<Site, ContextView>::empty().insert(
                data.scriptvalues.defs()[0].bv->Value_0.loc().site(),
                fresh_context(),
            ),
        ],
{
    let first = data.scriptvalues.defs()[0];
    let second = data.scriptvalues.defs()[1];
    let to_second = first.bv->Value_0;
    let to_first = second.bv->Value_0;
    let fresh = fresh_context();
    let none = Map::<Site, ContextView>::empty();
    let none_yet = Seq::<DiagnosticView>::empty();
    assert(fresh.this.intersects(fresh.this)) by {
        assert(SCOPE_ALL & SCOPE_ALL != 0) by (bit_vector);
    }
    assert(fresh.compatibility_diags(fresh, to_second@, *to_second.loc()) == none_yet);
    assert(fresh.compatibility_diags(fresh, to_first@, *to_first.loc()) == none_yet);
    assert(fresh.compatibility_diags(fresh, key@, *key.loc()) == none_yet);
    let memo1 = seq![none.insert(key.loc().site(), fresh), none];
    let memo2 = seq![none.insert(key.loc().site(), fresh), none.insert(to_second.loc().site(), fresh)];
    let memo3 = seq![
        none.insert(key.loc().site(), fresh).insert(to_first.loc().site(), fresh),
        none.insert(to_second.loc().site(), fresh),
    ];
    let inner1 = State { c: fresh, memo: memo1, fuel: st.fuel - 1 };
    let inner2 = State { c: fresh, memo: memo2, fuel: st.fuel - 2 };
    let inner3 = State { c: fresh, memo: memo3, fuel: st.fuel - 3 };
    assert(st.memo.update(0, st.memo[0].insert(key.loc().site(), fresh)) =~= memo1);
    assert(memo1.update(1, memo1[1].insert(to_second.loc().site(), fresh)) =~= memo2);
    assert(memo2.update(0, memo2[0].insert(to_first.loc().site(), fresh)) =~= memo3);
    assert(memo3[0].insert(to_first.loc().site(), fresh) =~= memo3[0]);
    assert(memo3[1].insert(to_second.loc().site(), fresh) =~= memo3[1]);
    assert(memo3[0].insert(key.loc().site(), fresh) =~= memo3[0]);
    assert(memo3.update(0, memo3[0]) =~= memo3);
    assert(memo3.update(1, memo3[1]) =~= memo3);
    // The use of the second in the first, for the second time.
    let fourth = call_out(1, to_second, data, inner3);
    assert(fourth == only(inner3, none_yet));
    assert(target_ok_this_out(to_second, data, spec_value_scopes(), inner3) == fourth);
    assert(expression_out(first.bv, data, true, inner3) == fourth);
    // The use of the first in the second.
    let third = call_out(0, to_first, data, inner2);
    assert(third.diags =~= none_yet);
    assert(third.st == inner3.with(fresh));
    assert(target_ok_this_out(to_first, data, spec_value_scopes(), inner2) == third);
    assert(expression_out(second.bv, data, true, inner2) == third);
    // The use of the second in the first.
    let again = call_out(1, to_second, data, inner1);
    assert(again.diags =~= none_yet);
    assert(again.st == inner3);
    assert(target_ok_this_out(to_second, data, spec_value_scopes(), inner1) == again);
    assert(expression_out(first.bv, data, true, inner1) == again);
    // The use of the first.
    let whole = call_out(0, key, data, st);
    assert(whole.diags =~= none_yet);
    assert(whole.st.memo == memo3);
}

/// What is remembered of the validation of a script value's body: a
/// lenient context at the outermost level, whose outermost scope can have
/// any type. Where the configuration says which scope types the script
/// value is for, those are its active set, and it binds no names.
pub open spec fn remembered(c: ContextView, scope_override: Option<Scopes>) -> bool {
    &&& c.frames.len() == 0
    &&& !c.strict
    &&& !c.builder
    &&& c.root == Scopes::all()
    &&& scope_override matches Some(scopes) ==> c.this == scopes && c.names.len() == 0
}

/// What the validation of script value `d` of the registry by itself
/// comes to: of one that only says `yes` or `no`, nothing; of any other,
/// what its use in a fresh context comes to, at the place where it is
/// defined.
pub open spec fn alone_out(d: int, data: &Everything, st: State) -> Outcome {
    let v = data.scriptvalues.defs()[d];
    if v.says_yes_or_no() {
        nothing(st)
    } else {
        call_out(d, v.key, data, st.with(fresh_context()))
    }
}

/// What the validation of the first `n` script values of the registry
/// comes to, each by itself, in the order of the registry.
pub open spec fn all_alone_out(data: &Everything, st: State, n: int) -> Outcome
    decreases n,
{
    if n <= 0 || n > data.scriptvalues.defs().len() {
        nothing(st)
    } else {
        let before = all_alone_out(data, st, n - 1);
        after(before, alone_out(n - 1, data, before.st.with(fresh_context())))
    }
}

impl ScriptValues {
    /// Validates every script value by itself, in the order of their first
    /// loading.
    pub fn validate(&self, data: &Everything, caches: &mut Caches, sink: &mut Sink)
        requires
            fits(old(caches), data),
            self.defs() == data.scriptvalues.defs(),
        ensures
            final(caches).holds_all_of(old(caches)),
            fits(final(caches), data),
            extends(final(sink)@, old(sink)@),
            forall|d: int|
                0 <= d < self.defs().len() && !(#[trigger] self.defs()[d]).says_yes_or_no() ==> final(caches).has(
                    d,
                    self.defs()[d].key.loc().site(),
                ),
            reports(
                all_alone_out(data, state(fresh_context(), old(caches)), self.defs().len() as int),
                final(caches),
                final(sink)@,
                old(sink)@,
            ),
    {
        let ghost st0 = state(fresh_context(), old(caches));
        assert(sink@ + Seq::<DiagnosticView>::empty() =~= sink@);
        let mut i: usize = 0;
        while i < self.len()
            invariant
                i <= self.defs().len(),
                fits(caches, data),
                st0 == state(fresh_context(), old(caches)),
                self.defs() == data.scriptvalues.defs(),
                caches.holds_all_of(old(caches)),
                extends(sink@, old(sink)@),
                forall|d: int|
                    0 <= d < i && !(#[trigger] self.defs()[d]).says_yes_or_no() ==> caches.has(
                        d,
                        self.defs()[d].key.loc().site(),
                    ),
                reports(all_alone_out(data, st0, i as int), caches, sink@, old(sink)@),
            decreases self.defs().len() - i,
        {
            let ghost s_mid = sink@;
            let ghost before = all_alone_out(data, st0, i as int);
            let ghost k_mid = *caches;
            self.get(i).validate(i, data, caches, sink);
            proof {
                assert(before.st.with(fresh_context()) == state(fresh_context(), &k_mid));
                lemma_reports_after(
                    before,
                    alone_out(i as int, data, before.st.with(fresh_context())),
                    caches,
                    old(sink)@,
                    s_mid,
                    sink@,
                );
            }
            i += 1;
        }
    }

    /// Validates the use of the script value that `key` names, if there is
    /// one, at the call site of `key`.
    pub fn validate_call(
        &self,
        key: &Token,
        data: &Everything,
        sc: &mut ScopeContext,
        caches: &mut Caches,
        sink: &mut Sink,
    )
        requires
            fits(old(caches), data),
            self.defs() == data.scriptvalues.defs(),
        ensures
            final(sc)@ == old(sc)@,
            kept(final(sc)@, old(sc)@, final(caches), old(caches), final(sink)@, old(sink)@),
            self.position(key@) matches Some(d) ==> final(caches).has(d as int, key.loc().site()),
            comes_to(
                match self.position(key@) {
                    Some(d) => call_out(d as int, *key, data, state(old(sc)@, old(caches))),
                    None => nothing(state(old(sc)@, old(caches))),
                },
                final(sc)@,
                final(caches),
                final(sink)@,
                old(sink)@,
            ),
        decreases old(caches).budget(), 0int, key, 2int,
    {
        proof {
            lemma_only(sc@, Seq::empty(), caches, sink@);
        }
        if let Some(i) = self.find(key.as_str()) {
            self.get(i).validate_call(i, key, data, sc, caches, sink);
        }
    }
}

/// The scope types that the first `n` parts of a text name, where `|`
/// parts the text. A part that names no scope type adds nothing.
pub open spec fn scopes_of_parts(text: Seq<char>, n: int) -> Scopes
    decreases n,
{
    if n <= 0 {
        Scopes::empty()
    } else {
        let (a, b) = split_ranges(text, '|')[n - 1];
        match scope_named(text.subrange(a, b)) {
            Some(scopes) => scopes_of_parts(text, n - 1).union(scopes),
            None => scopes_of_parts(text, n - 1),
        }
    }
}

/// The scope types that a text of the configuration stands for: all of
/// them if `all` is set, else those that its parts name.
pub open spec fn scopes_of_text(text: Seq<char>, all: bool) -> Scopes {
    if all {
        Scopes::all()
    } else {
        scopes_of_parts(text, split_ranges(text, '|').len() as int)
    }
}

/// The scope types that a text of the configuration stands for: all of
/// them if the text is `all` in any case, else those that its parts name.
pub open spec fn override_scopes(text: Seq<char>) -> Scopes {
    scopes_of_text(text, lowercase_of(text) == "all"@)
}

/// The message about a part that names no scope type.
pub open spec fn unknown_scope_msg(part: Seq<char>) -> Seq<char> {
    "unknown scope type `"@ + part + "`"@
}

/// What is reported of the first `n` parts of a token of the
/// configuration: each part that names no scope type, at its place.
pub open spec fn parts_diags(token: Token, n: int) -> Seq<DiagnosticView>
    decreases n,
{
    if n <= 0 {
        Seq::empty()
    } else {
        let (a, b) = split_ranges(token@, '|')[n - 1];
        let part = token@.subrange(a, b);
        match scope_named(part) {
            Some(_) => parts_diags(token, n - 1),
            None => parts_diags(token, n - 1).push(
                diag(
                    Severity::Warning,
                    ErrorKey::Config,
                    piece_loc(*token.loc(), token@, a),
                    unknown_scope_msg(part),
                ),
            ),
        }
    }
}

/// What is reported of a token of the configuration, where `all` says
/// whether it stands for all scope types.
pub open spec fn scopes_diags(token: Token, all: bool) -> Seq<DiagnosticView> {
    if all {
        Seq::empty()
    } else {
        parts_diags(token, split_ranges(token@, '|').len() as int)
    }
}

/// Reads the scope types that a token of the configuration stands for.
/// `all` says whether the token stands for all of them. Each part that
/// names no scope type is reported.
pub fn scopes_from_token(token: &Token, all: bool, sink: &mut Sink) -> (r: Scopes)
    ensures
        r == scopes_of_text(token@, all),
        final(sink)@ == old(sink)@ + scopes_diags(*token, all),
{
    assert(sink@ + Seq::<DiagnosticView>::empty() =~= sink@);
    if all {
        return Scopes::all();
    }
    let parts = token.split('|');
    let ghost ranges = split_ranges(token@, '|');
    let mut scopes = Scopes::empty();
    let mut i: usize = 0;
    while i < parts.len()
        invariant
            i <= parts@.len(),
            ranges == split_ranges(token@, '|'),
            parts@.len() == ranges.len(),
            forall|k: int|
                0 <= k < parts@.len() ==> (#[trigger] parts@[k])@ == token@.subrange(ranges[k].0, ranges[k].1)
                    && *parts@[k].loc() == piece_loc(*token.loc(), token@, ranges[k].0),
            scopes == scopes_of_parts(token@, i as int),
            sink@ == old(sink)@ + parts_diags(*token, i as int),
        decreases parts@.len() - i,
    {
        let part = &parts[i];
        assert(part@ == token@.subrange(ranges[i as int].0, ranges[i as int].1));
        match scope_from_snake_case(part.as_str()) {
            Some(scope) => {
                scopes = scopes.union(scope);
            },
            None => {
                let mut msg = String::from_str("unknown scope type `");
                msg.append(part.as_str());
                msg.append("`");
                sink.warn(part.loc(), ErrorKey::Config, msg.as_str());
            },
        }
        assert(sink@ =~= old(sink)@ + parts_diags(*token, i + 1));
        i += 1;
    }
    scopes
}

/// Reads the scope types that a token of the configuration stands for.
pub fn parse_scopes(token: &Token, sink: &mut Sink) -> (r: Scopes)
    ensures
        r == override_scopes(token@),
        final(sink)@ == old(sink)@ + scopes_diags(*token, lowercase_of(token@) == "all"@),
{
    let all = token.lowercase_is("all");
    scopes_from_token(token, all, sink)
}

/// What is reported of the first `n` lines of the scope overrides: of each
/// line that holds a token, the parts that name no scope type.
pub open spec fn config_diags(block: &Block, n: int) -> Seq<DiagnosticView>
    decreases n,
{
    if n <= 0 || n > block.items@.len() {
        Seq::empty()
    } else {
        match block.items@[n - 1] {
            BlockItem::Field(_, _, BV::Value(token)) => config_diags(block, n - 1) + scopes_diags(
                token,
                lowercase_of(token@) == "all"@,
            ),
            _ => config_diags(block, n - 1),
        }
    }
}

impl ScriptValues {
    /// Reads the configuration: in its block `scope_override`, each
    /// `name = scopes` says which scope types the script values called
    /// `name` are for. Of several lines for one name the last counts.
    pub fn config(&mut self, config: &Block, sink: &mut Sink)
        ensures
            final(self).defs() == old(self).defs(),
            forall|n: Seq<char>| #[trigger] final(self).position(n) == old(self).position(n),
            forall|n: Seq<char>|
                #[trigger] final(self).override_of(n) == (match config_block(config) {
                    Some(b) => match last_field(b.items@, n, Shape::Value, b.items@.len() as int) {
                        Some(i) => Some(override_scopes(b.items@[i]->Field_2->Value_0@)),
                        None => old(self).override_of(n),
                    },
                    None => old(self).override_of(n),
                }),
            final(sink)@ == old(sink)@ + (match config_block(config) {
                Some(b) => config_diags(&b, b.items@.len() as int),
                None => Seq::empty(),
            }),
    {
        assert(sink@ + Seq::<DiagnosticView>::empty() =~= sink@);
        if let Some(block) = config.get_field_block("scope_override") {
            let mut i: usize = 0;
            while i < block.items.len()
                invariant
                    i <= block.items@.len(),
                    self.defs() == old(self).defs(),
                    forall|n: Seq<char>| #[trigger] self.position(n) == old(self).position(n),
                    sink@ == old(sink)@ + config_diags(block, i as int),
                    forall|n: Seq<char>|
                        #[trigger] self.override_of(n) == (match last_field(block.items@, n, Shape::Value, i as int) {
                            Some(j) => Some(override_scopes(block.items@[j]->Field_2->Value_0@)),
                            None => old(self).override_of(n),
                        }),
                decreases block.items@.len() - i,
            {
                match &block.items[i] {
                    BlockItem::Field(key, _, BV::Value(token)) => {
                        let scopes = parse_scopes(token, sink);
                        self.set_override(key.as_str(), scopes);
                    },
                    _ => {},
                }
                assert(sink@ =~= old(sink)@ + config_diags(block, i + 1));
                i += 1;
            }
        }
    }
}

/// The block of the configuration that holds the scope overrides.
pub open spec fn config_block(config: &Block) -> Option<Block> {
    match last_field(config.items@, "scope_override"@, Shape::Block, config.items@.len() as int) {
        Some(i) => Some(config.items@[i]->Field_2->Block_0),
        None => None,
    }
}

} // verus!
