//! Validation of the scripted parts that every kind of definition shares:
//! targets, trigger and effect blocks, and the fields of iterators.

use vstd::prelude::*;
use crate::block::{last_field, lemma_field_smaller, BV, Block, BlockItem, Comparator, Shape};
use crate::cache::Caches;
use crate::catalog::{rule_named, Arg, Rule};
use crate::chain::{chain_end, chain_findings, chain_known, validate_scope_chain};
use crate::context::{grows, law_close_gives_back, law_expect_narrows, ContextView, ScopeContext};
use crate::data::scriptvalues::ScriptValue;
use crate::everything::Everything;
use crate::expression::{
    after, argument_out, clause_chain_out, clause_out, clause_walk_out, clauses_out, clauses_walk, closed,
    inside_diags, left, misplaced_diags, no_marks, nothing, only, precheck_out, steering_marks, steering_out,
    stray_diags, stray_fields, target_ok_this_out, target_out, value_field_out, walk_way, walked_list, walks_list,
    words_of, Outcome, State,
};
use crate::helpers::extends;
use crate::item::Item;
use crate::report::{diag, DiagnosticView, ErrorKey, Severity, Sink};
use crate::scopes::{SCOPE_BOOL, SCOPE_CULTURE, SCOPE_FAITH, SCOPE_VALUE, Scopes};
use crate::token::{first_index, is_number_text, lowercase_of, Token};
use crate::validator::{check_bv, checked, claim, fields_diags, per_kind, remaining_diags, FieldKind, Validator};

verus! {

/// The four ways to walk a list.
#[derive(Clone, Copy, Debug, PartialEq, Eq, Structural)]
pub enum ListType {
    Any,
    Every,
    Ordered,
    Random,
}

/// Whether a trigger's outcome is shown to the player.
#[derive(Clone, Copy, Debug, PartialEq, Eq, Structural)]
pub enum Tooltipped {
    No,
    Yes,
    Past,
}

/// The way of walking a list that a prefix stands for.
pub open spec fn list_type_of(prefix: Seq<char>) -> Option<ListType> {
    if prefix == "any"@ {
        Some(ListType::Any)
    } else if prefix == "every"@ {
        Some(ListType::Every)
    } else if prefix == "ordered"@ {
        Some(ListType::Ordered)
    } else if prefix == "random"@ {
        Some(ListType::Random)
    } else {
        None
    }
}

/// The parts of a key of the form `every_<list>`, `ordered_<list>`,
/// `random_<list>` or `any_<list>`: the way of walking and the list's name.
pub open spec fn iterator_key(text: Seq<char>) -> Option<(ListType, Seq<char>)> {
    let i = first_index(text, '_') as int;
    if i < text.len() {
        match list_type_of(text.subrange(0, i)) {
            Some(lt) => Some((lt, text.subrange(i + 1, text.len() as int))),
            None => None,
        }
    } else {
        None
    }
}

impl ListType {
    /// The way of walking a list that a prefix stands for.
    pub fn from_prefix(prefix: &Token) -> (r: Option<ListType>)
        ensures
            r == list_type_of(prefix@),
    {
        if prefix.is("any") {
            Some(ListType::Any)
        } else if prefix.is("every") {
            Some(ListType::Every)
        } else if prefix.is("ordered") {
            Some(ListType::Ordered)
        } else if prefix.is("random") {
            Some(ListType::Random)
        } else {
            None
        }
    }
}

/// Splits a key of the form `<way>_<list>` into the way of walking and a
/// token of the list's name.
pub fn split_iterator_key(token: &Token) -> (r: Option<(ListType, Token)>)
    ensures
        r is Some == iterator_key(token@) is Some,
        r matches Some((lt, name)) ==> iterator_key(token@) == Some((lt, name@)),
{
    match token.split_once('_') {
        Some((it_type, it_name)) => match ListType::from_prefix(&it_type) {
            Some(lt) => Some((lt, it_name)),
            None => None,
        },
        None => None,
    }
}

/// The list that a token names: the scope types that have it and the scope
/// type of its elements.
pub fn scope_iterator(name: &Token, data: &Everything) -> (r: Option<(Scopes, Scopes)>)
    ensures
        r == (match rule_named(data.catalog.iterators@, name@) {
            Some(rule) => Some((rule.from, rule.to)),
            None => None,
        }),
{
    data.catalog.iterator(name.as_str())
}

/// Whether there is one cache for each script value of the registry.
pub open spec fn fits(caches: &Caches, data: &Everything) -> bool {
    caches.list@.len() == data.scriptvalues.defs().len() && caches.budget() >= 0
}

/// What every step of a validation keeps: the context is at the level of
/// nesting that it was at, as strict as it was, with the root that it had;
/// its active set has no scope type that it did not have, and it binds the
/// names that it bound; the caches hold what they held; and the sink holds
/// what it held, with what was reported added at its end.
pub open spec fn kept(
    sc1: ContextView,
    sc0: ContextView,
    c1: &Caches,
    c0: &Caches,
    s1: Seq<DiagnosticView>,
    s0: Seq<DiagnosticView>,
) -> bool {
    &&& sc1.frames == sc0.frames
    &&& sc1.strict == sc0.strict
    &&& sc1.root == sc0.root
    &&& sc1.builder == sc0.builder
    &&& sc1.this.within(sc0.this)
    &&& grows(sc1.names, sc0.names)
    &&& c1.holds_all_of(c0)
    &&& c1.budget() >= 0
    &&& extends(s1, s0)
}

/// The scope types of a numeric expression: a value or a truth value.
pub open spec fn spec_value_scopes() -> Scopes {
    Scopes { bits: SCOPE_VALUE | SCOPE_BOOL }
}

#[verifier::when_used_as_spec(spec_value_scopes)]
pub fn value_scopes() -> (r: Scopes)
    ensures
        r == spec_value_scopes(),
{
    Scopes { bits: SCOPE_VALUE | SCOPE_BOOL }
}

/// Validates a token that stands for a scope or a value: a number, the name
/// of a script value, or a scope chain. `outscopes` are the scope types
/// that fit where the token stands. The use of a script value is validated
/// at the place of the token, in the context `sc`.
pub fn validate_target_ok_this(
    token: &Token,
    data: &Everything,
    sc: &mut ScopeContext,
    outscopes: Scopes,
    caches: &mut Caches,
    sink: &mut Sink,
)
    requires
        fits(old(caches), data),
    ensures
        kept(final(sc)@, old(sc)@, final(caches), old(caches), final(sink)@, old(sink)@),
        final(sc)@ == old(sc)@,
        comes_to(
            target_ok_this_out(*token, data, outscopes, state(old(sc)@, old(caches))),
            final(sc)@,
            final(caches),
            final(sink)@,
            old(sink)@,
        ),
    decreases old(caches).budget(), 0int, token, 3int,
{
    if token.is_number() {
        if !outscopes.intersects(Scopes { bits: SCOPE_VALUE }) {
            sink.warn(token.loc(), ErrorKey::Scopes, "a number does not fit here");
        }
        assert(sink@ =~= old(sink)@ + number_target_diags(*token, outscopes));
        return;
    }
    if data.scriptvalues.is_defined(token.as_str()) {
        data.scriptvalues.validate_call(token, data, sc, caches, sink);
        return;
    }
    sc.open_builder();
    if validate_scope_chain(token, data, sc, false, sink) {
        if !sc.scopes().intersects(outscopes) {
            sink.warn(token.loc(), ErrorKey::Scopes, "the target does not have a scope type that fits here");
        }
    }
    proof {
        assert(sink@ =~= old(sink)@ + target_diags(*token, old(sc)@, data, outscopes));
        let building = sc@;
        let opened = old(sc)@.open_builder();
        assert(building.close() == opened.close()) by {
            assert(building.frames == opened.frames);
            assert(building.names == opened.names);
        }
    }
    sc.close();
}

/// What is reported of a target that names no script value, in the
/// context `c`: of a number, that it stands where no value fits; of a
/// chain, what is wrong with its parts, and if there is nothing wrong with
/// them, that it leads to a scope of none of the types `outscopes`.
pub open spec fn target_diags(token: Token, c: ContextView, data: &Everything, outscopes: Scopes) -> Seq<
    DiagnosticView,
> {
    if is_number_text(token@) {
        number_target_diags(token, outscopes)
    } else {
        chain_findings(token, c.open_builder(), &data.catalog, false) + if chain_known(token@, &data.catalog)
            && !chain_end(token, c.open_builder(), &data.catalog).this.intersects(outscopes) {
            seq![
                diag(
                    Severity::Warning,
                    ErrorKey::Scopes,
                    *token.loc(),
                    "the target does not have a scope type that fits here"@,
                ),
            ]
        } else {
            Seq::empty()
        }
    }
}

/// What is reported of a target that is the active scope itself.
pub open spec fn this_target_diags(token: Token) -> Seq<DiagnosticView> {
    if token@ == "this"@ {
        seq![diag(Severity::Warning, ErrorKey::Logic, *token.loc(), "`this` as a target changes nothing"@)]
    } else {
        Seq::empty()
    }
}

/// What is reported of a number that stands where a scope of the types
/// `outscopes` should: it fits only where a value does.
pub open spec fn number_target_diags(token: Token, outscopes: Scopes) -> Seq<DiagnosticView> {
    if outscopes.intersects(Scopes { bits: SCOPE_VALUE }) {
        Seq::empty()
    } else {
        seq![diag(Severity::Warning, ErrorKey::Scopes, *token.loc(), "a number does not fit here"@)]
    }
}

/// Validates a token that stands for a scope other than the active one.
pub fn validate_target(
    token: &Token,
    data: &Everything,
    sc: &mut ScopeContext,
    outscopes: Scopes,
    caches: &mut Caches,
    sink: &mut Sink,
)
    requires
        fits(old(caches), data),
    ensures
        kept(final(sc)@, old(sc)@, final(caches), old(caches), final(sink)@, old(sink)@),
        final(sc)@ == old(sc)@,
        comes_to(
            target_out(*token, data, outscopes, state(old(sc)@, old(caches))),
            final(sc)@,
            final(caches),
            final(sink)@,
            old(sink)@,
        ),
    decreases old(caches).budget(), 0int, token, 4int,
{
    if token.is("this") {
        sink.warn(token.loc(), ErrorKey::Logic, "`this` as a target changes nothing");
    }
    let ghost s1 = sink@;
    proof {
        assert(s1 =~= old(sink)@ + this_target_diags(*token));
    }
    validate_target_ok_this(token, data, sc, outscopes, caches, sink);
    proof {
        lemma_after(
            only(state(old(sc)@, old(caches)), this_target_diags(*token)),
            target_ok_this_out(*token, data, outscopes, state(old(sc)@, old(caches))),
            old(sc)@,
            sc@,
            old(caches),
            caches,
            old(sink)@,
            s1,
            sink@,
        );
    }
}

/// Whether a key is one of the words that join triggers: `AND`, `OR`,
/// `NOT`, `NOR`, `NAND`, in any case.
pub open spec fn is_logic_key(text: Seq<char>) -> bool {
    ||| lowercase_of(text) == "and"@
    ||| lowercase_of(text) == "or"@
    ||| lowercase_of(text) == "not"@
    ||| lowercase_of(text) == "nor"@
    ||| lowercase_of(text) == "nand"@
}

/// The rule of the catalog for a trigger, or with `effect` for an effect.
pub open spec fn clause_rule(text: Seq<char>, data: &Everything, effect: bool) -> Option<Rule> {
    if effect {
        rule_named(data.catalog.effects@, text)
    } else {
        rule_named(data.catalog.triggers@, text)
    }
}

/// The state of a validation in the context `c`, with what the caches
/// remember and as many validations left to make as the caches have room
/// for.
pub open spec fn state(c: ContextView, caches: &Caches) -> State {
    State { c, memo: caches.memo(), fuel: caches.budget() }
}

/// Whether the validation did what the outcome says: the context and the
/// caches are what the outcome leaves, and the sink holds what the outcome
/// reports after what it held.
pub open spec fn comes_to(
    o: Outcome,
    sc1: ContextView,
    c1: &Caches,
    s1: Seq<DiagnosticView>,
    s0: Seq<DiagnosticView>,
) -> bool {
    o.st == state(sc1, c1) && s1 == s0 + o.diags
}

/// Whether the validation reported and remembered what the outcome says,
/// whatever context the outcome leaves.
pub open spec fn reports(o: Outcome, c1: &Caches, s1: Seq<DiagnosticView>, s0: Seq<DiagnosticView>) -> bool {
    o.st.memo == c1.memo() && o.st.fuel == c1.budget() && s1 == s0 + o.diags
}

/// A validation that reported what `first` says and then what `second`
/// says reported what the two say together.
pub proof fn lemma_reports_after(
    first: Outcome,
    second: Outcome,
    c_new: &Caches,
    s0: Seq<DiagnosticView>,
    s_mid: Seq<DiagnosticView>,
    s_new: Seq<DiagnosticView>,
)
    requires
        s_mid == s0 + first.diags,
        reports(second, c_new, s_new, s_mid),
    ensures
        reports(after(first, second), c_new, s_new, s0),
{
    assert(s_new =~= s0 + (first.diags + second.diags));
}

/// A validation that did what `first` says and then what `second` says did
/// what the two say together.
pub proof fn lemma_after(
    first: Outcome,
    second: Outcome,
    sc_mid: ContextView,
    sc_new: ContextView,
    c_mid: &Caches,
    c_new: &Caches,
    s0: Seq<DiagnosticView>,
    s_mid: Seq<DiagnosticView>,
    s_new: Seq<DiagnosticView>,
)
    requires
        comes_to(first, sc_mid, c_mid, s_mid, s0),
        comes_to(second, sc_new, c_new, s_new, s_mid),
    ensures
        comes_to(after(first, second), sc_new, c_new, s_new, s0),
{
    assert(s_new =~= s0 + (first.diags + second.diags));
}

/// A validation that only reported did what the outcome of only reporting
/// says.
pub proof fn lemma_only(c: ContextView, diags: Seq<DiagnosticView>, caches: &Caches, s0: Seq<DiagnosticView>)
    ensures
        comes_to(only(state(c, caches), diags), c, caches, s0 + diags, s0),
        comes_to(nothing(state(c, caches)), c, caches, s0, s0),
{
    assert(s0 + Seq::<DiagnosticView>::empty() =~= s0);
}

/// Validates the argument of a trigger or an effect of the catalog.
fn validate_argument(
    key: &Token,
    bv: &BV,
    arg: Arg,
    data: &Everything,
    sc: &mut ScopeContext,
    effect: bool,
    caches: &mut Caches,
    sink: &mut Sink,
)
    requires
        fits(old(caches), data),
    ensures
        kept(final(sc)@, old(sc)@, final(caches), old(caches), final(sink)@, old(sink)@),
        comes_to(
            argument_out(arg, *bv, data, effect, state(old(sc)@, old(caches))),
            final(sc)@,
            final(caches),
            final(sink)@,
            old(sink)@,
        ),
    decreases old(caches).budget(), 1int, bv, 5int,
{
    proof {
        lemma_only(sc@, Seq::empty(), caches, sink@);
    }
    match arg {
        Arg::Bool => {
            check_bv(bv, FieldKind::Bool, data, sink);
        },
        Arg::Value => {
            let _ = ScriptValue::validate_bv_2(bv, data, sc, false, caches, sink);
        },
        Arg::Target(scopes) => {
            if let Some(t) = bv.expect_value(sink) {
                validate_target(t, data, sc, scopes, caches, sink);
            }
        },
        Arg::Item(item) => {
            check_bv(bv, FieldKind::Item(item), data, sink);
        },
        Arg::Block => {
            if let Some(b) = bv.expect_block(sink) {
                validate_clauses(b, data, sc, effect, caches, sink);
            }
        },
    }
}

/// Validates a walk over a list among triggers or effects: the active
/// scope must have the list, and the block is validated in the scope of
/// the list's elements.
fn validate_clause_walk(
    key: &Token,
    bv: &BV,
    ltype: ListType,
    inscopes: Scopes,
    outscope: Scopes,
    data: &Everything,
    sc: &mut ScopeContext,
    effect: bool,
    caches: &mut Caches,
    sink: &mut Sink,
)
    requires
        fits(old(caches), data),
        walks_list(key@, data),
        ltype == walk_way(key@),
        inscopes == walked_list(key@, data).from,
        outscope == walked_list(key@, data).to,
    ensures
        kept(final(sc)@, old(sc)@, final(caches), old(caches), final(sink)@, old(sink)@),
        comes_to(
            clause_walk_out(*key, *bv, data, effect, state(old(sc)@, old(caches))),
            final(sc)@,
            final(caches),
            final(sink)@,
            old(sink)@,
        ),
    decreases old(caches).budget(), 1int, bv, 5int,
{
    let fitting = match ltype {
        ListType::Any => !effect,
        _ => effect,
    };
    if !fitting {
        sink.error(key.loc(), ErrorKey::Validation, "this kind of iterator cannot be used here");
    }
    proof {
        law_expect_narrows(sc@, inscopes);
    }
    sc.expect(inscopes, key, sink);
    let ghost st0 = state(old(sc)@, old(caches));
    let ghost narrowed = only(
        st0.expect(inscopes),
        misplaced_diags(*key, effect) + old(sc)@.expect_diags(inscopes, key@, *key.loc()),
    );
    let ghost s1 = sink@;
    let ghost c1 = sc@;
    assert(s1 =~= old(sink)@ + narrowed.diags);
    if let Some(b) = bv.expect_block(sink) {
        sc.open_scope(outscope, key);
        let ghost opened = sc@;
        validate_clauses(b, data, sc, effect, caches, sink);
        let ghost inner = clauses_out(b, data, effect, state(opened, old(caches)));
        let ghost inside = sc@;
        sc.close();
        proof {
            law_close_gives_back(c1, opened, inside);
            lemma_after(narrowed, closed(inner, c1), c1, sc@, old(caches), caches, old(sink)@, s1, sink@);
        }
    } else {
        proof {
            lemma_after(
                narrowed,
                only(narrowed.st, bv.expect_block_diags()),
                c1,
                sc@,
                old(caches),
                caches,
                old(sink)@,
                s1,
                sink@,
            );
        }
    }
}

/// Validates a field among triggers or effects whose key is a scope chain:
/// the chain is followed in a scope under construction; if all of it is
/// known, a block is validated in the scope that the chain leads to, and
/// a token is validated as what the scope is compared with.
fn validate_clause_chain(
    key: &Token,
    op: Comparator,
    bv: &BV,
    data: &Everything,
    sc: &mut ScopeContext,
    effect: bool,
    caches: &mut Caches,
    sink: &mut Sink,
)
    requires
        fits(old(caches), data),
    ensures
        kept(final(sc)@, old(sc)@, final(caches), old(caches), final(sink)@, old(sink)@),
        comes_to(
            clause_chain_out(*key, op, *bv, data, effect, state(old(sc)@, old(caches))),
            final(sc)@,
            final(caches),
            final(sink)@,
            old(sink)@,
        ),
    decreases old(caches).budget(), 1int, bv, 5int,
{
    sc.open_builder();
    let quiet = match op {
        Comparator::QEq => true,
        _ => false,
    };
    let ghost st0 = state(old(sc)@, old(caches));
    let ghost started = sc@;
    let known = validate_scope_chain(key, data, sc, quiet, sink);
    let ghost followed = only(
        st0.with(chain_end(*key, started, &data.catalog)),
        chain_findings(*key, started, &data.catalog, op == Comparator::QEq),
    );
    let ghost s1 = sink@;
    let ghost c1 = sc@;
    match bv {
        BV::Block(b) => {
            if known {
                sc.finalize_builder();
                let ghost c2 = sc@;
                validate_clauses(b, data, sc, effect, caches, sink);
                proof {
                    lemma_after(
                        only(followed.st.finalize(), followed.diags),
                        clauses_out(b, data, effect, followed.st.finalize()),
                        c2,
                        sc@,
                        old(caches),
                        caches,
                        old(sink)@,
                        s1,
                        sink@,
                    );
                }
            }
            let ghost inside = sc@;
            sc.close();
            proof {
                law_close_gives_back(old(sc)@, started, inside);
            }
        },
        BV::Value(t) => {
            let reached = sc.scopes();
            sc.close();
            proof {
                law_close_gives_back(old(sc)@, started, c1);
            }
            if known {
                let ghost shut = sc@;
                validate_target_ok_this(t, data, sc, reached.union(value_scopes()), caches, sink);
                proof {
                    lemma_after(
                        closed(followed, old(sc)@),
                        target_ok_this_out(
                            *t,
                            data,
                            followed.st.c.this.union(spec_value_scopes()),
                            state(old(sc)@, old(caches)),
                        ),
                        shut,
                        sc@,
                        old(caches),
                        caches,
                        old(sink)@,
                        s1,
                        sink@,
                    );
                }
            }
        },
    }
}

/// Validates one field of a block of triggers or effects.
fn validate_clause(
    key: &Token,
    op: Comparator,
    bv: &BV,
    data: &Everything,
    sc: &mut ScopeContext,
    effect: bool,
    caches: &mut Caches,
    sink: &mut Sink,
)
    requires
        fits(old(caches), data),
    ensures
        kept(final(sc)@, old(sc)@, final(caches), old(caches), final(sink)@, old(sink)@),
        comes_to(
            clause_out(*key, op, *bv, data, effect, state(old(sc)@, old(caches))),
            final(sc)@,
            final(caches),
            final(sink)@,
            old(sink)@,
        ),
    decreases old(caches).budget(), 1int, bv, 6int,
{
    proof {
        lemma_only(sc@, Seq::empty(), caches, sink@);
    }
    if !effect && (key.lowercase_is("and") || key.lowercase_is("or") || key.lowercase_is("not")
        || key.lowercase_is("nor") || key.lowercase_is("nand")) {
        if let Some(b) = bv.expect_block(sink) {
            validate_clauses(b, data, sc, effect, caches, sink);
        }
        return;
    }
    if effect && key.is("limit") {
        if let Some(b) = bv.expect_block(sink) {
            validate_clauses(b, data, sc, false, caches, sink);
        }
        return;
    }
    let rule = if effect {
        data.catalog.effect(key.as_str())
    } else {
        data.catalog.trigger(key.as_str())
    };
    if let Some((from, arg)) = rule {
        proof {
            law_expect_narrows(sc@, from);
        }
        sc.expect(from, key, sink);
        let ghost s1 = sink@;
        let ghost c1 = sc@;
        let ghost narrowed = only(
            state(old(sc)@, old(caches)).expect(from),
            old(sc)@.expect_diags(from, key@, *key.loc()),
        );
        validate_argument(key, bv, arg, data, sc, effect, caches, sink);
        proof {
            lemma_after(
                narrowed,
                argument_out(arg, *bv, data, effect, narrowed.st),
                c1,
                sc@,
                old(caches),
                caches,
                old(sink)@,
                s1,
                sink@,
            );
        }
        return;
    }
    if let Some((ltype, it_name)) = split_iterator_key(key) {
        if let Some((inscopes, outscope)) = scope_iterator(&it_name, data) {
            validate_clause_walk(key, bv, ltype, inscopes, outscope, data, sc, effect, caches, sink);
            return;
        }
    }
    validate_clause_chain(key, op, bv, data, sc, effect, caches, sink);
}

/// Validates a block of triggers, or with `effect` a block of effects,
/// field by field in source order.
pub fn validate_clauses(
    block: &Block,
    data: &Everything,
    sc: &mut ScopeContext,
    effect: bool,
    caches: &mut Caches,
    sink: &mut Sink,
)
    requires
        fits(old(caches), data),
    ensures
        kept(final(sc)@, old(sc)@, final(caches), old(caches), final(sink)@, old(sink)@),
        comes_to(
            clauses_out(block, data, effect, state(old(sc)@, old(caches))),
            final(sc)@,
            final(caches),
            final(sink)@,
            old(sink)@,
        ),
    decreases old(caches).budget(), 1int, block, 0int,
{
    let ghost st0 = state(old(sc)@, old(caches));
    proof {
        lemma_only(sc@, Seq::empty(), caches, sink@);
    }
    let mut i: usize = 0;
    while i < block.items.len()
        invariant
            i <= block.items@.len(),
            fits(old(caches), data),
            st0 == state(old(sc)@, old(caches)),
            kept(sc@, old(sc)@, caches, old(caches), sink@, old(sink)@),
            comes_to(clauses_walk(block, data, effect, st0, i as int), sc@, caches, sink@, old(sink)@),
        decreases block.items@.len() - i,
    {
        let ghost s_mid = sink@;
        let ghost c_mid = sc@;
        let ghost k_mid = *caches;
        let ghost w = clauses_walk(block, data, effect, st0, i as int);
        match &block.items[i] {
            BlockItem::Keyword(t) => {
                sink.error(t.loc(), ErrorKey::Validation, "unexpected token");
                proof {
                    lemma_only(c_mid, stray_diags(block.items@[i as int]), &k_mid, s_mid);
                    assert(sink@ =~= s_mid + stray_diags(block.items@[i as int]));
                    lemma_after(
                        w,
                        only(w.st, stray_diags(block.items@[i as int])),
                        c_mid,
                        sc@,
                        &k_mid,
                        caches,
                        old(sink)@,
                        s_mid,
                        sink@,
                    );
                }
            },
            BlockItem::Block(b) => {
                sink.error(&b.loc, ErrorKey::Validation, "unexpected block");
                proof {
                    lemma_only(c_mid, stray_diags(block.items@[i as int]), &k_mid, s_mid);
                    assert(sink@ =~= s_mid + stray_diags(block.items@[i as int]));
                    lemma_after(
                        w,
                        only(w.st, stray_diags(block.items@[i as int])),
                        c_mid,
                        sc@,
                        &k_mid,
                        caches,
                        old(sink)@,
                        s_mid,
                        sink@,
                    );
                }
            },
            BlockItem::Field(key, op, bv) => {
                proof {
                    lemma_field_smaller(block, i as int);
                }
                validate_clause(key, *op, bv, data, sc, effect, caches, sink);
                proof {
                    lemma_after(
                        w,
                        clause_out(*key, *op, *bv, data, effect, w.st),
                        c_mid,
                        sc@,
                        &k_mid,
                        caches,
                        old(sink)@,
                        s_mid,
                        sink@,
                    );
                }
            },
        }
        i += 1;
    }
}

/// Validates a block of triggers.
pub fn validate_normal_trigger(
    block: &Block,
    data: &Everything,
    sc: &mut ScopeContext,
    tooltipped: Tooltipped,
    caches: &mut Caches,
    sink: &mut Sink,
)
    requires
        fits(old(caches), data),
    ensures
        kept(final(sc)@, old(sc)@, final(caches), old(caches), final(sink)@, old(sink)@),
        comes_to(
            clauses_out(block, data, false, state(old(sc)@, old(caches))),
            final(sc)@,
            final(caches),
            final(sink)@,
            old(sink)@,
        ),
    decreases old(caches).budget(), 1int, block, 1int,
{
    validate_clauses(block, data, sc, false, caches, sink);
}

/// Validates a block of effects.
pub fn validate_normal_effect(
    block: &Block,
    data: &Everything,
    sc: &mut ScopeContext,
    tooltipped: Tooltipped,
    caches: &mut Caches,
    sink: &mut Sink,
)
    requires
        fits(old(caches), data),
    ensures
        kept(final(sc)@, old(sc)@, final(caches), old(caches), final(sink)@, old(sink)@),
        comes_to(
            clauses_out(block, data, true, state(old(sc)@, old(caches))),
            final(sc)@,
            final(caches),
            final(sink)@,
            old(sink)@,
        ),
    decreases old(caches).budget(), 1int, block, 1int,
{
    validate_clauses(block, data, sc, true, caches, sink);
}

/// Validates the value of the last field called `name`, if there is one, as
/// a numeric expression.
fn validate_value_field(
    name: &str,
    block: &Block,
    data: &Everything,
    check_desc: bool,
    sc: &mut ScopeContext,
    caches: &mut Caches,
    sink: &mut Sink,
)
    requires
        fits(old(caches), data),
    ensures
        kept(final(sc)@, old(sc)@, final(caches), old(caches), final(sink)@, old(sink)@),
        comes_to(
            value_field_out(block, name@, data, check_desc, state(old(sc)@, old(caches))),
            final(sc)@,
            final(caches),
            final(sink)@,
            old(sink)@,
        ),
    decreases old(caches).budget(), 1int, block, 0int,
{
    proof {
        lemma_only(sc@, Seq::empty(), caches, sink@);
    }
    if let Some(i) = block.find_last(name, Shape::Any) {
        match &block.items[i] {
            BlockItem::Field(_, _, bv) => {
                proof {
                    lemma_field_smaller(block, i as int);
                }
                let _ = ScriptValue::validate_bv_2(bv, data, sc, check_desc, caches, sink);
            },
            _ => {},
        }
    }
}

/// Validates the fields of an iterator that are evaluated in the scope
/// that the iterator starts from, before the scope of the elements opens:
/// the bounds of an ordered walk, and the share or number that an `any_`
/// walk asks for.
pub fn precheck_iterator_fields(
    ltype: ListType,
    block: &Block,
    data: &Everything,
    sc: &mut ScopeContext,
    caches: &mut Caches,
    sink: &mut Sink,
)
    requires
        fits(old(caches), data),
    ensures
        kept(final(sc)@, old(sc)@, final(caches), old(caches), final(sink)@, old(sink)@),
        comes_to(
            precheck_out(ltype, block, data, state(old(sc)@, old(caches))),
            final(sc)@,
            final(caches),
            final(sink)@,
            old(sink)@,
        ),
    decreases old(caches).budget(), 1int, block, 1int,
{
    proof {
        lemma_only(sc@, Seq::empty(), caches, sink@);
    }
    match ltype {
        ListType::Ordered => {
            validate_value_field("position", block, data, false, sc, caches, sink);
            let ghost position = value_field_out(block, "position"@, data, false, state(old(sc)@, old(caches)));
            let ghost (c1, k1, s1) = (sc@, *caches, sink@);
            validate_value_field("min", block, data, false, sc, caches, sink);
            let ghost min = after(position, value_field_out(block, "min"@, data, false, position.st));
            let ghost (c2, k2, s2) = (sc@, *caches, sink@);
            proof {
                lemma_after(
                    position,
                    value_field_out(block, "min"@, data, false, position.st),
                    c1,
                    c2,
                    &k1,
                    &k2,
                    old(sink)@,
                    s1,
                    s2,
                );
            }
            validate_value_field("max", block, data, false, sc, caches, sink);
            proof {
                lemma_after(
                    min,
                    value_field_out(block, "max"@, data, false, min.st),
                    c2,
                    sc@,
                    &k2,
                    caches,
                    old(sink)@,
                    s2,
                    sink@,
                );
            }
        },
        ListType::Any => {
            validate_value_field("percent", block, data, false, sc, caches, sink);
            let ghost percent = value_field_out(block, "percent"@, data, false, state(old(sc)@, old(caches)));
            let ghost (c1, k1, s1) = (sc@, *caches, sink@);
            validate_value_field("count", block, data, false, sc, caches, sink);
            proof {
                lemma_after(
                    percent,
                    value_field_out(block, "count"@, data, false, percent.st),
                    c1,
                    sc@,
                    &k1,
                    caches,
                    old(sink)@,
                    s1,
                    sink@,
                );
            }
        },
        _ => {},
    }
}

/// Claims the fields that steer an iterator, and validates those among
/// them that are evaluated in the scope of the elements.
pub fn validate_iterator_fields(
    ltype: ListType,
    data: &Everything,
    sc: &mut ScopeContext,
    vd: &mut Validator,
    caches: &mut Caches,
    sink: &mut Sink,
)
    requires
        fits(old(caches), data),
        old(vd).wf(),
        old(vd).data() == data,
    ensures
        kept(final(sc)@, old(sc)@, final(caches), old(caches), final(sink)@, old(sink)@),
        final(vd).wf(),
        final(vd).block() == old(vd).block(),
        final(vd).data() == old(vd).data(),
        final(vd).marks() == steering_marks(ltype, old(vd).marks(), old(vd).block().items@),
        comes_to(
            steering_out(ltype, old(vd).block(), data, state(old(sc)@, old(caches))),
            final(sc)@,
            final(caches),
            final(sink)@,
            old(sink)@,
        ),
    decreases old(caches).budget(), 1int, old(vd).block(), 1int,
{
    proof {
        lemma_only(sc@, Seq::empty(), caches, sink@);
    }
    let block = vd.get_block();
    match ltype {
        ListType::Ordered => {
            let _ = vd.field_bvs("order_by", sink);
            validate_value_field("order_by", block, data, false, sc, caches, sink);
            let ghost ordered = value_field_out(block, "order_by"@, data, false, state(old(sc)@, old(caches)));
            let ghost (c1, k1, s1) = (sc@, *caches, sink@);
            let _ = vd.field_bvs("position", sink);
            let _ = vd.field_bvs("min", sink);
            let _ = vd.field_bvs("max", sink);
            let _ = vd.field_bool("check_range_bounds", sink);
            proof {
                let checked = only(
                    ordered.st,
                    fields_diags(
                        block.items@,
                        "check_range_bounds"@,
                        true,
                        per_kind(FieldKind::Bool, data),
                        block.items@.len() as int,
                    ),
                );
                lemma_after(ordered, checked, c1, sc@, &k1, caches, old(sink)@, s1, sink@);
            }
        },
        ListType::Random => {
            let _ = vd.field_block("weight", sink);
        },
        ListType::Any => {
            let _ = vd.field_bvs("percent", sink);
            let _ = vd.field_bvs("count", sink);
        },
        ListType::Every => {},
    }
}

/// Claims the fields that the iterator of one list takes beside those that
/// all iterators take.
pub fn validate_inside_iterator(
    name: &str,
    ltype: ListType,
    block: &Block,
    data: &Everything,
    sc: &mut ScopeContext,
    vd: &mut Validator,
    tooltipped: Tooltipped,
    sink: &mut Sink,
)
    requires
        old(vd).wf(),
    ensures
        final(sc)@ == old(sc)@,
        extends(final(sink)@, old(sink)@),
        final(sink)@ == old(sink)@ + inside_diags(old(vd).block(), old(vd).data()),
        final(vd).wf(),
        final(vd).block() == old(vd).block(),
        final(vd).data() == old(vd).data(),
        final(vd).marks() == claim(old(vd).marks(), old(vd).block().items@, "even_if_dead"@),
{
    let _ = vd.field_bool("even_if_dead", sink);
}

/// What the validation of a field that holds a numeric expression comes
/// to: the field may stand once; the value of the last is validated.
pub open spec fn script_value_field_out(block: &Block, name: Seq<char>, data: &Everything, st: State) -> Outcome {
    after(only(st, checked(block, name, FieldKind::Any, data)), value_field_out(block, name, data, true, st))
}

/// Claims the fields called `name`, which may stand once, and validates
/// the value of the last as a numeric expression in the context `sc`.
pub fn field_script_value(
    vd: &mut Validator,
    name: &str,
    data: &Everything,
    sc: &mut ScopeContext,
    caches: &mut Caches,
    sink: &mut Sink,
)
    requires
        old(vd).wf(),
        old(vd).data() == data,
        fits(old(caches), data),
    ensures
        final(vd).wf(),
        final(vd).block() == old(vd).block(),
        final(vd).data() == old(vd).data(),
        final(vd).marks() == claim(old(vd).marks(), old(vd).block().items@, name@),
        kept(final(sc)@, old(sc)@, final(caches), old(caches), final(sink)@, old(sink)@),
        comes_to(
            script_value_field_out(old(vd).block(), name@, data, state(old(sc)@, old(caches))),
            final(sc)@,
            final(caches),
            final(sink)@,
            old(sink)@,
        ),
{
    let block = vd.get_block();
    let _ = vd.check_fields(name, FieldKind::Any, true, sink);
    let ghost s1 = sink@;
    validate_value_field(name, block, data, true, sc, caches, sink);
    proof {
        lemma_only(old(sc)@, checked(block, name@, FieldKind::Any, data), old(caches), old(sink)@);
        lemma_after(
            only(state(old(sc)@, old(caches)), checked(block, name@, FieldKind::Any, data)),
            value_field_out(block, name@, data, true, state(old(sc)@, old(caches))),
            old(sc)@,
            sc@,
            old(caches),
            caches,
            old(sink)@,
            s1,
            sink@,
        );
    }
}

/// What the validation of a field that holds a target comes to: the field
/// may stand once and holds a token; the last token is validated.
pub open spec fn target_field_out(
    block: &Block,
    name: Seq<char>,
    data: &Everything,
    outscopes: Scopes,
    st: State,
) -> Outcome {
    after(
        only(st, checked(block, name, FieldKind::Value, data)),
        match last_field(block.items@, name, Shape::Value, block.items@.len() as int) {
            Some(j) => target_out(block.items@[j]->Field_2->Value_0, data, outscopes, st),
            None => nothing(st),
        },
    )
}

/// Claims the fields called `name`, which may stand once and must hold a
/// token, and validates the last token as a target of the scope types
/// `outscopes`.
pub fn field_target(
    vd: &mut Validator,
    name: &str,
    data: &Everything,
    sc: &mut ScopeContext,
    outscopes: Scopes,
    caches: &mut Caches,
    sink: &mut Sink,
)
    requires
        old(vd).wf(),
        old(vd).data() == data,
        fits(old(caches), data),
    ensures
        final(vd).wf(),
        final(vd).block() == old(vd).block(),
        final(vd).data() == old(vd).data(),
        final(vd).marks() == claim(old(vd).marks(), old(vd).block().items@, name@),
        kept(final(sc)@, old(sc)@, final(caches), old(caches), final(sink)@, old(sink)@),
        final(sc)@ == old(sc)@,
        comes_to(
            target_field_out(old(vd).block(), name@, data, outscopes, state(old(sc)@, old(caches))),
            final(sc)@,
            final(caches),
            final(sink)@,
            old(sink)@,
        ),
{
    let ghost block = vd.block();
    let found = vd.field_value(name, sink);
    let ghost s1 = sink@;
    let ghost first = only(state(old(sc)@, old(caches)), checked(block, name@, FieldKind::Value, data));
    proof {
        lemma_only(old(sc)@, checked(block, name@, FieldKind::Value, data), old(caches), old(sink)@);
        lemma_only(old(sc)@, Seq::empty(), old(caches), s1);
    }
    if let Some(token) = found {
        validate_target(token, data, sc, outscopes, caches, sink);
        proof {
            lemma_after(
                first,
                target_out(*token, data, outscopes, state(old(sc)@, old(caches))),
                old(sc)@,
                sc@,
                old(caches),
                caches,
                old(sink)@,
                s1,
                sink@,
            );
        }
    } else {
        proof {
            lemma_after(
                first,
                nothing(state(old(sc)@, old(caches))),
                old(sc)@,
                sc@,
                old(caches),
                caches,
                old(sink)@,
                s1,
                sink@,
            );
        }
    }
}

/// What the keys of a weighted list name.
#[derive(Clone, Copy, Debug, PartialEq, Eq, Structural)]
pub enum RandomKind {
    Trait,
    Culture,
    Faith,
}

/// What the validation of the block of the last field called `name` that
/// holds a block comes to, as a block of triggers, or with `effect` of
/// effects.
pub open spec fn clauses_field_out(
    block: &Block,
    name: Seq<char>,
    data: &Everything,
    effect: bool,
    st: State,
) -> Outcome {
    match last_field(block.items@, name, Shape::Block, block.items@.len() as int) {
        Some(j) => clauses_out(&block.items@[j]->Field_2->Block_0, data, effect, st),
        None => nothing(st),
    }
}

/// What is reported of the fields of an entry of a weighted list that are
/// neither its `weight` nor its `trigger`: each is unknown.
pub open spec fn beside_entry(block: &Block) -> Seq<DiagnosticView> {
    remaining_diags(
        block.items@,
        claim(claim(no_marks(block), block.items@, "weight"@), block.items@, "trigger"@),
        block.items@.len() as int,
    )
}

/// What the validation of one entry of a weighted list comes to: its
/// `weight` and its `trigger` hold blocks; the `trigger` is validated as a
/// block of triggers; there is no other field.
pub open spec fn random_entry_out(block: &Block, data: &Everything, st: State) -> Outcome {
    let shaped = only(st, checked(block, "weight"@, FieldKind::Block, data) + checked(block, "trigger"@, FieldKind::Block, data));
    let triggered = after(shaped, clauses_field_out(block, "trigger"@, data, false, st));
    after(triggered, only(triggered.st, beside_entry(block)))
}

/// Validates one entry of a weighted list: its `weight`, and its `trigger`
/// as a trigger.
fn validate_random_entry(
    block: &Block,
    data: &Everything,
    sc: &mut ScopeContext,
    caches: &mut Caches,
    sink: &mut Sink,
)
    requires
        fits(old(caches), data),
    ensures
        kept(final(sc)@, old(sc)@, final(caches), old(caches), final(sink)@, old(sink)@),
        comes_to(
            random_entry_out(block, data, state(old(sc)@, old(caches))),
            final(sc)@,
            final(caches),
            final(sink)@,
            old(sink)@,
        ),
{
    let mut vd = Validator::new(block, data);
    assert(vd.marks() =~= no_marks(block));
    let _ = vd.field_block("weight", sink);
    let found = vd.field_block("trigger", sink);
    let ghost shaped = only(
        state(old(sc)@, old(caches)),
        checked(block, "weight"@, FieldKind::Block, data) + checked(block, "trigger"@, FieldKind::Block, data));
    let ghost s1 = sink@;
    assert(s1 =~= old(sink)@ + shaped.diags);
    if let Some(t) = found {
        validate_normal_trigger(t, data, sc, Tooltipped::No, caches, sink);
    } else {
        proof {
            lemma_only(sc@, Seq::empty(), caches, sink@);
        }
    }
    let ghost triggered = after(
        shaped,
        clauses_field_out(block, "trigger"@, data, false, state(old(sc)@, old(caches))),
    );
    let ghost (c2, k2, s2) = (sc@, *caches, sink@);
    proof {
        lemma_after(
            shaped,
            clauses_field_out(block, "trigger"@, data, false, state(old(sc)@, old(caches))),
            old(sc)@,
            c2,
            old(caches),
            &k2,
            old(sink)@,
            s1,
            s2,
        );
    }
    vd.finish(sink);
    proof {
        lemma_only(c2, beside_entry(block), &k2, s2);
        lemma_after(triggered, only(triggered.st, beside_entry(block)), c2, sc@, &k2, caches, old(sink)@, s2, sink@);
    }
}

/// The scope types of what the keys of a weighted list name, where they
/// name scopes.
pub open spec fn random_scopes(kind: RandomKind) -> Scopes {
    match kind {
        RandomKind::Faith => Scopes { bits: SCOPE_FAITH },
        _ => Scopes { bits: SCOPE_CULTURE },
    }
}

/// What the validation of one field of a weighted list comes to: the key
/// names a trait that was loaded, or is a target of the kind's scope
/// type; the value is an entry.
pub open spec fn random_field_out(kind: RandomKind, key: Token, bv: BV, data: &Everything, st: State) -> Outcome {
    let named = match kind {
        RandomKind::Trait => only(st, data.missing_diags(Item::Trait, key@, *key.loc())),
        _ => target_out(key, data, random_scopes(kind), st),
    };
    after(
        named,
        match bv {
            BV::Block(b) => random_entry_out(&b, data, named.st),
            BV::Value(_) => only(named.st, bv.expect_block_diags()),
        },
    )
}

/// What the validation of the first `n` nodes of a weighted list comes to:
/// each field but `count` is validated, in source order.
pub open spec fn random_walk(block: &Block, kind: RandomKind, data: &Everything, st: State, n: int) -> Outcome
    decreases n,
{
    if n <= 0 || n > block.items@.len() {
        nothing(st)
    } else {
        let w = random_walk(block, kind, data, st, n - 1);
        match block.items@[n - 1] {
            BlockItem::Field(key, _, bv) => if key@ == "count"@ {
                w
            } else {
                after(w, random_field_out(kind, key, bv, data, w.st))
            },
            _ => w,
        }
    }
}

/// What the validation of a weighted list comes to: its `count` is a
/// numeric expression; every other field is an entry under the name of
/// what is drawn.
pub open spec fn random_list_out(block: &Block, kind: RandomKind, data: &Everything, st: State) -> Outcome {
    let counted = script_value_field_out(block, "count"@, data, st);
    after(counted, random_walk(block, kind, data, counted.st, block.items@.len() as int))
}

/// Validates one field of a weighted list.
fn validate_random_field(
    kind: RandomKind,
    key: &Token,
    bv: &BV,
    data: &Everything,
    sc: &mut ScopeContext,
    caches: &mut Caches,
    sink: &mut Sink,
)
    requires
        fits(old(caches), data),
    ensures
        kept(final(sc)@, old(sc)@, final(caches), old(caches), final(sink)@, old(sink)@),
        comes_to(
            random_field_out(kind, *key, *bv, data, state(old(sc)@, old(caches))),
            final(sc)@,
            final(caches),
            final(sink)@,
            old(sink)@,
        ),
{
    match kind {
        RandomKind::Trait => {
            let _ = data.verify_exists(Item::Trait, key, sink);
        },
        RandomKind::Culture => {
            validate_target(key, data, sc, Scopes { bits: SCOPE_CULTURE }, caches, sink);
        },
        RandomKind::Faith => {
            validate_target(key, data, sc, Scopes { bits: SCOPE_FAITH }, caches, sink);
        },
    }
    let ghost named = match kind {
        RandomKind::Trait => only(state(old(sc)@, old(caches)), data.missing_diags(Item::Trait, key@, *key.loc())),
        _ => target_out(*key, data, random_scopes(kind), state(old(sc)@, old(caches))),
    };
    let ghost (c1, k1, s1) = (sc@, *caches, sink@);
    if let Some(b) = bv.expect_block(sink) {
        validate_random_entry(b, data, sc, caches, sink);
        proof {
            lemma_after(named, random_entry_out(b, data, named.st), c1, sc@, &k1, caches, old(sink)@, s1, sink@);
        }
    } else {
        proof {
            lemma_only(c1, bv.expect_block_diags(), &k1, s1);
            lemma_after(named, only(named.st, bv.expect_block_diags()), c1, sc@, &k1, caches, old(sink)@, s1, sink@);
        }
    }
}

/// Validates a weighted list: an optional `count`, and entries whose keys
/// name what is drawn and whose blocks have a `weight` and a `trigger`.
pub fn validate_random_list(
    block: &Block,
    data: &Everything,
    sc: &mut ScopeContext,
    kind: RandomKind,
    caches: &mut Caches,
    sink: &mut Sink,
)
    requires
        fits(old(caches), data),
    ensures
        kept(final(sc)@, old(sc)@, final(caches), old(caches), final(sink)@, old(sink)@),
        comes_to(
            random_list_out(block, kind, data, state(old(sc)@, old(caches))),
            final(sc)@,
            final(caches),
            final(sink)@,
            old(sink)@,
        ),
{
    let mut vd = Validator::new(block, data);
    field_script_value(&mut vd, "count", data, sc, caches, sink);
    let ghost counted = script_value_field_out(block, "count"@, data, state(old(sc)@, old(caches)));
    let ghost (c1, k1, s1) = (sc@, *caches, sink@);
    proof {
        lemma_only(c1, Seq::empty(), &k1, s1);
    }
    let mut i: usize = 0;
    while i < block.items.len()
        invariant
            i <= block.items@.len(),
            fits(&k1, data),
            kept(sc@, c1, caches, &k1, sink@, s1),
            comes_to(random_walk(block, kind, data, state(c1, &k1), i as int), sc@, caches, sink@, s1),
        decreases block.items@.len() - i,
    {
        let ghost (c_mid, k_mid, s_mid) = (sc@, *caches, sink@);
        let ghost w = random_walk(block, kind, data, state(c1, &k1), i as int);
        match &block.items[i] {
            BlockItem::Field(key, _, bv) => {
                if !key.is("count") {
                    validate_random_field(kind, key, bv, data, sc, caches, sink);
                    proof {
                        lemma_after(
                            w,
                            random_field_out(kind, *key, *bv, data, w.st),
                            c_mid,
                            sc@,
                            &k_mid,
                            caches,
                            s1,
                            s_mid,
                            sink@,
                        );
                    }
                }
            },
            _ => {},
        }
        i += 1;
    }
    proof {
        lemma_after(
            counted,
            random_walk(block, kind, data, counted.st, block.items@.len() as int),
            c1,
            sc@,
            &k1,
            caches,
            old(sink)@,
            s1,
            sink@,
        );
    }
}

/// Validates a weighted list of traits.
pub fn validate_random_traits_list(
    block: &Block,
    data: &Everything,
    sc: &mut ScopeContext,
    caches: &mut Caches,
    sink: &mut Sink,
)
    requires
        fits(old(caches), data),
    ensures
        kept(final(sc)@, old(sc)@, final(caches), old(caches), final(sink)@, old(sink)@),
        comes_to(
            random_list_out(block, RandomKind::Trait, data, state(old(sc)@, old(caches))),
            final(sc)@,
            final(caches),
            final(sink)@,
            old(sink)@,
        ),
{
    validate_random_list(block, data, sc, RandomKind::Trait, caches, sink)
}

/// Validates a weighted list of cultures.
pub fn validate_random_culture(
    block: &Block,
    data: &Everything,
    sc: &mut ScopeContext,
    caches: &mut Caches,
    sink: &mut Sink,
)
    requires
        fits(old(caches), data),
    ensures
        kept(final(sc)@, old(sc)@, final(caches), old(caches), final(sink)@, old(sink)@),
        comes_to(
            random_list_out(block, RandomKind::Culture, data, state(old(sc)@, old(caches))),
            final(sc)@,
            final(caches),
            final(sink)@,
            old(sink)@,
        ),
{
    validate_random_list(block, data, sc, RandomKind::Culture, caches, sink)
}

/// Validates a weighted list of faiths.
pub fn validate_random_faith(
    block: &Block,
    data: &Everything,
    sc: &mut ScopeContext,
    caches: &mut Caches,
    sink: &mut Sink,
)
    requires
        fits(old(caches), data),
    ensures
        kept(final(sc)@, old(sc)@, final(caches), old(caches), final(sink)@, old(sink)@),
        comes_to(
            random_list_out(block, RandomKind::Faith, data, state(old(sc)@, old(caches))),
            final(sc)@,
            final(caches),
            final(sink)@,
            old(sink)@,
        ),
{
    validate_random_list(block, data, sc, RandomKind::Faith, caches, sink)
}

/// Whether a word names a color space.
pub open spec fn is_color_space(text: Seq<char>) -> bool {
    text == "rgb"@ || text == "hsv"@ || text == "hsv360"@
}

/// What is reported of one part of a color.
pub open spec fn color_part_diags(t: Token) -> Seq<DiagnosticView> {
    if is_number_text(t@) {
        Seq::empty()
    } else {
        seq![diag(Severity::Error, ErrorKey::Validation, *t.loc(), "expected number"@)]
    }
}

/// What is reported of the first `n` words of a color: the first may name
/// the color space; each other word is a part.
pub open spec fn color_words_diags(words: Seq<Token>, n: int) -> Seq<DiagnosticView>
    decreases n,
{
    if n <= 0 {
        Seq::empty()
    } else if n == 1 && is_color_space(words[0]@) {
        Seq::empty()
    } else {
        color_words_diags(words, n - 1) + color_part_diags(words[n - 1])
    }
}

/// How many parts a color of these words has.
pub open spec fn color_parts(words: Seq<Token>) -> int {
    if words.len() > 0 && is_color_space(words[0]@) {
        words.len() - 1
    } else {
        words.len() as int
    }
}

/// What is reported of a color: each part that is no number, then a
/// number of parts other than three or four, then each field.
pub open spec fn color_diags(block: &Block) -> Seq<DiagnosticView> {
    let words = words_of(block);
    color_words_diags(words, words.len() as int) + (if color_parts(words) != 3 && color_parts(words) != 4 {
        seq![diag(Severity::Error, ErrorKey::Validation, block.loc, "expected 3 or 4 color values"@)]
    } else {
        Seq::empty()
    }) + stray_fields(block)
}

/// Validates a color: a block of three or four numbers, which a bare word
/// that names the color space may precede.
pub fn validate_color(block: &Block, data: &Everything, sink: &mut Sink)
    ensures
        final(sink)@ == old(sink)@ + color_diags(block),
{
    let mut vd = Validator::new(block, data);
    assert(vd.marks() =~= no_marks(block));
    let values = vd.values();
    let ghost words = words_of(block);
    assert(sink@ + Seq::<DiagnosticView>::empty() =~= sink@);
    let mut count: usize = 0;
    let mut i: usize = 0;
    while i < values.len()
        invariant
            i <= values@.len(),
            values@.len() == words.len(),
            forall|k: int| 0 <= k < values@.len() ==> *(#[trigger] values@[k]) == words[k],
            count == (if i > 0 && is_color_space(words[0]@) {
                i - 1
            } else {
                i as int
            }),
            sink@ == old(sink)@ + color_words_diags(words, i as int),
        decreases values@.len() - i,
    {
        let t = values[i];
        if i == 0 && (t.is("rgb") || t.is("hsv") || t.is("hsv360")) {
            // The color space is named.
        } else {
            if !t.is_number() {
                sink.error(t.loc(), ErrorKey::Validation, "expected number");
            }
            count += 1;
        }
        assert(sink@ =~= old(sink)@ + color_words_diags(words, i + 1));
        i += 1;
    }
    if count != 3 && count != 4 {
        sink.error(&block.loc, ErrorKey::Validation, "expected 3 or 4 color values");
    }
    vd.finish(sink);
    assert(sink@ =~= old(sink)@ + color_diags(block));
}

} // verus!
