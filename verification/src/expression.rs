//! What numeric expressions, triggers and effects mean to the validation:
//! what each key of the grammar does to the state of the expression, what
//! the grammar finds wrong, and what the validation reports, infers and
//! remembers.

use vstd::prelude::*;
use crate::block::{last_field, lemma_field_smaller, BV, Block, BlockItem, Comparator, Shape};
use crate::cache::Memo;
use crate::catalog::{rule_named, Arg, Catalog, Rule};
use crate::chain::{chain_end, chain_findings, chain_known};
use crate::context::{mismatch_msg, ContextView};
use crate::everything::Everything;
use crate::helpers::TriBool;
use crate::item::Item;
use crate::report::{diag, diag_info, DiagnosticView, ErrorKey, Severity};
use crate::scopes::{SCOPE_BOOL, SCOPE_VALUE, Scopes};
use crate::token::{is_number_text, Token};
use crate::validate::{
    clause_rule, is_logic_key, iterator_key, number_target_diags, spec_value_scopes, target_diags, this_target_diags,
    ListType,
};
use crate::validator::{
    claim, claim_keywords, fields_diags, has_field, keywords, kind_diags, lemma_no_field_no_diags, per_kind,
    remaining_diags, required_diags, FieldKind,
};

verus! {

/// What a key of a numeric expression does.
#[derive(Clone, Copy, Debug, PartialEq, Eq, Structural)]
pub enum KeyClass {
    /// `save_temporary_scope_as`
    SaveScope,
    /// `save_temporary_value_as`
    SaveValue,
    /// `value`
    Value,
    /// `add`, `subtract`, `min`, `max`
    Add,
    /// `multiply`, `divide`, `modulo`
    Multiply,
    /// `round`, `ceiling`, `floor`
    Round,
    /// `fixed_range`, `integer_range`
    Range,
    If,
    ElseIf,
    Else,
    /// A walk over a list that the catalog knows. Of the four ways to walk,
    /// `any_` asks a question and gives no number: it is refused here.
    Iterator(ListType),
    /// A walk over a list that the catalog does not know: it is passed
    /// over.
    Ignored,
    /// Anything else: a scope chain.
    Chain,
}

/// What the key with the text `text` does.
#[verifier::opaque]
pub open spec fn key_class(text: Seq<char>, catalog: &Catalog) -> KeyClass {
    if text == "save_temporary_scope_as"@ {
        KeyClass::SaveScope
    } else if text == "save_temporary_value_as"@ {
        KeyClass::SaveValue
    } else if text == "value"@ {
        KeyClass::Value
    } else if text == "add"@ || text == "subtract"@ || text == "min"@ || text == "max"@ {
        KeyClass::Add
    } else if text == "multiply"@ || text == "divide"@ || text == "modulo"@ {
        KeyClass::Multiply
    } else if text == "round"@ || text == "ceiling"@ || text == "floor"@ {
        KeyClass::Round
    } else if text == "fixed_range"@ || text == "integer_range"@ {
        KeyClass::Range
    } else if text == "if"@ {
        KeyClass::If
    } else if text == "else_if"@ {
        KeyClass::ElseIf
    } else if text == "else"@ {
        KeyClass::Else
    } else {
        match iterator_key(text) {
            Some((lt, name)) => if rule_named(catalog.iterators@, name) is Some {
                KeyClass::Iterator(lt)
            } else {
                KeyClass::Ignored
            },
            None => KeyClass::Chain,
        }
    }
}

/// Whether the expression has a value after a key, given whether it had one
/// before.
pub open spec fn next_state(text: Seq<char>, bv: BV, catalog: &Catalog, prev: TriBool) -> TriBool {
    match key_class(text, catalog) {
        KeyClass::Value | KeyClass::Add | KeyClass::Range => TriBool::True,
        KeyClass::If | KeyClass::ElseIf | KeyClass::Else => TriBool::Maybe,
        KeyClass::Iterator(lt) => if lt != ListType::Any && bv is Block {
            TriBool::Maybe
        } else {
            prev
        },
        KeyClass::Chain => if chain_known(text, catalog) && bv is Block {
            TriBool::Maybe
        } else {
            prev
        },
        _ => prev,
    }
}

/// Whether an `else_if` or `else` may follow the key: after `if` and
/// `else_if` it may, and after an `else` whose block has a `limit`.
pub open spec fn arms(text: Seq<char>, bv: BV, catalog: &Catalog) -> bool {
    match key_class(text, catalog) {
        KeyClass::If | KeyClass::ElseIf => true,
        KeyClass::Else => bv is Block && has_field(bv->Block_0.items@, "limit"@),
        _ => false,
    }
}

/// The message about an operation on a value that is not there yet.
pub open spec fn nothing_yet_msg(text: Seq<char>) -> Seq<char> {
    "nothing to "@ + text + " yet"@
}

/// What the grammar itself finds wrong with a key, before it looks at the
/// key's value.
pub open spec fn grammar_diag(key: Token, catalog: &Catalog, prev: TriBool, armed: bool) -> Option<
    DiagnosticView,
> {
    match key_class(key@, catalog) {
        KeyClass::Value => if prev == TriBool::True {
            Some(
                diag(
                    Severity::Warning,
                    ErrorKey::Logic,
                    *key.loc(),
                    "setting value here will overwrite the previous calculations"@,
                ),
            )
        } else {
            None
        },
        KeyClass::Multiply | KeyClass::Round => if prev == TriBool::False {
            Some(diag(Severity::Warning, ErrorKey::Logic, *key.loc(), nothing_yet_msg(key@)))
        } else {
            None
        },
        KeyClass::Range => if prev == TriBool::True {
            Some(
                diag(
                    Severity::Warning,
                    ErrorKey::Logic,
                    *key.loc(),
                    "using fixed_range here will overwrite the previous calculations"@,
                ),
            )
        } else {
            None
        },
        KeyClass::ElseIf => if !armed {
            Some(diag(Severity::Warning, ErrorKey::Validation, *key.loc(), "`else_if` without preceding `if`"@))
        } else {
            None
        },
        KeyClass::Else => if !armed {
            Some(diag(Severity::Warning, ErrorKey::Validation, *key.loc(), "`else` without preceding `if`"@))
        } else {
            None
        },
        KeyClass::Iterator(lt) => if lt == ListType::Any {
            Some(
                diag(
                    Severity::Error,
                    ErrorKey::Validation,
                    *key.loc(),
                    "cannot use `any_` iterators in a script value"@,
                ),
            )
        } else {
            None
        },
        _ => None,
    }
}

/// What the grammar finds wrong with a key, as a sequence.
pub open spec fn grammar_diags(key: Token, catalog: &Catalog, prev: TriBool, armed: bool) -> Seq<DiagnosticView> {
    match grammar_diag(key, catalog, prev, armed) {
        Some(d) => seq![d],
        None => Seq::empty(),
    }
}

/// Whether fields of the class are validated without a look at any other
/// definition or block: what they report and what they do to the context
/// follows from the field alone.
pub open spec fn is_simple(class: KeyClass) -> bool {
    match class {
        KeyClass::SaveScope | KeyClass::SaveValue | KeyClass::Round | KeyClass::Ignored => true,
        KeyClass::Iterator(lt) => lt == ListType::Any,
        _ => false,
    }
}

/// Whether fields of the class are arithmetic on one operand.
pub open spec fn is_arithmetic(class: KeyClass) -> bool {
    class == KeyClass::Value || class == KeyClass::Add || class == KeyClass::Multiply
}

/// What is reported of the value of a field of a simple class.
pub open spec fn simple_diags(class: KeyClass, bv: BV) -> Seq<DiagnosticView> {
    match class {
        KeyClass::SaveScope | KeyClass::SaveValue => bv.expect_value_diags(),
        KeyClass::Round => match bv {
            BV::Value(t) => if t@ == "yes"@ || t@ == "no"@ {
                Seq::empty()
            } else {
                seq![diag(Severity::Warning, ErrorKey::Validation, *t.loc(), "expected yes or no"@)]
            },
            BV::Block(_) => bv.expect_value_diags(),
        },
        _ => Seq::empty(),
    }
}

/// The context after a field of a simple class: a field that saves a scope
/// or a value binds the name that its value gives, to the active scope
/// types or to the type of values.
pub open spec fn simple_context(class: KeyClass, bv: BV, c: ContextView) -> ContextView {
    match (class, bv) {
        (KeyClass::SaveScope, BV::Value(t)) => c.bind(t@, c.this, *t.loc()),
        (KeyClass::SaveValue, BV::Value(t)) => c.bind(t@, Scopes { bits: SCOPE_VALUE }, *t.loc()),
        _ => c,
    }
}

/// Whether node `i` of a block is a field of the expression: a field that
/// nothing has claimed.
pub open spec fn is_field_at(items: Seq<BlockItem>, marks: Seq<bool>, i: int) -> bool {
    0 <= i < items.len() && i < marks.len() && items[i] is Field && !marks[i]
}

/// Whether the expression has a value before node `n`, where it starts in
/// the state `start`.
pub open spec fn state_at(items: Seq<BlockItem>, marks: Seq<bool>, catalog: &Catalog, start: TriBool, n: int) -> TriBool
    decreases n,
{
    if n <= 0 {
        start
    } else if is_field_at(items, marks, n - 1) {
        next_state(
            items[n - 1]->Field_0@,
            items[n - 1]->Field_2,
            catalog,
            state_at(items, marks, catalog, start, n - 1),
        )
    } else {
        state_at(items, marks, catalog, start, n - 1)
    }
}

/// Whether an `else_if` or `else` may stand as node `n`: the field of the
/// expression before it must arm it.
pub open spec fn armed_at(items: Seq<BlockItem>, marks: Seq<bool>, catalog: &Catalog, n: int) -> bool
    decreases n,
{
    if n <= 0 {
        false
    } else if is_field_at(items, marks, n - 1) {
        arms(items[n - 1]->Field_0@, items[n - 1]->Field_2, catalog)
    } else {
        armed_at(items, marks, catalog, n - 1)
    }
}

/// What the grammar finds wrong with node `i` of an expression that starts
/// in the state `start`.
pub open spec fn grammar_at(items: Seq<BlockItem>, marks: Seq<bool>, catalog: &Catalog, start: TriBool, i: int) -> Option<
    DiagnosticView,
> {
    if is_field_at(items, marks, i) {
        grammar_diag(
            items[i]->Field_0,
            catalog,
            state_at(items, marks, catalog, start, i),
            armed_at(items, marks, catalog, i),
        )
    } else {
        None
    }
}

/// What the grammar finds wrong with each node of an expression, as a
/// function of the node's position.
pub open spec fn grammar_of(items: Seq<BlockItem>, marks: Seq<bool>, catalog: &Catalog, start: TriBool) -> spec_fn(
    int,
) -> Option<DiagnosticView> {
    |i: int| grammar_at(items, marks, catalog, start, i)
}

/// The marks of a block of which nothing is claimed.
pub open spec fn no_marks(block: &Block) -> Seq<bool> {
    Seq::new(block.items@.len(), |i: int| false)
}

/// The marks after `desc` and `format` were claimed.
pub open spec fn head_marks(marks: Seq<bool>, items: Seq<BlockItem>) -> Seq<bool> {
    claim(claim(marks, items, "desc"@), items, "format"@)
}

/// What is reported of the fields `desc` and `format` of an expression:
/// with `check_desc` they name localization keys, else they are free text.
pub open spec fn head_diags(block: &Block, data: &Everything, check_desc: bool) -> Seq<DiagnosticView> {
    let kind = if check_desc {
        FieldKind::Item(Item::Localization)
    } else {
        FieldKind::Value
    };
    fields_diags(block.items@, "desc"@, true, per_kind(kind, data), block.items@.len() as int) + fields_diags(
        block.items@,
        "format"@,
        true,
        per_kind(kind, data),
        block.items@.len() as int,
    )
}

/// Whether a block writes a range: its first node is no field.
pub open spec fn is_range(b: &Block) -> bool {
    b.items@.len() > 0 && !(b.items@[0] is Field)
}

/// What is reported of the fields of a block of bare words: each is
/// unknown.
pub open spec fn stray_fields(b: &Block) -> Seq<DiagnosticView> {
    remaining_diags(b.items@, claim_keywords(no_marks(b), b.items@), b.items@.len() as int)
}

/// The bare words of a block, in order.
pub open spec fn words_of(b: &Block) -> Seq<Token> {
    Seq::new(
        keywords(b.items@, b.items@.len() as int).len(),
        |k: int| b.items@[keywords(b.items@, b.items@.len() as int)[k]]->Keyword_0,
    )
}

/// The state of a validation: the scope context, what is remembered of
/// the script values, and how many validations of a script value's body
/// the run can still make. Each such validation remembers one more call
/// site; a run has room for a fixed number of them, so there is an end to
/// the validations that refer to each other.
pub struct State {
    pub c: ContextView,
    pub memo: Memo,
    pub fuel: int,
}

impl State {
    /// The state with the context `c`.
    pub open spec fn with(self, c: ContextView) -> State {
        State { c, ..self }
    }

    /// The state after an expectation of the scope types.
    pub open spec fn expect(self, scopes: Scopes) -> State {
        self.with(self.c.expect(scopes))
    }

    /// The state after a scope of the types was opened.
    pub open spec fn open(self, scopes: Scopes) -> State {
        self.with(self.c.open(scopes))
    }

    /// The state after a scope under construction was opened.
    pub open spec fn open_builder(self) -> State {
        self.with(self.c.open_builder())
    }

    /// The state after the scope under construction was finished.
    pub open spec fn finalize(self) -> State {
        self.with(self.c.finalize())
    }

    /// The state with no more validations left to make than `limit`, and
    /// not less than none.
    pub open spec fn capped(self, limit: int) -> State {
        if 0 <= self.fuel <= limit {
            self
        } else {
            State { fuel: limit, ..self }
        }
    }
}

/// What a validation comes to: the state that it leaves and what it
/// reports.
pub struct Outcome {
    pub st: State,
    pub diags: Seq<DiagnosticView>,
}

/// An outcome that changes nothing and reports nothing.
pub open spec fn nothing(st: State) -> Outcome {
    Outcome { st, diags: Seq::empty() }
}

/// An outcome that only reports.
pub open spec fn only(st: State, diags: Seq<DiagnosticView>) -> Outcome {
    Outcome { st, diags }
}

/// The outcome of `first`, then `second`, which starts from what `first`
/// leaves.
pub open spec fn after(first: Outcome, second: Outcome) -> Outcome {
    Outcome { st: second.st, diags: first.diags + second.diags }
}

/// The outcome of a validation in a scope that is closed afterwards: what
/// was reported and remembered inside stays; the context is `c` again,
/// the context in which the scope was opened.
pub open spec fn closed(inner: Outcome, c: ContextView) -> Outcome {
    Outcome { st: inner.st.with(c), diags: inner.diags }
}

/// The state that `first` leaves, for what comes next in a validation that
/// started in `st`. No validation leaves more to make than it started
/// with.
pub open spec fn left(first: Outcome, st: State) -> State {
    first.st.capped(st.fuel)
}

/// The context in which the body of a script value is validated: lenient,
/// at the outermost level, with every scope type possible.
pub open spec fn fresh_context() -> ContextView {
    ContextView {
        this: Scopes::all(),
        root: Scopes::all(),
        frames: Seq::empty(),
        names: Seq::empty(),
        builder: false,
        strict: false,
    }
}

/// What the validation of the body of a script value infers, where `c`
/// is the context after the body: where the configuration says which scope
/// types the script value is for, a context of those.
pub open spec fn inferred(scope_override: Option<Scopes>, c: ContextView) -> ContextView {
    match scope_override {
        Some(scopes) => ContextView { this: scopes, ..fresh_context() },
        None => c,
    }
}

/// What the validation of a use of script value `d` of the registry comes
/// to, at the call site of `key`. If a context is remembered for the call
/// site, the caller's context is checked against it, and that is all. If
/// not, a first context is remembered for the site, the body is validated
/// in a context of its own, the caller's context is checked against what
/// was inferred, and that is remembered in place of the first. A use of
/// the script value at the same site from inside its body so meets the
/// first context and goes no further. Where the registry has no such
/// script value, or the run has no validation left to make, nothing is
/// done.
pub open spec fn call_out(d: int, key: Token, data: &Everything, st: State) -> Outcome
    decreases st.fuel, 0int, key, 0int,
{
    let site = key.loc().site();
    if !(0 <= d < st.memo.len() && d < data.scriptvalues.defs().len()) {
        nothing(st)
    } else if st.memo[d].contains_key(site) {
        only(st, st.c.compatibility_diags(st.memo[d][site], key@, *key.loc()))
    } else if st.fuel <= 0 {
        nothing(st)
    } else {
        let v = data.scriptvalues.defs()[d];
        let inner = State {
            c: fresh_context(),
            memo: st.memo.update(d, st.memo[d].insert(site, fresh_context())),
            fuel: st.fuel - 1,
        };
        let body = expression_out(v.bv, data, true, inner);
        let found = inferred(v.scope_override, body.st.c);
        Outcome {
            st: State { c: st.c, memo: body.st.memo.update(d, body.st.memo[d].insert(site, found)), fuel: body.st.fuel },
            diags: body.diags + st.c.compatibility_diags(found, key@, *key.loc()),
        }
    }
}

/// What the validation of a token comes to that stands for a scope or a
/// value: a number fits where a value does; the use of a script value is
/// validated at the place of the token; any other token is a scope chain,
/// which must lead to a scope of one of the types `outscopes`.
pub open spec fn target_ok_this_out(t: Token, data: &Everything, outscopes: Scopes, st: State) -> Outcome
    decreases st.fuel, 0int, t, 1int,
{
    if is_number_text(t@) {
        only(st, number_target_diags(t, outscopes))
    } else {
        match data.scriptvalues.position(t@) {
            Some(d) => call_out(d as int, t, data, st),
            None => only(st, target_diags(t, st.c, data, outscopes)),
        }
    }
}

/// What the validation of a token comes to that stands for a scope other
/// than the active one.
pub open spec fn target_out(t: Token, data: &Everything, outscopes: Scopes, st: State) -> Outcome
    decreases st.fuel, 0int, t, 2int,
{
    after(only(st, this_target_diags(t)), target_ok_this_out(t, data, outscopes, st))
}

/// The last of the first `n` nodes that is a field called `name` with a
/// value of the shape is a node of the block.
pub proof fn lemma_last_field_bounds(items: Seq<BlockItem>, name: Seq<char>, shape: Shape, n: int)
    requires
        0 <= n <= items.len(),
    ensures
        last_field(items, name, shape, n) matches Some(j) ==> 0 <= j < n && items[j].is_field(name, shape),
    decreases n,
{
    if n > 0 && !items[n - 1].is_field(name, shape) {
        lemma_last_field_bounds(items, name, shape, n - 1);
    }
}

/// The way of walking that a key of the form `<way>_<list>` names.
pub open spec fn walk_way(text: Seq<char>) -> ListType {
    match iterator_key(text) {
        Some((lt, _)) => lt,
        None => ListType::Every,
    }
}

/// The list that a key of the form `<way>_<list>` names.
pub open spec fn walk_name(text: Seq<char>) -> Seq<char> {
    match iterator_key(text) {
        Some((_, name)) => name,
        None => Seq::empty(),
    }
}

/// The list that a key of the form `<way>_<list>` walks: the rule of the
/// catalog for it.
pub open spec fn walked_list(text: Seq<char>, data: &Everything) -> Rule {
    rule_named(data.catalog.iterators@, walk_name(text))->0
}

/// What the validation of the first `n` nodes of an expression comes to,
/// from the state `st`. The nodes that are fields of the expression are
/// validated in source order, each in the context that the one before it
/// left.
pub open spec fn walk_fields(
    block: &Block,
    marks: Seq<bool>,
    data: &Everything,
    check_desc: bool,
    start: TriBool,
    st: State,
    n: int,
) -> Outcome
    decreases st.fuel, 1int, block, n,
{
    if n <= 0 || n > block.items@.len() {
        nothing(st)
    } else {
        let w = walk_fields(block, marks, data, check_desc, start, st, n - 1);
        if is_field_at(block.items@, marks, n - 1) {
            proof {
                lemma_field_smaller(block, n - 1);
            }
            after(
                w,
                field_out(
                    block.items@[n - 1]->Field_0,
                    block.items@[n - 1]->Field_1,
                    block.items@[n - 1]->Field_2,
                    data,
                    check_desc,
                    state_at(block.items@, marks, &data.catalog, start, n - 1),
                    armed_at(block.items@, marks, &data.catalog, n - 1),
                    left(w, st),
                ),
            )
        } else {
            w
        }
    }
}

/// What the validation of the fields of an expression comes to, where the
/// marks say what is claimed before `desc` and `format` are: what is
/// reported of `desc` and `format`, then what the fields come to.
pub open spec fn fields_out(
    block: &Block,
    marks: Seq<bool>,
    data: &Everything,
    check_desc: bool,
    start: TriBool,
    st: State,
) -> Outcome
    decreases st.fuel, 1int, block, (block.items@.len() + 1) as int,
{
    after(
        only(st, head_diags(block, data, check_desc)),
        walk_fields(
            block,
            head_marks(marks, block.items@),
            data,
            check_desc,
            start,
            st,
            block.items@.len() as int,
        ),
    )
}

/// What the validation of one field of an expression comes to in the
/// state `st`: what the grammar finds wrong with the key, then what the
/// validation of the value comes to.
pub open spec fn field_out(
    key: Token,
    op: Comparator,
    bv: BV,
    data: &Everything,
    check_desc: bool,
    prev: TriBool,
    armed: bool,
    st: State,
) -> Outcome
    decreases st.fuel, 1int, bv, 5int,
{
    after(
        only(st, grammar_diags(key, &data.catalog, prev, armed)),
        operand_out(key_class(key@, &data.catalog), key, op, bv, data, check_desc, prev, st),
    )
}

/// What the validation of the value of a field comes to, by the class of
/// the field.
pub open spec fn operand_out(
    class: KeyClass,
    key: Token,
    op: Comparator,
    bv: BV,
    data: &Everything,
    check_desc: bool,
    prev: TriBool,
    st: State,
) -> Outcome
    decreases st.fuel, 1int, bv, 4int,
{
    if is_simple(class) {
        only(st.with(simple_context(class, bv, st.c)), simple_diags(class, bv))
    } else if is_arithmetic(class) {
        expression_out(bv, data, check_desc, st)
    } else {
        match class {
            KeyClass::Iterator(lt) => walk_operand_out(lt, key, bv, data, check_desc, st),
            KeyClass::Chain => chain_operand_out(key, op, bv, data, check_desc, prev, st),
            _ => match bv {
                BV::Value(_) => only(st, bv.expect_block_diags()),
                BV::Block(b) => match class {
                    KeyClass::Range => range_out(&b, data, check_desc, st),
                    KeyClass::Else => branch_out(&b, data, check_desc, st, true),
                    _ => branch_out(&b, data, check_desc, st, false),
                },
            },
        }
    }
}

/// What the validation of a walk over a list comes to: the active scope
/// must have the list; the fields of the block that are evaluated in that
/// scope are validated there, and the rest in the scope of the list's
/// elements, which is closed afterwards.
pub open spec fn walk_operand_out(
    lt: ListType,
    key: Token,
    bv: BV,
    data: &Everything,
    check_desc: bool,
    st: State,
) -> Outcome
    decreases st.fuel, 1int, bv, 3int,
{
    let list = walked_list(key@, data);
    let narrowed = only(st.expect(list.from), st.c.expect_diags(list.from, key@, *key.loc()));
    match bv {
        BV::Value(_) => after(narrowed, only(left(narrowed, st), bv.expect_block_diags())),
        BV::Block(b) => {
            let checked = after(narrowed, precheck_out(lt, &b, data, left(narrowed, st)));
            after(
                checked,
                closed(iterator_out(lt, &b, data, check_desc, left(checked, st).open(list.to)), checked.st.c),
            )
        },
    }
}

/// What the validation of a field whose key is a scope chain comes to: the
/// chain is followed in a scope under construction; if all of it is known,
/// a block is validated as the fields of an expression in the scope that
/// the chain leads to; the scope is closed afterwards.
pub open spec fn chain_operand_out(
    key: Token,
    op: Comparator,
    bv: BV,
    data: &Everything,
    check_desc: bool,
    prev: TriBool,
    st: State,
) -> Outcome
    decreases st.fuel, 1int, bv, 3int,
{
    let started = st.c.open_builder();
    let followed = only(
        st.with(chain_end(key, started, &data.catalog)),
        chain_findings(key, started, &data.catalog, op == Comparator::QEq),
    );
    if chain_known(key@, &data.catalog) {
        match bv {
            BV::Value(_) => closed(after(followed, only(left(followed, st), bv.expect_block_diags())), st.c),
            BV::Block(b) => closed(
                after(followed, fields_out(&b, no_marks(&b), data, check_desc, prev, left(followed, st).finalize())),
                st.c,
            ),
        }
    } else {
        closed(followed, st.c)
    }
}

/// What the validation of a numeric expression comes to in the state
/// `st`: of a token, what its validation as a value comes to; of a range,
/// what its two ends come to, or that it has not two, and then that it
/// has fields; of a block of operations, what its fields come to.
pub open spec fn expression_out(bv: BV, data: &Everything, check_desc: bool, st: State) -> Outcome
    decreases st.fuel, 1int, bv, 1int,
{
    match bv {
        BV::Value(t) => target_ok_this_out(t, data, spec_value_scopes(), st),
        BV::Block(b) => if is_range(&b) {
            let ends = if words_of(&b).len() == 2 {
                let first = target_ok_this_out(words_of(&b)[0], data, spec_value_scopes(), st);
                after(first, target_ok_this_out(words_of(&b)[1], data, spec_value_scopes(), left(first, st)))
            } else {
                only(st, seq![diag(Severity::Warning, ErrorKey::Validation, b.loc, "invalid script value range"@)])
            };
            after(ends, only(left(ends, st), stray_fields(&b)))
        } else {
            fields_out(&b, no_marks(&b), data, check_desc, TriBool::False, st)
        },
    }
}

/// The advice about an `else` that has a `limit`.
pub open spec fn else_limit_diags(block: &Block) -> Seq<DiagnosticView> {
    match last_field(block.items@, "limit"@, Shape::Block, block.items@.len() as int) {
        Some(j) => seq![
            diag_info(
                Severity::Advice,
                ErrorKey::IfElse,
                *block.items@[j]->Field_0.loc(),
                "`else` with a `limit` does work, but may indicate a mistake"@,
                "normally you would use `else_if` instead."@,
            ),
        ],
        None => Seq::empty(),
    }
}

/// What the validation of the last `limit` of a block that holds a block
/// comes to: what the block comes to as a block of triggers.
pub open spec fn limit_out(block: &Block, data: &Everything, st: State) -> Outcome
    decreases st.fuel, 1int, block, 0int,
{
    match last_field(block.items@, "limit"@, Shape::Block, block.items@.len() as int) {
        Some(j) => {
            proof {
                lemma_last_field_bounds(block.items@, "limit"@, Shape::Block, block.items@.len() as int);
                lemma_field_smaller(block, j);
            }
            clauses_out(&block.items@[j]->Field_2->Block_0, data, false, st)
        },
        None => nothing(st),
    }
}

/// What is reported of the `limit` fields of a block, each of which must
/// hold a block.
pub open spec fn limit_diags(block: &Block, data: &Everything) -> Seq<DiagnosticView> {
    fields_diags(block.items@, "limit"@, false, per_kind(FieldKind::Block, data), block.items@.len() as int)
}

/// What the validation of the block of an `if` or `else_if` comes to, or
/// with `is_else` of an `else`. An `if` should have a `limit`; an `else`
/// that has one is remarked on. The `limit` is validated as a block of
/// triggers, then the rest as the fields of an expression that may have a
/// value.
pub open spec fn branch_out(block: &Block, data: &Everything, check_desc: bool, st: State, is_else: bool) -> Outcome
    decreases st.fuel, 1int, block, (block.items@.len() + 2) as int,
{
    let first = if is_else {
        only(st, limit_diags(block, data) + else_limit_diags(block))
    } else {
        only(st, required_diags(block, "limit"@, Severity::Warning) + limit_diags(block, data))
    };
    let limited = after(first, limit_out(block, data, st));
    after(
        limited,
        fields_out(
            block,
            claim(no_marks(block), block.items@, "limit"@),
            data,
            check_desc,
            TriBool::Maybe,
            left(limited, st),
        ),
    )
}

/// What the validation of the values of the first `n` nodes that are
/// fields called `name` comes to, each as a numeric expression, from the
/// state `st`.
pub open spec fn values_walk(block: &Block, name: Seq<char>, data: &Everything, check_desc: bool, st: State, n: int) -> Outcome
    decreases st.fuel, 1int, block, n,
{
    if n <= 0 || n > block.items@.len() {
        nothing(st)
    } else {
        let w = values_walk(block, name, data, check_desc, st, n - 1);
        if block.items@[n - 1].is_named(name) {
            proof {
                lemma_field_smaller(block, n - 1);
            }
            after(w, expression_out(block.items@[n - 1]->Field_2, data, check_desc, left(w, st)))
        } else {
            w
        }
    }
}

/// What is reported of the fields of a range that are neither `min` nor
/// `max`: each is unknown.
pub open spec fn beside_ends(block: &Block) -> Seq<DiagnosticView> {
    remaining_diags(
        block.items@,
        claim(claim(no_marks(block), block.items@, "min"@), block.items@, "max"@),
        block.items@.len() as int,
    )
}

/// What the validation of a range comes to: a block that needs the fields
/// `min` and `max`, each a numeric expression, and has no other field.
pub open spec fn range_out(block: &Block, data: &Everything, check_desc: bool, st: State) -> Outcome
    decreases st.fuel, 1int, block, (block.items@.len() + 1) as int,
{
    let n = block.items@.len() as int;
    let first = only(
        st,
        required_diags(block, "min"@, Severity::Error) + required_diags(block, "max"@, Severity::Error),
    );
    let mins = after(first, values_walk(block, "min"@, data, check_desc, st, n));
    let maxs = after(mins, values_walk(block, "max"@, data, check_desc, left(mins, st), n));
    after(maxs, only(left(maxs, st), beside_ends(block)))
}

/// What the validation of the value of the last field called `name` comes
/// to, as a numeric expression.
pub open spec fn value_field_out(
    block: &Block,
    name: Seq<char>,
    data: &Everything,
    check_desc: bool,
    st: State,
) -> Outcome
    decreases st.fuel, 1int, block, 0int,
{
    match last_field(block.items@, name, Shape::Any, block.items@.len() as int) {
        Some(j) => {
            proof {
                lemma_last_field_bounds(block.items@, name, Shape::Any, block.items@.len() as int);
                lemma_field_smaller(block, j);
            }
            expression_out(block.items@[j]->Field_2, data, check_desc, st)
        },
        None => nothing(st),
    }
}

/// What the validation of the fields of a walk comes to that are evaluated
/// in the scope that the walk starts from.
pub open spec fn precheck_out(lt: ListType, block: &Block, data: &Everything, st: State) -> Outcome
    decreases st.fuel, 1int, block, 1int,
{
    match lt {
        ListType::Ordered => {
            let position = value_field_out(block, "position"@, data, false, st);
            let min = after(position, value_field_out(block, "min"@, data, false, left(position, st)));
            after(min, value_field_out(block, "max"@, data, false, left(min, st)))
        },
        ListType::Any => {
            let percent = value_field_out(block, "percent"@, data, false, st);
            after(percent, value_field_out(block, "count"@, data, false, left(percent, st)))
        },
        _ => nothing(st),
    }
}

/// The marks after the fields that steer a walk of the kind were claimed.
pub open spec fn steering_marks(lt: ListType, marks: Seq<bool>, items: Seq<BlockItem>) -> Seq<bool> {
    match lt {
        ListType::Ordered => claim(
            claim(
                claim(claim(claim(marks, items, "order_by"@), items, "position"@), items, "min"@),
                items,
                "max"@,
            ),
            items,
            "check_range_bounds"@,
        ),
        ListType::Random => claim(marks, items, "weight"@),
        ListType::Any => claim(claim(marks, items, "percent"@), items, "count"@),
        ListType::Every => marks,
    }
}

/// What the validation of the fields that steer a walk comes to.
pub open spec fn steering_out(lt: ListType, block: &Block, data: &Everything, st: State) -> Outcome
    decreases st.fuel, 1int, block, 1int,
{
    let items = block.items@;
    let n = items.len() as int;
    match lt {
        ListType::Ordered => {
            let ordered = value_field_out(block, "order_by"@, data, false, st);
            after(
                ordered,
                only(left(ordered, st), fields_diags(items, "check_range_bounds"@, true, per_kind(FieldKind::Bool, data), n)),
            )
        },
        ListType::Random => only(st, fields_diags(items, "weight"@, true, per_kind(FieldKind::Block, data), n)),
        _ => nothing(st),
    }
}

/// What is reported of the field `even_if_dead` of a walk.
pub open spec fn inside_diags(block: &Block, data: &Everything) -> Seq<DiagnosticView> {
    fields_diags(
        block.items@,
        "even_if_dead"@,
        true,
        per_kind(FieldKind::Bool, data),
        block.items@.len() as int,
    )
}

/// The marks with which the body of a walk is validated as an expression.
pub open spec fn body_marks(lt: ListType, block: &Block) -> Seq<bool> {
    claim(
        steering_marks(lt, claim(no_marks(block), block.items@, "limit"@), block.items@),
        block.items@,
        "even_if_dead"@,
    )
}

/// What the validation of the block of a walk comes to, in the scope of
/// the list's elements: its `limit` as a block of triggers, the fields that
/// steer the walk, and the rest as the fields of an expression that may
/// have a value.
pub open spec fn iterator_out(lt: ListType, block: &Block, data: &Everything, check_desc: bool, st: State) -> Outcome
    decreases st.fuel, 1int, block, (block.items@.len() + 3) as int,
{
    let limited = after(only(st, limit_diags(block, data)), limit_out(block, data, st));
    let steered = after(limited, steering_out(lt, block, data, left(limited, st)));
    let inside = after(steered, only(left(steered, st), inside_diags(block, data)));
    after(inside, fields_out(block, body_marks(lt, block), data, check_desc, TriBool::Maybe, left(inside, st)))
}

/// What the validation of a block of triggers comes to, or with `effect`
/// of a block of effects.
pub open spec fn clauses_out(block: &Block, data: &Everything, effect: bool, st: State) -> Outcome
    decreases st.fuel, 1int, block, (block.items@.len() + 1) as int,
{
    clauses_walk(block, data, effect, st, block.items@.len() as int)
}

/// What is reported of a node that has no place among triggers and
/// effects: a bare word or a nested block without a key.
pub open spec fn stray_diags(item: BlockItem) -> Seq<DiagnosticView> {
    match item {
        BlockItem::Keyword(t) => seq![diag(Severity::Error, ErrorKey::Validation, *t.loc(), "unexpected token"@)],
        BlockItem::Block(b) => seq![diag(Severity::Error, ErrorKey::Validation, b.loc, "unexpected block"@)],
        BlockItem::Field(_, _, _) => Seq::empty(),
    }
}

/// What the validation of the first `n` nodes of a block of triggers or
/// effects comes to, from the state `st`.
pub open spec fn clauses_walk(block: &Block, data: &Everything, effect: bool, st: State, n: int) -> Outcome
    decreases st.fuel, 1int, block, n,
{
    if n <= 0 || n > block.items@.len() {
        nothing(st)
    } else {
        let w = clauses_walk(block, data, effect, st, n - 1);
        match block.items@[n - 1] {
            BlockItem::Field(k, op, bv) => {
                proof {
                    lemma_field_smaller(block, n - 1);
                }
                after(w, clause_out(k, op, bv, data, effect, left(w, st)))
            },
            _ => after(w, only(left(w, st), stray_diags(block.items@[n - 1]))),
        }
    }
}

/// What is reported of a walk that stands where its way of walking has no
/// place: `any_` asks a question and belongs among triggers, the other
/// ways act and belong among effects.
pub open spec fn misplaced_diags(key: Token, effect: bool) -> Seq<DiagnosticView> {
    if (walk_way(key@) == ListType::Any) == !effect {
        Seq::empty()
    } else {
        seq![diag(Severity::Error, ErrorKey::Validation, *key.loc(), "this kind of iterator cannot be used here"@)]
    }
}

/// Whether a key among triggers or effects walks a list that the catalog
/// knows.
pub open spec fn walks_list(key: Seq<char>, data: &Everything) -> bool {
    iterator_key(key) is Some && rule_named(data.catalog.iterators@, walk_name(key)) is Some
}

/// What the validation of a walk over a list among triggers or effects
/// comes to: the walk must stand where its way of walking has a place, and
/// the active scope must have the list; a block is validated in the scope
/// of the list's elements, which is closed afterwards.
pub open spec fn clause_walk_out(key: Token, bv: BV, data: &Everything, effect: bool, st: State) -> Outcome
    decreases st.fuel, 1int, bv, 2int,
{
    let list = walked_list(key@, data);
    let narrowed = only(
        st.expect(list.from),
        misplaced_diags(key, effect) + st.c.expect_diags(list.from, key@, *key.loc()),
    );
    match bv {
        BV::Block(b) => after(
            narrowed,
            closed(clauses_out(&b, data, effect, left(narrowed, st).open(list.to)), narrowed.st.c),
        ),
        BV::Value(_) => after(narrowed, only(left(narrowed, st), bv.expect_block_diags())),
    }
}

/// What the validation of a field among triggers or effects comes to whose
/// key is a scope chain: the chain is followed in a scope under
/// construction, which is closed afterwards; if all of it is known, a
/// block is validated in the scope that the chain leads to, and a token is
/// validated, after the scope is closed, as what a scope of those types or
/// a value is compared with.
pub open spec fn clause_chain_out(
    key: Token,
    op: Comparator,
    bv: BV,
    data: &Everything,
    effect: bool,
    st: State,
) -> Outcome
    decreases st.fuel, 1int, bv, 2int,
{
    let started = st.c.open_builder();
    let followed = only(
        st.with(chain_end(key, started, &data.catalog)),
        chain_findings(key, started, &data.catalog, op == Comparator::QEq),
    );
    if chain_known(key@, &data.catalog) {
        match bv {
            BV::Block(b) => closed(
                after(followed, clauses_out(&b, data, effect, left(followed, st).finalize())),
                st.c,
            ),
            BV::Value(t) => after(
                closed(followed, st.c),
                target_ok_this_out(t, data, followed.st.c.this.union(spec_value_scopes()), st),
            ),
        }
    } else {
        closed(followed, st.c)
    }
}

/// What the validation of one field of a block of triggers or effects
/// comes to in the state `st`: a word that joins triggers, and the `limit`
/// of an effect, hold triggers; a trigger or an effect of the catalog
/// narrows the active scope to where it can stand, and has an argument;
/// other keys walk a list or are scope chains.
pub open spec fn clause_out(key: Token, op: Comparator, bv: BV, data: &Everything, effect: bool, st: State) -> Outcome
    decreases st.fuel, 1int, bv, 3int,
{
    if (!effect && is_logic_key(key@)) || (effect && key@ == "limit"@) {
        match bv {
            BV::Block(b) => clauses_out(&b, data, effect && key@ != "limit"@, st),
            BV::Value(_) => only(st, bv.expect_block_diags()),
        }
    } else if clause_rule(key@, data, effect) is Some {
        let rule = clause_rule(key@, data, effect)->0;
        let narrowed = only(st.expect(rule.from), st.c.expect_diags(rule.from, key@, *key.loc()));
        after(narrowed, argument_out(rule.arg, bv, data, effect, left(narrowed, st)))
    } else if walks_list(key@, data) {
        clause_walk_out(key, bv, data, effect, st)
    } else {
        clause_chain_out(key, op, bv, data, effect, st)
    }
}

/// What the validation of the argument of a trigger or an effect comes to
/// in the state `st`.
pub open spec fn argument_out(arg: Arg, bv: BV, data: &Everything, effect: bool, st: State) -> Outcome
    decreases st.fuel, 1int, bv, 2int,
{
    match arg {
        Arg::Bool => only(st, kind_diags(bv, FieldKind::Bool, data)),
        Arg::Item(item) => only(st, kind_diags(bv, FieldKind::Item(item), data)),
        Arg::Value => expression_out(bv, data, false, st),
        Arg::Target(scopes) => match bv {
            BV::Value(t) => target_out(t, data, scopes, st),
            BV::Block(_) => only(st, bv.expect_value_diags()),
        },
        Arg::Block => match bv {
            BV::Block(b) => clauses_out(&b, data, effect, st),
            BV::Value(_) => only(st, bv.expect_block_diags()),
        },
    }
}

/// Whether a numeric expression has a value: a token and a range have one;
/// a block of operations has what its fields leave it with.
pub open spec fn expression_state(bv: BV, data: &Everything) -> TriBool {
    match bv {
        BV::Value(_) => TriBool::True,
        BV::Block(b) => if is_range(&b) {
            TriBool::True
        } else {
            state_at(
                b.items@,
                head_marks(no_marks(&b), b.items@),
                &data.catalog,
                TriBool::False,
                b.items@.len() as int,
            )
        },
    }
}

/// The class of each key that the grammar of numeric expressions knows by
/// name.
pub proof fn lemma_key_classes(catalog: &Catalog)
    ensures
        key_class("save_temporary_scope_as"@, catalog) == KeyClass::SaveScope,
        key_class("save_temporary_value_as"@, catalog) == KeyClass::SaveValue,
        key_class("value"@, catalog) == KeyClass::Value,
        key_class("add"@, catalog) == KeyClass::Add,
        key_class("subtract"@, catalog) == KeyClass::Add,
        key_class("min"@, catalog) == KeyClass::Add,
        key_class("max"@, catalog) == KeyClass::Add,
        key_class("multiply"@, catalog) == KeyClass::Multiply,
        key_class("divide"@, catalog) == KeyClass::Multiply,
        key_class("modulo"@, catalog) == KeyClass::Multiply,
        key_class("round"@, catalog) == KeyClass::Round,
        key_class("ceiling"@, catalog) == KeyClass::Round,
        key_class("floor"@, catalog) == KeyClass::Round,
        key_class("fixed_range"@, catalog) == KeyClass::Range,
        key_class("integer_range"@, catalog) == KeyClass::Range,
        key_class("if"@, catalog) == KeyClass::If,
        key_class("else_if"@, catalog) == KeyClass::ElseIf,
        key_class("else"@, catalog) == KeyClass::Else,
{
    reveal(key_class);
    reveal_strlit("save_temporary_scope_as");
    assert("save_temporary_scope_as"@.len() == 23 && "save_temporary_scope_as"@[15] == 's');
    reveal_strlit("save_temporary_value_as");
    assert("save_temporary_value_as"@.len() == 23 && "save_temporary_value_as"@[15] == 'v');
    reveal_strlit("value");
    assert("value"@.len() == 5 && "value"@[0] == 'v');
    reveal_strlit("add");
    assert("add"@.len() == 3 && "add"@[0] == 'a' && "add"@[1] == 'd');
    reveal_strlit("subtract");
    assert("subtract"@.len() == 8 && "subtract"@[0] == 's');
    reveal_strlit("min");
    assert("min"@.len() == 3 && "min"@[0] == 'm' && "min"@[1] == 'i');
    reveal_strlit("max");
    assert("max"@.len() == 3 && "max"@[0] == 'm' && "max"@[1] == 'a');
    reveal_strlit("multiply");
    assert("multiply"@.len() == 8 && "multiply"@[0] == 'm');
    reveal_strlit("divide");
    assert("divide"@.len() == 6 && "divide"@[0] == 'd');
    reveal_strlit("modulo");
    assert("modulo"@.len() == 6 && "modulo"@[0] == 'm');
    reveal_strlit("round");
    assert("round"@.len() == 5 && "round"@[0] == 'r');
    reveal_strlit("ceiling");
    assert("ceiling"@.len() == 7 && "ceiling"@[0] == 'c');
    reveal_strlit("floor");
    assert("floor"@.len() == 5 && "floor"@[0] == 'f');
    reveal_strlit("fixed_range");
    assert("fixed_range"@.len() == 11);
    reveal_strlit("integer_range");
    assert("integer_range"@.len() == 13);
    reveal_strlit("if");
    assert("if"@.len() == 2);
    reveal_strlit("else_if");
    assert("else_if"@.len() == 7 && "else_if"@[0] == 'e');
    reveal_strlit("else");
    assert("else"@.len() == 4);
}

/// An `else_if` is reported where it does not follow an `if`, an `else_if`
/// or an `else` with a `limit`: the grammar finds it wrong as the first
/// field of an expression, and after every field that does not arm it.
pub proof fn law_else_if_needs_if(items: Seq<BlockItem>, marks: Seq<bool>, catalog: &Catalog, start: TriBool, k: int)
    requires
        is_field_at(items, marks, k),
        items[k]->Field_0@ == "else_if"@,
        k == 0 || (is_field_at(items, marks, k - 1) && !arms(
            items[k - 1]->Field_0@,
            items[k - 1]->Field_2,
            catalog,
        )),
    ensures
        grammar_at(items, marks, catalog, start, k) == Some(
            diag(
                Severity::Warning,
                ErrorKey::Validation,
                *items[k]->Field_0.loc(),
                "`else_if` without preceding `if`"@,
            ),
        ),
{
    lemma_key_classes(catalog);
}

/// After an `if`, after an `else_if`, and after an `else` whose block has a
/// `limit`, the grammar finds nothing wrong with an `else_if`.
pub proof fn law_else_if_after_if(items: Seq<BlockItem>, marks: Seq<bool>, catalog: &Catalog, start: TriBool, k: int)
    requires
        is_field_at(items, marks, k),
        items[k]->Field_0@ == "else_if"@,
        is_field_at(items, marks, k - 1),
        items[k - 1]->Field_0@ == "if"@ || items[k - 1]->Field_0@ == "else_if"@ || (items[k - 1]->Field_0@
            == "else"@ && items[k - 1]->Field_2 is Block && has_field(
            items[k - 1]->Field_2->Block_0.items@,
            "limit"@,
        )),
    ensures
        grammar_at(items, marks, catalog, start, k) is None,
{
    lemma_key_classes(catalog);
}

/// An operation on a value that is not there yet is reported: a
/// `multiply`, `divide` or `modulo` as the first field of an expression
/// without a value. After a `value` the expression has one, and the same
/// operation is not reported.
pub proof fn law_multiply_needs_value(items: Seq<BlockItem>, marks: Seq<bool>, catalog: &Catalog, k: int)
    requires
        is_field_at(items, marks, k),
        items[k]->Field_0@ == "multiply"@ || items[k]->Field_0@ == "divide"@ || items[k]->Field_0@ == "modulo"@,
    ensures
        k == 0 ==> grammar_at(items, marks, catalog, TriBool::False, k) == Some(
            diag(Severity::Warning, ErrorKey::Logic, *items[k]->Field_0.loc(), nothing_yet_msg(items[k]->Field_0@)),
        ),
        k > 0 && is_field_at(items, marks, k - 1) && items[k - 1]->Field_0@ == "value"@ ==> grammar_at(
            items,
            marks,
            catalog,
            TriBool::False,
            k,
        ) is None && state_at(items, marks, catalog, TriBool::False, k + 1) == TriBool::True,
{
    lemma_key_classes(catalog);
    if k > 0 && is_field_at(items, marks, k - 1) && items[k - 1]->Field_0@ == "value"@ {
        assert(state_at(items, marks, catalog, TriBool::False, k) == TriBool::True);
        assert(state_at(items, marks, catalog, TriBool::False, k + 1) == TriBool::True);
    }
}

/// Nothing is reported of a number where a value fits, and its validation
/// changes nothing.
pub proof fn lemma_numbers_fit(token: Token, st: State, data: &Everything)
    requires
        is_number_text(token@),
    ensures
        target_ok_this_out(token, data, spec_value_scopes(), st) == nothing(st),
{
    assert(spec_value_scopes().intersects(Scopes { bits: SCOPE_VALUE })) by {
        assert((SCOPE_VALUE | SCOPE_BOOL) & SCOPE_VALUE != 0) by (bit_vector);
    }
}

/// Where none of the first `n` nodes is a field called `name`, there is no
/// last such field.
proof fn lemma_no_such_field(items: Seq<BlockItem>, name: Seq<char>, n: int)
    requires
        0 <= n <= items.len(),
        forall|i: int| 0 <= i < n ==> (#[trigger] items[i]) is Field && items[i]->Field_0@ != name,
    ensures
        last_field(items, name, Shape::Any, n) is None,
    decreases n,
{
    if n > 0 {
        lemma_no_such_field(items, name, n - 1);
        assert(items[n - 1] is Field);
    }
}

/// Whether the field of a walk called `name` that is evaluated in the scope
/// that the walk starts from holds a token, if there is such a field.
pub open spec fn bound_is_token(block: &Block, name: Seq<char>) -> bool {
    match last_field(block.items@, name, Shape::Any, block.items@.len() as int) {
        Some(j) => block.items@[j]->Field_2 is Value,
        None => true,
    }
}

/// Whether nothing but tokens is evaluated in the scope that a walk starts
/// from: so it is with every walk that takes each element or one at
/// random, and with a walk in order whose `position`, `min` and `max` are
/// tokens.
pub open spec fn starts_with_tokens(lt: ListType, bv: BV) -> bool {
    match lt {
        ListType::Every | ListType::Random => true,
        ListType::Ordered => bv matches BV::Block(b) ==> bound_is_token(&b, "position"@) && bound_is_token(
            &b,
            "min"@,
        ) && bound_is_token(&b, "max"@),
        ListType::Any => false,
    }
}

/// The validation of a token that stands for a scope or a value leaves the
/// context as it was.
pub proof fn lemma_target_keeps_context(t: Token, data: &Everything, outscopes: Scopes, st: State)
    ensures
        target_ok_this_out(t, data, outscopes, st).st.c == st.c,
{
}

/// The validation of the last field called `name` that holds a token
/// leaves the context as it was.
proof fn lemma_bound_keeps_context(block: &Block, name: Seq<char>, data: &Everything, st: State)
    requires
        bound_is_token(block, name),
    ensures
        value_field_out(block, name, data, false, st).st.c == st.c,
{
    match last_field(block.items@, name, Shape::Any, block.items@.len() as int) {
        Some(j) => {
            lemma_last_field_bounds(block.items@, name, Shape::Any, block.items@.len() as int);
            let t = block.items@[j]->Field_2->Value_0;
            lemma_target_keeps_context(t, data, spec_value_scopes(), st);
            assert(expression_out(block.items@[j]->Field_2, data, false, st) == target_ok_this_out(
                t,
                data,
                spec_value_scopes(),
                st,
            ));
        },
        None => {},
    }
}

/// A field that walks a list narrows the active scope as the expectation
/// of the list's input types does, and leaves nothing else of the walk in
/// the context: the scope of the elements is closed again. So the active
/// set after the field is the intersection of the set before it with the
/// input types of the list, where the two have a type in common; where
/// they have none, the context is as before, and the first thing reported
/// is the mismatch at the key.
pub proof fn law_walk_narrows(
    key: Token,
    op: Comparator,
    bv: BV,
    data: &Everything,
    check_desc: bool,
    prev: TriBool,
    armed: bool,
    st: State,
)
    requires
        key_class(key@, &data.catalog) is Iterator,
        starts_with_tokens(key_class(key@, &data.catalog)->Iterator_0, bv),
    ensures
        ({
            let from = walked_list(key@, data).from;
            let out = field_out(key, op, bv, data, check_desc, prev, armed, st);
            &&& out.st.c == st.c.expect(from)
            &&& st.c.this.intersects(from) ==> out.st.c == (ContextView {
                this: st.c.this.intersection(from),
                ..st.c
            })
            &&& !st.c.this.intersects(from) ==> {
                &&& out.st.c == st.c
                &&& out.diags.len() > 0
                &&& out.diags[0] == diag(st.c.mismatch_severity(), ErrorKey::Scopes, *key.loc(), mismatch_msg(key@))
            }
        }),
{
    let lt = key_class(key@, &data.catalog)->Iterator_0;
    let class = key_class(key@, &data.catalog);
    let from = walked_list(key@, data).from;
    let narrowed = only(st.expect(from), st.c.expect_diags(from, key@, *key.loc()));
    assert(grammar_diags(key, &data.catalog, prev, armed) =~= Seq::<DiagnosticView>::empty());
    assert(operand_out(class, key, op, bv, data, check_desc, prev, st) == walk_operand_out(
        lt,
        key,
        bv,
        data,
        check_desc,
        st,
    ));
    let walked = walk_operand_out(lt, key, bv, data, check_desc, st);
    match bv {
        BV::Value(_) => {},
        BV::Block(b) => {
            if lt == ListType::Ordered {
                let position = value_field_out(&b, "position"@, data, false, narrowed.st);
                lemma_bound_keeps_context(&b, "position"@, data, narrowed.st);
                let min = after(position, value_field_out(&b, "min"@, data, false, left(position, narrowed.st)));
                lemma_bound_keeps_context(&b, "min"@, data, left(position, narrowed.st));
                lemma_bound_keeps_context(&b, "max"@, data, left(min, narrowed.st));
            }
            assert(precheck_out(lt, &b, data, narrowed.st).st.c == narrowed.st.c);
        },
    }
    assert(walked.st.c == st.c.expect(from));
    let out = field_out(key, op, bv, data, check_desc, prev, armed, st);
    assert(out.diags =~= walked.diags);
    if !st.c.this.intersects(from) {
        assert(walked.diags[0] == st.c.expect_diags(from, key@, *key.loc())[0]);
    }
}

/// A walk over a list among triggers or effects narrows the active scope
/// as the expectation of the list's input types does, and leaves nothing
/// else in the context.
pub proof fn law_clause_walk_narrows(key: Token, bv: BV, data: &Everything, effect: bool, st: State)
    ensures
        clause_walk_out(key, bv, data, effect, st).st.c == st.c.expect(walked_list(key@, data).from),
{
}

/// A field whose key is a scope chain leaves the context as it was: the
/// scope that the chain leads to is closed again, whatever was validated
/// in it.
pub proof fn law_chain_gives_back(
    key: Token,
    op: Comparator,
    bv: BV,
    data: &Everything,
    check_desc: bool,
    prev: TriBool,
    st: State,
)
    ensures
        chain_operand_out(key, op, bv, data, check_desc, prev, st).st.c == st.c,
{
}

/// The expression `{ value = a multiply = b }`, where `a` and `b` are
/// numbers, has a value; nothing is reported of it, and its validation
/// changes nothing. Of `{ multiply = b }` exactly one thing is reported,
/// that there is nothing to multiply yet, and it has no value.
pub proof fn law_value_then_multiply(both: &Block, one: &Block, st: State, data: &Everything, check_desc: bool)
    requires
        both.items@.len() == 2,
        both.items@[0] is Field && both.items@[0]->Field_0@ == "value"@,
        both.items@[0]->Field_2 is Value && is_number_text(both.items@[0]->Field_2->Value_0@),
        both.items@[1] is Field && both.items@[1]->Field_0@ == "multiply"@,
        both.items@[1]->Field_2 is Value && is_number_text(both.items@[1]->Field_2->Value_0@),
        one.items@.len() == 1,
        one.items@[0] is Field && one.items@[0]->Field_0@ == "multiply"@,
        one.items@[0]->Field_2 is Value && is_number_text(one.items@[0]->Field_2->Value_0@),
    ensures
        expression_out(BV::Block(*both), data, check_desc, st).diags == Seq::<DiagnosticView>::empty(),
        expression_out(BV::Block(*both), data, check_desc, st).st == st,
        expression_state(BV::Block(*both), data) == TriBool::True,
        expression_out(BV::Block(*one), data, check_desc, st).st == st,
        expression_out(BV::Block(*one), data, check_desc, st).diags == seq![
            diag(Severity::Warning, ErrorKey::Logic, *one.items@[0]->Field_0.loc(), nothing_yet_msg("multiply"@)),
        ],
        expression_state(BV::Block(*one), data) == TriBool::False,
{
    let catalog = &data.catalog;
    lemma_key_classes(catalog);
    reveal_strlit("desc");
    reveal_strlit("format");
    reveal_strlit("value");
    reveal_strlit("multiply");
    assert("desc"@.len() == 4 && "format"@.len() == 6 && "value"@.len() == 5 && "multiply"@.len() == 8);
    lemma_numbers_fit(both.items@[0]->Field_2->Value_0, st, data);
    lemma_numbers_fit(both.items@[1]->Field_2->Value_0, st, data);
    lemma_numbers_fit(one.items@[0]->Field_2->Value_0, st, data);
    let kind = if check_desc {
        FieldKind::Item(Item::Localization)
    } else {
        FieldKind::Value
    };
    // The first block.
    let m2 = head_marks(no_marks(both), both.items@);
    assert(!m2[0] && !m2[1]);
    lemma_no_such_field(both.items@, "desc"@, 2);
    lemma_no_such_field(both.items@, "format"@, 2);
    lemma_no_field_no_diags(both.items@, "desc"@, true, per_kind(kind, data), 2);
    lemma_no_field_no_diags(both.items@, "format"@, true, per_kind(kind, data), 2);
    assert(head_diags(both, data, check_desc) =~= Seq::<DiagnosticView>::empty());
    assert(state_at(both.items@, m2, catalog, TriBool::False, 0) == TriBool::False);
    assert(state_at(both.items@, m2, catalog, TriBool::False, 1) == TriBool::True);
    assert(state_at(both.items@, m2, catalog, TriBool::False, 2) == TriBool::True);
    assert(is_field_at(both.items@, m2, 0) && is_field_at(both.items@, m2, 1));
    assert(!armed_at(both.items@, m2, catalog, 0) && !armed_at(both.items@, m2, catalog, 1));
    let w0 = walk_fields(both, m2, data, check_desc, TriBool::False, st, 0);
    assert(w0 == nothing(st));
    let first = both.items@[0];
    let second = both.items@[1];
    assert(expression_out(first->Field_2, data, check_desc, st) == nothing(st));
    assert(operand_out(
        KeyClass::Value,
        first->Field_0,
        first->Field_1,
        first->Field_2,
        data,
        check_desc,
        TriBool::False,
        st,
    )
        == nothing(st));
    assert(grammar_diags(first->Field_0, catalog, TriBool::False, false) =~= Seq::<DiagnosticView>::empty());
    assert(field_out(first->Field_0, first->Field_1, first->Field_2, data, check_desc, TriBool::False, false, st).diags
        =~= Seq::<DiagnosticView>::empty());
    assert(expression_out(second->Field_2, data, check_desc, st) == nothing(st));
    assert(operand_out(
        KeyClass::Multiply,
        second->Field_0,
        second->Field_1,
        second->Field_2,
        data,
        check_desc,
        TriBool::True,
        st,
    ) == nothing(st));
    assert(grammar_diags(second->Field_0, catalog, TriBool::True, false) =~= Seq::<DiagnosticView>::empty());
    assert(field_out(second->Field_0, second->Field_1, second->Field_2, data, check_desc, TriBool::True, false, st).diags
        =~= Seq::<DiagnosticView>::empty());
    let w1 = walk_fields(both, m2, data, check_desc, TriBool::False, st, 1);
    assert(w1.st == st && w1.diags =~= Seq::<DiagnosticView>::empty());
    let w2 = walk_fields(both, m2, data, check_desc, TriBool::False, st, 2);
    assert(w2.st == st && w2.diags =~= Seq::<DiagnosticView>::empty());
    let e2 = expression_out(BV::Block(*both), data, check_desc, st);
    assert(e2.diags =~= Seq::<DiagnosticView>::empty());
    // The second block.
    let m1 = head_marks(no_marks(one), one.items@);
    assert(!m1[0]);
    lemma_no_such_field(one.items@, "desc"@, 1);
    lemma_no_such_field(one.items@, "format"@, 1);
    lemma_no_field_no_diags(one.items@, "desc"@, true, per_kind(kind, data), 1);
    lemma_no_field_no_diags(one.items@, "format"@, true, per_kind(kind, data), 1);
    assert(head_diags(one, data, check_desc) =~= Seq::<DiagnosticView>::empty());
    assert(state_at(one.items@, m1, catalog, TriBool::False, 0) == TriBool::False);
    assert(state_at(one.items@, m1, catalog, TriBool::False, 1) == TriBool::False);
    assert(is_field_at(one.items@, m1, 0));
    assert(!armed_at(one.items@, m1, catalog, 0));
    let v0 = walk_fields(one, m1, data, check_desc, TriBool::False, st, 0);
    assert(v0 == nothing(st));
    let only_one = one.items@[0];
    let nothing_yet = diag(Severity::Warning, ErrorKey::Logic, *only_one->Field_0.loc(), nothing_yet_msg("multiply"@));
    assert(expression_out(only_one->Field_2, data, check_desc, st) == nothing(st));
    assert(operand_out(
        KeyClass::Multiply,
        only_one->Field_0,
        only_one->Field_1,
        only_one->Field_2,
        data,
        check_desc,
        TriBool::False,
        st,
    ) == nothing(st));
    assert(grammar_diags(only_one->Field_0, catalog, TriBool::False, false) =~= seq![nothing_yet]);
    assert(field_out(
        only_one->Field_0,
        only_one->Field_1,
        only_one->Field_2,
        data,
        check_desc,
        TriBool::False,
        false,
        st,
    ).diags =~= seq![nothing_yet]);
    let v1 = walk_fields(one, m1, data, check_desc, TriBool::False, st, 1);
    assert(v1.st == st && v1.diags =~= seq![
        diag(Severity::Warning, ErrorKey::Logic, *one.items@[0]->Field_0.loc(), nothing_yet_msg("multiply"@)),
    ]);
    let e1 = expression_out(BV::Block(*one), data, check_desc, st);
    assert(e1.diags =~= v1.diags);
}

} // verus!
