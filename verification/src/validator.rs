//! The block validator: it tracks which fields of one block the grammar has
//! claimed, checks the claimed ones against the shape asked of them, and
//! reports what is left unclaimed at the end.

use vstd::prelude::*;
use vstd::string::StringExecFns;
use crate::block::{all_fields, last_field, BV, Block, BlockItem, Comparator, Shape};
use crate::everything::Everything;
use crate::item::Item;
use crate::report::{diag, diag_info, DiagnosticView, ErrorKey, Severity, Sink};
use crate::token::{is_number_text, parse_i64, str_eq, too_many_decimals, Token};

verus! {

/// What a field's value is checked against.
#[derive(Clone, Copy, Debug, PartialEq, Eq, Structural)]
pub enum FieldKind {
    /// A token or a block, unchecked.
    Any,
    /// A token: a free identifier.
    Value,
    /// A block.
    Block,
    /// `yes` or `no`.
    Bool,
    /// An integer.
    Integer,
    /// A number with at most five decimals.
    Numeric,
    /// The name of a loaded definition of the kind.
    Item(Item),
}

/// What is reported of a token that should say `yes` or `no`.
pub open spec fn bool_diags(t: Token) -> Seq<DiagnosticView> {
    if t@ == "yes"@ || t@ == "no"@ {
        Seq::empty()
    } else {
        seq![diag(Severity::Error, ErrorKey::Validation, *t.loc(), "expected yes or no"@)]
    }
}

/// What is reported of a token that should write an integer.
pub open spec fn integer_diags(t: Token) -> Seq<DiagnosticView> {
    if parse_i64(t@) is Some {
        Seq::empty()
    } else {
        seq![diag(Severity::Error, ErrorKey::Validation, *t.loc(), "expected integer"@)]
    }
}

/// What is reported of a token that should write a number.
pub open spec fn numeric_diags(t: Token) -> Seq<DiagnosticView> {
    (if too_many_decimals(t@) {
        seq![
            diag_info(
                Severity::Error,
                ErrorKey::Validation,
                *t.loc(),
                "only 5 decimals are supported"@,
                "if you give more decimals, you get an error and the number is read as 0"@,
            ),
        ]
    } else {
        Seq::empty()
    }) + (if is_number_text(t@) {
        Seq::empty()
    } else {
        seq![diag(Severity::Error, ErrorKey::Validation, *t.loc(), "expected number"@)]
    })
}

/// What is reported of a value that is checked against a kind.
pub open spec fn kind_diags(bv: BV, kind: FieldKind, data: &Everything) -> Seq<DiagnosticView> {
    match kind {
        FieldKind::Any => Seq::empty(),
        FieldKind::Block => bv.expect_block_diags(),
        _ => match bv {
            BV::Block(_) => bv.expect_value_diags(),
            BV::Value(t) => match kind {
                FieldKind::Bool => bool_diags(t),
                FieldKind::Integer => integer_diags(t),
                FieldKind::Numeric => numeric_diags(t),
                FieldKind::Item(item) => data.missing_diags(item, t@, *t.loc()),
                _ => Seq::empty(),
            },
        },
    }
}

/// What is reported of a token that should be one of `choices`.
pub open spec fn choice_diags(bv: BV, choices: Seq<Seq<char>>) -> Seq<DiagnosticView> {
    match bv {
        BV::Block(_) => bv.expect_value_diags(),
        BV::Value(t) => if choices.contains(t@) {
            Seq::empty()
        } else {
            seq![diag(Severity::Error, ErrorKey::Validation, *t.loc(), "expected one of the allowed values"@)]
        },
    }
}

/// The check of a field's value against a kind, as a function of the value.
pub open spec fn per_kind(kind: FieldKind, data: &Everything) -> spec_fn(BV) -> Seq<DiagnosticView> {
    |bv: BV| kind_diags(bv, kind, data)
}

/// The check of a field's value against a list of choices.
pub open spec fn per_choice(choices: Seq<Seq<char>>) -> spec_fn(BV) -> Seq<DiagnosticView> {
    |bv: BV| choice_diags(bv, choices)
}

/// What is reported of a field that may stand once and stands again.
pub open spec fn again_diag(key: Token) -> DiagnosticView {
    diag(Severity::Warning, ErrorKey::Duplicate, *key.loc(), "field is defined more than once"@)
}

/// What is reported of the fields called `name` among the first `n` nodes,
/// in source order: for each the findings of `per` on its value, and before
/// them, where the field may stand only once and stood before, a
/// duplicate.
pub open spec fn fields_diags(
    items: Seq<BlockItem>,
    name: Seq<char>,
    unique: bool,
    per: spec_fn(BV) -> Seq<DiagnosticView>,
    n: int,
) -> Seq<DiagnosticView>
    decreases n,
{
    if n <= 0 {
        Seq::empty()
    } else {
        let prev = fields_diags(items, name, unique, per, n - 1);
        match items[n - 1] {
            BlockItem::Field(k, _, bv) => if k@ == name {
                prev + (if unique && last_field(items, name, Shape::Any, n - 1) is Some {
                    seq![again_diag(k)]
                } else {
                    Seq::empty()
                }) + per(bv)
            } else {
                prev
            },
            _ => prev,
        }
    }
}

/// What is reported of the fields called `name`, of which there should be
/// one, of the kind.
pub open spec fn checked(block: &Block, name: Seq<char>, kind: FieldKind, data: &Everything) -> Seq<DiagnosticView> {
    fields_diags(block.items@, name, true, per_kind(kind, data), block.items@.len() as int)
}

/// The marks after the fields called `name` were claimed.
pub open spec fn claim(marks: Seq<bool>, items: Seq<BlockItem>, name: Seq<char>) -> Seq<bool> {
    Seq::new(marks.len(), |i: int| marks[i] || items[i].is_named(name))
}

/// Whether the block has a field called `name`.
pub open spec fn has_field(items: Seq<BlockItem>, name: Seq<char>) -> bool {
    last_field(items, name, Shape::Any, items.len() as int) is Some
}

/// The message about a required field that is absent.
pub open spec fn missing_field_msg(name: Seq<char>) -> Seq<char> {
    "required field `"@ + name + "` missing"@
}

/// The message about a field that nothing claimed.
pub open spec fn unknown_field_msg(name: Seq<char>) -> Seq<char> {
    "unknown field `"@ + name + "`"@
}

/// What `req_field` reports.
pub open spec fn required_diags(block: &Block, name: Seq<char>, severity: Severity) -> Seq<DiagnosticView> {
    if has_field(block.items@, name) {
        Seq::empty()
    } else {
        seq![diag(severity, ErrorKey::FieldMissing, block.loc, missing_field_msg(name))]
    }
}

/// The positions, in order, of those of the first `n` nodes that are
/// unclaimed fields.
pub open spec fn unclaimed(items: Seq<BlockItem>, marks: Seq<bool>, n: int) -> Seq<int>
    decreases n,
{
    if n <= 0 {
        Seq::empty()
    } else if items[n - 1] is Field && !marks[n - 1] {
        unclaimed(items, marks, n - 1).push(n - 1)
    } else {
        unclaimed(items, marks, n - 1)
    }
}

/// What is reported of the unclaimed fields among the first `n` nodes: for
/// each, one unknown-field diagnostic at its key.
pub open spec fn remaining_diags(items: Seq<BlockItem>, marks: Seq<bool>, n: int) -> Seq<DiagnosticView>
    decreases n,
{
    if n <= 0 {
        Seq::empty()
    } else if items[n - 1] is Field && !marks[n - 1] {
        remaining_diags(items, marks, n - 1).push(
            diag(
                Severity::Warning,
                ErrorKey::UnknownField,
                *items[n - 1]->Field_0.loc(),
                unknown_field_msg(items[n - 1]->Field_0@),
            ),
        )
    } else {
        remaining_diags(items, marks, n - 1)
    }
}

/// The positions, in order, of those of the first `n` nodes that are bare
/// words.
pub open spec fn keywords(items: Seq<BlockItem>, n: int) -> Seq<int>
    decreases n,
{
    if n <= 0 {
        Seq::empty()
    } else if items[n - 1] is Keyword {
        keywords(items, n - 1).push(n - 1)
    } else {
        keywords(items, n - 1)
    }
}

/// One block under validation, with a mark on each of its nodes that says
/// whether the grammar has claimed it.
pub struct Validator<'a> {
    block: &'a Block,
    data: &'a Everything,
    claimed: Vec<bool>,
}

impl<'a> Validator<'a> {
    /// The block under validation.
    pub closed spec fn block(&self) -> &'a Block {
        self.block
    }

    /// The registry that references are checked against.
    pub closed spec fn data(&self) -> &'a Everything {
        self.data
    }

    /// For each node of the block, whether it is claimed.
    pub closed spec fn marks(&self) -> Seq<bool> {
        self.claimed@
    }

    /// There is one mark for each node.
    pub open spec fn wf(&self) -> bool {
        self.marks().len() == self.block().items@.len()
    }

    /// A validator of `block` that has claimed nothing.
    pub fn new(block: &'a Block, data: &'a Everything) -> (r: Validator<'a>)
        ensures
            r.wf(),
            r.block() == block,
            r.data() == data,
            forall|i: int| 0 <= i < r.marks().len() ==> !(#[trigger] r.marks()[i]),
    {
        let mut claimed: Vec<bool> = Vec::new();
        let mut i: usize = 0;
        while i < block.items.len()
            invariant
                i <= block.items@.len(),
                claimed@.len() == i,
                forall|k: int| 0 <= k < i ==> !(#[trigger] claimed@[k]),
            decreases block.items@.len() - i,
        {
            claimed.push(false);
            i += 1;
        }
        Validator { block, data, claimed }
    }

    /// Ends the validation and hands out the marks.
    pub fn into_marks(self) -> (r: Vec<bool>)
        ensures
            r@ == self.marks(),
    {
        self.claimed
    }

    /// Whether node `i` is claimed.
    pub fn is_claimed(&self, i: usize) -> (r: bool)
        requires
            self.wf(),
            i < self.block().items@.len(),
        ensures
            r == self.marks()[i as int],
    {
        self.claimed[i]
    }

    /// The block under validation.
    pub fn get_block(&self) -> (r: &'a Block)
        ensures
            r == self.block(),
    {
        self.block
    }

    /// The registry that references are checked against.
    pub fn get_data(&self) -> (r: &'a Everything)
        ensures
            r == self.data(),
    {
        self.data
    }

    /// Marks the fields called `name` as claimed.
    fn mark(&mut self, name: &str)
        requires
            old(self).wf(),
        ensures
            final(self).wf(),
            final(self).block() == old(self).block(),
            final(self).data() == old(self).data(),
            final(self).marks() == claim(old(self).marks(), old(self).block().items@, name@),
    {
        let mut i: usize = 0;
        while i < self.block.items.len()
            invariant
                i <= self.block.items@.len(),
                self.block == old(self).block,
                self.data == old(self).data,
                self.claimed@.len() == self.block.items@.len(),
                old(self).claimed@.len() == self.block.items@.len(),
                forall|k: int|
                    0 <= k < i ==> #[trigger] self.claimed@[k] == (old(self).claimed@[k]
                        || self.block.items@[k].is_named(name@)),
                forall|k: int| i <= k < self.claimed@.len() ==> #[trigger] self.claimed@[k] == old(self).claimed@[k],
            decreases self.block.items@.len() - i,
        {
            if self.block.items[i].has_name(name, Shape::Any) {
                self.claimed[i] = true;
            }
            i += 1;
        }
        assert(self.claimed@ =~= claim(old(self).marks(), old(self).block().items@, name@));
    }

    /// Checks each field called `name` against `kind`, and claims them.
    /// Returns whether there is such a field.
    pub fn check_fields(&mut self, name: &str, kind: FieldKind, unique: bool, sink: &mut Sink) -> (r: bool)
        requires
            old(self).wf(),
        ensures
            final(self).wf(),
            final(self).block() == old(self).block(),
            final(self).data() == old(self).data(),
            final(self).marks() == claim(old(self).marks(), old(self).block().items@, name@),
            r == has_field(old(self).block().items@, name@),
            final(sink)@ == old(sink)@ + fields_diags(
                old(self).block().items@,
                name@,
                unique,
                per_kind(kind, old(self).data()),
                old(self).block().items@.len() as int,
            ),
    {
        let block = self.block;
        let data = self.data;
        let ghost per = per_kind(kind, data);
        let mut seen = false;
        let mut i: usize = 0;
        assert(sink@ + Seq::<DiagnosticView>::empty() =~= sink@);
        while i < block.items.len()
            invariant
                i <= block.items@.len(),
                per == per_kind(kind, data),
                seen == last_field(block.items@, name@, Shape::Any, i as int) is Some,
                sink@ == old(sink)@ + fields_diags(block.items@, name@, unique, per, i as int),
            decreases block.items@.len() - i,
        {
            let ghost before = sink@;
            match &block.items[i] {
                BlockItem::Field(k, _, bv) => {
                    if k.is(name) {
                        if unique && seen {
                            report_again(k, sink);
                        }
                        check_bv(bv, kind, data, sink);
                        seen = true;
                        assert(sink@ =~= old(sink)@ + fields_diags(block.items@, name@, unique, per, i + 1));
                    }
                },
                _ => {},
            }
            i += 1;
        }
        self.mark(name);
        seen
    }

    /// Claims the fields called `name`, which may stand once, and checks
    /// the value of each against `kind`. Returns whether there is such a
    /// field.
    pub fn field_of_kind(&mut self, name: &str, kind: FieldKind, sink: &mut Sink) -> (r: bool)
        requires
            old(self).wf(),
        ensures
            final(self).wf(),
            final(self).block() == old(self).block(),
            final(self).data() == old(self).data(),
            final(self).marks() == claim(old(self).marks(), old(self).block().items@, name@),
            r == has_field(old(self).block().items@, name@),
            final(sink)@ == old(sink)@ + fields_diags(
                old(self).block().items@,
                name@,
                true,
                per_kind(kind, old(self).data()),
                old(self).block().items@.len() as int,
            ),
    {
        self.check_fields(name, kind, true, sink)
    }

    /// Claims the fields called `name`, which may repeat, and checks the
    /// value of each against `kind`. Returns whether there is such a field.
    pub fn field_list(&mut self, name: &str, kind: FieldKind, sink: &mut Sink) -> (r: bool)
        requires
            old(self).wf(),
        ensures
            final(self).wf(),
            final(self).block() == old(self).block(),
            final(self).data() == old(self).data(),
            final(self).marks() == claim(old(self).marks(), old(self).block().items@, name@),
            r == has_field(old(self).block().items@, name@),
            final(sink)@ == old(sink)@ + fields_diags(
                old(self).block().items@,
                name@,
                false,
                per_kind(kind, old(self).data()),
                old(self).block().items@.len() as int,
            ),
    {
        self.check_fields(name, kind, false, sink)
    }

    /// Checks each field called `name` against the list of choices, and
    /// claims them. Returns whether there is such a field.
    pub fn field_choice(&mut self, name: &str, choices: &Vec<&str>, sink: &mut Sink) -> (r: bool)
        requires
            old(self).wf(),
        ensures
            final(self).wf(),
            final(self).block() == old(self).block(),
            final(self).data() == old(self).data(),
            final(self).marks() == claim(old(self).marks(), old(self).block().items@, name@),
            r == has_field(old(self).block().items@, name@),
            final(sink)@ == old(sink)@ + fields_diags(
                old(self).block().items@,
                name@,
                true,
                per_choice(choices@.map_values(|s: &str| s@)),
                old(self).block().items@.len() as int,
            ),
    {
        let block = self.block;
        let ghost per = per_choice(choices@.map_values(|s: &str| s@));
        let mut seen = false;
        let mut i: usize = 0;
        assert(sink@ + Seq::<DiagnosticView>::empty() =~= sink@);
        while i < block.items.len()
            invariant
                i <= block.items@.len(),
                per == per_choice(choices@.map_values(|s: &str| s@)),
                seen == last_field(block.items@, name@, Shape::Any, i as int) is Some,
                sink@ == old(sink)@ + fields_diags(block.items@, name@, true, per, i as int),
            decreases block.items@.len() - i,
        {
            match &block.items[i] {
                BlockItem::Field(k, _, bv) => {
                    if k.is(name) {
                        if seen {
                            report_again(k, sink);
                        }
                        check_choice(bv, choices, sink);
                        seen = true;
                        assert(sink@ =~= old(sink)@ + fields_diags(block.items@, name@, true, per, i + 1));
                    }
                },
                _ => {},
            }
            i += 1;
        }
        self.mark(name);
        seen
    }

    /// Reports an error unless the block has a field called `name`.
    pub fn req_field(&self, name: &str, sink: &mut Sink) -> (r: bool)
        ensures
            r == has_field(self.block().items@, name@),
            final(sink)@ == old(sink)@ + required_diags(self.block(), name@, Severity::Error),
    {
        self.require(name, Severity::Error, sink)
    }

    /// Reports a warning unless the block has a field called `name`.
    pub fn req_field_warn(&self, name: &str, sink: &mut Sink) -> (r: bool)
        ensures
            r == has_field(self.block().items@, name@),
            final(sink)@ == old(sink)@ + required_diags(self.block(), name@, Severity::Warning),
    {
        self.require(name, Severity::Warning, sink)
    }

    /// Reports a missing field, with the given severity, unless the block
    /// has a field called `name`.
    pub fn require(&self, name: &str, severity: Severity, sink: &mut Sink) -> (r: bool)
        ensures
            r == has_field(self.block().items@, name@),
            final(sink)@ == old(sink)@ + required_diags(self.block(), name@, severity),
    {
        if self.block.has_key(name) {
            assert(sink@ + Seq::<DiagnosticView>::empty() =~= sink@);
            true
        } else {
            let mut msg = String::from_str("required field `");
            msg.append(name);
            msg.append("` missing");
            sink.report(severity, ErrorKey::FieldMissing, &self.block.loc, msg.as_str());
            assert(sink@ =~= old(sink)@ + required_diags(self.block(), name@, severity));
            false
        }
    }
}

/// Checks a value against a kind.
pub fn check_bv(bv: &BV, kind: FieldKind, data: &Everything, sink: &mut Sink)
    ensures
        final(sink)@ == old(sink)@ + kind_diags(*bv, kind, data),
{
    match kind {
        FieldKind::Any => {
            assert(sink@ + Seq::<DiagnosticView>::empty() =~= sink@);
        },
        FieldKind::Block => {
            let _ = bv.expect_block(sink);
        },
        _ => {
            if let Some(t) = bv.expect_value(sink) {
                match kind {
                    FieldKind::Bool => {
                        if !(t.is("yes") || t.is("no")) {
                            sink.error(t.loc(), ErrorKey::Validation, "expected yes or no");
                        }
                    },
                    FieldKind::Integer => {
                        let _ = t.expect_integer(sink);
                    },
                    FieldKind::Numeric => {
                        t.check_number(sink);
                        if !t.is_number() {
                            sink.error(t.loc(), ErrorKey::Validation, "expected number");
                        }
                    },
                    FieldKind::Item(item) => {
                        let _ = data.verify_exists(item, t, sink);
                    },
                    _ => {},
                }
                assert(sink@ =~= old(sink)@ + kind_diags(*bv, kind, data));
            }
        },
    }
}

/// Checks a value against a list of choices.
pub fn check_choice(bv: &BV, choices: &Vec<&str>, sink: &mut Sink)
    ensures
        final(sink)@ == old(sink)@ + choice_diags(*bv, choices@.map_values(|s: &str| s@)),
{
    let ghost list = choices@.map_values(|s: &str| s@);
    if let Some(t) = bv.expect_value(sink) {
        let mut found = false;
        let mut i: usize = 0;
        while i < choices.len()
            invariant
                i <= choices@.len(),
                list == choices@.map_values(|s: &str| s@),
                found == (exists|k: int| 0 <= k < i && #[trigger] list[k] == t@),
            decreases choices@.len() - i,
        {
            if str_eq(choices[i], t.as_str()) {
                found = true;
                assert(list[i as int] == t@);
            }
            i += 1;
        }
        if !found {
            sink.error(t.loc(), ErrorKey::Validation, "expected one of the allowed values");
        }
        assert(sink@ =~= old(sink)@ + choice_diags(*bv, list));
    }
}

/// Reports that the field at `key` stood before.
fn report_again(key: &Token, sink: &mut Sink)
    ensures
        final(sink)@ == old(sink)@.push(again_diag(*key)),
{
    sink.warn(key.loc(), ErrorKey::Duplicate, "field is defined more than once");
}

/// The marks after every field was claimed.
pub open spec fn claim_fields(marks: Seq<bool>, items: Seq<BlockItem>) -> Seq<bool> {
    Seq::new(marks.len(), |i: int| marks[i] || items[i] is Field)
}

/// The marks after every bare word was claimed.
pub open spec fn claim_keywords(marks: Seq<bool>, items: Seq<BlockItem>) -> Seq<bool> {
    Seq::new(marks.len(), |i: int| marks[i] || items[i] is Keyword)
}

/// What `advice_field` reports: the advice, at the key of the last field
/// called `name`.
pub open spec fn advice_diags(items: Seq<BlockItem>, name: Seq<char>, msg: Seq<char>) -> Seq<DiagnosticView> {
    match last_field(items, name, Shape::Any, items.len() as int) {
        Some(i) => seq![diag(Severity::Advice, ErrorKey::Unneeded, *items[i]->Field_0.loc(), msg)],
        None => Seq::empty(),
    }
}

impl<'a> Validator<'a> {
    /// Claims the fields called `name`, which may stand once, and returns
    /// the value of the last.
    pub fn field(&mut self, name: &str, sink: &mut Sink) -> (r: Option<&'a BV>)
        requires
            old(self).wf(),
        ensures
            final(self).wf(),
            final(self).block() == old(self).block(),
            final(self).data() == old(self).data(),
            final(self).marks() == claim(old(self).marks(), old(self).block().items@, name@),
            r == (match last_field(
                old(self).block().items@,
                name@,
                Shape::Any,
                old(self).block().items@.len() as int,
            ) {
                Some(i) => Some(&old(self).block().items@[i]->Field_2),
                None => None,
            }),
            final(sink)@ == old(sink)@ + fields_diags(
                old(self).block().items@,
                name@,
                true,
                per_kind(FieldKind::Any, old(self).data()),
                old(self).block().items@.len() as int,
            ),
    {
        let _ = self.check_fields(name, FieldKind::Any, true, sink);
        self.block.get_field(name)
    }

    /// Claims the fields called `name`, which may stand once and must hold
    /// a token, and returns the token of the last that does.
    pub fn field_value(&mut self, name: &str, sink: &mut Sink) -> (r: Option<&'a Token>)
        requires
            old(self).wf(),
        ensures
            final(self).wf(),
            final(self).block() == old(self).block(),
            final(self).data() == old(self).data(),
            final(self).marks() == claim(old(self).marks(), old(self).block().items@, name@),
            r == (match last_field(
                old(self).block().items@,
                name@,
                Shape::Value,
                old(self).block().items@.len() as int,
            ) {
                Some(i) => Some(&old(self).block().items@[i]->Field_2->Value_0),
                None => None,
            }),
            final(sink)@ == old(sink)@ + fields_diags(
                old(self).block().items@,
                name@,
                true,
                per_kind(FieldKind::Value, old(self).data()),
                old(self).block().items@.len() as int,
            ),
    {
        let _ = self.check_fields(name, FieldKind::Value, true, sink);
        self.block.get_field_value(name)
    }

    /// Claims the fields called `name`, which may stand once and must hold
    /// a block, and returns the block of the last that does.
    pub fn field_block(&mut self, name: &str, sink: &mut Sink) -> (r: Option<&'a Block>)
        requires
            old(self).wf(),
        ensures
            final(self).wf(),
            final(self).block() == old(self).block(),
            final(self).data() == old(self).data(),
            final(self).marks() == claim(old(self).marks(), old(self).block().items@, name@),
            r == (match last_field(
                old(self).block().items@,
                name@,
                Shape::Block,
                old(self).block().items@.len() as int,
            ) {
                Some(i) => Some(&old(self).block().items@[i]->Field_2->Block_0),
                None => None,
            }),
            final(sink)@ == old(sink)@ + fields_diags(
                old(self).block().items@,
                name@,
                true,
                per_kind(FieldKind::Block, old(self).data()),
                old(self).block().items@.len() as int,
            ),
    {
        let _ = self.check_fields(name, FieldKind::Block, true, sink);
        self.block.get_field_block(name)
    }

    /// Claims the fields called `name`, which may repeat and must each hold
    /// a block, and returns the positions of those that do, in order.
    pub fn field_blocks(&mut self, name: &str, sink: &mut Sink) -> (r: Vec<usize>)
        requires
            old(self).wf(),
        ensures
            final(self).wf(),
            final(self).block() == old(self).block(),
            final(self).data() == old(self).data(),
            final(self).marks() == claim(old(self).marks(), old(self).block().items@, name@),
            r@.len() == all_fields(
                old(self).block().items@,
                name@,
                Shape::Block,
                old(self).block().items@.len() as int,
            ).len(),
            forall|k: int|
                0 <= k < r@.len() ==> r@[k] as int == #[trigger] all_fields(
                    old(self).block().items@,
                    name@,
                    Shape::Block,
                    old(self).block().items@.len() as int,
                )[k],
            forall|k: int|
                0 <= k < r@.len() ==> (#[trigger] r@[k]) < old(self).block().items@.len() && old(
                    self,
                ).block().items@[r@[k] as int].is_field(name@, Shape::Block),
            final(sink)@ == old(sink)@ + fields_diags(
                old(self).block().items@,
                name@,
                false,
                per_kind(FieldKind::Block, old(self).data()),
                old(self).block().items@.len() as int,
            ),
    {
        let _ = self.check_fields(name, FieldKind::Block, false, sink);
        self.block.find_all(name, Shape::Block)
    }

    /// Claims the fields called `name`, which may repeat, and returns their
    /// positions, in order.
    pub fn field_bvs(&mut self, name: &str, sink: &mut Sink) -> (r: Vec<usize>)
        requires
            old(self).wf(),
        ensures
            final(self).wf(),
            final(self).block() == old(self).block(),
            final(self).data() == old(self).data(),
            final(self).marks() == claim(old(self).marks(), old(self).block().items@, name@),
            r@.len() == all_fields(
                old(self).block().items@,
                name@,
                Shape::Any,
                old(self).block().items@.len() as int,
            ).len(),
            forall|k: int|
                0 <= k < r@.len() ==> r@[k] as int == #[trigger] all_fields(
                    old(self).block().items@,
                    name@,
                    Shape::Any,
                    old(self).block().items@.len() as int,
                )[k],
            forall|k: int|
                0 <= k < r@.len() ==> (#[trigger] r@[k]) < old(self).block().items@.len() && old(
                    self,
                ).block().items@[r@[k] as int].is_field(name@, Shape::Any),
            final(sink)@ == old(sink)@,
    {
        self.mark(name);
        self.block.find_all(name, Shape::Any)
    }

    /// Claims the fields called `name`, which may stand once and must say
    /// `yes` or `no`.
    pub fn field_bool(&mut self, name: &str, sink: &mut Sink) -> (r: bool)
        requires
            old(self).wf(),
        ensures
            final(self).wf(),
            final(self).block() == old(self).block(),
            final(self).data() == old(self).data(),
            final(self).marks() == claim(old(self).marks(), old(self).block().items@, name@),
            r == has_field(old(self).block().items@, name@),
            final(sink)@ == old(sink)@ + fields_diags(
                old(self).block().items@,
                name@,
                true,
                per_kind(FieldKind::Bool, old(self).data()),
                old(self).block().items@.len() as int,
            ),
    {
        self.check_fields(name, FieldKind::Bool, true, sink)
    }

    /// Claims the fields called `name`, which may stand once and must write
    /// an integer.
    pub fn field_integer(&mut self, name: &str, sink: &mut Sink) -> (r: bool)
        requires
            old(self).wf(),
        ensures
            final(self).wf(),
            final(self).block() == old(self).block(),
            final(self).data() == old(self).data(),
            final(self).marks() == claim(old(self).marks(), old(self).block().items@, name@),
            r == has_field(old(self).block().items@, name@),
            final(sink)@ == old(sink)@ + fields_diags(
                old(self).block().items@,
                name@,
                true,
                per_kind(FieldKind::Integer, old(self).data()),
                old(self).block().items@.len() as int,
            ),
    {
        self.check_fields(name, FieldKind::Integer, true, sink)
    }

    /// Claims the fields called `name`, which may stand once and must write
    /// a number.
    pub fn field_numeric(&mut self, name: &str, sink: &mut Sink) -> (r: bool)
        requires
            old(self).wf(),
        ensures
            final(self).wf(),
            final(self).block() == old(self).block(),
            final(self).data() == old(self).data(),
            final(self).marks() == claim(old(self).marks(), old(self).block().items@, name@),
            r == has_field(old(self).block().items@, name@),
            final(sink)@ == old(sink)@ + fields_diags(
                old(self).block().items@,
                name@,
                true,
                per_kind(FieldKind::Numeric, old(self).data()),
                old(self).block().items@.len() as int,
            ),
    {
        self.check_fields(name, FieldKind::Numeric, true, sink)
    }

    /// Claims the fields called `name`, which may stand once and must name
    /// a loaded definition of the kind.
    pub fn field_item(&mut self, name: &str, item: Item, sink: &mut Sink) -> (r: bool)
        requires
            old(self).wf(),
        ensures
            final(self).wf(),
            final(self).block() == old(self).block(),
            final(self).data() == old(self).data(),
            final(self).marks() == claim(old(self).marks(), old(self).block().items@, name@),
            r == has_field(old(self).block().items@, name@),
            final(sink)@ == old(sink)@ + fields_diags(
                old(self).block().items@,
                name@,
                true,
                per_kind(FieldKind::Item(item), old(self).data()),
                old(self).block().items@.len() as int,
            ),
    {
        self.check_fields(name, FieldKind::Item(item), true, sink)
    }

    /// Claims the fields called `name`, which may repeat and must each name
    /// a loaded definition of the kind.
    pub fn field_items(&mut self, name: &str, item: Item, sink: &mut Sink) -> (r: bool)
        requires
            old(self).wf(),
        ensures
            final(self).wf(),
            final(self).block() == old(self).block(),
            final(self).data() == old(self).data(),
            final(self).marks() == claim(old(self).marks(), old(self).block().items@, name@),
            r == has_field(old(self).block().items@, name@),
            final(sink)@ == old(sink)@ + fields_diags(
                old(self).block().items@,
                name@,
                false,
                per_kind(FieldKind::Item(item), old(self).data()),
                old(self).block().items@.len() as int,
            ),
    {
        self.check_fields(name, FieldKind::Item(item), false, sink)
    }

    /// Claims the fields called `name` and, if there is one, gives the
    /// advice `msg` at the key of the last.
    pub fn advice_field(&mut self, name: &str, msg: &str, sink: &mut Sink)
        requires
            old(self).wf(),
        ensures
            final(self).wf(),
            final(self).block() == old(self).block(),
            final(self).data() == old(self).data(),
            final(self).marks() == claim(old(self).marks(), old(self).block().items@, name@),
            final(sink)@ == old(sink)@ + advice_diags(old(self).block().items@, name@, msg@),
    {
        self.mark(name);
        match self.block.find_last(name, Shape::Any) {
            Some(i) => match &self.block.items[i] {
                BlockItem::Field(k, _, _) => {
                    sink.report(Severity::Advice, ErrorKey::Unneeded, k.loc(), msg);
                    assert(sink@ =~= old(sink)@ + advice_diags(old(self).block().items@, name@, msg@));
                },
                _ => {},
            },
            None => {
                assert(sink@ + Seq::<DiagnosticView>::empty() =~= sink@);
            },
        }
    }

    /// Claims the bare words of the block and returns them, in order.
    pub fn values(&mut self) -> (r: Vec<&'a Token>)
        requires
            old(self).wf(),
        ensures
            final(self).wf(),
            final(self).block() == old(self).block(),
            final(self).data() == old(self).data(),
            final(self).marks() == claim_keywords(old(self).marks(), old(self).block().items@),
            r@.len() == keywords(old(self).block().items@, old(self).block().items@.len() as int).len(),
            forall|k: int|
                0 <= k < r@.len() ==> *r@[k] == old(self).block().items@[#[trigger] keywords(
                    old(self).block().items@,
                    old(self).block().items@.len() as int,
                )[k]]->Keyword_0,
    {
        let block = self.block;
        let mut r: Vec<&'a Token> = Vec::new();
        let mut i: usize = 0;
        while i < block.items.len()
            invariant
                i <= block.items@.len(),
                block == self.block,
                self.block == old(self).block,
                self.data == old(self).data,
                self.claimed@.len() == block.items@.len(),
                old(self).claimed@.len() == block.items@.len(),
                forall|k: int|
                    0 <= k < i ==> #[trigger] self.claimed@[k] == (old(self).claimed@[k]
                        || block.items@[k] is Keyword),
                forall|k: int| i <= k < self.claimed@.len() ==> #[trigger] self.claimed@[k] == old(self).claimed@[k],
                r@.len() == keywords(block.items@, i as int).len(),
                forall|k: int|
                    0 <= k < r@.len() ==> *r@[k] == block.items@[#[trigger] keywords(
                        block.items@,
                        i as int,
                    )[k]]->Keyword_0,
            decreases block.items@.len() - i,
        {
            match &block.items[i] {
                BlockItem::Keyword(t) => {
                    r.push(t);
                    self.claimed[i] = true;
                },
                _ => {},
            }
            i += 1;
        }
        assert(self.claimed@ =~= claim_keywords(old(self).marks(), old(self).block().items@));
        r
    }

    /// Claims every field of the block and returns those that were not
    /// claimed before, in source order, each as its key, its operator and
    /// its value.
    pub fn unknown_fields(&mut self) -> (r: Vec<(&'a Token, Comparator, &'a BV)>)
        requires
            old(self).wf(),
        ensures
            final(self).wf(),
            final(self).block() == old(self).block(),
            final(self).data() == old(self).data(),
            final(self).marks() == claim_fields(old(self).marks(), old(self).block().items@),
            r@.len() == unclaimed(
                old(self).block().items@,
                old(self).marks(),
                old(self).block().items@.len() as int,
            ).len(),
            forall|k: int|
                0 <= k < r@.len() ==> {
                    let i = #[trigger] unclaimed(
                        old(self).block().items@,
                        old(self).marks(),
                        old(self).block().items@.len() as int,
                    )[k];
                    &&& 0 <= i < old(self).block().items@.len()
                    &&& old(self).block().items@[i] is Field
                    &&& *r@[k].0 == old(self).block().items@[i]->Field_0
                    &&& r@[k].1 == old(self).block().items@[i]->Field_1
                    &&& *r@[k].2 == old(self).block().items@[i]->Field_2
                },
    {
        let block = self.block;
        let mut r: Vec<(&'a Token, Comparator, &'a BV)> = Vec::new();
        let mut i: usize = 0;
        while i < block.items.len()
            invariant
                i <= block.items@.len(),
                block == self.block,
                self.block == old(self).block,
                self.data == old(self).data,
                self.claimed@.len() == block.items@.len(),
                old(self).claimed@.len() == block.items@.len(),
                forall|k: int|
                    0 <= k < i ==> #[trigger] self.claimed@[k] == (old(self).claimed@[k]
                        || block.items@[k] is Field),
                forall|k: int| i <= k < self.claimed@.len() ==> #[trigger] self.claimed@[k] == old(self).claimed@[k],
                r@.len() == unclaimed(block.items@, old(self).claimed@, i as int).len(),
                forall|k: int|
                    0 <= k < r@.len() ==> {
                        let j = #[trigger] unclaimed(block.items@, old(self).claimed@, i as int)[k];
                        &&& 0 <= j < block.items@.len()
                        &&& block.items@[j] is Field
                        &&& *r@[k].0 == block.items@[j]->Field_0
                        &&& r@[k].1 == block.items@[j]->Field_1
                        &&& *r@[k].2 == block.items@[j]->Field_2
                    },
            decreases block.items@.len() - i,
        {
            match &block.items[i] {
                BlockItem::Field(k, op, bv) => {
                    if !self.claimed[i] {
                        r.push((k, *op, bv));
                        self.claimed[i] = true;
                    }
                },
                _ => {},
            }
            i += 1;
        }
        assert(self.claimed@ =~= claim_fields(old(self).marks(), old(self).block().items@));
        r
    }

    /// Reports each field that nothing has claimed, in source order.
    /// Returns whether there was one.
    pub fn warn_remaining(&self, sink: &mut Sink) -> (r: bool)
        requires
            self.wf(),
        ensures
            final(sink)@ == old(sink)@ + remaining_diags(
                self.block().items@,
                self.marks(),
                self.block().items@.len() as int,
            ),
            r == (unclaimed(self.block().items@, self.marks(), self.block().items@.len() as int).len() > 0),
    {
        let block = self.block;
        let mut warned = false;
        let mut i: usize = 0;
        assert(sink@ + Seq::<DiagnosticView>::empty() =~= sink@);
        while i < block.items.len()
            invariant
                i <= block.items@.len(),
                self.claimed@.len() == block.items@.len(),
                sink@ == old(sink)@ + remaining_diags(block.items@, self.claimed@, i as int),
                warned == (unclaimed(block.items@, self.claimed@, i as int).len() > 0),
            decreases block.items@.len() - i,
        {
            match &block.items[i] {
                BlockItem::Field(k, _, _) => {
                    if !self.claimed[i] {
                        let mut msg = String::from_str("unknown field `");
                        msg.append(k.as_str());
                        msg.append("`");
                        sink.warn(k.loc(), ErrorKey::UnknownField, msg.as_str());
                        warned = true;
                        assert(sink@ =~= old(sink)@ + remaining_diags(block.items@, self.claimed@, i + 1));
                    }
                },
                _ => {},
            }
            i += 1;
        }
        warned
    }

    /// Ends the validation of the block: each field that nothing has
    /// claimed is reported as unknown.
    pub fn finish(self, sink: &mut Sink)
        requires
            self.wf(),
        ensures
            final(sink)@ == old(sink)@ + remaining_diags(
                self.block().items@,
                self.marks(),
                self.block().items@.len() as int,
            ),
    {
        let _ = self.warn_remaining(sink);
    }
}

/// Of a block without a field called `name`, checking the fields of that
/// name reports nothing.
pub proof fn lemma_no_field_no_diags(
    items: Seq<BlockItem>,
    name: Seq<char>,
    unique: bool,
    per: spec_fn(BV) -> Seq<DiagnosticView>,
    n: int,
)
    requires
        0 <= n <= items.len(),
        last_field(items, name, Shape::Any, n) is None,
    ensures
        fields_diags(items, name, unique, per, n) == Seq::<DiagnosticView>::empty(),
    decreases n,
{
    if n > 0 {
        lemma_no_field_no_diags(items, name, unique, per, n - 1);
    }
}

/// A required field that is absent gets exactly one diagnostic, which says
/// that it is missing, and none about its shape. One that is present gets
/// none that says it is missing; if it is a lone field that holds a block
/// where a token should stand, it gets exactly one, about its shape.
pub proof fn law_required_field(block: &Block, name: Seq<char>, kind: FieldKind, data: &Everything)
    ensures
        !has_field(block.items@, name) ==> {
            &&& required_diags(block, name, Severity::Error).len() == 1
            &&& required_diags(block, name, Severity::Error)[0].key == ErrorKey::FieldMissing
            &&& fields_diags(block.items@, name, true, per_kind(kind, data), block.items@.len() as int).len() == 0
        },
        has_field(block.items@, name) ==> required_diags(block, name, Severity::Error).len() == 0,
        forall|bv: BV|
            bv is Block && kind != FieldKind::Any && kind != FieldKind::Block ==> {
                &&& (#[trigger] kind_diags(bv, kind, data)).len() == 1
                &&& kind_diags(bv, kind, data)[0].key == ErrorKey::Validation
            },
{
    if !has_field(block.items@, name) {
        lemma_no_field_no_diags(block.items@, name, true, per_kind(kind, data), block.items@.len() as int);
    }
}

/// At the end of a block's validation each unclaimed field gets exactly one
/// diagnostic: there are as many as unclaimed fields, in source order, each
/// an unknown-field warning at the key of its field.
pub proof fn law_one_per_unclaimed(items: Seq<BlockItem>, marks: Seq<bool>, n: int)
    requires
        0 <= n <= items.len(),
        marks.len() == items.len(),
    ensures
        remaining_diags(items, marks, n).len() == unclaimed(items, marks, n).len(),
        forall|k: int|
            0 <= k < unclaimed(items, marks, n).len() ==> {
                let i = #[trigger] unclaimed(items, marks, n)[k];
                &&& 0 <= i < n
                &&& items[i] is Field
                &&& !marks[i]
                &&& remaining_diags(items, marks, n)[k] == diag(
                    Severity::Warning,
                    ErrorKey::UnknownField,
                    *items[i]->Field_0.loc(),
                    unknown_field_msg(items[i]->Field_0@),
                )
            },
        forall|i: int| 0 <= i < n && items[i] is Field && !marks[i] ==> unclaimed(items, marks, n).contains(i),
        forall|k: int, l: int|
            0 <= k < l < unclaimed(items, marks, n).len() ==> unclaimed(items, marks, n)[k] < unclaimed(
                items,
                marks,
                n,
            )[l],
    decreases n,
{
    if n > 0 {
        law_one_per_unclaimed(items, marks, n - 1);
        let prev = unclaimed(items, marks, n - 1);
        let cur = unclaimed(items, marks, n);
        assert forall|i: int| 0 <= i < n && items[i] is Field && !marks[i] implies cur.contains(i) by {
            if i < n - 1 {
                assert(prev.contains(i));
                let k = choose|k: int| 0 <= k < prev.len() && prev[k] == i;
                assert(cur[k] == i);
            } else {
                assert(cur[cur.len() - 1] == i);
            }
        }
    }
}

} // verus!
