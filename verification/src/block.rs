//! The definition tree: an ordered, source-located tree of keywords and
//! `key = value` or `key = { ... }` fields.

use vstd::prelude::*;
use crate::report::{diag, DiagnosticView, ErrorKey, Severity, Sink};
use crate::token::{Loc, Token};

verus! {

/// The operator between a key and its value.
#[derive(Clone, Copy, Debug, PartialEq, Eq, Structural)]
pub enum Comparator {
    /// `=`
    Eq,
    /// `==`
    EqEq,
    /// `?=`
    QEq,
    /// `!=`
    Ne,
    /// `<`
    Lt,
    /// `>`
    Gt,
    /// `<=`
    Le,
    /// `>=`
    Ge,
}

/// A value that is either a scalar token or a nested block.
#[derive(Debug)]
pub enum BV {
    Value(Token),
    Block(Block),
}

/// One node of a block.
#[derive(Debug)]
pub enum BlockItem {
    /// A bare word.
    Keyword(Token),
    /// A key, an operator and a value.
    Field(Token, Comparator, BV),
    /// A nested block without a key.
    Block(Block),
}

/// An ordered sequence of nodes. The order matters to iteration, not to the
/// lookup of a field.
#[derive(Debug)]
pub struct Block {
    pub items: Vec<BlockItem>,
    pub loc: Loc,
}

/// The shape of value that a lookup accepts.
#[derive(Clone, Copy, Debug, PartialEq, Eq, Structural)]
pub enum Shape {
    Any,
    Value,
    Block,
}

impl BV {
    /// The place that diagnostics about the value are attributed to: that
    /// of the token, or that of the block.
    pub open spec fn spec_loc(&self) -> Loc {
        match self {
            BV::Value(t) => *t.loc(),
            BV::Block(b) => b.loc,
        }
    }

    pub fn loc(&self) -> (r: &Loc)
        ensures
            *r == self.spec_loc(),
    {
        match self {
            BV::Value(t) => t.loc(),
            BV::Block(b) => &b.loc,
        }
    }

    /// Whether the value has the shape.
    pub open spec fn has_shape(&self, shape: Shape) -> bool {
        match shape {
            Shape::Any => true,
            Shape::Value => self is Value,
            Shape::Block => self is Block,
        }
    }

    /// The token, if the value is one.
    pub fn get_value(&self) -> (r: Option<&Token>)
        ensures
            r == (match self {
                BV::Value(t) => Some(t),
                BV::Block(_) => None,
            }),
    {
        match self {
            BV::Value(t) => Some(t),
            BV::Block(_) => None,
        }
    }

    /// The block, if the value is one.
    pub fn get_block(&self) -> (r: Option<&Block>)
        ensures
            r == (match self {
                BV::Value(_) => None,
                BV::Block(b) => Some(b),
            }),
    {
        match self {
            BV::Value(_) => None,
            BV::Block(b) => Some(b),
        }
    }

    /// What is reported of a value that should be a token.
    pub open spec fn expect_value_diags(&self) -> Seq<DiagnosticView> {
        match self {
            BV::Value(_) => Seq::empty(),
            BV::Block(b) => seq![
                diag(Severity::Error, ErrorKey::Validation, b.loc, "expected value, found block"@),
            ],
        }
    }

    /// What is reported of a value that should be a block.
    pub open spec fn expect_block_diags(&self) -> Seq<DiagnosticView> {
        match self {
            BV::Value(t) => seq![
                diag(Severity::Error, ErrorKey::Validation, *t.loc(), "expected block, found value"@),
            ],
            BV::Block(_) => Seq::empty(),
        }
    }

    /// The token; for a block `None`, and an error is reported.
    pub fn expect_value(&self, sink: &mut Sink) -> (r: Option<&Token>)
        ensures
            r == (match self {
                BV::Value(t) => Some(t),
                BV::Block(_) => None,
            }),
            final(sink)@ == old(sink)@ + self.expect_value_diags(),
    {
        match self {
            BV::Value(t) => {
                assert(sink@ + Seq::empty() =~= sink@);
                Some(t)
            },
            BV::Block(b) => {
                sink.error(&b.loc, ErrorKey::Validation, "expected value, found block");
                assert(old(sink)@ + self.expect_value_diags() =~= sink@);
                None
            },
        }
    }

    /// The block; for a token `None`, and an error is reported.
    pub fn expect_block(&self, sink: &mut Sink) -> (r: Option<&Block>)
        ensures
            r == (match self {
                BV::Value(_) => None,
                BV::Block(b) => Some(b),
            }),
            final(sink)@ == old(sink)@ + self.expect_block_diags(),
    {
        match self {
            BV::Value(t) => {
                sink.error(t.loc(), ErrorKey::Validation, "expected block, found value");
                assert(old(sink)@ + self.expect_block_diags() =~= sink@);
                None
            },
            BV::Block(b) => {
                assert(sink@ + Seq::empty() =~= sink@);
                Some(b)
            },
        }
    }
}

impl BlockItem {
    /// Whether the node is a field with the key `name` and a value of the
    /// shape.
    pub open spec fn is_field(&self, name: Seq<char>, shape: Shape) -> bool {
        match self {
            BlockItem::Field(k, _, bv) => k@ == name && bv.has_shape(shape),
            _ => false,
        }
    }

    /// Whether the node is a field with the key `name`.
    pub open spec fn is_named(&self, name: Seq<char>) -> bool {
        self.is_field(name, Shape::Any)
    }

    pub fn has_name(&self, name: &str, shape: Shape) -> (r: bool)
        ensures
            r == self.is_field(name@, shape),
    {
        match self {
            BlockItem::Field(k, _, bv) => {
                k.is(name) && match shape {
                    Shape::Any => true,
                    Shape::Value => match bv {
                        BV::Value(_) => true,
                        BV::Block(_) => false,
                    },
                    Shape::Block => match bv {
                        BV::Value(_) => false,
                        BV::Block(_) => true,
                    },
                }
            },
            _ => false,
        }
    }
}

/// The position of the last of the first `n` nodes that is a field with the
/// key `name` and a value of the shape.
pub open spec fn last_field(items: Seq<BlockItem>, name: Seq<char>, shape: Shape, n: int) -> Option<int>
    decreases n,
{
    if n <= 0 {
        None
    } else if items[n - 1].is_field(name, shape) {
        Some(n - 1)
    } else {
        last_field(items, name, shape, n - 1)
    }
}

/// The positions, in order, of those of the first `n` nodes that are fields
/// with the key `name` and a value of the shape.
pub open spec fn all_fields(items: Seq<BlockItem>, name: Seq<char>, shape: Shape, n: int) -> Seq<int>
    decreases n,
{
    if n <= 0 {
        Seq::empty()
    } else if items[n - 1].is_field(name, shape) {
        all_fields(items, name, shape, n - 1).push(n - 1)
    } else {
        all_fields(items, name, shape, n - 1)
    }
}

/// Whether the last field with the key `name` has the value `yes`.
pub open spec fn field_is_yes(items: Seq<BlockItem>, name: Seq<char>) -> Option<bool> {
    match last_field(items, name, Shape::Value, items.len() as int) {
        Some(i) => Some(items[i]->Field_2->Value_0@ == "yes"@),
        None => None,
    }
}

impl Block {
    /// A block without nodes.
    pub fn new(loc: Loc) -> (r: Block)
        ensures
            r.items@.len() == 0,
            r.loc == loc,
    {
        Block { items: Vec::new(), loc }
    }

    /// Appends a bare word.
    pub fn add_keyword(&mut self, token: Token)
        ensures
            final(self).items@ == old(self).items@.push(BlockItem::Keyword(token)),
            final(self).loc == old(self).loc,
    {
        self.items.push(BlockItem::Keyword(token));
    }

    /// Appends a field.
    pub fn add_field(&mut self, key: Token, op: Comparator, bv: BV)
        ensures
            final(self).items@ == old(self).items@.push(BlockItem::Field(key, op, bv)),
            final(self).loc == old(self).loc,
    {
        self.items.push(BlockItem::Field(key, op, bv));
    }

    /// Appends a nested block without a key.
    pub fn add_block(&mut self, block: Block)
        ensures
            final(self).items@ == old(self).items@.push(BlockItem::Block(block)),
            final(self).loc == old(self).loc,
    {
        self.items.push(BlockItem::Block(block));
    }

    /// The position of the last field with the key `name` and a value of
    /// the shape.
    pub fn find_last(&self, name: &str, shape: Shape) -> (r: Option<usize>)
        ensures
            r matches Some(i) ==> last_field(self.items@, name@, shape, self.items@.len() as int) == Some(
                i as int,
            ) && i < self.items@.len() && self.items@[i as int].is_field(name@, shape),
            r is None ==> last_field(self.items@, name@, shape, self.items@.len() as int) is None,
    {
        let mut n: usize = self.items.len();
        while n > 0
            invariant
                n <= self.items@.len(),
                last_field(self.items@, name@, shape, self.items@.len() as int) == last_field(
                    self.items@,
                    name@,
                    shape,
                    n as int,
                ),
            decreases n,
        {
            if self.items[n - 1].has_name(name, shape) {
                return Some(n - 1);
            }
            n -= 1;
        }
        None
    }

    /// The positions, in order, of the fields with the key `name` and a
    /// value of the shape.
    pub fn find_all(&self, name: &str, shape: Shape) -> (r: Vec<usize>)
        ensures
            r@.len() == all_fields(self.items@, name@, shape, self.items@.len() as int).len(),
            forall|k: int|
                0 <= k < r@.len() ==> r@[k] as int == #[trigger] all_fields(
                    self.items@,
                    name@,
                    shape,
                    self.items@.len() as int,
                )[k],
            forall|k: int|
                0 <= k < r@.len() ==> (#[trigger] r@[k]) < self.items@.len() && self.items@[r@[k] as int].is_field(
                    name@,
                    shape,
                ),
    {
        let mut r: Vec<usize> = Vec::new();
        let mut i: usize = 0;
        while i < self.items.len()
            invariant
                i <= self.items@.len(),
                r@.len() == all_fields(self.items@, name@, shape, i as int).len(),
                forall|k: int|
                    0 <= k < r@.len() ==> r@[k] as int == #[trigger] all_fields(self.items@, name@, shape, i as int)[k],
                forall|k: int|
                    0 <= k < r@.len() ==> (#[trigger] r@[k]) < self.items@.len() && self.items@[r@[k] as int].is_field(
                        name@,
                        shape,
                    ),
            decreases self.items@.len() - i,
        {
            if self.items[i].has_name(name, shape) {
                r.push(i);
            }
            i += 1;
        }
        r
    }

    /// Whether the block has a field with the key `name`.
    pub fn has_key(&self, name: &str) -> (r: bool)
        ensures
            r == last_field(self.items@, name@, Shape::Any, self.items@.len() as int) is Some,
    {
        self.find_last(name, Shape::Any).is_some()
    }

    /// The value of the last field with the key `name`.
    pub fn get_field(&self, name: &str) -> (r: Option<&BV>)
        ensures
            r == (match last_field(self.items@, name@, Shape::Any, self.items@.len() as int) {
                Some(i) => Some(&self.items@[i]->Field_2),
                None => None,
            }),
    {
        match self.find_last(name, Shape::Any) {
            Some(i) => match &self.items[i] {
                BlockItem::Field(_, _, bv) => Some(bv),
                _ => None,
            },
            None => None,
        }
    }

    /// The token of the last field with the key `name` whose value is a
    /// token.
    pub fn get_field_value(&self, name: &str) -> (r: Option<&Token>)
        ensures
            r == (match last_field(self.items@, name@, Shape::Value, self.items@.len() as int) {
                Some(i) => Some(&self.items@[i]->Field_2->Value_0),
                None => None,
            }),
    {
        match self.find_last(name, Shape::Value) {
            Some(i) => match &self.items[i] {
                BlockItem::Field(_, _, BV::Value(t)) => Some(t),
                _ => None,
            },
            None => None,
        }
    }

    /// The block of the last field with the key `name` whose value is a
    /// block.
    pub fn get_field_block(&self, name: &str) -> (r: Option<&Block>)
        ensures
            r == (match last_field(self.items@, name@, Shape::Block, self.items@.len() as int) {
                Some(i) => Some(&self.items@[i]->Field_2->Block_0),
                None => None,
            }),
    {
        match self.find_last(name, Shape::Block) {
            Some(i) => match &self.items[i] {
                BlockItem::Field(_, _, BV::Block(b)) => Some(b),
                _ => None,
            },
            None => None,
        }
    }

    /// Whether the last field with the key `name` whose value is a token
    /// says `yes`; `None` where there is no such field.
    pub fn get_field_bool(&self, name: &str) -> (r: Option<bool>)
        ensures
            r == field_is_yes(self.items@, name@),
    {
        match self.get_field_value(name) {
            Some(t) => Some(t.is("yes")),
            None => None,
        }
    }

    /// The blocks, in order, of the fields with the key `name` whose value
    /// is a block.
    pub fn get_field_blocks(&self, name: &str) -> (r: Vec<&Block>)
        ensures
            r@.len() == all_fields(self.items@, name@, Shape::Block, self.items@.len() as int).len(),
            forall|k: int|
                0 <= k < r@.len() ==> *r@[k] == self.items@[#[trigger] all_fields(
                    self.items@,
                    name@,
                    Shape::Block,
                    self.items@.len() as int,
                )[k]]->Field_2->Block_0,
    {
        let idx = self.find_all(name, Shape::Block);
        let mut r: Vec<&Block> = Vec::new();
        let mut k: usize = 0;
        while k < idx.len()
            invariant
                k <= idx@.len(),
                r@.len() == k,
                forall|j: int|
                    0 <= j < idx@.len() ==> (#[trigger] idx@[j]) < self.items@.len()
                        && self.items@[idx@[j] as int].is_field(name@, Shape::Block),
                forall|j: int| 0 <= j < k ==> *(#[trigger] r@[j]) == self.items@[idx@[j] as int]->Field_2->Block_0,
            decreases idx@.len() - k,
        {
            let i = idx[k];
            match &self.items[i] {
                BlockItem::Field(_, _, BV::Block(b)) => {
                    r.push(b);
                },
                _ => {
                    assert(false);
                },
            }
            k += 1;
        }
        r
    }
}


/// The value of a field is smaller than the block that holds the field,
/// in the order that recursion over the tree descends by.
pub proof fn lemma_field_smaller(block: &Block, i: int)
    requires
        0 <= i < block.items@.len(),
        block.items@[i] is Field,
    ensures
        decreases_to!(*block => block.items@[i]->Field_2),
{
    assert(decreases_to!(*block => block.items));
    assert(decreases_to!(block.items => block.items@[i]));
    assert(decreases_to!(block.items@[i] => block.items@[i]->Field_2));
}

} // verus!
