//! Descriptions: a localization key, or a block that picks among
//! descriptions.

use vstd::prelude::*;
use crate::block::{lemma_field_smaller, BV, Block, BlockItem};
use crate::everything::Everything;
use crate::item::Item;
use crate::report::{diag, DiagnosticView, ErrorKey, Severity, Sink};

verus! {

/// Whether a key of a block of descriptions holds a block of the same
/// make.
pub open spec fn picks_descriptions(name: Seq<char>) -> bool {
    name == "first_valid"@ || name == "random_valid"@ || name == "triggered_desc"@
}

/// What is reported of a description: of a key, that it is no localization
/// key that was loaded; of a block, what is reported of its nodes.
pub open spec fn desc_diags(bv: BV, data: &Everything) -> Seq<DiagnosticView>
    decreases bv, 0int,
{
    match bv {
        BV::Value(t) => data.missing_diags(Item::Localization, t@, *t.loc()),
        BV::Block(b) => desc_block_diags(&b, data, b.items@.len() as int),
    }
}

/// What is reported of the first `n` nodes of a block that picks among
/// descriptions, in source order.
pub open spec fn desc_block_diags(block: &Block, data: &Everything, n: int) -> Seq<DiagnosticView>
    decreases block, n,
{
    if n <= 0 || n > block.items@.len() {
        Seq::empty()
    } else {
        let before = desc_block_diags(block, data, n - 1);
        match block.items@[n - 1] {
            BlockItem::Field(key, _, bv) => {
                proof {
                    lemma_field_smaller(block, n - 1);
                }
                if key@ == "desc"@ {
                    before + desc_diags(bv, data)
                } else if picks_descriptions(key@) {
                    match bv {
                        BV::Value(_) => before + bv.expect_block_diags(),
                        BV::Block(b) => before + desc_block_diags(&b, data, b.items@.len() as int),
                    }
                } else if key@ == "trigger"@ {
                    before
                } else {
                    before.push(
                        diag(Severity::Warning, ErrorKey::Validation, *key.loc(), "unexpected key in description"@),
                    )
                }
            },
            BlockItem::Keyword(t) => before.push(
                diag(Severity::Warning, ErrorKey::Validation, *t.loc(), "unexpected token in description"@),
            ),
            BlockItem::Block(b) => before.push(
                diag(Severity::Warning, ErrorKey::Validation, b.loc, "unexpected block in description"@),
            ),
        }
    }
}

/// Checks that the localization keys of a description exist. A description
/// is a key, or a block whose `desc` fields are descriptions and whose
/// `first_valid`, `random_valid` and `triggered_desc` fields are blocks of
/// the same make; a `trigger` among them is left to the caller.
pub fn verify_desc_locas(bv: &BV, data: &Everything, sink: &mut Sink)
    ensures
        final(sink)@ == old(sink)@ + desc_diags(*bv, data),
    decreases bv, 0int,
{
    match bv {
        BV::Value(t) => {
            let _ = data.verify_exists(Item::Localization, t, sink);
        },
        BV::Block(b) => {
            verify_desc_block(b, data, sink);
        },
    }
}

/// Checks the descriptions in a block that picks among descriptions.
pub fn verify_desc_block(block: &Block, data: &Everything, sink: &mut Sink)
    ensures
        final(sink)@ == old(sink)@ + desc_block_diags(block, data, block.items@.len() as int),
    decreases block, block.items@.len(),
{
    assert(sink@ + Seq::<DiagnosticView>::empty() =~= sink@);
    let mut i: usize = 0;
    while i < block.items.len()
        invariant
            i <= block.items@.len(),
            sink@ == old(sink)@ + desc_block_diags(block, data, i as int),
        decreases block.items@.len() - i,
    {
        let ghost before = sink@;
        match &block.items[i] {
            BlockItem::Field(key, _, bv) => {
                proof {
                    lemma_field_smaller(block, i as int);
                }
                if key.is("desc") {
                    verify_desc_locas(bv, data, sink);
                } else if key.is("first_valid") || key.is("random_valid") || key.is("triggered_desc") {
                    if let Some(b) = bv.expect_block(sink) {
                        verify_desc_block(b, data, sink);
                    }
                } else if !key.is("trigger") {
                    sink.warn(key.loc(), ErrorKey::Validation, "unexpected key in description");
                }
            },
            BlockItem::Keyword(t) => {
                sink.warn(t.loc(), ErrorKey::Validation, "unexpected token in description");
            },
            BlockItem::Block(b) => {
                sink.warn(&b.loc, ErrorKey::Validation, "unexpected block in description");
            },
        }
        assert(sink@ =~= old(sink)@ + desc_block_diags(block, data, i + 1));
        i += 1;
    }
}

} // verus!
