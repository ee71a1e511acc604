//! Geographical regions: named groups of areas.

use vstd::prelude::*;
use crate::block::{last_field, Block, Shape};
use crate::db::{add_diags, Db, DbEntry, DbKind};
use crate::everything::Everything;
use crate::expression::{no_marks, stray_fields, words_of};
use crate::item::Item;
use crate::report::{DiagnosticView, Sink};
use crate::token::Token;
use crate::validate::{color_diags, validate_color};
use crate::validator::{checked, claim, remaining_diags, FieldKind, Validator};

verus! {

/// The kind of definition that is a geographical region.
#[derive(Clone, Copy, Debug)]
pub struct Region {}

impl Region {
    /// Stores a region in the registry.
    pub fn add(db: &mut Db, key: Token, block: Block, sink: &mut Sink)
        ensures
            final(db).lookup(Item::Region, key@) == Some(
                DbEntry { kind: Item::Region, key, block, validator: DbKind::Region(Region {  }) },
            ),
            forall|k: Item, n: Seq<char>|
                !(k == Item::Region && n == key@) ==> #[trigger] final(db).position(k, n) == old(db).position(k, n),
            final(sink)@ == old(sink)@ + add_diags(Item::Region, key, old(db).lookup(Item::Region, key@)),
    {
        db.add(Item::Region, key, block, DbKind::Region(Region {  }), sink);
    }

    /// Validates the region: its color, and its areas, each of which must
    /// be a loaded area.
    pub fn validate(&self, _key: &Token, block: &Block, data: &Everything, sink: &mut Sink)
        ensures
            final(sink)@ == old(sink)@ + region_diags(block, data),
    {
        let mut vd = Validator::new(block, data);
        assert(vd.marks() =~= no_marks(block));
        if let Some(b) = vd.field_block("color", sink) {
            validate_color(b, data, sink);
        }
        let ghost s1 = sink@;
        assert(s1 =~= old(sink)@ + block_diags(block, "color"@, data, |b: Block| color_diags(&b)));
        if let Some(b) = vd.field_block("areas", sink) {
            validate_areas(b, data, sink);
        }
        assert(sink@ =~= s1 + block_diags(block, "areas"@, data, |b: Block| areas_diags(&b, data)));
        vd.finish(sink);
        assert(sink@ =~= old(sink)@ + region_diags(block, data));
    }
}

/// What is reported of the field `name`, which holds a block, where `per`
/// says what is reported of the block.
pub open spec fn block_diags(
    block: &Block,
    name: Seq<char>,
    data: &Everything,
    per: spec_fn(Block) -> Seq<DiagnosticView>,
) -> Seq<DiagnosticView> {
    checked(block, name, FieldKind::Block, data) + (match last_field(
        block.items@,
        name,
        Shape::Block,
        block.items@.len() as int,
    ) {
        Some(j) => per(block.items@[j]->Field_2->Block_0),
        None => Seq::empty(),
    })
}

/// What is reported of the first `n` words of a list of areas: each that
/// names no area that was loaded.
pub open spec fn area_words_diags(words: Seq<Token>, data: &Everything, n: int) -> Seq<DiagnosticView>
    decreases n,
{
    if n <= 0 {
        Seq::empty()
    } else {
        area_words_diags(words, data, n - 1) + data.missing_diags(Item::Area, words[n - 1]@, *words[n - 1].loc())
    }
}

/// What is reported of a list of areas: each word that names no area, then
/// each field.
pub open spec fn areas_diags(list: &Block, data: &Everything) -> Seq<DiagnosticView> {
    area_words_diags(words_of(list), data, words_of(list).len() as int) + stray_fields(list)
}

/// What the validation of a region reports: what is wrong with its color
/// and with its areas, and then each other field.
pub open spec fn region_diags(block: &Block, data: &Everything) -> Seq<DiagnosticView> {
    block_diags(block, "color"@, data, |b: Block| color_diags(&b)) + block_diags(
        block,
        "areas"@,
        data,
        |b: Block| areas_diags(&b, data),
    ) + remaining_diags(
        block.items@,
        claim(claim(no_marks(block), block.items@, "color"@), block.items@, "areas"@),
        block.items@.len() as int,
    )
}

/// Validates a list of areas: each word must name an area that was
/// loaded.
pub fn validate_areas(list: &Block, data: &Everything, sink: &mut Sink)
    ensures
        final(sink)@ == old(sink)@ + areas_diags(list, data),
{
    let mut vd = Validator::new(list, data);
    assert(vd.marks() =~= no_marks(list));
    let areas = vd.values();
    let ghost words = words_of(list);
    assert(sink@ + Seq::<DiagnosticView>::empty() =~= sink@);
    let mut i: usize = 0;
    while i < areas.len()
        invariant
            i <= areas@.len(),
            areas@.len() == words.len(),
            forall|k: int| 0 <= k < areas@.len() ==> *(#[trigger] areas@[k]) == words[k],
            sink@ == old(sink)@ + area_words_diags(words, data, i as int),
        decreases areas@.len() - i,
    {
        let _ = data.verify_exists(Item::Area, areas[i], sink);
        assert(sink@ =~= old(sink)@ + area_words_diags(words, data, i + 1));
        i += 1;
    }
    vd.finish(sink);
    assert(sink@ =~= old(sink)@ + areas_diags(list, data));
}

} // verus!
