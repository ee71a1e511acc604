//! Character templates: recipes from which scripts create characters.

use vstd::prelude::*;
use crate::block::{last_field, BV, Block, BlockItem, Shape};
use crate::cache::Caches;
use crate::context::{law_close_gives_back, ContextView, ScopeContext};
use crate::db::{add_diags, Db, DbEntry, DbKind};
use crate::everything::Everything;
use crate::expression::{after, clauses_out, closed, no_marks, nothing, only, target_out, Outcome, State};
use crate::helpers::extends;
use crate::item::Item;
use crate::report::Sink;
use crate::scopes::{SCOPE_CHARACTER, SCOPE_CULTURE, SCOPE_DYNASTY_HOUSE, SCOPE_FAITH, Scopes};
use crate::token::Token;
use crate::validate::{
    comes_to, field_script_value, field_target, fits, kept, lemma_after, lemma_only, random_list_out, reports,
    script_value_field_out, state, target_field_out, validate_normal_effect, validate_random_culture,
    validate_random_faith, validate_random_traits_list, validate_target, RandomKind, Tooltipped,
};
use crate::validator::{checked, claim, fields_diags, per_choice, per_kind, remaining_diags, FieldKind, Validator};

verus! {

/// The kind of definition that is a character template.
#[derive(Clone, Copy, Debug)]
pub struct CharacterTemplate {}

/// One of the fields that a character template can have, with what the
/// field should hold.
#[derive(Clone, Copy, Debug)]
pub enum TemplateField {
    /// The name of a definition of a kind.
    Named(&'static str, Item),
    /// The same, in a field that can stand more than once.
    EachNamed(&'static str, Item),
    /// `yes` or `no`.
    Flag(&'static str),
    /// A numeric expression.
    Number(&'static str),
    /// A target of some scope types.
    Target(&'static str, Scopes),
    /// `male`, `female`, or a target that is a character.
    Gender,
    /// Weighted lists, of which there can be several.
    Lists(&'static str, RandomKind),
    /// How the character gets a dynasty.
    Dynasty,
    /// Effects on the character that was created.
    AfterCreation,
}

/// The fields that a character template can have, in the order in which
/// they are validated.
pub open spec fn template_fields() -> Seq<TemplateField> {
    seq![
        TemplateField::Named("name", Item::Localization),
        TemplateField::Number("age"),
        TemplateField::Gender,
        TemplateField::EachNamed("trait", Item::Trait),
        TemplateField::Lists("random_traits_list", RandomKind::Trait),
        TemplateField::Flag("random_traits"),
        TemplateField::Number("gender_female_chance"),
        TemplateField::Target("culture", Scopes { bits: SCOPE_CULTURE }),
        TemplateField::Target("faith", Scopes { bits: SCOPE_FAITH }),
        TemplateField::Lists("random_culture", RandomKind::Culture),
        TemplateField::Lists("random_faith", RandomKind::Faith),
        TemplateField::Number("health"),
        TemplateField::Number("diplomacy"),
        TemplateField::Number("intrigue"),
        TemplateField::Number("learning"),
        TemplateField::Number("martial"),
        TemplateField::Number("prowess"),
        TemplateField::Number("stewardship"),
        TemplateField::Target("dynasty_house", Scopes { bits: SCOPE_DYNASTY_HOUSE }),
        TemplateField::Dynasty,
        TemplateField::AfterCreation,
    ]
}

/// The ways in which the character can get a dynasty.
pub open spec fn dynasty_choices() -> Seq<Seq<char>> {
    seq!["generate"@, "inherit"@, "none"@]
}

/// The name of a field of a character template.
pub open spec fn field_name(field: TemplateField) -> Seq<char> {
    match field {
        TemplateField::Named(name, _) => name@,
        TemplateField::EachNamed(name, _) => name@,
        TemplateField::Flag(name) => name@,
        TemplateField::Number(name) => name@,
        TemplateField::Target(name, _) => name@,
        TemplateField::Gender => "gender"@,
        TemplateField::Lists(name, _) => name@,
        TemplateField::Dynasty => "dynasty"@,
        TemplateField::AfterCreation => "after_creation"@,
    }
}

/// What the validation of the first `n` nodes that are fields called
/// `name` and hold a block comes to, each as a weighted list.
pub open spec fn lists_walk(
    block: &Block,
    name: Seq<char>,
    kind: RandomKind,
    data: &Everything,
    st: State,
    n: int,
) -> Outcome
    decreases n,
{
    if n <= 0 || n > block.items@.len() {
        nothing(st)
    } else {
        let w = lists_walk(block, name, kind, data, st, n - 1);
        if block.items@[n - 1].is_field(name, Shape::Block) {
            after(w, random_list_out(&block.items@[n - 1]->Field_2->Block_0, kind, data, w.st))
        } else {
            w
        }
    }
}

/// What the validation of the gender of a template comes to: the field
/// holds a token, which is `male` or `female` or else a target that is a
/// character.
pub open spec fn gender_out(block: &Block, data: &Everything, st: State) -> Outcome {
    after(
        only(st, checked(block, "gender"@, FieldKind::Value, data)),
        match last_field(block.items@, "gender"@, Shape::Value, block.items@.len() as int) {
            Some(j) => {
                let t = block.items@[j]->Field_2->Value_0;
                if t@ == "male"@ || t@ == "female"@ {
                    nothing(st)
                } else {
                    target_out(t, data, Scopes { bits: SCOPE_CHARACTER }, st)
                }
            },
            None => nothing(st),
        },
    )
}

/// What the validation of the effects on the new character comes to: the
/// field holds a block of effects, which is validated in the scope of a
/// character.
pub open spec fn after_creation_out(block: &Block, data: &Everything, st: State) -> Outcome {
    after(
        only(st, checked(block, "after_creation"@, FieldKind::Block, data)),
        match last_field(block.items@, "after_creation"@, Shape::Block, block.items@.len() as int) {
            Some(j) => closed(
                clauses_out(
                    &block.items@[j]->Field_2->Block_0,
                    data,
                    true,
                    st.open(Scopes { bits: SCOPE_CHARACTER }),
                ),
                st.c,
            ),
            None => nothing(st),
        },
    )
}

/// What the validation of one field of a template comes to in the state
/// `st`.
pub open spec fn template_field_out(field: TemplateField, block: &Block, data: &Everything, st: State) -> Outcome {
    let items = block.items@;
    let n = items.len() as int;
    match field {
        TemplateField::Named(name, item) => only(st, checked(block, name@, FieldKind::Item(item), data)),
        TemplateField::EachNamed(name, item) => only(
            st,
            fields_diags(items, name@, false, per_kind(FieldKind::Item(item), data), n),
        ),
        TemplateField::Flag(name) => only(st, checked(block, name@, FieldKind::Bool, data)),
        TemplateField::Number(name) => script_value_field_out(block, name@, data, st),
        TemplateField::Target(name, scopes) => target_field_out(block, name@, data, scopes, st),
        TemplateField::Gender => gender_out(block, data, st),
        TemplateField::Lists(name, kind) => after(
            only(st, fields_diags(items, name@, false, per_kind(FieldKind::Block, data), n)),
            lists_walk(block, name@, kind, data, st, n),
        ),
        TemplateField::Dynasty => only(st, fields_diags(items, "dynasty"@, true, per_choice(dynasty_choices()), n)),
        TemplateField::AfterCreation => after_creation_out(block, data, st),
    }
}

/// What the validation of the first `n` of the fields comes to, from the
/// state `st`.
pub open spec fn template_walk(
    fields: Seq<TemplateField>,
    block: &Block,
    data: &Everything,
    st: State,
    n: int,
) -> Outcome
    decreases n,
{
    if n <= 0 || n > fields.len() {
        nothing(st)
    } else {
        let w = template_walk(fields, block, data, st, n - 1);
        after(w, template_field_out(fields[n - 1], block, data, w.st))
    }
}

/// The marks after the first `n` of the fields were claimed.
pub open spec fn template_marks(fields: Seq<TemplateField>, block: &Block, n: int) -> Seq<bool>
    decreases n,
{
    if n <= 0 || n > fields.len() {
        no_marks(block)
    } else {
        claim(template_marks(fields, block, n - 1), block.items@, field_name(fields[n - 1]))
    }
}

/// What the validation of a template comes to in the state `st`: what its
/// fields come to, and then each field that a template cannot have is
/// reported as unknown.
pub open spec fn template_out(block: &Block, data: &Everything, st: State) -> Outcome {
    let fields = template_fields();
    let walked = template_walk(fields, block, data, st, fields.len() as int);
    after(
        walked,
        only(
            walked.st,
            remaining_diags(
                block.items@,
                template_marks(fields, block, fields.len() as int),
                block.items@.len() as int,
            ),
        ),
    )
}

/// The fields that a character template can have.
fn template_field_list() -> (r: Vec<TemplateField>)
    ensures
        r@ == template_fields(),
{
    let r = vec![
        TemplateField::Named("name", Item::Localization),
        TemplateField::Number("age"),
        TemplateField::Gender,
        TemplateField::EachNamed("trait", Item::Trait),
        TemplateField::Lists("random_traits_list", RandomKind::Trait),
        TemplateField::Flag("random_traits"),
        TemplateField::Number("gender_female_chance"),
        TemplateField::Target("culture", Scopes { bits: SCOPE_CULTURE }),
        TemplateField::Target("faith", Scopes { bits: SCOPE_FAITH }),
        TemplateField::Lists("random_culture", RandomKind::Culture),
        TemplateField::Lists("random_faith", RandomKind::Faith),
        TemplateField::Number("health"),
        TemplateField::Number("diplomacy"),
        TemplateField::Number("intrigue"),
        TemplateField::Number("learning"),
        TemplateField::Number("martial"),
        TemplateField::Number("prowess"),
        TemplateField::Number("stewardship"),
        TemplateField::Target("dynasty_house", Scopes { bits: SCOPE_DYNASTY_HOUSE }),
        TemplateField::Dynasty,
        TemplateField::AfterCreation,
    ];
    assert(r@ =~= template_fields());
    r
}

impl CharacterTemplate {
    /// Stores a character template in the registry.
    pub fn add(db: &mut Db, key: Token, block: Block, sink: &mut Sink)
        ensures
            final(db).lookup(Item::CharacterTemplate, key@) == Some(
                DbEntry {
                    kind: Item::CharacterTemplate,
                    key,
                    block,
                    validator: DbKind::CharacterTemplate(CharacterTemplate {  }),
                },
            ),
            forall|k: Item, n: Seq<char>|
                !(k == Item::CharacterTemplate && n == key@) ==> #[trigger] final(db).position(k, n) == old(
                    db,
                ).position(k, n),
            final(sink)@ == old(sink)@ + add_diags(
                Item::CharacterTemplate,
                key,
                old(db).lookup(Item::CharacterTemplate, key@),
            ),
    {
        db.add(Item::CharacterTemplate, key, block, DbKind::CharacterTemplate(CharacterTemplate {  }), sink);
    }

    /// Validates the template by itself, in a context where the scope can
    /// be of any type.
    pub fn validate(&self, key: &Token, block: &Block, data: &Everything, caches: &mut Caches, sink: &mut Sink)
        requires
            fits(old(caches), data),
        ensures
            fits(final(caches), data),
            final(caches).holds_all_of(old(caches)),
            extends(final(sink)@, old(sink)@),
            reports(
                template_out(block, data, state(ContextView::unrooted(Scopes::all()), old(caches))),
                final(caches),
                final(sink)@,
                old(sink)@,
            ),
    {
        let mut sc = ScopeContext::new_unrooted(Scopes::all(), key.clone());
        self.validate_call(key, block, key, data, &mut sc, caches, sink);
    }

    /// Claims the weighted lists called `name` and validates each.
    fn validate_lists(
        vd: &mut Validator,
        name: &str,
        kind: RandomKind,
        data: &Everything,
        sc: &mut ScopeContext,
        caches: &mut Caches,
        sink: &mut Sink,
    )
        requires
            old(vd).wf(),
            old(vd).data() == data,
            fits(old(caches), data),
        ensures
            final(vd).wf(),
            final(vd).block() == old(vd).block(),
            final(vd).data() == old(vd).data(),
            final(vd).marks() == claim(old(vd).marks(), old(vd).block().items@, name@),
            kept(final(sc)@, old(sc)@, final(caches), old(caches), final(sink)@, old(sink)@),
            comes_to(
                template_field_out(
                    TemplateField::Lists(name, kind),
                    old(vd).block(),
                    data,
                    state(old(sc)@, old(caches)),
                ),
                final(sc)@,
                final(caches),
                final(sink)@,
                old(sink)@,
            ),
    {
        let block = vd.get_block();
        let _ = vd.field_blocks(name, sink);
        let ghost s1 = sink@;
        let ghost first = only(
            state(old(sc)@, old(caches)),
            fields_diags(block.items@, name@, false, per_kind(FieldKind::Block, data), block.items@.len() as int));
        proof {
            lemma_only(old(sc)@, first.diags, old(caches), old(sink)@);
            lemma_only(old(sc)@, Seq::empty(), old(caches), s1);
        }
        let mut i: usize = 0;
        while i < block.items.len()
            invariant
                i <= block.items@.len(),
                fits(old(caches), data),
                kept(sc@, old(sc)@, caches, old(caches), sink@, old(sink)@),
                comes_to(
                    lists_walk(block, name@, kind, data, state(old(sc)@, old(caches)), i as int),
                    sc@,
                    caches,
                    sink@,
                    s1,
                ),
            decreases block.items@.len() - i,
        {
            let ghost (c_mid, k_mid, s_mid) = (sc@, *caches, sink@);
            let ghost w = lists_walk(block, name@, kind, data, state(old(sc)@, old(caches)), i as int);
            if block.items[i].has_name(name, Shape::Block) {
                match &block.items[i] {
                    BlockItem::Field(_, _, BV::Block(b)) => {
                        match kind {
                            RandomKind::Trait => validate_random_traits_list(b, data, sc, caches, sink),
                            RandomKind::Culture => validate_random_culture(b, data, sc, caches, sink),
                            RandomKind::Faith => validate_random_faith(b, data, sc, caches, sink),
                        }
                        proof {
                            lemma_after(
                                w,
                                random_list_out(b, kind, data, w.st),
                                c_mid,
                                sc@,
                                &k_mid,
                                caches,
                                s1,
                                s_mid,
                                sink@,
                            );
                        }
                    },
                    _ => {},
                }
            }
            i += 1;
        }
        proof {
            lemma_after(
                first,
                lists_walk(block, name@, kind, data, state(old(sc)@, old(caches)), block.items@.len() as int),
                old(sc)@,
                sc@,
                old(caches),
                caches,
                old(sink)@,
                s1,
                sink@,
            );
        }
    }

    /// Claims and validates the gender.
    fn validate_gender(
        vd: &mut Validator,
        data: &Everything,
        sc: &mut ScopeContext,
        caches: &mut Caches,
        sink: &mut Sink,
    )
        requires
            old(vd).wf(),
            old(vd).data() == data,
            fits(old(caches), data),
        ensures
            final(vd).wf(),
            final(vd).block() == old(vd).block(),
            final(vd).data() == old(vd).data(),
            final(vd).marks() == claim(old(vd).marks(), old(vd).block().items@, "gender"@),
            kept(final(sc)@, old(sc)@, final(caches), old(caches), final(sink)@, old(sink)@),
            comes_to(
                gender_out(old(vd).block(), data, state(old(sc)@, old(caches))),
                final(sc)@,
                final(caches),
                final(sink)@,
                old(sink)@,
            ),
    {
        let ghost block = vd.block();
        let found = vd.field_value("gender", sink);
        let ghost s1 = sink@;
        let ghost first = only(state(old(sc)@, old(caches)), checked(block, "gender"@, FieldKind::Value, data));
        proof {
            lemma_only(old(sc)@, first.diags, old(caches), old(sink)@);
            lemma_only(old(sc)@, Seq::empty(), old(caches), s1);
        }
        let mut checked_target = false;
        if let Some(token) = found {
            if !token.is("male") && !token.is("female") {
                validate_target(token, data, sc, Scopes { bits: SCOPE_CHARACTER }, caches, sink);
                checked_target = true;
                proof {
                    lemma_after(
                        first,
                        target_out(*token, data, Scopes { bits: SCOPE_CHARACTER }, state(old(sc)@, old(caches))),
                        old(sc)@,
                        sc@,
                        old(caches),
                        caches,
                        old(sink)@,
                        s1,
                        sink@,
                    );
                }
            }
        }
        proof {
            if !checked_target {
                lemma_after(
                    first,
                    nothing(state(old(sc)@, old(caches))),
                    old(sc)@,
                    sc@,
                    old(caches),
                    caches,
                    old(sink)@,
                    s1,
                    sink@,
                );
            }
        }
    }

    /// Claims and validates the effects on the character that was created.
    fn validate_after_creation(
        vd: &mut Validator,
        data: &Everything,
        sc: &mut ScopeContext,
        caches: &mut Caches,
        sink: &mut Sink,
    )
        requires
            old(vd).wf(),
            old(vd).data() == data,
            fits(old(caches), data),
        ensures
            final(vd).wf(),
            final(vd).block() == old(vd).block(),
            final(vd).data() == old(vd).data(),
            final(vd).marks() == claim(old(vd).marks(), old(vd).block().items@, "after_creation"@),
            kept(final(sc)@, old(sc)@, final(caches), old(caches), final(sink)@, old(sink)@),
            comes_to(
                after_creation_out(old(vd).block(), data, state(old(sc)@, old(caches))),
                final(sc)@,
                final(caches),
                final(sink)@,
                old(sink)@,
            ),
    {
        let block = vd.get_block();
        let _ = vd.field_block("after_creation", sink);
        let ghost s1 = sink@;
        let ghost first = only(
            state(old(sc)@, old(caches)),
            checked(block, "after_creation"@, FieldKind::Block, data),
        );
        proof {
            lemma_only(old(sc)@, first.diags, old(caches), old(sink)@);
            lemma_only(old(sc)@, Seq::empty(), old(caches), s1);
        }
        let mut entered = false;
        if let Some(i) = block.find_last("after_creation", Shape::Block) {
            match &block.items[i] {
                BlockItem::Field(key, _, BV::Block(b)) => {
                    sc.open_scope(Scopes { bits: SCOPE_CHARACTER }, key);
                    let ghost opened = sc@;
                    validate_normal_effect(b, data, sc, Tooltipped::No, caches, sink);
                    let ghost inside = sc@;
                    sc.close();
                    entered = true;
                    proof {
                        law_close_gives_back(old(sc)@, opened, inside);
                        lemma_after(
                            first,
                            closed(clauses_out(b, data, true, state(opened, old(caches))), old(sc)@),
                            old(sc)@,
                            sc@,
                            old(caches),
                            caches,
                            old(sink)@,
                            s1,
                            sink@,
                        );
                    }
                },
                _ => {},
            }
        }
        proof {
            if !entered {
                lemma_after(
                    first,
                    nothing(state(old(sc)@, old(caches))),
                    old(sc)@,
                    sc@,
                    old(caches),
                    caches,
                    old(sink)@,
                    s1,
                    sink@,
                );
            }
        }
    }

    /// Claims and validates one field of the template.
    fn validate_field(
        field: TemplateField,
        vd: &mut Validator,
        data: &Everything,
        sc: &mut ScopeContext,
        caches: &mut Caches,
        sink: &mut Sink,
    )
        requires
            old(vd).wf(),
            old(vd).data() == data,
            fits(old(caches), data),
        ensures
            final(vd).wf(),
            final(vd).block() == old(vd).block(),
            final(vd).data() == old(vd).data(),
            final(vd).marks() == claim(old(vd).marks(), old(vd).block().items@, field_name(field)),
            kept(final(sc)@, old(sc)@, final(caches), old(caches), final(sink)@, old(sink)@),
            comes_to(
                template_field_out(field, old(vd).block(), data, state(old(sc)@, old(caches))),
                final(sc)@,
                final(caches),
                final(sink)@,
                old(sink)@,
            ),
    {
        proof {
            lemma_only(sc@, Seq::empty(), caches, sink@);
        }
        match field {
            TemplateField::Named(name, item) => {
                let _ = vd.field_item(name, item, sink);
            },
            TemplateField::EachNamed(name, item) => {
                let _ = vd.field_items(name, item, sink);
            },
            TemplateField::Flag(name) => {
                let _ = vd.field_bool(name, sink);
            },
            TemplateField::Number(name) => {
                field_script_value(vd, name, data, sc, caches, sink);
            },
            TemplateField::Target(name, scopes) => {
                field_target(vd, name, data, sc, scopes, caches, sink);
            },
            TemplateField::Gender => {
                Self::validate_gender(vd, data, sc, caches, sink);
            },
            TemplateField::Lists(name, kind) => {
                Self::validate_lists(vd, name, kind, data, sc, caches, sink);
            },
            TemplateField::Dynasty => {
                let choices: Vec<&str> = vec!["generate", "inherit", "none"];
                assert(choices@.map_values(|s: &str| s@) =~= dynasty_choices());
                let _ = vd.field_choice("dynasty", &choices, sink);
            },
            TemplateField::AfterCreation => {
                Self::validate_after_creation(vd, data, sc, caches, sink);
            },
        }
    }

    /// Validates the template in the context of a script that uses it.
    pub fn validate_call(
        &self,
        _key: &Token,
        block: &Block,
        _from: &Token,
        data: &Everything,
        sc: &mut ScopeContext,
        caches: &mut Caches,
        sink: &mut Sink,
    )
        requires
            fits(old(caches), data),
        ensures
            kept(final(sc)@, old(sc)@, final(caches), old(caches), final(sink)@, old(sink)@),
            comes_to(
                template_out(block, data, state(old(sc)@, old(caches))),
                final(sc)@,
                final(caches),
                final(sink)@,
                old(sink)@,
            ),
    {
        let mut vd = Validator::new(block, data);
        assert(vd.marks() =~= no_marks(block));
        let fields = template_field_list();
        proof {
            lemma_only(sc@, Seq::empty(), caches, sink@);
        }
        let mut i: usize = 0;
        while i < fields.len()
            invariant
                i <= fields@.len(),
                fields@ == template_fields(),
                vd.wf(),
                vd.block() == block,
                vd.data() == data,
                vd.marks() == template_marks(fields@, block, i as int),
                fits(old(caches), data),
                kept(sc@, old(sc)@, caches, old(caches), sink@, old(sink)@),
                comes_to(
                    template_walk(fields@, block, data, state(old(sc)@, old(caches)), i as int),
                    sc@,
                    caches,
                    sink@,
                    old(sink)@,
                ),
            decreases fields@.len() - i,
        {
            let ghost (c_mid, k_mid, s_mid) = (sc@, *caches, sink@);
            let ghost w = template_walk(fields@, block, data, state(old(sc)@, old(caches)), i as int);
            Self::validate_field(fields[i], &mut vd, data, sc, caches, sink);
            proof {
                lemma_after(
                    w,
                    template_field_out(fields@[i as int], block, data, w.st),
                    c_mid,
                    sc@,
                    &k_mid,
                    caches,
                    old(sink)@,
                    s_mid,
                    sink@,
                );
            }
            i += 1;
        }
        let ghost walked = template_walk(fields@, block, data, state(old(sc)@, old(caches)), fields@.len() as int);
        let ghost (c1, k1, s1) = (sc@, *caches, sink@);
        let ghost left = remaining_diags(
            block.items@,
            template_marks(fields@, block, fields@.len() as int),
            block.items@.len() as int,
        );
        vd.finish(sink);
        proof {
            lemma_only(c1, left, &k1, s1);
            lemma_after(walked, only(walked.st, left), c1, sc@, &k1, caches, old(sink)@, s1, sink@);
        }
    }
}

} // verus!
