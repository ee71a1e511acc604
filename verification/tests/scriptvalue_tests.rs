use scriptlint::block::{Block, BlockItem, Comparator, BV};
use scriptlint::cache::Caches;
use scriptlint::catalog::{Arg, Catalog};
use scriptlint::context::ScopeContext;
use scriptlint::data::scriptvalues::{classify, parse_scopes, scopes_from_token, ScriptValue};
use scriptlint::expression::KeyClass;
use scriptlint::everything::Everything;
use scriptlint::helpers::TriBool;
use scriptlint::report::{ErrorKey, Severity, Sink};
use scriptlint::scopes::{Scopes, SCOPE_CHARACTER, SCOPE_CULTURE, SCOPE_FAITH, SCOPE_PROVINCE};
use scriptlint::token::{FileKind, Loc, Token};
use scriptlint::validate::{
    split_iterator_key, validate_normal_effect, validate_normal_trigger, validate_target,
    validate_target_ok_this, ListType, Tooltipped,
};
use scriptlint::validator::Validator;

fn s_loc(line: u32, column: u32) -> Loc {
    Loc { idx: 0, kind: FileKind::Mod, line, column, link: None }
}

fn s_tok(s: &str, line: u32) -> Token {
    Token::new(s, s_loc(line, 1))
}

fn s_val(key: &str, value: &str, line: u32) -> BlockItem {
    BlockItem::Field(s_tok(key, line), Comparator::Eq, BV::Value(Token::new(value, s_loc(line, 40))))
}

fn s_blk(key: &str, items: Vec<BlockItem>, line: u32) -> BlockItem {
    BlockItem::Field(s_tok(key, line), Comparator::Eq, BV::Block(s_block(items, line)))
}

fn s_block(items: Vec<BlockItem>, line: u32) -> Block {
    Block { items, loc: s_loc(line, 60) }
}

fn s_scopes(bits: u64) -> Scopes {
    Scopes { bits }
}

fn s_data() -> Everything {
    let mut catalog = Catalog::new();
    catalog.add_transition("liege", s_scopes(SCOPE_CHARACTER), s_scopes(SCOPE_CHARACTER));
    catalog.add_transition("capital_province", s_scopes(SCOPE_CHARACTER), s_scopes(SCOPE_PROVINCE));
    catalog.add_transition("faith", s_scopes(SCOPE_CHARACTER | SCOPE_PROVINCE), s_scopes(SCOPE_FAITH));
    catalog.add_iterator("vassal", s_scopes(SCOPE_CHARACTER), s_scopes(SCOPE_CHARACTER));
    catalog.add_iterator("faith_holy_order", s_scopes(SCOPE_FAITH), s_scopes(SCOPE_CHARACTER));
    catalog.add_trigger("is_ai", s_scopes(SCOPE_CHARACTER), Arg::Bool);
    catalog.add_trigger("gold", s_scopes(SCOPE_CHARACTER), Arg::Value);
    catalog.add_trigger("has_faith", s_scopes(SCOPE_CHARACTER), Arg::Target(s_scopes(SCOPE_FAITH)));
    catalog.add_effect("add_gold", s_scopes(SCOPE_CHARACTER), Arg::Value);
    Everything::new(catalog)
}

fn s_eval(data: &Everything, items: Vec<BlockItem>) -> (TriBool, Sink) {
    let mut sink = Sink::new();
    let mut caches = data.new_caches();
    let mut sc = ScopeContext::new_unrooted(s_scopes(SCOPE_CHARACTER), s_tok("root", 1));
    let bv = BV::Block(s_block(items, 1));
    let state = ScriptValue::validate_bv_no_breakdown(&bv, data, &mut sc, &mut caches, &mut sink);
    assert_eq!(sc.depth(), 0);
    (state, sink)
}

#[test]
fn value_then_multiply_is_set_and_clean() {
    let data = s_data();
    let (state, sink) = s_eval(&data, vec![s_val("value", "5", 2), s_val("multiply", "2", 3)]);
    assert_eq!(state, TriBool::True);
    assert_eq!(sink.len(), 0);
}

#[test]
fn multiply_alone_has_nothing_to_multiply() {
    let data = s_data();
    let (state, sink) = s_eval(&data, vec![s_val("multiply", "2", 3)]);
    assert_eq!(state, TriBool::False);
    assert_eq!(sink.len(), 1);
    assert_eq!(sink.get(0).key, ErrorKey::Logic);
    assert_eq!(sink.get(0).severity, Severity::Warning);
    assert_eq!(sink.get(0).msg, "nothing to multiply yet");
    assert_eq!(sink.get(0).loc.line, 3);
}

#[test]
fn divide_and_round_need_a_value_too() {
    let data = s_data();
    let (_, sink) = s_eval(&data, vec![s_val("divide", "2", 3), s_val("round", "yes", 4), s_val("floor", "maybe", 5)]);
    assert_eq!(sink.len(), 4);
    assert_eq!(sink.get(0).msg, "nothing to divide yet");
    assert_eq!(sink.get(1).msg, "nothing to round yet");
    assert_eq!(sink.get(2).msg, "nothing to floor yet");
    assert_eq!(sink.get(3).msg, "expected yes or no");
    assert_eq!(sink.get(3).key, ErrorKey::Validation);
}

#[test]
fn setting_value_twice_overwrites() {
    let data = s_data();
    let (state, sink) = s_eval(&data, vec![s_val("add", "5", 2), s_val("value", "2", 3)]);
    assert_eq!(state, TriBool::True);
    assert_eq!(sink.len(), 1);
    assert_eq!(sink.get(0).key, ErrorKey::Logic);
    assert_eq!(sink.get(0).msg, "setting value here will overwrite the previous calculations");
}

#[test]
fn a_range_sets_the_value_and_needs_min_and_max() {
    let data = s_data();
    let (state, sink) = s_eval(
        &data,
        vec![s_val("value", "1", 2), s_blk("fixed_range", vec![s_val("min", "1", 3)], 3)],
    );
    assert_eq!(state, TriBool::True);
    assert_eq!(sink.len(), 2);
    assert_eq!(sink.get(0).msg, "using fixed_range here will overwrite the previous calculations");
    assert_eq!(sink.get(1).key, ErrorKey::FieldMissing);
    assert_eq!(sink.get(1).msg, "required field `max` missing");
    let (state2, sink2) = s_eval(
        &data,
        vec![s_blk("integer_range", vec![s_val("min", "1", 3), s_val("max", "4", 4)], 3)],
    );
    assert_eq!(state2, TriBool::True);
    assert_eq!(sink2.len(), 0);
}

#[test]
fn if_else_if_else_chain_is_clean() {
    let data = s_data();
    let (state, sink) = s_eval(
        &data,
        vec![
            s_blk("if", vec![s_blk("limit", vec![], 2)], 2),
            s_blk("else_if", vec![s_blk("limit", vec![], 3)], 3),
            s_blk("else", vec![], 4),
        ],
    );
    assert_eq!(state, TriBool::Maybe);
    assert_eq!(sink.len(), 0);
}

#[test]
fn else_if_after_another_key_is_reported() {
    let data = s_data();
    let (_, sink) = s_eval(
        &data,
        vec![s_val("value", "1", 2), s_blk("else_if", vec![s_blk("limit", vec![], 3)], 3)],
    );
    assert_eq!(sink.len(), 1);
    assert_eq!(sink.get(0).key, ErrorKey::Validation);
    assert_eq!(sink.get(0).msg, "`else_if` without preceding `if`");
    assert_eq!(sink.get(0).loc.line, 3);
}

#[test]
fn else_if_first_is_reported() {
    let data = s_data();
    let (_, sink) = s_eval(&data, vec![s_blk("else_if", vec![s_blk("limit", vec![], 3)], 3)]);
    assert_eq!(sink.len(), 1);
    assert_eq!(sink.get(0).msg, "`else_if` without preceding `if`");
}

#[test]
fn else_after_else_is_reported() {
    let data = s_data();
    let (_, sink) = s_eval(
        &data,
        vec![s_blk("if", vec![s_blk("limit", vec![], 2)], 2), s_blk("else", vec![], 3), s_blk("else", vec![], 4)],
    );
    assert_eq!(sink.len(), 1);
    assert_eq!(sink.get(0).msg, "`else` without preceding `if`");
    assert_eq!(sink.get(0).loc.line, 4);
}

#[test]
fn else_with_a_limit_is_advised_and_arms_the_next() {
    let data = s_data();
    let (_, sink) = s_eval(
        &data,
        vec![
            s_blk("if", vec![s_blk("limit", vec![], 2)], 2),
            s_blk("else", vec![s_blk("limit", vec![], 3)], 3),
            s_blk("else_if", vec![s_blk("limit", vec![], 4)], 4),
            s_blk("else", vec![], 5),
        ],
    );
    assert_eq!(sink.len(), 1);
    assert_eq!(sink.get(0).key, ErrorKey::IfElse);
    assert_eq!(sink.get(0).severity, Severity::Advice);
    assert_eq!(sink.get(0).msg, "`else` with a `limit` does work, but may indicate a mistake");
    assert_eq!(sink.get(0).info.as_deref(), Some("normally you would use `else_if` instead."));
    assert_eq!(sink.get(0).loc.line, 3);
}

#[test]
fn if_without_limit_is_warned() {
    let data = s_data();
    let (state, sink) = s_eval(&data, vec![s_blk("if", vec![s_val("add", "1", 3)], 2)]);
    assert_eq!(state, TriBool::Maybe);
    assert_eq!(sink.len(), 1);
    assert_eq!(sink.get(0).key, ErrorKey::FieldMissing);
    assert_eq!(sink.get(0).severity, Severity::Warning);
}

#[test]
fn every_iterator_opens_the_element_scope() {
    let data = s_data();
    let (state, sink) = s_eval(
        &data,
        vec![s_blk("every_vassal", vec![s_blk("limit", vec![s_val("is_ai", "yes", 3)], 3), s_val("add", "1", 4)], 2)],
    );
    assert_eq!(state, TriBool::Maybe);
    assert_eq!(sink.len(), 0);
}

#[test]
fn any_iterator_is_refused_in_a_script_value() {
    let data = s_data();
    let (state, sink) = s_eval(&data, vec![s_blk("any_vassal", vec![s_val("multiply", "1", 4)], 2)]);
    assert_eq!(state, TriBool::False);
    assert_eq!(sink.len(), 1);
    assert_eq!(sink.get(0).severity, Severity::Error);
    assert_eq!(sink.get(0).key, ErrorKey::Validation);
    assert_eq!(sink.get(0).msg, "cannot use `any_` iterators in a script value");
}

#[test]
fn an_iterator_from_the_wrong_scope_is_reported() {
    let data = s_data();
    let (_, sink) = s_eval(&data, vec![s_blk("every_faith_holy_order", vec![s_val("add", "1", 4)], 2)]);
    assert_eq!(sink.len(), 1);
    assert_eq!(sink.get(0).key, ErrorKey::Scopes);
    assert_eq!(sink.get(0).loc.line, 2);
}

#[test]
fn an_iterator_over_an_unknown_list_is_passed_over() {
    let data = s_data();
    let (state, sink) = s_eval(&data, vec![s_blk("every_unknown_thing", vec![s_val("nonsense", "1", 4)], 2)]);
    assert_eq!(state, TriBool::False);
    assert_eq!(sink.len(), 0);
}

#[test]
fn a_chain_key_with_a_block_is_validated_in_the_new_scope() {
    let data = s_data();
    let (state, sink) = s_eval(
        &data,
        vec![s_blk("liege.faith", vec![s_blk("every_faith_holy_order", vec![s_val("add", "1", 4)], 3)], 2)],
    );
    assert_eq!(state, TriBool::Maybe);
    assert_eq!(sink.len(), 0);
}

#[test]
fn an_unknown_key_is_reported_once() {
    let data = s_data();
    let (state, sink) = s_eval(&data, vec![s_blk("nonsense", vec![s_val("multiply", "1", 4)], 2)]);
    assert_eq!(state, TriBool::False);
    assert_eq!(sink.len(), 1);
    assert_eq!(sink.get(0).msg, "unknown token `nonsense`");
}

#[test]
fn saved_scopes_can_be_used_in_chains() {
    let data = s_data();
    let (_, sink) = s_eval(
        &data,
        vec![
            s_val("save_temporary_scope_as", "me", 2),
            s_val("save_temporary_value_as", "amount", 3),
            s_blk("scope:me.liege", vec![s_val("add", "scope:amount", 5)], 4),
        ],
    );
    assert_eq!(sink.len(), 0);
}

#[test]
fn a_scalar_and_a_range_are_values() {
    let data = s_data();
    let mut sink = Sink::new();
    let mut caches = data.new_caches();
    let mut sc = ScopeContext::new_unrooted(Scopes::all(), s_tok("root", 1));
    let scalar = BV::Value(s_tok("3.5", 2));
    assert_eq!(ScriptValue::validate_bv(&scalar, &data, &mut sc, &mut caches, &mut sink), TriBool::True);
    let range = BV::Block(s_block(vec![BlockItem::Keyword(s_tok("1", 3)), BlockItem::Keyword(s_tok("5", 3))], 3));
    assert_eq!(ScriptValue::validate_bv(&range, &data, &mut sc, &mut caches, &mut sink), TriBool::True);
    assert_eq!(sink.len(), 0);
    let bad = BV::Block(s_block(vec![BlockItem::Keyword(s_tok("1", 4))], 4));
    assert_eq!(ScriptValue::validate_bv(&bad, &data, &mut sc, &mut caches, &mut sink), TriBool::True);
    assert_eq!(sink.len(), 1);
    assert_eq!(sink.get(0).msg, "invalid script value range");
    let empty = BV::Block(s_block(vec![], 5));
    assert_eq!(ScriptValue::validate_bv(&empty, &data, &mut sc, &mut caches, &mut sink), TriBool::False);
}

#[test]
fn desc_is_a_localization_key_only_with_breakdown() {
    let data = s_data();
    let mut caches = data.new_caches();
    let mut sc = ScopeContext::new_unrooted(Scopes::all(), s_tok("root", 1));
    let bv = BV::Block(s_block(vec![s_val("desc", "some_desc", 2), s_val("value", "1", 3)], 1));
    let mut sink = Sink::new();
    ScriptValue::validate_bv_no_breakdown(&bv, &data, &mut sc, &mut caches, &mut sink);
    assert_eq!(sink.len(), 0);
    ScriptValue::validate_bv(&bv, &data, &mut sc, &mut caches, &mut sink);
    assert_eq!(sink.len(), 1);
    assert_eq!(sink.get(0).key, ErrorKey::MissingItem);
    assert_eq!(sink.get(0).msg, "localization some_desc not defined in localization/");
}

#[test]
fn keys_are_classified() {
    let data = s_data();
    assert_eq!(classify(&s_tok("value", 1), &data).class, KeyClass::Value);
    assert_eq!(classify(&s_tok("max", 1), &data).class, KeyClass::Add);
    assert_eq!(classify(&s_tok("modulo", 1), &data).class, KeyClass::Multiply);
    assert_eq!(classify(&s_tok("ceiling", 1), &data).class, KeyClass::Round);
    assert_eq!(classify(&s_tok("integer_range", 1), &data).class, KeyClass::Range);
    assert_eq!(classify(&s_tok("if", 1), &data).class, KeyClass::If);
    assert_eq!(classify(&s_tok("else_if", 1), &data).class, KeyClass::ElseIf);
    assert_eq!(classify(&s_tok("else", 1), &data).class, KeyClass::Else);
    assert_eq!(classify(&s_tok("save_temporary_scope_as", 1), &data).class, KeyClass::SaveScope);
    assert_eq!(classify(&s_tok("save_temporary_value_as", 1), &data).class, KeyClass::SaveValue);
    assert_eq!(classify(&s_tok("ordered_vassal", 1), &data).class, KeyClass::Iterator(ListType::Ordered));
    assert_eq!(classify(&s_tok("random_courtier", 1), &data).class, KeyClass::Ignored);
    assert_eq!(classify(&s_tok("some_vassal", 1), &data).class, KeyClass::Chain);
    assert_eq!(classify(&s_tok("liege", 1), &data).class, KeyClass::Chain);
    let (lt, name) = split_iterator_key(&s_tok("any_held_title", 1)).unwrap();
    assert_eq!(lt, ListType::Any);
    assert_eq!(name.as_str(), "held_title");
    assert!(split_iterator_key(&s_tok("all_held_title", 1)).is_none());
}

fn s_cycle() -> Everything {
    let mut data = s_data();
    let mut sink = Sink::new();
    data.scriptvalues.load_item(
        s_tok("value_a", 10),
        BV::Block(s_block(vec![BlockItem::Field(s_tok("value", 11), Comparator::Eq, BV::Value(s_tok("value_b", 11)))], 10)),
        &mut sink,
    );
    data.scriptvalues.load_item(
        s_tok("value_b", 20),
        BV::Block(s_block(vec![BlockItem::Field(s_tok("add", 21), Comparator::Eq, BV::Value(s_tok("value_a", 21)))], 20)),
        &mut sink,
    );
    assert_eq!(sink.len(), 0);
    data
}

#[test]
fn a_cycle_of_script_values_ends() {
    let data = s_cycle();
    let mut sink = Sink::new();
    let mut caches = data.new_caches();
    data.scriptvalues.validate(&data, &mut caches, &mut sink);
    assert_eq!(sink.len(), 0);
    let again = sink.len();
    data.scriptvalues.validate(&data, &mut caches, &mut sink);
    assert_eq!(sink.len(), again);
}

#[test]
fn a_script_value_that_refers_to_itself_ends() {
    let mut data = s_data();
    let mut sink = Sink::new();
    data.scriptvalues.load_item(
        s_tok("selfish", 10),
        BV::Block(s_block(vec![BlockItem::Field(s_tok("value", 11), Comparator::Eq, BV::Value(s_tok("selfish", 11)))], 10)),
        &mut sink,
    );
    let mut caches = data.new_caches();
    data.validate_all(&mut caches, &mut sink);
    assert_eq!(sink.len(), 0);
}

#[test]
fn a_call_site_is_validated_once_and_checked_each_time() {
    let mut data = s_data();
    let mut sink = Sink::new();
    data.scriptvalues.set_override("provincial", s_scopes(SCOPE_PROVINCE));
    data.scriptvalues.load_item(
        s_tok("provincial", 10),
        BV::Block(s_block(vec![s_val("multiply", "2", 11)], 10)),
        &mut sink,
    );
    let mut caches = data.new_caches();
    let mut sc = ScopeContext::new_unrooted(s_scopes(SCOPE_CHARACTER), s_tok("root", 1));
    let site = s_tok("provincial", 30);
    let d = data.scriptvalues.find("provincial").unwrap();
    assert!(caches.get(d, site.loc().site()).is_none());
    data.scriptvalues.validate_call(&site, &data, &mut sc, &mut caches, &mut sink);
    // The body is validated: one finding in it, and one mismatch at the call site.
    assert_eq!(sink.len(), 2);
    assert_eq!(sink.get(0).msg, "nothing to multiply yet");
    assert_eq!(sink.get(1).key, ErrorKey::Scopes);
    assert_eq!(sink.get(1).loc.line, 30);
    assert_eq!(caches.get(d, site.loc().site()).unwrap().scopes(), s_scopes(SCOPE_PROVINCE));
    // The same call site again: only the check, no second validation of the body.
    data.scriptvalues.validate_call(&site, &data, &mut sc, &mut caches, &mut sink);
    assert_eq!(sink.len(), 3);
    assert_eq!(sink.get(2).key, ErrorKey::Scopes);
    assert_eq!(sink.get(2).loc.line, 30);
    // A context that fits: no diagnostic at all.
    let mut fitting = ScopeContext::new_unrooted(s_scopes(SCOPE_PROVINCE | SCOPE_CULTURE), s_tok("root", 1));
    data.scriptvalues.validate_call(&site, &data, &mut fitting, &mut caches, &mut sink);
    assert_eq!(sink.len(), 3);
    assert_eq!(sc.scopes(), s_scopes(SCOPE_CHARACTER));
    // A name that is no script value: nothing happens.
    data.scriptvalues.validate_call(&s_tok("unknown", 31), &data, &mut sc, &mut caches, &mut sink);
    assert_eq!(sink.len(), 3);
}

#[test]
fn cached_compat_only_checks() {
    let mut data = s_data();
    let mut sink = Sink::new();
    data.scriptvalues.load_item(s_tok("v", 10), BV::Value(s_tok("1", 10)), &mut sink);
    let mut caches = Caches::new(1);
    let sv = data.scriptvalues.get(0);
    let site = s_tok("v", 30);
    let mut sc = ScopeContext::new_unrooted(s_scopes(SCOPE_CHARACTER), s_tok("root", 1));
    assert!(!sv.cached_compat(0, &site, &mut sc, &caches, &mut sink));
    caches.put(0, site.loc().site(), ScopeContext::new_unrooted(s_scopes(SCOPE_FAITH), s_tok("v", 10)));
    assert!(sv.cached_compat(0, &site, &mut sc, &caches, &mut sink));
    assert_eq!(sink.len(), 1);
    assert_eq!(sink.get(0).key, ErrorKey::Scopes);
    caches.put(0, site.loc().site(), ScopeContext::new_unrooted(s_scopes(SCOPE_CHARACTER), s_tok("v", 10)));
    assert!(sv.cached_compat(0, &site, &mut sc, &caches, &mut sink));
    assert_eq!(sink.len(), 1);
    assert_eq!(caches.len(), 1);
}

#[test]
fn a_script_value_that_says_yes_needs_no_validation() {
    let mut data = s_data();
    let mut sink = Sink::new();
    data.scriptvalues.load_item(s_tok("flag", 10), BV::Value(s_tok("yes", 10)), &mut sink);
    data.scriptvalues.load_item(s_tok("nonsense", 11), BV::Value(s_tok("no.such.thing", 11)), &mut sink);
    let mut caches = data.new_caches();
    data.scriptvalues.get(0).validate(0, &data, &mut caches, &mut sink);
    assert_eq!(sink.len(), 0);
    data.scriptvalues.get(1).validate(1, &data, &mut caches, &mut sink);
    assert_eq!(sink.len(), 1);
    assert_eq!(sink.get(0).msg, "unknown token `no`");
}

#[test]
fn loading_a_script_value_twice_is_a_duplicate() {
    let mut data = s_data();
    let mut sink = Sink::new();
    assert!(!data.scriptvalues.is_defined("v"));
    data.scriptvalues.load_item(s_tok("v", 10), BV::Value(s_tok("1", 10)), &mut sink);
    assert!(data.scriptvalues.is_defined("v"));
    assert_eq!(data.scriptvalues.len(), 1);
    data.scriptvalues.load_item(s_tok("v", 20), BV::Value(s_tok("2", 20)), &mut sink);
    assert_eq!(data.scriptvalues.len(), 1);
    assert_eq!(sink.len(), 2);
    assert_eq!(sink.get(0).key, ErrorKey::Duplicate);
    assert_eq!(sink.get(0).severity, Severity::Error);
    assert_eq!(sink.get(0).msg, "script value is redefined by another script value");
    assert_eq!(sink.get(0).loc.line, 20);
    assert_eq!(sink.get(1).severity, Severity::Info);
    assert_eq!(sink.get(1).msg, "the other script value is here");
    assert_eq!(sink.get(1).loc.line, 10);
    assert_eq!(data.scriptvalues.get(0).key.loc().line, 20);
}

#[test]
fn a_mod_overrides_vanilla_in_silence() {
    let mut data = s_data();
    let mut sink = Sink::new();
    let vanilla = Token::new("v", Loc { idx: 0, kind: FileKind::Vanilla, line: 1, column: 1, link: None });
    let modded = Token::new("v", Loc { idx: 1, kind: FileKind::Mod, line: 1, column: 1, link: None });
    data.scriptvalues.load_item(vanilla.clone(), BV::Value(s_tok("1", 1)), &mut sink);
    data.scriptvalues.load_item(modded, BV::Value(s_tok("2", 1)), &mut sink);
    assert_eq!(sink.len(), 0);
    data.scriptvalues.load_item(vanilla, BV::Value(s_tok("3", 1)), &mut sink);
    assert_eq!(sink.len(), 2);
}

#[test]
fn scopes_of_the_configuration_are_read() {
    let mut sink = Sink::new();
    assert_eq!(parse_scopes(&s_tok("character|province", 1), &mut sink), s_scopes(SCOPE_CHARACTER | SCOPE_PROVINCE));
    assert_eq!(parse_scopes(&s_tok("ALL", 1), &mut sink), Scopes::all());
    assert_eq!(parse_scopes(&s_tok("faith", 1), &mut sink), s_scopes(SCOPE_FAITH));
    assert_eq!(sink.len(), 0);
    assert_eq!(parse_scopes(&s_tok("faith|bogus|culture", 1), &mut sink), s_scopes(SCOPE_FAITH | SCOPE_CULTURE));
    assert_eq!(sink.len(), 1);
    assert_eq!(sink.get(0).key, ErrorKey::Config);
    assert_eq!(sink.get(0).msg, "unknown scope type `bogus`");
    assert_eq!(sink.get(0).loc.column, 7);
    assert_eq!(scopes_from_token(&s_tok("bogus", 1), true, &mut sink), Scopes::all());
    assert_eq!(sink.len(), 1);
    assert_eq!(scopes_from_token(&s_tok("", 1), false, &mut sink), Scopes::empty());
    assert_eq!(sink.len(), 2);
}

#[test]
fn the_configuration_sets_scope_overrides() {
    let mut data = s_data();
    let mut sink = Sink::new();
    let config = s_block(
        vec![s_blk(
            "scope_override",
            vec![s_val("a", "character", 2), s_val("b", "all", 3), s_val("a", "province|faith", 4)],
            1,
        )],
        1,
    );
    data.scriptvalues.config(&config, &mut sink);
    assert_eq!(sink.len(), 0);
    assert_eq!(data.scriptvalues.scope_override("a"), Some(s_scopes(SCOPE_PROVINCE | SCOPE_FAITH)));
    assert_eq!(data.scriptvalues.scope_override("b"), Some(Scopes::all()));
    assert_eq!(data.scriptvalues.scope_override("c"), None);
    data.scriptvalues.load_item(s_tok("a", 10), BV::Value(s_tok("1", 10)), &mut sink);
    assert_eq!(data.scriptvalues.get(0).scope_override, Some(s_scopes(SCOPE_PROVINCE | SCOPE_FAITH)));
}

#[test]
fn targets_are_numbers_script_values_or_chains() {
    let data = s_cycle();
    let mut sink = Sink::new();
    let mut caches = data.new_caches();
    let mut sc = ScopeContext::new(s_scopes(SCOPE_CHARACTER), s_tok("root", 1));
    validate_target_ok_this(&s_tok("12", 2), &data, &mut sc, s_scopes(SCOPE_FAITH), &mut caches, &mut sink);
    assert_eq!(sink.len(), 1);
    assert_eq!(sink.get(0).msg, "a number does not fit here");
    validate_target_ok_this(&s_tok("liege.faith", 3), &data, &mut sc, s_scopes(SCOPE_FAITH), &mut caches, &mut sink);
    assert_eq!(sink.len(), 1);
    validate_target_ok_this(&s_tok("liege", 4), &data, &mut sc, s_scopes(SCOPE_FAITH), &mut caches, &mut sink);
    assert_eq!(sink.len(), 2);
    assert_eq!(sink.get(1).msg, "the target does not have a scope type that fits here");
    validate_target(&s_tok("this", 5), &data, &mut sc, s_scopes(SCOPE_CHARACTER), &mut caches, &mut sink);
    assert_eq!(sink.len(), 3);
    assert_eq!(sink.get(2).key, ErrorKey::Logic);
    validate_target(&s_tok("value_a", 6), &data, &mut sc, s_scopes(SCOPE_CHARACTER), &mut caches, &mut sink);
    assert_eq!(sink.len(), 3);
    assert_eq!(sc.scopes(), s_scopes(SCOPE_CHARACTER));
    assert_eq!(sc.depth(), 0);
}

#[test]
fn triggers_and_effects_are_validated_by_the_catalog() {
    let data = s_data();
    let mut sink = Sink::new();
    let mut caches = data.new_caches();
    let mut sc = ScopeContext::new(s_scopes(SCOPE_CHARACTER), s_tok("root", 1));
    let trigger = s_block(
        vec![
            s_val("is_ai", "yes", 2),
            s_blk("NOT", vec![s_val("is_ai", "maybe", 3)], 3),
            s_blk("gold", vec![s_val("value", "5", 4), s_val("multiply", "2", 5)], 4),
            s_val("has_faith", "liege.faith", 6),
            s_blk("any_vassal", vec![s_val("is_ai", "no", 7)], 7),
            s_blk("capital_province", vec![s_val("is_ai", "no", 8)], 8),
            BlockItem::Keyword(s_tok("loose", 9)),
            s_val("liege", "this", 10),
        ],
        1,
    );
    validate_normal_trigger(&trigger, &data, &mut sc, Tooltipped::No, &mut caches, &mut sink);
    assert_eq!(sink.len(), 3);
    assert_eq!(sink.get(0).msg, "expected yes or no");
    assert_eq!(sink.get(0).loc.line, 3);
    assert_eq!(sink.get(1).key, ErrorKey::Scopes);
    assert_eq!(sink.get(1).loc.line, 8);
    assert_eq!(sink.get(2).msg, "unexpected token");
    assert_eq!(sc.depth(), 0);
    let effect = s_block(
        vec![
            s_val("add_gold", "5", 2),
            s_blk("every_vassal", vec![s_blk("limit", vec![s_val("is_ai", "yes", 3)], 3), s_val("add_gold", "1", 4)], 3),
            s_blk("any_vassal", vec![], 5),
            s_val("is_ai", "yes", 6),
        ],
        1,
    );
    let mut sink2 = Sink::new();
    validate_normal_effect(&effect, &data, &mut sc, Tooltipped::No, &mut caches, &mut sink2);
    assert_eq!(sink2.len(), 2);
    assert_eq!(sink2.get(0).msg, "this kind of iterator cannot be used here");
    assert_eq!(sink2.get(1).msg, "unknown token `is_ai`");
}

#[test]
fn validate_inner_starts_from_the_given_state() {
    let data = s_data();
    let mut sink = Sink::new();
    let mut caches = data.new_caches();
    let mut sc = ScopeContext::new(s_scopes(SCOPE_CHARACTER), s_tok("root", 1));
    let b = s_block(vec![s_val("multiply", "2", 2)], 1);
    let vd = Validator::new(&b, &data);
    let state = ScriptValue::validate_inner(vd, &data, &mut sc, TriBool::Maybe, false, &mut caches, &mut sink);
    assert_eq!(state, TriBool::Maybe);
    assert_eq!(sink.len(), 0);
    let (next, armed) = ScriptValue::validate_key(
        &s_tok("if", 3),
        Comparator::Eq,
        &BV::Block(s_block(vec![s_blk("limit", vec![], 3)], 3)),
        &data,
        &mut sc,
        TriBool::True,
        false,
        false,
        &mut caches,
        &mut sink,
    );
    assert_eq!(next, TriBool::Maybe);
    assert!(armed);
}

#[test]
fn the_registry_dispatches_calls_by_kind() {
    let mut data = s_cycle();
    let mut sink = Sink::new();
    data.scriptvalues.set_override("narrow", s_scopes(SCOPE_PROVINCE));
    data.scriptvalues.load_item(s_tok("narrow", 40), BV::Value(s_tok("1", 40)), &mut sink);
    let mut caches = data.new_caches();
    let mut sc = ScopeContext::new(s_scopes(SCOPE_CHARACTER), s_tok("root", 1));
    data.validate_call(scriptlint::item::Item::ScriptValue, &s_tok("value_a", 50), &mut sc, &mut caches, &mut sink);
    assert_eq!(sink.len(), 0);
    data.validate_call(scriptlint::item::Item::ScriptValue, &s_tok("narrow", 51), &mut sc, &mut caches, &mut sink);
    assert_eq!(sink.len(), 1);
    assert_eq!(sink.get(0).key, ErrorKey::Scopes);
    assert_eq!(sink.get(0).loc.line, 51);
    data.validate_call(scriptlint::item::Item::ScriptValue, &s_tok("absent", 52), &mut sc, &mut caches, &mut sink);
    data.validate_call(scriptlint::item::Item::Trait, &s_tok("value_a", 53), &mut sc, &mut caches, &mut sink);
    data.validate_call(scriptlint::item::Item::Decision, &s_tok("value_a", 54), &mut sc, &mut caches, &mut sink);
    assert_eq!(sink.len(), 1);
    assert_eq!(sc.scopes(), s_scopes(SCOPE_CHARACTER));
}

#[test]
fn saving_a_scope_binds_the_name_in_the_context() {
    let data = s_data();
    let mut sink = Sink::new();
    let mut caches = data.new_caches();
    let mut sc = ScopeContext::new(s_scopes(SCOPE_CHARACTER), s_tok("root", 1));
    let bv = BV::Block(s_block(
        vec![s_val("save_temporary_scope_as", "me", 2), s_val("save_temporary_value_as", "amount", 3)],
        1,
    ));
    let state = ScriptValue::validate_bv_no_breakdown(&bv, &data, &mut sc, &mut caches, &mut sink);
    assert_eq!(state, TriBool::False);
    assert_eq!(sink.len(), 0);
    assert_eq!(sc.scopes_of_name("me"), Some(s_scopes(SCOPE_CHARACTER)));
    assert_eq!(sc.scopes_of_name("amount"), Some(s_scopes(scriptlint::scopes::SCOPE_VALUE)));
}

#[test]
fn the_fields_that_steer_an_iterator_are_claimed() {
    let data = s_data();
    let (state, sink) = s_eval(
        &data,
        vec![
            s_blk(
                "ordered_vassal",
                vec![
                    s_val("order_by", "5", 3),
                    s_val("position", "0", 4),
                    s_val("min", "1", 5),
                    s_val("max", "nonsense", 6),
                    s_val("check_range_bounds", "no", 7),
                    s_val("even_if_dead", "yes", 8),
                    s_val("add", "1", 9),
                ],
                2,
            ),
            s_blk("random_vassal", vec![s_blk("weight", vec![], 11), s_val("add", "1", 12)], 10),
            s_blk("every_vassal", vec![s_val("order_by", "5", 14)], 13),
        ],
    );
    assert_eq!(state, TriBool::Maybe);
    let msgs: Vec<String> = (0..sink.len()).map(|i| sink.get(i).msg.clone()).collect();
    assert_eq!(msgs, vec!["unknown token `nonsense`".to_string(), "unknown token `order_by`".to_string()]);
    assert_eq!(sink.get(0).loc.line, 6);
}

#[test]
fn places_are_ordered_by_file_line_and_column() {
    let a = Loc { idx: 0, kind: FileKind::Vanilla, line: 5, column: 9, link: None };
    let b = Loc { idx: 0, kind: FileKind::Vanilla, line: 6, column: 1, link: None };
    let c = Loc { idx: 1, kind: FileKind::Vanilla, line: 1, column: 1, link: None };
    assert!(a < b);
    assert!(b < c);
    assert!(FileKind::Vanilla < FileKind::Mod);
}

#[test]
fn a_range_has_no_field_but_min_and_max() {
    let data = s_data();
    let (state, sink) = s_eval(
        &data,
        vec![s_blk("fixed_range", vec![s_val("min", "1", 3), s_val("max", "2", 4), s_val("step", "1", 5)], 2)],
    );
    assert_eq!(state, TriBool::True);
    assert_eq!(sink.len(), 1);
    assert_eq!(sink.get(0).key, ErrorKey::UnknownField);
    assert_eq!(sink.get(0).msg, "unknown field `step`");
    assert_eq!(sink.get(0).loc.line, 5);
}

#[test]
fn a_range_reports_its_ends_before_its_other_fields() {
    let data = s_data();
    let (_, sink) = s_eval(
        &data,
        vec![s_blk("integer_range", vec![s_val("step", "1", 3), s_val("max", "nonsense", 4)], 2)],
    );
    let keys: Vec<ErrorKey> = (0..sink.len()).map(|i| sink.get(i).key).collect();
    assert_eq!(keys, vec![ErrorKey::FieldMissing, ErrorKey::Validation, ErrorKey::UnknownField]);
    assert_eq!(sink.get(0).msg, "required field `min` missing");
    assert_eq!(sink.get(1).loc.line, 4);
    assert_eq!(sink.get(2).loc.line, 3);
}

#[test]
fn a_range_of_two_words_has_no_fields() {
    let data = s_data();
    let mut sink = Sink::new();
    let mut caches = data.new_caches();
    let mut sc = ScopeContext::new_unrooted(s_scopes(SCOPE_CHARACTER), s_tok("root", 1));
    let bv = BV::Block(s_block(
        vec![BlockItem::Keyword(s_tok("1", 2)), BlockItem::Keyword(s_tok("5", 2)), s_val("extra", "3", 3)],
        2,
    ));
    let state = ScriptValue::validate_bv(&bv, &data, &mut sc, &mut caches, &mut sink);
    assert_eq!(state, TriBool::True);
    assert_eq!(sink.len(), 1);
    assert_eq!(sink.get(0).msg, "unknown field `extra`");
    let three = BV::Block(s_block(
        vec![BlockItem::Keyword(s_tok("1", 2)), BlockItem::Keyword(s_tok("5", 2)), BlockItem::Keyword(s_tok("9", 2))],
        2,
    ));
    let mut sink2 = Sink::new();
    let _ = ScriptValue::validate_bv(&three, &data, &mut sc, &mut caches, &mut sink2);
    assert_eq!(sink2.len(), 1);
    assert_eq!(sink2.get(0).msg, "invalid script value range");
}

#[test]
fn the_configuration_reports_each_unknown_part_at_its_place() {
    let mut sink = Sink::new();
    let token = Token::new("character|nonsense|faith|more", s_loc(7, 10));
    let scopes = parse_scopes(&token, &mut sink);
    assert_eq!(scopes, s_scopes(SCOPE_CHARACTER | SCOPE_FAITH));
    assert_eq!(sink.len(), 2);
    assert_eq!(sink.get(0).key, ErrorKey::Config);
    assert_eq!(sink.get(0).severity, Severity::Warning);
    assert_eq!(sink.get(0).msg, "unknown scope type `nonsense`");
    assert_eq!(sink.get(0).loc.column, 20);
    assert_eq!(sink.get(1).msg, "unknown scope type `more`");
    assert_eq!(sink.get(1).loc.column, 35);
    let mut sink2 = Sink::new();
    let all = Token::new("ALL", s_loc(8, 1));
    assert_eq!(parse_scopes(&all, &mut sink2), Scopes::all());
    assert_eq!(sink2.len(), 0);
}

#[test]
fn script_values_without_references_are_validated_in_order() {
    let mut data = s_data();
    let mut sink = Sink::new();
    data.scriptvalues.load_item(s_tok("first", 10), BV::Block(s_block(vec![s_val("multiply", "2", 11)], 10)), &mut sink);
    data.scriptvalues.load_item(s_tok("flag", 20), BV::Value(s_tok("yes", 20)), &mut sink);
    data.scriptvalues.load_item(s_tok("second", 30), BV::Block(s_block(vec![s_val("round", "maybe", 31)], 30)), &mut sink);
    assert_eq!(sink.len(), 0);
    let mut caches = data.new_caches();
    data.validate_all(&mut caches, &mut sink);
    let lines: Vec<u32> = (0..sink.len()).map(|i| sink.get(i).loc.line).collect();
    assert_eq!(lines, vec![11, 31, 31]);
    assert_eq!(sink.get(0).msg, "nothing to multiply yet");
    assert_eq!(sink.get(1).msg, "nothing to round yet");
    assert_eq!(sink.get(2).msg, "expected yes or no");
    let before = sink.len();
    data.validate_all(&mut caches, &mut sink);
    assert_eq!(sink.len(), before);
}

#[test]
fn a_script_value_file_is_loaded() {
    let mut data = s_data();
    let mut sink = Sink::new();
    let file = s_block(
        vec![
            s_val("one", "1", 2),
            BlockItem::Keyword(s_tok("stray", 3)),
            s_blk("two", vec![s_val("value", "2", 4)], 4),
            BlockItem::Block(s_block(vec![], 5)),
            s_val("one", "11", 6),
        ],
        1,
    );
    data.scriptvalues.load_file(file, &mut sink);
    assert_eq!(data.scriptvalues.len(), 2);
    assert_eq!(data.scriptvalues.find("one"), Some(0));
    assert_eq!(data.scriptvalues.find("two"), Some(1));
    assert_eq!(data.scriptvalues.get(0).key.loc().line, 6);
    assert!(data.scriptvalues.get(0).bv.get_value().unwrap().is("11"));
    let msgs: Vec<String> = (0..sink.len()).map(|i| sink.get(i).msg.clone()).collect();
    assert_eq!(msgs.len(), 4);
    assert_eq!(msgs[0], "unexpected token");
    assert_eq!(msgs[1], "unexpected block");
    assert_eq!(sink.get(2).key, ErrorKey::Duplicate);
    assert_eq!(sink.get(2).loc.line, 6);
    assert_eq!(sink.get(3).loc.line, 2);
}

#[test]
fn a_cycle_of_two_names_remembers_three_call_sites() {
    let mut data = s_data();
    let mut sink = Sink::new();
    let to_second = Token::new("second", s_loc(10, 40));
    let to_first = Token::new("first", s_loc(20, 40));
    data.scriptvalues.load_item(s_tok("first", 10), BV::Value(to_second.clone()), &mut sink);
    data.scriptvalues.load_item(s_tok("second", 20), BV::Value(to_first.clone()), &mut sink);
    assert_eq!(sink.len(), 0);
    let mut caches = data.new_caches();
    let key = s_tok("first", 30);
    let mut sc = ScopeContext::new_unrooted(Scopes::all(), s_tok("root", 1));
    sc.set_strict_scopes(false);
    data.scriptvalues.validate_call(&key, &data, &mut sc, &mut caches, &mut sink);
    assert_eq!(sink.len(), 0);
    assert!(caches.get(0, key.loc().site()).is_some());
    assert!(caches.get(0, to_first.loc().site()).is_some());
    assert!(caches.get(1, to_second.loc().site()).is_some());
    assert!(caches.get(1, key.loc().site()).is_none());
    assert!(caches.get(1, to_first.loc().site()).is_none());
    assert!(caches.get(0, to_second.loc().site()).is_none());
    assert_eq!(caches.get(0, to_first.loc().site()).unwrap().scopes(), Scopes::all());
    assert_eq!(sc.depth(), 0);
}

#[test]
fn a_walk_leaves_the_active_set_narrowed_to_the_lists_input_types() {
    let data = s_data();
    let mut sink = Sink::new();
    let mut caches = data.new_caches();
    // Character or province: the list of vassals asks for a character.
    let mut sc = ScopeContext::new_unrooted(s_scopes(SCOPE_CHARACTER | SCOPE_PROVINCE), s_tok("root", 1));
    let walk = BV::Block(s_block(vec![s_blk("every_vassal", vec![s_val("add", "1", 3)], 2)], 1));
    let state = ScriptValue::validate_bv(&walk, &data, &mut sc, &mut caches, &mut sink);
    assert_eq!(state, TriBool::Maybe);
    assert_eq!(sink.len(), 0);
    assert_eq!(sc.scopes(), s_scopes(SCOPE_CHARACTER));
    assert_eq!(sc.depth(), 0);
    // A province alone has no vassals: the set stays, and the mismatch is reported at the key.
    let mut province = ScopeContext::new_unrooted(s_scopes(SCOPE_PROVINCE), s_tok("root", 1));
    let _ = ScriptValue::validate_bv(&walk, &data, &mut province, &mut caches, &mut sink);
    assert_eq!(province.scopes(), s_scopes(SCOPE_PROVINCE));
    assert_eq!(province.depth(), 0);
    assert!(sink.len() >= 1);
    assert_eq!(sink.get(0).key, ErrorKey::Scopes);
    assert_eq!(sink.get(0).loc.line, 2);
    // Two walks in a row whose input types each fit alone, but not one after the other.
    let mut both = ScopeContext::new_unrooted(s_scopes(SCOPE_CHARACTER | SCOPE_FAITH), s_tok("root", 1));
    let two = BV::Block(s_block(
        vec![
            s_blk("every_vassal", vec![s_val("add", "1", 3)], 2),
            s_blk("random_faith_holy_order", vec![s_val("add", "1", 5)], 4),
        ],
        1,
    ));
    let mut sink2 = Sink::new();
    let _ = ScriptValue::validate_bv(&two, &data, &mut both, &mut caches, &mut sink2);
    assert_eq!(both.scopes(), s_scopes(SCOPE_CHARACTER));
    assert_eq!(sink2.len(), 1);
    assert_eq!(sink2.get(0).key, ErrorKey::Scopes);
    assert_eq!(sink2.get(0).loc.line, 4);
    // A chain as a key leaves the context as it was.
    let mut chained = ScopeContext::new_unrooted(s_scopes(SCOPE_CHARACTER | SCOPE_PROVINCE), s_tok("root", 1));
    let chain = BV::Block(s_block(vec![s_blk("liege", vec![s_val("add", "1", 3)], 2)], 1));
    let mut sink3 = Sink::new();
    let _ = ScriptValue::validate_bv(&chain, &data, &mut chained, &mut caches, &mut sink3);
    assert_eq!(chained.scopes(), s_scopes(SCOPE_CHARACTER | SCOPE_PROVINCE));
    assert_eq!(chained.depth(), 0);
}
