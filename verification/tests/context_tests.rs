use scriptlint::catalog::{scope_from_snake_case, Arg, Catalog};
use scriptlint::chain::validate_scope_chain;
use scriptlint::context::ScopeContext;
use scriptlint::everything::Everything;
use scriptlint::report::{ErrorKey, Severity, Sink};
use scriptlint::scopes::{
    Scopes, SCOPE_ALL, SCOPE_CHARACTER, SCOPE_CULTURE, SCOPE_FAITH, SCOPE_LANDED_TITLE, SCOPE_PROVINCE,
    SCOPE_VALUE,
};
use scriptlint::token::{FileKind, Loc, Token};

fn c_tok(s: &str, column: u32) -> Token {
    Token::new(s, Loc { idx: 0, kind: FileKind::Mod, line: 1, column, link: None })
}

fn c_scopes(bits: u64) -> Scopes {
    Scopes { bits }
}

#[test]
fn scopes_set_operations() {
    let a = c_scopes(SCOPE_CHARACTER | SCOPE_PROVINCE);
    let b = c_scopes(SCOPE_PROVINCE | SCOPE_CULTURE);
    assert_eq!(a.intersection(b), c_scopes(SCOPE_PROVINCE));
    assert_eq!(a.union(b), c_scopes(SCOPE_CHARACTER | SCOPE_PROVINCE | SCOPE_CULTURE));
    assert!(a.intersects(b));
    assert!(!a.intersects(c_scopes(SCOPE_FAITH)));
    assert!(Scopes::empty().is_empty());
    assert!(!Scopes::all().is_empty());
    assert_eq!(Scopes::all().bits, SCOPE_ALL);
    assert_eq!(Scopes::from_bits(u64::MAX), Scopes::all());
    assert_eq!(Scopes::from_bits(SCOPE_FAITH), c_scopes(SCOPE_FAITH));
}

#[test]
fn scope_names_are_known() {
    assert_eq!(scope_from_snake_case("character"), Some(c_scopes(SCOPE_CHARACTER)));
    assert_eq!(scope_from_snake_case("landed_title"), Some(c_scopes(SCOPE_LANDED_TITLE)));
    assert_eq!(scope_from_snake_case("value"), Some(c_scopes(SCOPE_VALUE)));
    assert_eq!(scope_from_snake_case("Character"), None);
    assert_eq!(scope_from_snake_case(""), None);
    assert_eq!(scope_from_snake_case("all"), None);
}

#[test]
fn expect_narrows_to_the_intersection() {
    let mut sink = Sink::new();
    let mut sc = ScopeContext::new(c_scopes(SCOPE_CHARACTER | SCOPE_PROVINCE | SCOPE_CULTURE), c_tok("root", 1));
    sc.expect(c_scopes(SCOPE_PROVINCE | SCOPE_CULTURE | SCOPE_FAITH), &c_tok("x", 5), &mut sink);
    assert_eq!(sc.scopes(), c_scopes(SCOPE_PROVINCE | SCOPE_CULTURE));
    assert_eq!(sink.len(), 0);
}

#[test]
fn expect_reports_a_mismatch_and_changes_nothing() {
    let mut sink = Sink::new();
    let mut sc = ScopeContext::new(c_scopes(SCOPE_CHARACTER), c_tok("root", 1));
    sc.expect(c_scopes(SCOPE_PROVINCE), &c_tok("county", 7), &mut sink);
    assert_eq!(sc.scopes(), c_scopes(SCOPE_CHARACTER));
    assert_eq!(sink.len(), 1);
    assert_eq!(sink.get(0).key, ErrorKey::Scopes);
    assert_eq!(sink.get(0).severity, Severity::Warning);
    assert_eq!(sink.get(0).loc.column, 7);
    assert_eq!(sink.get(0).msg, "`county` does not fit the scope types that are possible here");
}

#[test]
fn expect_in_a_lenient_context_only_advises() {
    let mut sink = Sink::new();
    let mut sc = ScopeContext::new(c_scopes(SCOPE_CHARACTER), c_tok("root", 1));
    sc.set_strict_scopes(false);
    assert!(!sc.is_strict());
    sc.expect(c_scopes(SCOPE_PROVINCE), &c_tok("county", 7), &mut sink);
    assert_eq!(sink.len(), 1);
    assert_eq!(sink.get(0).severity, Severity::Advice);
}

#[test]
fn expect_twice_detects_the_second_mismatch() {
    let mut sink = Sink::new();
    let mut sc = ScopeContext::new(c_scopes(SCOPE_CHARACTER | SCOPE_PROVINCE), c_tok("root", 1));
    sc.expect(c_scopes(SCOPE_CHARACTER | SCOPE_FAITH), &c_tok("a", 3), &mut sink);
    assert_eq!(sink.len(), 0);
    assert_eq!(sc.scopes(), c_scopes(SCOPE_CHARACTER));
    sc.expect(c_scopes(SCOPE_PROVINCE | SCOPE_CULTURE), &c_tok("b", 9), &mut sink);
    assert_eq!(sink.len(), 1);
    assert_eq!(sink.get(0).loc.column, 9);
    assert_eq!(sc.scopes(), c_scopes(SCOPE_CHARACTER));
}

#[test]
fn open_and_close_restore_the_scope_and_forget_names() {
    let mut sc = ScopeContext::new(c_scopes(SCOPE_CHARACTER), c_tok("root", 1));
    sc.save_current_scope(&c_tok("outer", 2));
    assert_eq!(sc.depth(), 0);
    sc.open_scope(c_scopes(SCOPE_PROVINCE), &c_tok("capital_province", 3));
    assert_eq!(sc.depth(), 1);
    assert_eq!(sc.scopes(), c_scopes(SCOPE_PROVINCE));
    assert_eq!(sc.prev_scopes(), c_scopes(SCOPE_CHARACTER));
    sc.save_current_scope(&c_tok("inner", 4));
    assert_eq!(sc.scopes_of_name("inner"), Some(c_scopes(SCOPE_PROVINCE)));
    assert_eq!(sc.scopes_of_name("outer"), Some(c_scopes(SCOPE_CHARACTER)));
    sc.close();
    assert_eq!(sc.depth(), 0);
    assert_eq!(sc.scopes(), c_scopes(SCOPE_CHARACTER));
    assert_eq!(sc.scopes_of_name("inner"), None);
    assert_eq!(sc.scopes_of_name("outer"), Some(c_scopes(SCOPE_CHARACTER)));
    assert_eq!(sc.prev_scopes(), Scopes::all());
}

#[test]
fn the_latest_binding_of_a_name_counts() {
    let mut sc = ScopeContext::new(c_scopes(SCOPE_CHARACTER), c_tok("root", 1));
    let at = c_tok("x", 2);
    sc.define_name("x", c_scopes(SCOPE_VALUE), at.loc());
    sc.define_name("y", c_scopes(SCOPE_FAITH), at.loc());
    sc.define_name("x", c_scopes(SCOPE_CULTURE), at.loc());
    assert_eq!(sc.scopes_of_name("x"), Some(c_scopes(SCOPE_CULTURE)));
    assert_eq!(sc.scopes_of_name("y"), Some(c_scopes(SCOPE_FAITH)));
    assert_eq!(sc.scopes_of_name("z"), None);
}

#[test]
fn a_builder_is_discarded_by_close() {
    let mut sc = ScopeContext::new(c_scopes(SCOPE_CHARACTER), c_tok("root", 1));
    sc.open_scope(c_scopes(SCOPE_FAITH), &c_tok("faith", 2));
    sc.open_builder();
    assert_eq!(sc.prev_scopes(), c_scopes(SCOPE_CHARACTER));
    sc.replace(c_scopes(SCOPE_PROVINCE));
    assert_eq!(sc.scopes(), c_scopes(SCOPE_PROVINCE));
    sc.finalize_builder();
    assert_eq!(sc.prev_scopes(), c_scopes(SCOPE_FAITH));
    sc.close();
    assert_eq!(sc.scopes(), c_scopes(SCOPE_FAITH));
    assert_eq!(sc.depth(), 1);
    sc.close();
    assert_eq!(sc.scopes(), c_scopes(SCOPE_CHARACTER));
}

#[test]
fn compatibility_is_an_intersection() {
    let mut sink = Sink::new();
    let caller = ScopeContext::new(c_scopes(SCOPE_CHARACTER | SCOPE_FAITH), c_tok("root", 1));
    let fits = ScopeContext::new_unrooted(c_scopes(SCOPE_FAITH | SCOPE_CULTURE), c_tok("v", 1));
    let not = ScopeContext::new_unrooted(c_scopes(SCOPE_PROVINCE), c_tok("w", 1));
    assert!(caller.expect_compatibility(&fits, &c_tok("v", 5), &mut sink));
    assert_eq!(sink.len(), 0);
    assert!(!caller.expect_compatibility(&not, &c_tok("w", 6), &mut sink));
    assert_eq!(sink.len(), 1);
    assert_eq!(sink.get(0).key, ErrorKey::Scopes);
    assert_eq!(sink.get(0).loc.column, 6);
    assert_eq!(sink.get(0).msg, "`w` expects scope types that are not possible here");
    assert_eq!(caller.scopes(), c_scopes(SCOPE_CHARACTER | SCOPE_FAITH));
    assert_eq!(not.scopes(), c_scopes(SCOPE_PROVINCE));
}

#[test]
fn context_clone_is_equal_in_content() {
    let mut sc = ScopeContext::new(c_scopes(SCOPE_CHARACTER), c_tok("root", 1));
    sc.save_current_scope(&c_tok("me", 2));
    sc.open_scope(c_scopes(SCOPE_FAITH), &c_tok("faith", 3));
    let copy = sc.clone();
    assert_eq!(copy.scopes(), c_scopes(SCOPE_FAITH));
    assert_eq!(copy.depth(), 1);
    assert_eq!(copy.scopes_of_name("me"), Some(c_scopes(SCOPE_CHARACTER)));
    assert_eq!(copy.root_scopes(), c_scopes(SCOPE_CHARACTER));
}

fn c_data() -> Everything {
    let mut catalog = Catalog::new();
    catalog.add_transition("liege", c_scopes(SCOPE_CHARACTER), c_scopes(SCOPE_CHARACTER));
    catalog.add_transition("primary_title", c_scopes(SCOPE_CHARACTER), c_scopes(SCOPE_LANDED_TITLE));
    catalog.add_transition("faith", c_scopes(SCOPE_CHARACTER | SCOPE_PROVINCE), c_scopes(SCOPE_FAITH));
    catalog.add_iterator("vassal", c_scopes(SCOPE_CHARACTER), c_scopes(SCOPE_CHARACTER));
    catalog.add_trigger("is_ai", c_scopes(SCOPE_CHARACTER), Arg::Bool);
    Everything::new(catalog)
}

#[test]
fn catalog_lookup_finds_the_first_rule() {
    let mut catalog = Catalog::new();
    catalog.add_iterator("vassal", c_scopes(SCOPE_CHARACTER), c_scopes(SCOPE_CHARACTER));
    catalog.add_iterator("vassal", c_scopes(SCOPE_FAITH), c_scopes(SCOPE_FAITH));
    catalog.add_effect("add_gold", c_scopes(SCOPE_CHARACTER), Arg::Value);
    assert_eq!(catalog.iterator("vassal"), Some((c_scopes(SCOPE_CHARACTER), c_scopes(SCOPE_CHARACTER))));
    assert_eq!(catalog.iterator("courtier"), None);
    assert_eq!(catalog.transition("vassal"), None);
    assert_eq!(catalog.effect("add_gold"), Some((c_scopes(SCOPE_CHARACTER), Arg::Value)));
    assert_eq!(catalog.trigger("add_gold"), None);
}

#[test]
fn a_chain_leads_to_the_last_scope() {
    let data = c_data();
    let mut sink = Sink::new();
    let mut sc = ScopeContext::new(c_scopes(SCOPE_CHARACTER), c_tok("root", 1));
    sc.open_builder();
    assert!(validate_scope_chain(&c_tok("liege.primary_title", 4), &data, &mut sc, false, &mut sink));
    assert_eq!(sc.scopes(), c_scopes(SCOPE_LANDED_TITLE));
    assert_eq!(sink.len(), 0);
    sc.close();
    assert_eq!(sc.scopes(), c_scopes(SCOPE_CHARACTER));
}

#[test]
fn a_chain_with_an_unknown_part_fails() {
    let data = c_data();
    let mut sink = Sink::new();
    let mut sc = ScopeContext::new(c_scopes(SCOPE_CHARACTER), c_tok("root", 1));
    sc.open_builder();
    assert!(!validate_scope_chain(&c_tok("liege.nonsense.faith", 4), &data, &mut sc, false, &mut sink));
    assert_eq!(sink.len(), 1);
    assert_eq!(sink.get(0).key, ErrorKey::Validation);
    assert_eq!(sink.get(0).msg, "unknown token `nonsense`");
    assert_eq!(sink.get(0).loc.column, 10);
    sc.close();
    assert_eq!(sc.scopes(), c_scopes(SCOPE_CHARACTER));
}

#[test]
fn a_chain_step_from_the_wrong_scope_is_reported() {
    let data = c_data();
    let mut sink = Sink::new();
    let mut sc = ScopeContext::new(c_scopes(SCOPE_CHARACTER), c_tok("root", 1));
    sc.open_builder();
    assert!(validate_scope_chain(&c_tok("primary_title.liege", 4), &data, &mut sc, false, &mut sink));
    assert_eq!(sink.len(), 1);
    assert_eq!(sink.get(0).key, ErrorKey::Scopes);
    assert_eq!(sc.scopes(), c_scopes(SCOPE_CHARACTER));
    sc.close();
}

#[test]
fn a_chain_knows_root_this_prev_and_saved_names() {
    let data = c_data();
    let mut sink = Sink::new();
    let mut sc = ScopeContext::new(c_scopes(SCOPE_PROVINCE), c_tok("root", 1));
    sc.define_name("target", c_scopes(SCOPE_CHARACTER), c_tok("target", 2).loc());
    sc.open_scope(c_scopes(SCOPE_FAITH), &c_tok("faith", 3));
    sc.open_builder();
    assert!(validate_scope_chain(&c_tok("root", 4), &data, &mut sc, false, &mut sink));
    assert_eq!(sc.scopes(), c_scopes(SCOPE_PROVINCE));
    assert!(validate_scope_chain(&c_tok("this", 4), &data, &mut sc, false, &mut sink));
    assert_eq!(sc.scopes(), c_scopes(SCOPE_PROVINCE));
    assert!(validate_scope_chain(&c_tok("prev", 4), &data, &mut sc, false, &mut sink));
    assert_eq!(sc.scopes(), c_scopes(SCOPE_PROVINCE));
    assert!(validate_scope_chain(&c_tok("scope:target.liege", 4), &data, &mut sc, false, &mut sink));
    assert_eq!(sc.scopes(), c_scopes(SCOPE_CHARACTER));
    assert_eq!(sink.len(), 0);
    assert!(validate_scope_chain(&c_tok("scope:unsaved", 4), &data, &mut sc, false, &mut sink));
    assert_eq!(sc.scopes(), Scopes::all());
    assert_eq!(sink.len(), 1);
    assert_eq!(sink.get(0).msg, "scope name `unsaved` was not saved before");
    assert!(validate_scope_chain(&c_tok("scope:unsaved", 4), &data, &mut sc, true, &mut sink));
    assert_eq!(sink.len(), 1);
    sc.close();
    sc.close();
    assert_eq!(sc.scopes(), c_scopes(SCOPE_PROVINCE));
}
