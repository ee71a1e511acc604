use scriptlint::block::{Block, BlockItem, Comparator, BV};
use scriptlint::cache::{Caches, SiteCache};
use scriptlint::catalog::{Arg, Catalog};
use scriptlint::context::ScopeContext;
use scriptlint::data::character_templates::CharacterTemplate;
use scriptlint::data::regions::Region;
use scriptlint::db::{Db, DbKind};
use scriptlint::everything::Everything;
use scriptlint::index::{NameIndex, SiteIndex};
use scriptlint::item::Item;
use scriptlint::modif::{
    modif, validate_modifs, ModifKinds, ModifShape, MODIF_CHARACTER, MODIF_COUNT, MODIF_COUNTY, MODIF_CULTURE,
    MODIF_PROVINCE, MODIF_SCHEME, MODIF_TERRAIN,
};
use scriptlint::report::{ErrorKey, Severity, Sink};
use scriptlint::scopes::{Scopes, SCOPE_CHARACTER, SCOPE_CULTURE, SCOPE_FAITH, SCOPE_PROVINCE};
use scriptlint::token::{FileKind, Loc, Token};
use scriptlint::validate::validate_color;
use scriptlint::validator::Validator;

fn r_loc(line: u32, column: u32) -> Loc {
    Loc { idx: 0, kind: FileKind::Mod, line, column, link: None }
}

fn r_tok(s: &str, line: u32) -> Token {
    Token::new(s, r_loc(line, 1))
}

fn r_val(key: &str, value: &str, line: u32) -> BlockItem {
    BlockItem::Field(r_tok(key, line), Comparator::Eq, BV::Value(Token::new(value, r_loc(line, 40))))
}

fn r_blk(key: &str, items: Vec<BlockItem>, line: u32) -> BlockItem {
    BlockItem::Field(r_tok(key, line), Comparator::Eq, BV::Block(r_block(items, line)))
}

fn r_block(items: Vec<BlockItem>, line: u32) -> Block {
    Block { items, loc: r_loc(line, 60) }
}

fn r_words(words: &[&str], line: u32) -> Vec<BlockItem> {
    words.iter().map(|w| BlockItem::Keyword(r_tok(w, line))).collect()
}

fn r_scopes(bits: u64) -> Scopes {
    Scopes { bits }
}

#[test]
fn name_index_maps_kind_and_name() {
    let mut index = NameIndex::new();
    assert_eq!(index.get(1, "a"), None);
    assert_eq!(index.insert(1, "a", 7), None);
    assert_eq!(index.insert(2, "a", 8), None);
    assert_eq!(index.insert(1, "b", 9), None);
    assert_eq!(index.get(1, "a"), Some(7));
    assert_eq!(index.get(2, "a"), Some(8));
    assert_eq!(index.get(1, "b"), Some(9));
    assert_eq!(index.get(2, "b"), None);
    assert_eq!(index.insert(1, "a", 10), Some(7));
    assert_eq!(index.get(1, "a"), Some(10));
}

#[test]
fn site_index_maps_sites() {
    let mut index = SiteIndex::new();
    assert_eq!(index.get((1, 2, 3)), None);
    assert_eq!(index.insert((1, 2, 3), 4), None);
    assert_eq!(index.insert((1, 2, 4), 5), None);
    assert_eq!(index.get((1, 2, 3)), Some(4));
    assert_eq!(index.get((1, 2, 4)), Some(5));
    assert_eq!(index.get((3, 2, 1)), None);
    assert_eq!(index.insert((1, 2, 3), 6), Some(4));
    assert_eq!(index.get((1, 2, 3)), Some(6));
}

#[test]
fn site_cache_keeps_one_context_per_site() {
    let mut cache = SiteCache::new();
    assert!(cache.get((0, 1, 1)).is_none());
    cache.put((0, 1, 1), ScopeContext::new_unrooted(r_scopes(SCOPE_FAITH), r_tok("a", 1)));
    cache.put((0, 2, 1), ScopeContext::new_unrooted(r_scopes(SCOPE_CULTURE), r_tok("b", 1)));
    assert_eq!(cache.get((0, 1, 1)).unwrap().scopes(), r_scopes(SCOPE_FAITH));
    assert_eq!(cache.get((0, 2, 1)).unwrap().scopes(), r_scopes(SCOPE_CULTURE));
    cache.put((0, 1, 1), ScopeContext::new_unrooted(r_scopes(SCOPE_PROVINCE), r_tok("c", 1)));
    assert_eq!(cache.get((0, 1, 1)).unwrap().scopes(), r_scopes(SCOPE_PROVINCE));
    assert_eq!(cache.get((0, 2, 1)).unwrap().scopes(), r_scopes(SCOPE_CULTURE));
    assert!(cache.get((0, 3, 1)).is_none());
}

#[test]
fn caches_are_kept_apart_by_definition() {
    let mut caches = Caches::new(2);
    assert_eq!(caches.len(), 2);
    caches.put(1, (0, 1, 1), ScopeContext::new_unrooted(r_scopes(SCOPE_FAITH), r_tok("a", 1)));
    assert!(caches.get(0, (0, 1, 1)).is_none());
    assert_eq!(caches.get(1, (0, 1, 1)).unwrap().scopes(), r_scopes(SCOPE_FAITH));
}

#[test]
fn db_stores_by_kind_and_name() {
    let mut db = Db::new();
    let mut sink = Sink::new();
    assert!(!db.is_defined(Item::Trait, "brave"));
    db.add(Item::Trait, r_tok("brave", 1), r_block(vec![], 1), DbKind::Plain, &mut sink);
    db.add(Item::Culture, r_tok("brave", 2), r_block(vec![], 2), DbKind::Plain, &mut sink);
    db.add(Item::Trait, r_tok("craven", 3), r_block(vec![], 3), DbKind::Plain, &mut sink);
    assert_eq!(sink.len(), 0);
    assert_eq!(db.len(), 3);
    assert!(db.is_defined(Item::Trait, "brave"));
    assert!(db.is_defined(Item::Culture, "brave"));
    assert!(!db.is_defined(Item::Faith, "brave"));
    assert!(!db.is_defined(Item::Culture, "craven"));
    assert_eq!(db.find(Item::Trait, "craven"), Some(2));
    assert_eq!(db.get(Item::Culture, "brave").unwrap().key.loc().line, 2);
    assert_eq!(db.entry(0).kind, Item::Trait);
    assert!(db.get(Item::Faith, "brave").is_none());
}

#[test]
fn db_reports_duplicates_of_the_same_precedence() {
    let mut db = Db::new();
    let mut sink = Sink::new();
    db.add(Item::Trait, r_tok("brave", 1), r_block(vec![], 1), DbKind::Plain, &mut sink);
    db.add(Item::Trait, r_tok("brave", 5), r_block(vec![], 5), DbKind::Plain, &mut sink);
    assert_eq!(db.len(), 1);
    assert_eq!(db.entry(0).key.loc().line, 5);
    assert_eq!(sink.len(), 2);
    assert_eq!(sink.get(0).key, ErrorKey::Duplicate);
    assert_eq!(sink.get(0).severity, Severity::Error);
    assert_eq!(sink.get(0).msg, "trait is redefined by another trait");
    assert_eq!(sink.get(0).loc.line, 5);
    assert_eq!(sink.get(1).severity, Severity::Info);
    assert_eq!(sink.get(1).msg, "the other trait is here");
    assert_eq!(sink.get(1).loc.line, 1);
}

#[test]
fn db_lets_a_mod_override_in_silence() {
    let mut db = Db::new();
    let mut sink = Sink::new();
    let vanilla = Token::new("brave", Loc { idx: 0, kind: FileKind::Vanilla, line: 1, column: 1, link: None });
    db.add(Item::Trait, vanilla.clone(), r_block(vec![], 1), DbKind::Plain, &mut sink);
    db.add(Item::Trait, r_tok("brave", 5), r_block(vec![], 5), DbKind::Plain, &mut sink);
    assert_eq!(sink.len(), 0);
    db.add(Item::Trait, vanilla, r_block(vec![], 1), DbKind::Plain, &mut sink);
    assert_eq!(sink.len(), 2);
}

#[test]
fn items_have_paths_names_and_ordinals() {
    assert_eq!(Item::Decision.path(), "common/decisions/");
    assert_eq!(Item::ScriptValue.path(), "common/script_values/");
    assert_eq!(Item::Province.path(), "map_data/definition.csv");
    assert_eq!(Item::File.path(), "");
    assert_eq!(Item::ScriptedEffect.name(), "effect");
    assert_eq!(Item::MenAtArms.name(), "men at arms");
    assert_eq!(Item::Amenity.ordinal(), 0);
    assert_ne!(Item::Trait.ordinal(), Item::Tradition.ordinal());
}

#[test]
fn missing_items_are_reported() {
    let mut data = Everything::new(Catalog::new());
    let mut sink = Sink::new();
    data.db.add(Item::Trait, r_tok("brave", 1), r_block(vec![], 1), DbKind::Plain, &mut sink);
    assert!(data.item_exists(Item::Trait, "brave"));
    assert!(!data.item_exists(Item::Trait, "craven"));
    assert!(!data.item_exists(Item::ScriptValue, "brave"));
    assert!(data.verify_exists(Item::Trait, &r_tok("brave", 3), &mut sink));
    assert_eq!(sink.len(), 0);
    assert!(!data.verify_exists(Item::Trait, &r_tok("craven", 4), &mut sink));
    assert!(!data.verify_exists_implied(Item::Localization, "brave_desc", &r_tok("brave", 5), &mut sink));
    assert_eq!(sink.len(), 2);
    assert_eq!(sink.get(0).msg, "trait craven not defined in common/traits/");
    assert_eq!(sink.get(0).loc.line, 4);
    assert_eq!(sink.get(1).msg, "localization brave_desc not defined in localization/");
    assert_eq!(sink.get(1).loc.line, 5);
    assert_eq!(sink.get(1).key, ErrorKey::MissingItem);
}

fn r_data() -> Everything {
    let mut catalog = Catalog::new();
    catalog.add_transition("liege", r_scopes(SCOPE_CHARACTER), r_scopes(SCOPE_CHARACTER));
    catalog.add_transition("culture", r_scopes(SCOPE_CHARACTER), r_scopes(SCOPE_CULTURE));
    catalog.add_transition("faith", r_scopes(SCOPE_CHARACTER), r_scopes(SCOPE_FAITH));
    catalog.add_trigger("is_ai", r_scopes(SCOPE_CHARACTER), Arg::Bool);
    catalog.add_effect("add_gold", r_scopes(SCOPE_CHARACTER), Arg::Value);
    catalog.add_effect("set_faith", r_scopes(SCOPE_CHARACTER), Arg::Target(r_scopes(SCOPE_FAITH)));
    let mut data = Everything::new(catalog);
    let mut sink = Sink::new();
    for (kind, name) in [
        (Item::Trait, "brave"),
        (Item::Localization, "template_name"),
        (Item::Area, "north"),
        (Item::Area, "south"),
        (Item::Terrain, "hills"),
        (Item::Faith, "old_ways"),
        (Item::Religion, "paganism"),
        (Item::Lifestyle, "martial_lifestyle"),
    ] {
        data.db.add(kind, r_tok(name, 900), r_block(vec![], 900), DbKind::Plain, &mut sink);
    }
    assert_eq!(sink.len(), 0);
    data
}

#[test]
fn a_character_template_is_validated() {
    let mut data = r_data();
    let mut sink = Sink::new();
    let block = r_block(
        vec![
            r_val("name", "template_name", 2),
            r_val("age", "30", 3),
            r_val("gender", "female", 4),
            r_val("trait", "brave", 5),
            r_val("trait", "craven", 6),
            r_blk("random_traits_list", vec![r_val("count", "1", 7), r_blk("brave", vec![], 8), r_blk("shy", vec![], 9)], 7),
            r_val("random_traits", "no", 10),
            r_val("culture", "liege.culture", 11),
            r_val("faith", "liege.culture", 12),
            r_val("martial", "high", 13),
            r_val("dynasty", "invent", 14),
            r_blk("after_creation", vec![r_val("add_gold", "5", 15), r_val("set_faith", "liege.faith", 16)], 15),
        ],
        1,
    );
    CharacterTemplate::add(&mut data.db, r_tok("my_template", 1), block, &mut sink);
    assert_eq!(sink.len(), 0);
    assert!(data.item_exists(Item::CharacterTemplate, "my_template"));
    let mut caches = data.new_caches();
    data.validate_all(&mut caches, &mut sink);
    let msgs: Vec<String> = (0..sink.len()).map(|i| sink.get(i).msg.clone()).collect();
    assert_eq!(
        msgs,
        vec![
            "trait craven not defined in common/traits/".to_string(),
            "trait shy not defined in common/traits/".to_string(),
            "the target does not have a scope type that fits here".to_string(),
            "unknown token `high`".to_string(),
            "expected one of the allowed values".to_string(),
        ]
    );
    assert_eq!(sink.get(2).loc.line, 12);
}

#[test]
fn a_character_template_is_validated_in_the_callers_context() {
    let data = r_data();
    let mut sink = Sink::new();
    let mut caches = data.new_caches();
    let mut sc = ScopeContext::new(r_scopes(SCOPE_PROVINCE), r_tok("root", 1));
    let block = r_block(vec![r_val("culture", "liege.culture", 11)], 1);
    let key = r_tok("t", 1);
    CharacterTemplate {}.validate_call(&key, &block, &key, &data, &mut sc, &mut caches, &mut sink);
    assert_eq!(sink.len(), 1);
    assert_eq!(sink.get(0).key, ErrorKey::Scopes);
    assert_eq!(sc.scopes(), r_scopes(SCOPE_PROVINCE));
    assert_eq!(sc.depth(), 0);
    let mut sink2 = Sink::new();
    CharacterTemplate {}.validate(&key, &block, &data, &mut caches, &mut sink2);
    assert_eq!(sink2.len(), 0);
}

#[test]
fn a_region_is_validated() {
    let mut data = r_data();
    let mut sink = Sink::new();
    let block = r_block(
        vec![
            r_blk("color", r_words(&["0.5", "0.2", "red"], 2), 2),
            r_blk("areas", r_words(&["north", "west", "south"], 3), 3),
        ],
        1,
    );
    Region::add(&mut data.db, r_tok("my_region", 1), block, &mut sink);
    assert!(data.item_exists(Item::Region, "my_region"));
    let mut caches = data.new_caches();
    data.validate_all(&mut caches, &mut sink);
    assert_eq!(sink.len(), 2);
    assert_eq!(sink.get(0).msg, "expected number");
    assert_eq!(sink.get(1).msg, "area west not defined in map_data/areas.txt");
    assert_eq!(sink.get(1).key, ErrorKey::MissingItem);
}

#[test]
fn a_color_has_three_or_four_numbers() {
    let data = r_data();
    let mut sink = Sink::new();
    validate_color(&r_block(r_words(&["1", "2", "3"], 1), 1), &data, &mut sink);
    validate_color(&r_block(r_words(&["hsv", "0.1", "0.2", "0.3"], 1), 1), &data, &mut sink);
    validate_color(&r_block(r_words(&["rgb", "1", "2", "3", "4"], 1), 1), &data, &mut sink);
    assert_eq!(sink.len(), 0);
    validate_color(&r_block(r_words(&["1", "2"], 1), 1), &data, &mut sink);
    assert_eq!(sink.len(), 1);
    assert_eq!(sink.get(0).msg, "expected 3 or 4 color values");
    validate_color(&r_block(r_words(&["1", "2", "3", "4", "5"], 1), 1), &data, &mut sink);
    assert_eq!(sink.len(), 2);
}

#[test]
fn the_table_of_modifiers_has_its_rows() {
    assert_eq!(MODIF_COUNT, 363);
    assert!(modif(MODIF_COUNT).is_none());
    let first = modif(0).unwrap();
    assert_eq!(first.name, "hostile_scheme_power_add");
    assert_eq!(first.kinds.bits, MODIF_CHARACTER);
    assert_eq!(first.shape, ModifShape::Numeric);
    let last = modif(MODIF_COUNT - 1).unwrap();
    assert_eq!(last.name, "scheme_success_chance");
    assert_eq!(last.kinds.bits, MODIF_SCHEME);
    let mut names = std::collections::HashMap::new();
    for i in 0..MODIF_COUNT {
        let m = modif(i).unwrap();
        names.insert(m.name, (m.kinds.bits, m.shape));
    }
    assert_eq!(names["ai_boldness"], (MODIF_CHARACTER, ModifShape::ScriptValue));
    assert_eq!(names["no_disembark_penalty"], (MODIF_CHARACTER, ModifShape::Bool));
    assert_eq!(names["county_opinion_add"], (MODIF_CHARACTER | MODIF_COUNTY, ModifShape::Numeric));
    assert_eq!(names["monthly_income"], (MODIF_CHARACTER | MODIF_PROVINCE, ModifShape::Numeric));
    assert_eq!(names["counter_efficiency"], (MODIF_CHARACTER | MODIF_TERRAIN, ModifShape::Numeric));
    assert_eq!(names["build_speed"], (MODIF_CHARACTER | MODIF_COUNTY | MODIF_PROVINCE, ModifShape::Numeric));
    assert_eq!(names["mercenary_count_mult"], (MODIF_CULTURE, ModifShape::Numeric));
    assert_eq!(names["supply_loss_winter"], (MODIF_PROVINCE, ModifShape::Numeric));
    let kinds = ModifKinds { bits: MODIF_COUNTY }.union(ModifKinds { bits: MODIF_SCHEME });
    assert!(kinds.intersects(ModifKinds { bits: MODIF_SCHEME | MODIF_CULTURE }));
    assert!(!kinds.intersects(ModifKinds { bits: MODIF_CHARACTER }));
}

#[test]
fn modifiers_of_a_character_are_claimed_and_checked() {
    let data = r_data();
    let mut sink = Sink::new();
    let mut caches = data.new_caches();
    let block = r_block(
        vec![
            r_val("diplomacy", "2", 2),
            r_val("monthly_income", "abc", 3),
            r_val("no_disembark_penalty", "perhaps", 4),
            r_val("ai_boldness", "10", 5),
            r_val("hills_advantage", "5", 6),
            r_val("old_ways_opinion", "5", 7),
            r_val("paganism_opinion", "5", 8),
            r_val("monthly_martial_lifestyle_xp_gain_mult", "0.1", 9),
            r_val("hills_tax_mult", "0.1", 10),
            r_val("scheme_power", "1", 11),
            r_val("swamp_advantage", "1", 12),
        ],
        1,
    );
    let mut vd = Validator::new(&block, &data);
    validate_modifs(&block, &data, ModifKinds { bits: MODIF_CHARACTER }, &mut vd, &mut caches, &mut sink);
    assert_eq!(sink.len(), 2);
    assert_eq!(sink.get(0).msg, "expected yes or no");
    assert_eq!(sink.get(1).msg, "expected number");
    vd.finish(&mut sink);
    assert_eq!(sink.len(), 4);
    assert_eq!(sink.get(2).msg, "unknown field `scheme_power`");
    assert_eq!(sink.get(3).msg, "unknown field `swamp_advantage`");
}

#[test]
fn modifiers_of_a_scheme_are_few() {
    let data = r_data();
    let mut sink = Sink::new();
    let mut caches = data.new_caches();
    let block = r_block(vec![r_val("scheme_power", "1", 2), r_val("diplomacy", "2", 3), r_val("hills_tax_mult", "1", 4)], 1);
    let mut vd = Validator::new(&block, &data);
    validate_modifs(&block, &data, ModifKinds { bits: MODIF_SCHEME }, &mut vd, &mut caches, &mut sink);
    assert_eq!(sink.len(), 0);
    let remaining = vd.unknown_fields();
    assert_eq!(remaining.len(), 2);
    assert!(remaining[0].0.is("diplomacy"));
    assert!(remaining[1].0.is("hills_tax_mult"));
    let mut vd2 = Validator::new(&block, &data);
    validate_modifs(&block, &data, ModifKinds { bits: MODIF_PROVINCE }, &mut vd2, &mut caches, &mut sink);
    let remaining2 = vd2.unknown_fields();
    assert_eq!(remaining2.len(), 2);
    assert!(remaining2[0].0.is("scheme_power"));
    assert!(remaining2[1].0.is("diplomacy"));
}

#[test]
fn a_region_has_no_field_but_color_and_areas() {
    let data = r_data();
    let mut sink = Sink::new();
    let mut areas = r_words(&["north"], 3);
    areas.push(r_val("extra", "1", 4));
    let block = r_block(
        vec![r_val("capital", "north", 2), r_blk("areas", areas, 3), r_blk("color", r_words(&["1", "2", "3"], 5), 5)],
        1,
    );
    Region {}.validate(&r_tok("my_region", 1), &block, &data, &mut sink);
    let msgs: Vec<String> = (0..sink.len()).map(|i| sink.get(i).msg.clone()).collect();
    assert_eq!(msgs, vec!["unknown field `extra`".to_string(), "unknown field `capital`".to_string()]);
    assert_eq!(sink.get(0).loc.line, 4);
    assert_eq!(sink.get(1).loc.line, 2);
}

#[test]
fn a_color_has_no_fields() {
    let data = r_data();
    let mut sink = Sink::new();
    let mut items = r_words(&["hsv360", "1", "2", "x"], 1);
    items.push(r_val("alpha", "1", 2));
    validate_color(&r_block(items, 1), &data, &mut sink);
    let msgs: Vec<String> = (0..sink.len()).map(|i| sink.get(i).msg.clone()).collect();
    assert_eq!(msgs, vec!["expected number".to_string(), "unknown field `alpha`".to_string()]);
    let mut sink2 = Sink::new();
    validate_color(&r_block(r_words(&["1", "rgb", "3"], 1), 1), &data, &mut sink2);
    assert_eq!(sink2.len(), 1);
    assert_eq!(sink2.get(0).msg, "expected number");
}

#[test]
fn a_character_template_has_no_other_fields() {
    let data = r_data();
    let mut sink = Sink::new();
    let mut caches = data.new_caches();
    let mut sc = ScopeContext::new(r_scopes(SCOPE_CHARACTER), r_tok("root", 1));
    let block = r_block(
        vec![r_val("nickname", "x", 2), r_val("age", "30", 3), r_val("age", "old", 4), r_val("height", "2", 5)],
        1,
    );
    let key = r_tok("t", 1);
    CharacterTemplate {}.validate_call(&key, &block, &key, &data, &mut sc, &mut caches, &mut sink);
    let msgs: Vec<String> = (0..sink.len()).map(|i| sink.get(i).msg.clone()).collect();
    assert_eq!(
        msgs,
        vec![
            "field is defined more than once".to_string(),
            "unknown token `old`".to_string(),
            "unknown field `nickname`".to_string(),
            "unknown field `height`".to_string(),
        ]
    );
    assert_eq!(sink.get(0).loc.line, 4);
    assert_eq!(sc.depth(), 0);
}

#[test]
fn the_entries_of_a_weighted_list_have_a_weight_and_a_trigger() {
    let data = r_data();
    let mut sink = Sink::new();
    let mut caches = data.new_caches();
    let mut sc = ScopeContext::new(r_scopes(SCOPE_CHARACTER), r_tok("root", 1));
    let entry = vec![
        r_blk("weight", vec![], 4),
        r_blk("trigger", vec![r_val("is_ai", "perhaps", 5)], 5),
        r_val("chance", "3", 6),
    ];
    let block = r_block(
        vec![r_blk("random_culture", vec![r_blk("liege.culture", entry, 3), r_val("liege.faith", "x", 7)], 2)],
        1,
    );
    let key = r_tok("t", 1);
    CharacterTemplate {}.validate_call(&key, &block, &key, &data, &mut sc, &mut caches, &mut sink);
    let lines: Vec<u32> = (0..sink.len()).map(|i| sink.get(i).loc.line).collect();
    assert_eq!(lines, vec![5, 6, 7, 7]);
    assert_eq!(sink.get(0).msg, "expected yes or no");
    assert_eq!(sink.get(1).msg, "unknown field `chance`");
    assert_eq!(sink.get(2).key, ErrorKey::Scopes);
    assert_eq!(sink.get(3).key, ErrorKey::Validation);
}

#[test]
fn the_fields_of_a_family_of_modifiers_are_checked_by_definition() {
    let data = r_data();
    let mut sink = Sink::new();
    let mut caches = data.new_caches();
    let block = r_block(
        vec![
            r_val("hills_advantage", "much", 2),
            r_val("old_ways_opinion", "5", 3),
            r_val("paganism_opinion", "5", 4),
            r_val("monthly_martial_lifestyle_xp_gain_mult", "0.1", 5),
            r_val("swamp_advantage", "1", 6),
        ],
        1,
    );
    let mut vd = Validator::new(&block, &data);
    validate_modifs(&block, &data, ModifKinds { bits: MODIF_CHARACTER }, &mut vd, &mut caches, &mut sink);
    assert_eq!(sink.len(), 1);
    assert_eq!(sink.get(0).msg, "expected number");
    assert_eq!(sink.get(0).loc.line, 2);
    vd.finish(&mut sink);
    assert_eq!(sink.len(), 2);
    assert_eq!(sink.get(1).msg, "unknown field `swamp_advantage`");
}
