use scriptlint::block::{Block, BlockItem, Comparator, Shape, BV};
use scriptlint::catalog::Catalog;
use scriptlint::db::DbKind;
use scriptlint::everything::Everything;
use scriptlint::item::Item;
use scriptlint::report::{ErrorKey, Severity, Sink};
use scriptlint::token::{FileKind, Loc, Token};
use scriptlint::validator::{FieldKind, Validator};

fn v_loc(line: u32, column: u32) -> Loc {
    Loc { idx: 0, kind: FileKind::Mod, line, column, link: None }
}

fn v_tok(s: &str, line: u32) -> Token {
    Token::new(s, v_loc(line, 1))
}

fn v_field(key: &str, value: &str, line: u32) -> BlockItem {
    BlockItem::Field(v_tok(key, line), Comparator::Eq, BV::Value(Token::new(value, v_loc(line, 20))))
}

fn v_block_field(key: &str, block: Block, line: u32) -> BlockItem {
    BlockItem::Field(v_tok(key, line), Comparator::Eq, BV::Block(block))
}

fn v_block(items: Vec<BlockItem>, line: u32) -> Block {
    Block { items, loc: v_loc(line, 30) }
}

fn v_data() -> Everything {
    let mut data = Everything::new(Catalog::new());
    let mut sink = Sink::new();
    data.db.add(Item::Trait, v_tok("brave", 100), v_block(vec![], 100), DbKind::Plain, &mut sink);
    data.db.add(Item::Localization, v_tok("some_key", 101), v_block(vec![], 101), DbKind::Plain, &mut sink);
    assert_eq!(sink.len(), 0);
    data
}

#[test]
fn block_builders_append_in_order() {
    let mut b = Block::new(v_loc(1, 1));
    b.add_keyword(v_tok("a", 1));
    b.add_field(v_tok("k", 2), Comparator::Ge, BV::Value(v_tok("v", 2)));
    b.add_block(Block::new(v_loc(3, 1)));
    assert_eq!(b.items.len(), 3);
    assert!(matches!(&b.items[0], BlockItem::Keyword(t) if t.is("a")));
    assert!(matches!(&b.items[1], BlockItem::Field(k, Comparator::Ge, BV::Value(v)) if k.is("k") && v.is("v")));
    assert!(matches!(&b.items[2], BlockItem::Block(_)));
}

#[test]
fn block_lookup_finds_the_last_field_of_the_shape() {
    let b = v_block(
        vec![
            v_field("a", "1", 1),
            v_block_field("a", v_block(vec![], 2), 2),
            v_field("a", "3", 3),
            v_field("b", "yes", 4),
            BlockItem::Keyword(v_tok("a", 5)),
        ],
        1,
    );
    assert_eq!(b.find_last("a", Shape::Any), Some(2));
    assert_eq!(b.find_last("a", Shape::Value), Some(2));
    assert_eq!(b.find_last("a", Shape::Block), Some(1));
    assert_eq!(b.find_last("c", Shape::Any), None);
    assert_eq!(b.find_all("a", Shape::Any), vec![0, 1, 2]);
    assert_eq!(b.find_all("a", Shape::Value), vec![0, 2]);
    assert_eq!(b.find_all("a", Shape::Block), vec![1]);
    assert!(b.has_key("b"));
    assert!(!b.has_key("c"));
    assert!(b.get_field_value("a").unwrap().is("3"));
    assert_eq!(b.get_field_block("a").unwrap().loc.line, 2);
    assert!(matches!(b.get_field("a"), Some(BV::Value(t)) if t.is("3")));
    assert_eq!(b.get_field_bool("b"), Some(true));
    assert_eq!(b.get_field_bool("a"), Some(false));
    assert_eq!(b.get_field_bool("c"), None);
    assert_eq!(b.get_field_blocks("a").len(), 1);
}

#[test]
fn bv_expectations_report_the_wrong_shape() {
    let mut sink = Sink::new();
    let value = BV::Value(v_tok("x", 4));
    let block = BV::Block(v_block(vec![], 5));
    assert!(value.expect_value(&mut sink).is_some());
    assert!(block.expect_block(&mut sink).is_some());
    assert_eq!(sink.len(), 0);
    assert!(value.expect_block(&mut sink).is_none());
    assert_eq!(sink.get(0).msg, "expected block, found value");
    assert_eq!(sink.get(0).loc.line, 4);
    assert!(block.expect_value(&mut sink).is_none());
    assert_eq!(sink.get(1).msg, "expected value, found block");
    assert_eq!(sink.get(1).loc.line, 5);
    assert_eq!(sink.get(1).key, ErrorKey::Validation);
    assert!(value.get_value().is_some());
    assert!(value.get_block().is_none());
    assert!(block.get_block().is_some());
    assert_eq!(block.loc().line, 5);
    assert_eq!(value.loc().line, 4);
}

#[test]
fn a_required_field_that_is_absent_gets_one_diagnostic() {
    let data = v_data();
    let mut sink = Sink::new();
    let b = v_block(vec![v_field("other", "1", 2)], 1);
    let mut vd = Validator::new(&b, &data);
    assert!(!vd.req_field("name", &mut sink));
    assert!(!vd.field_item("name", Item::Localization, &mut sink));
    assert_eq!(sink.len(), 1);
    assert_eq!(sink.get(0).key, ErrorKey::FieldMissing);
    assert_eq!(sink.get(0).severity, Severity::Error);
    assert_eq!(sink.get(0).msg, "required field `name` missing");
    assert_eq!(sink.get(0).loc.column, 30);
}

#[test]
fn a_required_field_of_the_wrong_shape_gets_a_validation_diagnostic() {
    let data = v_data();
    let mut sink = Sink::new();
    let b = v_block(vec![v_block_field("name", v_block(vec![], 2), 2)], 1);
    let mut vd = Validator::new(&b, &data);
    assert!(vd.req_field("name", &mut sink));
    assert!(vd.field_item("name", Item::Localization, &mut sink));
    assert_eq!(sink.len(), 1);
    assert_eq!(sink.get(0).key, ErrorKey::Validation);
    assert_eq!(sink.get(0).msg, "expected value, found block");
}

#[test]
fn req_field_warn_warns() {
    let data = v_data();
    let mut sink = Sink::new();
    let b = v_block(vec![], 1);
    let vd = Validator::new(&b, &data);
    assert!(!vd.req_field_warn("limit", &mut sink));
    assert_eq!(sink.get(0).severity, Severity::Warning);
    assert_eq!(sink.get(0).key, ErrorKey::FieldMissing);
}

#[test]
fn unclaimed_fields_get_one_diagnostic_each() {
    let data = v_data();
    let mut sink = Sink::new();
    let b = v_block(
        vec![
            v_field("known", "1", 1),
            v_field("mystery", "2", 2),
            BlockItem::Keyword(v_tok("loose", 3)),
            v_field("known", "3", 4),
            v_field("mystery", "4", 5),
            v_block_field("enigma", v_block(vec![], 6), 6),
        ],
        1,
    );
    let mut vd = Validator::new(&b, &data);
    vd.field_bvs("known", &mut sink);
    assert_eq!(sink.len(), 0);
    vd.finish(&mut sink);
    assert_eq!(sink.len(), 3);
    for i in 0..3 {
        assert_eq!(sink.get(i).key, ErrorKey::UnknownField);
        assert_eq!(sink.get(i).severity, Severity::Warning);
    }
    assert_eq!(sink.get(0).msg, "unknown field `mystery`");
    assert_eq!(sink.get(0).loc.line, 2);
    assert_eq!(sink.get(1).msg, "unknown field `mystery`");
    assert_eq!(sink.get(1).loc.line, 5);
    assert_eq!(sink.get(2).msg, "unknown field `enigma`");
    assert_eq!(sink.get(2).loc.line, 6);
}

#[test]
fn warn_remaining_says_whether_it_warned() {
    let data = v_data();
    let mut sink = Sink::new();
    let b = v_block(vec![v_field("a", "1", 1)], 1);
    let mut vd = Validator::new(&b, &data);
    assert!(vd.warn_remaining(&mut sink));
    assert_eq!(sink.len(), 1);
    vd.field("a", &mut sink);
    assert!(!vd.warn_remaining(&mut sink));
    assert_eq!(sink.len(), 1);
}

#[test]
fn a_field_that_may_stand_once_is_reported_when_it_stands_again() {
    let data = v_data();
    let mut sink = Sink::new();
    let b = v_block(vec![v_field("major", "yes", 1), v_field("major", "no", 2), v_field("major", "yes", 3)], 1);
    let mut vd = Validator::new(&b, &data);
    assert!(vd.field_bool("major", &mut sink));
    assert_eq!(sink.len(), 2);
    assert_eq!(sink.get(0).key, ErrorKey::Duplicate);
    assert_eq!(sink.get(0).loc.line, 2);
    assert_eq!(sink.get(1).loc.line, 3);
    assert!(!vd.warn_remaining(&mut sink));
}

#[test]
fn kinds_of_fields_are_checked() {
    let data = v_data();
    let mut sink = Sink::new();
    let b = v_block(
        vec![
            v_field("flag", "maybe", 1),
            v_field("count", "1.5", 2),
            v_field("ratio", "abc", 3),
            v_field("precise", "0.1234567", 4),
            v_field("trait", "brave", 5),
            v_field("trait", "craven", 6),
            v_field("body", "x", 7),
            v_field("choice", "c", 8),
            v_field("good", "yes", 9),
        ],
        1,
    );
    let mut vd = Validator::new(&b, &data);
    assert!(vd.field_bool("flag", &mut sink));
    assert_eq!(sink.len(), 1);
    assert_eq!(sink.get(0).msg, "expected yes or no");
    assert!(vd.field_integer("count", &mut sink));
    assert_eq!(sink.len(), 2);
    assert_eq!(sink.get(1).msg, "expected integer");
    assert!(vd.field_numeric("ratio", &mut sink));
    assert_eq!(sink.len(), 3);
    assert_eq!(sink.get(2).msg, "expected number");
    assert!(vd.field_numeric("precise", &mut sink));
    assert_eq!(sink.len(), 4);
    assert_eq!(sink.get(3).msg, "only 5 decimals are supported");
    assert!(vd.field_items("trait", Item::Trait, &mut sink));
    assert_eq!(sink.len(), 5);
    assert_eq!(sink.get(4).key, ErrorKey::MissingItem);
    assert_eq!(sink.get(4).msg, "trait craven not defined in common/traits/");
    assert_eq!(sink.get(4).loc.line, 6);
    assert!(vd.field_block("body", &mut sink).is_none());
    assert_eq!(sink.len(), 6);
    assert_eq!(sink.get(5).msg, "expected block, found value");
    let choices = vec!["a", "b"];
    assert!(vd.field_choice("choice", &choices, &mut sink));
    assert_eq!(sink.len(), 7);
    assert_eq!(sink.get(6).msg, "expected one of the allowed values");
    assert!(vd.field_bool("good", &mut sink));
    assert!(!vd.field_bool("absent", &mut sink));
    assert!(vd.check_fields("good", FieldKind::Any, false, &mut sink));
    assert_eq!(sink.len(), 7);
    assert!(!vd.warn_remaining(&mut sink));
}

#[test]
fn accessors_return_the_last_value() {
    let data = v_data();
    let mut sink = Sink::new();
    let b = v_block(
        vec![
            v_field("a", "1", 1),
            v_block_field("b", v_block(vec![], 2), 2),
            v_block_field("b", v_block(vec![], 3), 3),
            BlockItem::Keyword(v_tok("x", 4)),
            BlockItem::Keyword(v_tok("y", 5)),
        ],
        1,
    );
    let mut vd = Validator::new(&b, &data);
    assert!(vd.field_value("a", &mut sink).unwrap().is("1"));
    assert!(matches!(vd.field("a", &mut sink), Some(BV::Value(_))));
    assert_eq!(vd.field_blocks("b", &mut sink), vec![1, 2]);
    assert_eq!(sink.len(), 0);
    assert_eq!(vd.field_block("b", &mut sink).unwrap().loc.line, 3);
    assert_eq!(sink.len(), 1);
    let values = vd.values();
    assert_eq!(values.len(), 2);
    assert!(values[0].is("x"));
    assert!(values[1].is("y"));
    assert_eq!(vd.get_block().items.len(), 5);
}

#[test]
fn unknown_fields_come_in_source_order_and_are_claimed() {
    let data = v_data();
    let mut sink = Sink::new();
    let b = v_block(
        vec![v_field("c", "1", 1), v_field("a", "2", 2), BlockItem::Keyword(v_tok("k", 3)), v_field("b", "3", 4)],
        1,
    );
    let mut vd = Validator::new(&b, &data);
    vd.field("a", &mut sink);
    let fields = vd.unknown_fields();
    let keys: Vec<&str> = fields.iter().map(|f| f.0.as_str()).collect();
    assert_eq!(keys, vec!["c", "b"]);
    assert_eq!(vd.unknown_fields().len(), 0);
    assert!(!vd.warn_remaining(&mut sink));
}

#[test]
fn advice_field_advises_at_the_key() {
    let data = v_data();
    let mut sink = Sink::new();
    let b = v_block(vec![v_field("ai_check_interval", "5", 3)], 1);
    let mut vd = Validator::new(&b, &data);
    vd.advice_field("ai_check_interval", "not needed", &mut sink);
    vd.advice_field("other", "not needed", &mut sink);
    assert_eq!(sink.len(), 1);
    assert_eq!(sink.get(0).severity, Severity::Advice);
    assert_eq!(sink.get(0).key, ErrorKey::Unneeded);
    assert_eq!(sink.get(0).loc.line, 3);
    assert_eq!(sink.get(0).msg, "not needed");
}

#[test]
fn field_of_kind_and_field_list_differ_in_repeats() {
    let data = v_data();
    let mut sink = Sink::new();
    let b = v_block(vec![v_field("n", "1", 1), v_field("n", "x", 2)], 1);
    let mut once = Validator::new(&b, &data);
    assert!(once.field_of_kind("n", FieldKind::Integer, &mut sink));
    assert_eq!(sink.len(), 2);
    assert_eq!(sink.get(0).key, ErrorKey::Duplicate);
    assert_eq!(sink.get(1).msg, "expected integer");
    let mut many = Validator::new(&b, &data);
    assert!(many.field_list("n", FieldKind::Integer, &mut sink));
    assert_eq!(sink.len(), 3);
    assert_eq!(sink.get(2).msg, "expected integer");
    assert!(!many.field_list("m", FieldKind::Integer, &mut sink));
    assert!(!many.require("m", Severity::Info, &mut sink));
    assert_eq!(sink.get(3).severity, Severity::Info);
}

#[test]
fn a_validator_knows_what_it_holds_and_what_is_claimed() {
    let data = v_data();
    let mut sink = Sink::new();
    let block = v_block(vec![v_field("a", "1", 2), v_field("b", "2", 3)], 1);
    let mut vd = Validator::new(&block, &data);
    assert!(std::ptr::eq(vd.get_block(), &block));
    assert!(std::ptr::eq(vd.get_data(), &data));
    assert!(!vd.is_claimed(0));
    assert!(!vd.is_claimed(1));
    let _ = vd.field_value("b", &mut sink);
    assert!(!vd.is_claimed(0));
    assert!(vd.is_claimed(1));
    assert_eq!(vd.into_marks(), vec![false, true]);
}
