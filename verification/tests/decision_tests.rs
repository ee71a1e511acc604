use scriptlint::block::{Block, BlockItem, Comparator, BV};
use scriptlint::catalog::Catalog;
use scriptlint::data::decisions::{check_cost, validate_cost, Decision};
use scriptlint::db::DbKind;
use scriptlint::desc::verify_desc_locas;
use scriptlint::everything::Everything;
use scriptlint::item::Item;
use scriptlint::report::{ErrorKey, Severity, Sink};
use scriptlint::token::{FileKind, Loc, Token};

fn d_loc(line: u32, column: u32) -> Loc {
    Loc { idx: 0, kind: FileKind::Mod, line, column, link: None }
}

fn d_tok(s: &str, line: u32) -> Token {
    Token::new(s, d_loc(line, 1))
}

fn d_val(key: &str, value: &str, line: u32) -> BlockItem {
    BlockItem::Field(d_tok(key, line), Comparator::Eq, BV::Value(Token::new(value, d_loc(line, 40))))
}

fn d_blk(key: &str, items: Vec<BlockItem>, line: u32) -> BlockItem {
    BlockItem::Field(d_tok(key, line), Comparator::Eq, BV::Block(d_block(items, line)))
}

fn d_block(items: Vec<BlockItem>, line: u32) -> Block {
    Block { items, loc: d_loc(line, 60) }
}

fn d_data(locas: &[&str], files: &[&str]) -> Everything {
    let mut data = Everything::new(Catalog::new());
    let mut sink = Sink::new();
    for (i, l) in locas.iter().enumerate() {
        data.db.add(Item::Localization, d_tok(l, 500 + i as u32), d_block(vec![], 500), DbKind::Plain, &mut sink);
    }
    for (i, f) in files.iter().enumerate() {
        data.db.add(Item::File, d_tok(f, 600 + i as u32), d_block(vec![], 600), DbKind::Plain, &mut sink);
    }
    assert_eq!(sink.len(), 0);
    data
}

#[test]
fn two_gold_costs_conflict_once_at_the_second() {
    let first = d_block(vec![d_val("gold", "5", 10)], 10);
    let second = d_block(vec![d_val("gold", "10", 20)], 20);
    let data = d_data(&[], &[]);
    let mut sink = Sink::new();
    validate_cost(&first, &data, &mut sink);
    validate_cost(&second, &data, &mut sink);
    assert_eq!(sink.len(), 0);
    check_cost(&vec![&first, &second], &mut sink);
    assert_eq!(sink.len(), 1);
    assert_eq!(sink.get(0).key, ErrorKey::Conflict);
    assert_eq!(sink.get(0).severity, Severity::Warning);
    assert_eq!(sink.get(0).msg, "This value of the gold cost overrides the previously set cost.");
    assert_eq!(sink.get(0).loc.line, 20);
    assert_eq!(sink.get(0).loc.column, 40);
}

#[test]
fn costs_of_different_kinds_do_not_conflict() {
    let first = d_block(vec![d_val("gold", "5", 10)], 10);
    let second = d_block(vec![d_val("prestige", "10", 20), d_val("piety", "1", 21)], 20);
    let third = d_block(vec![d_val("piety", "2", 30), d_val("gold", "1", 31), d_val("prestige", "1", 32)], 30);
    let mut sink = Sink::new();
    check_cost(&vec![&first, &second], &mut sink);
    assert_eq!(sink.len(), 0);
    check_cost(&vec![&first, &second, &third], &mut sink);
    assert_eq!(sink.len(), 3);
    assert_eq!(sink.get(0).msg, "This value of the gold cost overrides the previously set cost.");
    assert_eq!(sink.get(0).loc.line, 31);
    assert_eq!(sink.get(1).msg, "This value of the prestige cost overrides the previously set cost.");
    assert_eq!(sink.get(1).loc.line, 32);
    assert_eq!(sink.get(2).msg, "This value of the piety cost overrides the previously set cost.");
    assert_eq!(sink.get(2).loc.line, 30);
}

#[test]
fn one_cost_block_never_conflicts() {
    let only = d_block(vec![d_val("gold", "5", 10), d_val("gold", "6", 11)], 10);
    let mut sink = Sink::new();
    check_cost(&vec![&only], &mut sink);
    check_cost(&vec![], &mut sink);
    assert_eq!(sink.len(), 0);
}

#[test]
fn a_cost_block_may_only_hold_costs() {
    let data = d_data(&[], &[]);
    let block = d_block(vec![d_val("gold", "5", 10), d_val("silver", "1", 11), d_val("gold", "6", 12)], 10);
    let mut sink = Sink::new();
    validate_cost(&block, &data, &mut sink);
    assert_eq!(sink.len(), 2);
    assert_eq!(sink.get(0).key, ErrorKey::Duplicate);
    assert_eq!(sink.get(0).loc.line, 12);
    assert_eq!(sink.get(1).key, ErrorKey::UnknownField);
    assert_eq!(sink.get(1).msg, "unknown field `silver`");
}

fn d_decision(items: Vec<BlockItem>) -> Decision {
    Decision::new(d_tok("my_decision", 1), d_block(items, 1), vec![])
}

#[test]
fn a_complete_decision_is_clean() {
    let data = d_data(
        &["my_decision", "my_decision_tooltip", "my_decision_desc", "my_decision_confirm"],
        &["gfx/decision.dds"],
    );
    let decision = d_decision(vec![
        d_val("picture", "gfx/decision.dds", 2),
        d_val("major", "yes", 3),
        d_val("sort_order", "10", 4),
        d_blk("is_shown", vec![], 5),
        d_blk("cost", vec![d_val("gold", "100", 6)], 6),
        d_blk("effect", vec![], 7),
        d_blk("ai_will_do", vec![], 8),
    ]);
    let mut sink = Sink::new();
    decision.validate(&data, &mut sink);
    assert_eq!(sink.len(), 0);
}

#[test]
fn a_decision_needs_a_picture_and_its_texts() {
    let data = d_data(&["my_decision"], &[]);
    let decision = d_decision(vec![d_val("desc", "custom_desc", 2)]);
    let mut sink = Sink::new();
    decision.validate(&data, &mut sink);
    assert_eq!(sink.len(), 4);
    assert_eq!(sink.get(0).key, ErrorKey::FieldMissing);
    assert_eq!(sink.get(0).msg, "required field `picture` missing");
    assert_eq!(sink.get(1).msg, "localization my_decision_tooltip not defined in localization/");
    assert_eq!(sink.get(1).loc.line, 1);
    assert_eq!(sink.get(2).msg, "localization custom_desc not defined in localization/");
    assert_eq!(sink.get(2).loc.line, 2);
    assert_eq!(sink.get(3).msg, "localization my_decision_confirm not defined in localization/");
}

#[test]
fn a_decision_reports_what_it_cannot_have() {
    let data = d_data(
        &["my_decision", "my_decision_tooltip", "my_decision_desc", "my_decision_confirm"],
        &["gfx/decision.dds"],
    );
    let decision = d_decision(vec![
        d_val("picture", "gfx/missing.dds", 2),
        d_val("ai_goal", "yes", 3),
        d_val("ai_check_interval", "12", 4),
        d_val("colour", "red", 5),
        d_blk("cost", vec![d_val("gold", "1", 6)], 6),
        d_blk("cost", vec![d_val("gold", "2", 7)], 7),
        d_val("flavour", "sweet", 8),
    ]);
    let mut sink = Sink::new();
    decision.validate(&data, &mut sink);
    let msgs: Vec<String> = (0..sink.len()).map(|i| sink.get(i).msg.clone()).collect();
    assert_eq!(
        msgs,
        vec![
            "file gfx/missing.dds not defined in ".to_string(),
            "not needed if ai_goal = yes".to_string(),
            "This value of the gold cost overrides the previously set cost.".to_string(),
            "unknown field `colour`".to_string(),
            "unknown field `flavour`".to_string(),
        ]
    );
    assert_eq!(sink.get(2).loc.line, 7);
}

#[test]
fn a_decision_file_is_loaded() {
    let mut data = d_data(&[], &[]);
    let mut sink = Sink::new();
    let file = d_block(
        vec![
            d_val("@cost", "100", 1),
            d_blk("first", vec![d_val("picture", "a", 2)], 2),
            BlockItem::Keyword(d_tok("stray", 3)),
            d_val("setting", "1", 4),
            d_val("@other", "2", 5),
            d_blk("second", vec![], 6),
        ],
        1,
    );
    data.decisions.load_file(file, &mut sink);
    assert_eq!(data.decisions.len(), 2);
    assert!(data.decisions.is_defined("first"));
    assert!(data.decisions.is_defined("second"));
    assert!(!data.decisions.is_defined("stray"));
    assert!(data.item_exists(Item::Decision, "first"));
    assert_eq!(data.decisions.get(0).values.len(), 1);
    assert_eq!(data.decisions.get(1).values.len(), 2);
    assert!(data.decisions.get(1).values[1].0.is("@other"));
    assert!(data.decisions.get(1).values[1].1.is("2"));
    assert_eq!(data.decisions.get(0).block.items.len(), 1);
    assert_eq!(sink.len(), 2);
    assert_eq!(sink.get(0).msg, "unexpected token");
    assert_eq!(sink.get(0).info.as_deref(), Some("Did you forget an = ?"));
    assert_eq!(sink.get(1).msg, "unknown setting in decision file");
    assert_eq!(data.decisions.find("second"), Some(1));
}

#[test]
fn a_decision_that_redefines_another_is_reported() {
    let mut data = d_data(&[], &[]);
    let mut sink = Sink::new();
    data.decisions.load_decision(d_tok("d", 1), d_block(vec![], 1), vec![], &mut sink);
    data.decisions.load_decision(d_tok("d", 9), d_block(vec![], 9), vec![], &mut sink);
    assert_eq!(data.decisions.len(), 1);
    assert_eq!(sink.len(), 2);
    assert_eq!(sink.get(0).key, ErrorKey::Duplicate);
    assert_eq!(sink.get(0).msg, "decision redefines an existing decision");
    assert_eq!(sink.get(0).loc.line, 9);
    assert_eq!(sink.get(1).msg, "the other decision is here");
    assert_eq!(sink.get(1).loc.line, 1);
    // A decision of the game that takes the name of one of the mod is of weaker precedence: reported.
    let vanilla = Token::new("d", Loc { idx: 0, kind: FileKind::Vanilla, line: 3, column: 1, link: None });
    data.decisions.load_decision(vanilla, d_block(vec![], 3), vec![], &mut sink);
    assert_eq!(data.decisions.len(), 1);
    assert_eq!(sink.len(), 4);
    assert_eq!(sink.get(2).key, ErrorKey::Duplicate);
    assert_eq!(sink.get(2).severity, Severity::Error);
    assert_eq!(sink.get(2).loc.line, 3);
    assert_eq!(sink.get(2).loc.kind, FileKind::Vanilla);
    assert_eq!(sink.get(3).severity, Severity::Info);
    assert_eq!(sink.get(3).loc.line, 9);
    assert_eq!(data.decisions.get(0).key.loc().kind, FileKind::Vanilla);
}

#[test]
fn a_decision_of_the_mod_overrides_one_of_the_game_in_silence() {
    let mut data = d_data(&[], &[]);
    let mut sink = Sink::new();
    let vanilla = Token::new("d", Loc { idx: 0, kind: FileKind::Vanilla, line: 1, column: 1, link: None });
    data.decisions.load_decision(vanilla, d_block(vec![], 1), vec![], &mut sink);
    data.decisions.load_decision(d_tok("d", 9), d_block(vec![], 9), vec![], &mut sink);
    assert_eq!(sink.len(), 0);
    assert_eq!(data.decisions.len(), 1);
    assert_eq!(data.decisions.get(0).key.loc().line, 9);
    // Two decisions of the game under one name are of the same precedence: reported.
    let mut other = d_data(&[], &[]);
    let first = Token::new("e", Loc { idx: 0, kind: FileKind::Vanilla, line: 1, column: 1, link: None });
    let second = Token::new("e", Loc { idx: 0, kind: FileKind::Vanilla, line: 2, column: 1, link: None });
    other.decisions.load_decision(first, d_block(vec![], 1), vec![], &mut sink);
    other.decisions.load_decision(second, d_block(vec![], 2), vec![], &mut sink);
    assert_eq!(sink.len(), 2);
    assert_eq!(sink.get(0).loc.line, 2);
    assert_eq!(sink.get(1).loc.line, 1);
}

#[test]
fn all_decisions_are_validated() {
    let mut data = d_data(&[], &[]);
    let mut sink = Sink::new();
    data.decisions.load_decision(d_tok("a", 1), d_block(vec![d_val("picture", "x", 2)], 1), vec![], &mut sink);
    data.decisions.load_decision(d_tok("b", 5), d_block(vec![d_val("picture", "x", 6)], 5), vec![], &mut sink);
    assert_eq!(sink.len(), 0);
    data.decisions.validate(&data, &mut sink);
    // For each: the picture file and the four texts are missing.
    assert_eq!(sink.len(), 10);
    assert_eq!(sink.get(0).key, ErrorKey::MissingItem);
}

#[test]
fn descriptions_are_keys_or_blocks_of_descriptions() {
    let data = d_data(&["known"], &[]);
    let mut sink = Sink::new();
    verify_desc_locas(&BV::Value(d_tok("known", 1)), &data, &mut sink);
    assert_eq!(sink.len(), 0);
    verify_desc_locas(&BV::Value(d_tok("unknown", 2)), &data, &mut sink);
    assert_eq!(sink.len(), 1);
    assert_eq!(sink.get(0).key, ErrorKey::MissingItem);
    let nested = BV::Block(d_block(
        vec![d_blk(
            "first_valid",
            vec![
                d_blk("triggered_desc", vec![d_blk("trigger", vec![], 4), d_val("desc", "known", 5)], 4),
                d_val("desc", "missing", 6),
                d_val("odd", "x", 7),
            ],
            3,
        )],
        3,
    ));
    verify_desc_locas(&nested, &data, &mut sink);
    assert_eq!(sink.len(), 3);
    assert_eq!(sink.get(1).msg, "localization missing not defined in localization/");
    assert_eq!(sink.get(2).msg, "unexpected key in description");
}

#[test]
fn a_file_that_defines_a_decision_twice_keeps_its_place() {
    let mut data = d_data(&[], &[]);
    let mut sink = Sink::new();
    let file = d_block(
        vec![
            d_blk("first", vec![d_val("picture", "a", 2)], 2),
            d_blk("second", vec![], 3),
            d_val("@late", "1", 4),
            d_blk("first", vec![], 5),
            BlockItem::Block(d_block(vec![], 6)),
        ],
        1,
    );
    data.decisions.load_file(file, &mut sink);
    assert_eq!(data.decisions.len(), 2);
    assert_eq!(data.decisions.find("first"), Some(0));
    assert_eq!(data.decisions.find("second"), Some(1));
    assert_eq!(data.decisions.get(0).key.loc().line, 5);
    assert_eq!(data.decisions.get(0).block.items.len(), 0);
    assert_eq!(data.decisions.get(0).values.len(), 1);
    assert_eq!(data.decisions.get(1).values.len(), 0);
    let msgs: Vec<String> = (0..sink.len()).map(|i| sink.get(i).msg.clone()).collect();
    assert_eq!(
        msgs,
        vec![
            "decision redefines an existing decision".to_string(),
            "the other decision is here".to_string(),
            "unexpected block".to_string(),
        ]
    );
    assert_eq!(sink.get(0).loc.line, 5);
    assert_eq!(sink.get(1).loc.line, 2);
    assert_eq!(sink.get(2).loc.line, 6);
}

#[test]
fn what_is_found_in_a_file_of_the_game_is_not_reported() {
    let file = || {
        d_block(
            vec![
                BlockItem::Keyword(d_tok("stray", 1)),
                d_val("setting", "1", 2),
                d_blk("first", vec![], 3),
                d_blk("first", vec![], 4),
            ],
            1,
        )
    };
    let mut data = d_data(&[], &[]);
    let mut sink = Sink::new();
    data.decisions.load_file_of_kind(FileKind::Vanilla, file(), &mut sink);
    assert_eq!(sink.len(), 0);
    assert_eq!(data.decisions.len(), 1);
    assert_eq!(data.decisions.get(0).key.loc().line, 4);
    let mut other = d_data(&[], &[]);
    other.decisions.load_file_of_kind(FileKind::Mod, file(), &mut sink);
    assert_eq!(sink.len(), 4);
    assert_eq!(sink.get(0).msg, "unexpected token");
    assert_eq!(sink.get(1).msg, "unknown setting in decision file");
    assert_eq!(sink.get(2).key, ErrorKey::Duplicate);
    assert_eq!(other.decisions.len(), 1);
}
