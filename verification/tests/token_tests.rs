use scriptlint::report::{ErrorKey, Severity, Sink};
use scriptlint::token::{is_whitespace, len_utf8, str_eq, to_chars, FileKind, Loc, PathTable, Token};
use std::sync::Arc;

fn t_loc(line: u32, column: u32) -> Loc {
    Loc { idx: 0, kind: FileKind::Mod, line, column, link: None }
}

fn t_tok(s: &str) -> Token {
    Token::new(s, t_loc(3, 10))
}

#[test]
fn token_new_keeps_text_and_place() {
    let t = Token::new("abc", t_loc(7, 2));
    assert_eq!(t.as_str(), "abc");
    assert_eq!(t.loc().line, 7);
    assert_eq!(t.loc().column, 2);
    assert_eq!(t.char_len(), 3);
}

#[test]
fn token_try_new_refuses_what_cannot_be_placed() {
    assert!(Token::try_new("abc", t_loc(1, 1)).is_some());
    assert!(Token::try_new("abc", t_loc(1, u32::MAX - 2)).is_none());
    assert!(Token::try_new("abc", t_loc(1, u32::MAX - 3)).is_some());
    assert!(Token::try_new("abc", t_loc(u32::MAX, 1)).is_none());
    assert!(Token::try_new("", t_loc(u32::MAX, u32::MAX)).is_some());
}

#[test]
fn token_equality_ignores_place() {
    let a = Token::new("abc", t_loc(1, 1));
    let b = Token::new("abc", t_loc(9, 9));
    let c = Token::new("abd", t_loc(1, 1));
    assert!(a == b);
    assert!(a != c);
}

#[test]
fn token_clone_is_the_same_token() {
    let a = Token::new("héllo", t_loc(4, 5));
    let b = a.clone();
    assert_eq!(b.as_str(), "héllo");
    assert_eq!(b.loc(), a.loc());
}

#[test]
fn token_is_and_starts_with() {
    let t = t_tok("scope:actor");
    assert!(t.is("scope:actor"));
    assert!(!t.is("scope:acto"));
    assert!(!t.is("scope:actor "));
    assert!(t.starts_with("scope:"));
    assert!(t.starts_with(""));
    assert!(!t.starts_with("scope:actors"));
    assert!(!t.starts_with("Scope"));
}

#[test]
fn token_lowercase_is_uses_the_lowercase_form() {
    assert!(t_tok("ALL").lowercase_is("all"));
    assert!(t_tok("All").lowercase_is("all"));
    assert!(t_tok("all").lowercase_is("all"));
    assert!(!t_tok("ALL").lowercase_is("ALL"));
    assert!(!t_tok("any").lowercase_is("all"));
    assert!(t_tok("ÄB").lowercase_is("äb"));
}

#[test]
fn token_subtoken_counts_characters() {
    let t = t_tok("één twee");
    let s = t.subtoken(1..3, t_loc(1, 1));
    assert_eq!(s.as_str(), "én");
    assert_eq!(s.loc().column, 1);
    let e = t.subtoken(4..4, t_loc(1, 1));
    assert_eq!(e.as_str(), "");
}

#[test]
fn token_subtoken_stripped_strips_whitespace() {
    let t = t_tok("ab  \t cd \n ef");
    let s = t.subtoken_stripped(2..9, t_loc(1, 20));
    assert_eq!(s.as_str(), "cd");
    assert_eq!(s.loc().column, 24);
    assert_eq!(s.loc().line, 1);
    let whole = t.subtoken_stripped(0..2, t_loc(1, 20));
    assert_eq!(whole.as_str(), "ab");
    assert_eq!(whole.loc().column, 20);
}

#[test]
fn token_subtoken_stripped_leaves_whitespace_alone_whole() {
    let t = t_tok("ab   cd");
    let s = t.subtoken_stripped(2..5, t_loc(1, 20));
    assert_eq!(s.as_str(), "   ");
    assert_eq!(s.loc().column, 23);
    let e = t.subtoken_stripped(3..3, t_loc(1, 20));
    assert_eq!(e.as_str(), "");
    assert_eq!(e.loc().column, 20);
}

#[test]
fn token_split_gives_pieces_and_places() {
    let t = Token::new("a.bc..d", t_loc(5, 10));
    let parts = t.split('.');
    let texts: Vec<&str> = parts.iter().map(|p| p.as_str()).collect();
    assert_eq!(texts, vec!["a", "bc", "", "d"]);
    let columns: Vec<u32> = parts.iter().map(|p| p.loc().column).collect();
    assert_eq!(columns, vec![10, 12, 15, 16]);
    let lines: Vec<u32> = parts.iter().map(|p| p.loc().line).collect();
    assert_eq!(lines, vec![5, 5, 5, 5]);
}

#[test]
fn token_split_without_separator_is_one_piece() {
    let t = Token::new("abc", t_loc(5, 10));
    let parts = t.split('|');
    assert_eq!(parts.len(), 1);
    assert_eq!(parts[0].as_str(), "abc");
    assert_eq!(parts[0].loc(), t.loc());
    let empty = Token::new("", t_loc(5, 10)).split('|');
    assert_eq!(empty.len(), 1);
    assert_eq!(empty[0].as_str(), "");
}

#[test]
fn token_split_counts_line_feeds_before_the_separator() {
    let t = Token::new("a\nb|c\n|d", t_loc(5, 10));
    let parts = t.split('|');
    assert_eq!(parts.len(), 3);
    assert_eq!(parts[0].as_str(), "a\nb");
    assert_eq!(parts[1].as_str(), "c\n");
    assert_eq!(parts[2].as_str(), "d");
    assert_eq!((parts[0].loc().line, parts[0].loc().column), (5, 10));
    assert_eq!((parts[1].loc().line, parts[1].loc().column), (6, 14));
    assert_eq!((parts[2].loc().line, parts[2].loc().column), (7, 17));
}

#[test]
fn token_split_pieces_join_back() {
    for text in ["", "|", "a|b", "|a||b|", "no separator", "ünï|cödé"] {
        let t = Token::new(text, t_loc(1, 1));
        let parts = t.split('|');
        let joined = parts.iter().map(|p| p.as_str()).collect::<Vec<_>>().join("|");
        assert_eq!(joined, text);
        assert_eq!(parts.len(), text.chars().filter(|c| *c == '|').count() + 1);
    }
}

#[test]
fn token_split_once_cuts_at_the_first() {
    let t = Token::new("every_living_character", t_loc(2, 4));
    let (a, b) = t.split_once('_').unwrap();
    assert_eq!(a.as_str(), "every");
    assert_eq!(b.as_str(), "living_character");
    assert_eq!(a.loc().column, 4);
    assert_eq!(b.loc().column, 10);
    assert!(Token::new("value", t_loc(2, 4)).split_once('_').is_none());
    let (c, d) = Token::new("_x", t_loc(2, 4)).split_once('_').unwrap();
    assert_eq!(c.as_str(), "");
    assert_eq!(d.as_str(), "x");
    assert_eq!(d.loc().column, 5);
}

#[test]
fn token_split_after_keeps_the_separator() {
    let t = Token::new("ab:cd:e", t_loc(2, 4));
    let (a, b) = t.split_after(':').unwrap();
    assert_eq!(a.as_str(), "ab:");
    assert_eq!(b.as_str(), "cd:e");
    assert_eq!(a.loc().column, 4);
    assert_eq!(b.loc().column, 7);
    assert!(Token::new("abc", t_loc(2, 4)).split_after(':').is_none());
}

#[test]
fn token_split_after_moves_by_the_bytes_of_the_separator() {
    let t = Token::new("ab§cd", t_loc(2, 4));
    let (a, b) = t.split_after('§').unwrap();
    assert_eq!(a.as_str(), "ab§");
    assert_eq!(b.as_str(), "cd");
    assert_eq!(b.loc().column, 8);
}

#[test]
fn token_strip_prefix_and_suffix() {
    let t = Token::new("scope:actor", t_loc(2, 4));
    let p = t.strip_prefix("scope:").unwrap();
    assert_eq!(p.as_str(), "actor");
    assert_eq!(p.loc().column, 10);
    assert!(t.strip_prefix("flag:").is_none());
    let s = t.strip_suffix("actor").unwrap();
    assert_eq!(s.as_str(), "scope:");
    assert_eq!(s.loc().column, 4);
    assert!(t.strip_suffix("acto").is_none());
    assert_eq!(t.strip_prefix("").unwrap().as_str(), "scope:actor");
    assert_eq!(t.strip_suffix("").unwrap().as_str(), "scope:actor");
    assert_eq!(t.strip_prefix("scope:actor").unwrap().as_str(), "");
}

#[test]
fn token_combine_appends() {
    let mut t = Token::new("a", t_loc(2, 4));
    let other = Token::new("b", t_loc(9, 9));
    t.combine(&other, '.');
    assert_eq!(t.as_str(), "a.b");
    assert_eq!(t.loc().line, 2);
    assert_eq!(t.loc().column, 4);
}

#[test]
fn token_trim_trims_spaces_only() {
    let t = Token::new("  a b \t ", t_loc(2, 4));
    let r = t.trim();
    assert_eq!(r.as_str(), "a b \t");
    assert_eq!(r.loc().column, 6);
    let all = Token::new("    ", t_loc(2, 4)).trim();
    assert_eq!(all.as_str(), "");
    assert_eq!(all.loc().column, 4);
    let none = Token::new("ab", t_loc(2, 4)).trim();
    assert_eq!(none.as_str(), "ab");
    assert_eq!(none.loc().column, 4);
    let empty = Token::new("", t_loc(2, 4)).trim();
    assert_eq!(empty.as_str(), "");
}

#[test]
fn token_linked_sets_the_link() {
    let link = Arc::new(t_loc(1, 1));
    let t = Token::new("a", t_loc(2, 4)).linked(Some(link.clone()));
    assert_eq!(t.as_str(), "a");
    assert_eq!(t.loc().link, Some(link));
    assert_eq!(t.loc().column, 4);
    let back = t.linked(None);
    assert_eq!(back.loc().link, None);
}

#[test]
fn token_from_loc_is_empty() {
    let t = Token::from_loc(t_loc(8, 9));
    assert_eq!(t.as_str(), "");
    assert_eq!(t.loc().line, 8);
}

#[test]
fn loc_clone_keeps_the_link() {
    let inner = Loc { idx: 1, kind: FileKind::Vanilla, line: 1, column: 2, link: None };
    let outer = Loc { idx: 2, kind: FileKind::Mod, line: 3, column: 4, link: Some(Arc::new(inner.clone())) };
    let copy = outer.clone();
    assert_eq!(copy, outer);
    assert_eq!(copy.link.as_ref().unwrap().line, 1);
}

#[test]
fn loc_for_file_and_paths() {
    let mut table = PathTable::new();
    let a = Loc::for_file(&mut table, "common/a.txt".to_string(), FileKind::Vanilla, "/game/common/a.txt".to_string());
    let b = Loc::for_file(&mut table, "common/b.txt".to_string(), FileKind::Mod, "/mod/common/b.txt".to_string());
    assert_eq!(a.idx, 0);
    assert_eq!(b.idx, 1);
    assert_eq!(a.line, 0);
    assert_eq!(a.column, 0);
    assert_eq!(a.kind, FileKind::Vanilla);
    assert_eq!(a.pathname(&table), "common/a.txt");
    assert_eq!(a.fullpath(&table), "/game/common/a.txt");
    assert_eq!(b.pathname(&table), "common/b.txt");
    assert_eq!(b.fullpath(&table), "/mod/common/b.txt");
    assert_eq!(table.len(), 2);
    assert!(a.same_file(&a.clone()));
    assert!(!a.same_file(&b));
    assert_eq!(b.site(), (1, 0, 0));
}

#[test]
fn file_kind_rank_orders_mod_over_vanilla() {
    assert!(FileKind::Mod.rank() > FileKind::Vanilla.rank());
}

#[test]
fn whitespace_is_what_std_says() {
    for u in 0..=0x10FFFFu32 {
        if let Some(c) = char::from_u32(u) {
            assert_eq!(is_whitespace(c), c.is_whitespace(), "U+{:04X}", u);
        }
    }
}

#[test]
fn len_utf8_is_what_std_says() {
    for u in 0..=0x10FFFFu32 {
        if let Some(c) = char::from_u32(u) {
            assert_eq!(len_utf8(c) as usize, c.len_utf8(), "U+{:04X}", u);
        }
    }
}

#[test]
fn str_eq_compares_texts() {
    assert!(str_eq("", ""));
    assert!(str_eq("abc", "abc"));
    assert!(!str_eq("abc", "abd"));
    assert!(!str_eq("abc", "ab"));
    assert!(str_eq("é", "é"));
    assert!(!str_eq("é", "e"));
}

#[test]
fn to_chars_gives_the_characters() {
    assert_eq!(to_chars("aé€"), vec!['a', 'é', '€']);
    assert_eq!(to_chars(""), Vec::<char>::new());
}

#[test]
fn sink_collects_in_order() {
    let mut sink = Sink::new();
    assert_eq!(sink.len(), 0);
    assert!(!sink.has_errors());
    sink.warn(&t_loc(1, 1), ErrorKey::Logic, "first");
    sink.advice_info(&t_loc(2, 2), ErrorKey::IfElse, "second", "note");
    assert!(!sink.has_errors());
    sink.error(&t_loc(3, 3), ErrorKey::Validation, "third");
    sink.info(&t_loc(4, 4), ErrorKey::Duplicate, "fourth");
    sink.untidy(&t_loc(5, 5), ErrorKey::Validation, "fifth");
    sink.advice(&t_loc(6, 6), ErrorKey::Unneeded, "sixth");
    sink.error_info(&t_loc(7, 7), ErrorKey::ReadError, "seventh", "why");
    assert!(sink.has_errors());
    assert_eq!(sink.len(), 7);
    assert_eq!(sink.get(0).severity, Severity::Warning);
    assert_eq!(sink.get(0).key, ErrorKey::Logic);
    assert_eq!(sink.get(0).msg, "first");
    assert_eq!(sink.get(0).info, None);
    assert_eq!(sink.get(0).loc.line, 1);
    assert_eq!(sink.get(1).severity, Severity::Advice);
    assert_eq!(sink.get(1).info.as_deref(), Some("note"));
    assert_eq!(sink.get(2).severity, Severity::Error);
    assert_eq!(sink.get(3).severity, Severity::Info);
    assert_eq!(sink.get(4).severity, Severity::Untidy);
    assert_eq!(sink.get(5).severity, Severity::Advice);
    assert_eq!(sink.get(6).severity, Severity::Error);
    assert_eq!(sink.get(6).key, ErrorKey::ReadError);
    assert_eq!(sink.get(6).info.as_deref(), Some("why"));
}

#[test]
fn token_from_static_str_keeps_text_and_place() {
    let t = Token::from_static_str("yes", t_loc(3, 7));
    assert_eq!(t.as_str(), "yes");
    assert_eq!(t.loc().line, 3);
    assert_eq!(t.loc().column, 7);
    assert!(t == Token::new("yes", t_loc(1, 1)));
}

#[test]
fn token_char_range_turns_bytes_into_characters() {
    // h: 1 byte, é: 2 bytes, 日: 3 bytes, 😀: 4 bytes, o: 1 byte.
    let t = t_tok("hé日😀o");
    assert_eq!(t.as_str().len(), 11);
    assert_eq!(t.char_len(), 5);
    assert_eq!(t.char_range(0..0), Some(0..0));
    assert_eq!(t.char_range(0..1), Some(0..1));
    assert_eq!(t.char_range(0..3), Some(0..2));
    assert_eq!(t.char_range(1..3), Some(1..2));
    assert_eq!(t.char_range(3..6), Some(2..3));
    assert_eq!(t.char_range(6..10), Some(3..4));
    assert_eq!(t.char_range(3..11), Some(2..5));
    assert_eq!(t.char_range(11..11), Some(5..5));
    // Inside a character.
    assert_eq!(t.char_range(0..2), None);
    assert_eq!(t.char_range(2..3), None);
    assert_eq!(t.char_range(4..6), None);
    assert_eq!(t.char_range(6..8), None);
    // After the text, and a range that ends before it starts.
    assert_eq!(t.char_range(0..12), None);
    assert_eq!(t.char_range(12..12), None);
    assert_eq!(t.char_range(3..1), None);
    assert_eq!(t.char_range(0..usize::MAX), None);
}

#[test]
fn token_char_range_agrees_with_std_on_every_pair_of_bytes() {
    let t = t_tok("a.é|日 😀\tz");
    let s = t.as_str().to_string();
    for start in 0..=s.len() + 1 {
        for end in 0..=s.len() + 1 {
            let expected = if start <= end && s.is_char_boundary(start) && s.is_char_boundary(end) && end <= s.len() {
                Some(s[..start].chars().count()..s[..end].chars().count())
            } else {
                None
            };
            assert_eq!(t.char_range(start..end), expected, "bytes {start}..{end}");
        }
    }
}

#[test]
fn token_subtoken_of_a_byte_range() {
    let t = t_tok("clé = valeur");
    let bytes = t.as_str().find("valeur").unwrap()..t.as_str().len();
    let range = t.char_range(bytes.clone()).unwrap();
    let sub = t.subtoken(range, t_loc(1, 7));
    assert_eq!(sub.as_str(), &t.as_str()[bytes]);
    assert_eq!(sub.as_str(), "valeur");
}
