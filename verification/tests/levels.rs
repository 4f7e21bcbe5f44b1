use test_login_page::levels::level_text_from_quoted;
use test_login_page::{display_concat_levels_par, next_unsolved_level, LevelInfo};

fn level(id: i16, won: bool) -> LevelInfo {
    LevelInfo {
        level_id: id,
        full_fen: "8/8/2K5/1P1k4/8/8/8/8 w - - 0 1".to_string(),
        goal: "White wins".to_string(),
        won,
    }
}

#[test]
fn debug_text_matches_derived_debug() {
    let l = level(-3, true);
    assert_eq!(l.debug_text(), format!("{:?}", l));
    let q = LevelInfo { level_id: 12, full_fen: "a\"b\\c\n".to_string(), goal: String::new(), won: false };
    assert_eq!(q.debug_text(), format!("{:?}", q));
}

#[test]
fn debug_text_exact() {
    assert_eq!(
        level(1, false).debug_text(),
        r#"LevelInfo { level_id: 1, full_fen: "8/8/2K5/1P1k4/8/8/8/8 w - - 0 1", goal: "White wins", won: false }"#
    );
}

#[test]
fn paragraphs_of_levels() {
    let lvls = vec![level(1, true), level(2, false)];
    let expected = format!("<p>{:?}</p>\n<p>{:?}</p>", lvls[0], lvls[1]);
    assert_eq!(display_concat_levels_par(&lvls), expected);
}

#[test]
fn paragraphs_of_no_levels() {
    assert_eq!(display_concat_levels_par(&[]), "");
}

#[test]
fn next_unsolved_is_first_not_won() {
    let lvls = vec![level(1, true), level(2, false), level(3, false)];
    assert_eq!(next_unsolved_level(&lvls), Some(2));
}

#[test]
fn next_unsolved_none_when_all_won() {
    let lvls = vec![level(1, true), level(2, true)];
    assert_eq!(next_unsolved_level(&lvls), None);
    assert_eq!(next_unsolved_level(&[]), None);
}

#[test]
fn next_unsolved_first_level() {
    let lvls = vec![level(5, false), level(1, false)];
    assert_eq!(next_unsolved_level(&lvls), Some(5));
}

#[test]
fn level_text_from_quoted_parts() {
    assert_eq!(
        level_text_from_quoted(-7, "\"x\"", "\"\"", true),
        r#"LevelInfo { level_id: -7, full_fen: "x", goal: "", won: true }"#
    );
}
