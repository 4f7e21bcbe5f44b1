use test_login_page::moves::is_expected_player_move;
use test_login_page::{solution_lvl1, to_json, FullMove, UCIstr};

#[test]
fn test_fullmove_to_json() {
    let full_move = FullMove::new("c6c7", "d5d6");
    let json_str = full_move.to_json();
    println!("JSON string: {}", json_str); // {"player": "c6c7", "opponent": "d5d6"}
    assert_eq!(json_str, r#"{"player": "c6c7", "opponent": "d5d6"}"#);
}

#[test]
fn test_arr_to_json() {
    let arr_full_moves = &solution_lvl1()[..2]; // example: 2 correct moves
    let json_str = to_json(arr_full_moves);
    println!("JSON string for array: {}", json_str);
    // [{"player": "c6c7", "opponent": "d5d6"},{"player": "b6b5", "opponent": "d6d5"}]

    assert_eq!(
        json_str,
        r#"[{"player": "c6c7", "opponent": "d5d6"},{"player": "b6b5", "opponent": "d6d5"}]"#
    );
}

#[test]
fn uci_four_chars_round_trip() {
    let m = UCIstr::new("c6c7");
    assert!(matches!(m, UCIstr::Move4char(['c', '6', 'c', '7'])));
    assert_eq!(m.to_string(), "c6c7");
}

#[test]
fn uci_five_chars_round_trip() {
    let m = UCIstr::new("e7e8q");
    assert!(matches!(m, UCIstr::Move5char(['e', '7', 'e', '8', 'q'])));
    assert_eq!(m.to_string(), "e7e8q");
}

#[test]
fn uci_reading_printed_move_gives_same_move() {
    let m = UCIstr::new("a7a8n");
    let again = UCIstr::new(&m.to_string());
    assert_eq!(again.to_string(), m.to_string());
    assert!(matches!(again, UCIstr::Move5char(['a', '7', 'a', '8', 'n'])));
}

#[test]
fn solution_of_level_one() {
    let sol = solution_lvl1();
    let texts: Vec<(String, String)> =
        sol.iter().map(|m| (m.player.to_string(), m.opponent.to_string())).collect();
    assert_eq!(
        texts,
        vec![
            ("c6c7".to_string(), "d5d6".to_string()),
            ("b6b5".to_string(), "d6d5".to_string()),
            ("b5b4".to_string(), "d5d4".to_string()),
        ]
    );
}

#[test]
fn json_of_no_moves_is_empty_array() {
    assert_eq!(to_json(&[]), "[]");
}

#[test]
fn json_of_one_move() {
    let m = [FullMove::new("b5b4", "d5d4")];
    assert_eq!(to_json(&m), r#"[{"player": "b5b4", "opponent": "d5d4"}]"#);
}

#[test]
fn json_of_all_three_moves() {
    let sol = solution_lvl1();
    assert_eq!(
        to_json(&sol),
        r#"[{"player": "c6c7", "opponent": "d5d6"},{"player": "b6b5", "opponent": "d6d5"},{"player": "b5b4", "opponent": "d5d4"}]"#
    );
}

#[test]
fn json_push_adds_comma_and_object() {
    let sol = solution_lvl1();
    let two = to_json(&sol[..2]);
    let three = to_json(&sol[..3]);
    let expected = format!("{},{}]", &two[..two.len() - 1], sol[2].to_json());
    assert_eq!(three, expected);
}

#[test]
fn json_of_promotion_move() {
    let m = FullMove::new("e7e8q", "h1h2");
    assert_eq!(m.to_json(), r#"{"player": "e7e8q", "opponent": "h1h2"}"#);
}

#[test]
fn expected_player_move_check() {
    let sol = solution_lvl1();
    assert!(is_expected_player_move("c6c7", &sol[0]));
    assert!(!is_expected_player_move("c6c8", &sol[0]));
    assert!(!is_expected_player_move("", &sol[0]));
    assert!(!is_expected_player_move("c6c7 ", &sol[0]));
}
