use test_login_page::auth::{
    credentials_long_enough, login_codes, login_reply_or_unreachable, save_game_code,
    signup_length_report, signup_rejection_message,
};
use test_login_page::decimal::decimal_text;
use test_login_page::queries::{list_levels_statement, logout_statement, save_game_statement};
use test_login_page::{AccountState, LoginQueryOutcome};

#[test]
fn credentials_need_four_characters_each() {
    assert!(credentials_long_enough("anna", "pass"));
    assert!(!credentials_long_enough("ann", "password"));
    assert!(!credentials_long_enough("annabel", "pwd"));
    assert!(credentials_long_enough("éèàù", "ñandú"));
}

#[test]
fn signup_messages() {
    assert_eq!(
        signup_rejection_message("ab", "ñ"),
        "Login and password should be of >= 4 symbols. Received: 2, 1"
    );
    assert_eq!(signup_length_report("", "secret"), "Len of current Login and password: 0, 6");
}

#[test]
fn unreachable_server_code() {
    assert_eq!(login_reply_or_unreachable(None), (0, -4));
    assert_eq!(login_reply_or_unreachable(Some((5, 17))), (5, 17));
}

#[test]
fn greeting_texts() {
    let s = AccountState::signed_out(3);
    let (msg, button) = s.greeting();
    assert_eq!(msg, "Please, sign in");
    assert_eq!(button, "Sign in");
    let t = AccountState { signed_in: true, user_login: "anna".to_string(), connection_id: 9, user_id: 2 };
    let (msg, button) = t.greeting();
    assert_eq!(msg, "You are signed in as: anna");
    assert_eq!(button, "Sign out");
}

#[test]
fn successful_login_signs_in() {
    let mut s = AccountState::signed_out(3);
    let msg = s.apply_login_reply("anna", Some((12, 345)));
    assert_eq!(msg, "Login successful, connection id 345");
    assert!(s.signed_in);
    assert_eq!(s.user_login, "anna");
    assert_eq!(s.connection_id, 345);
    assert_eq!(s.user_id, 12);
}

#[test]
fn failed_login_changes_nothing() {
    let mut s = AccountState::signed_out(3);
    let msg = s.apply_login_reply("anna", Some((0, -3)));
    assert_eq!(msg, "Login failed, code -3");
    assert!(!s.signed_in);
    assert_eq!(s.user_login, "");
    assert_eq!(s.connection_id, 0);
    assert_eq!(s.user_id, 3);
    let msg = s.apply_login_reply("anna", None);
    assert_eq!(msg, "Login failed, code -4");
    let msg = s.apply_login_reply("anna", Some((4, 0)));
    assert_eq!(msg, "Login failed, code 0");
    assert!(!s.signed_in);
}

#[test]
fn logout_success_and_failure() {
    let mut s = AccountState { signed_in: true, user_login: "anna".to_string(), connection_id: 9, user_id: 2 };
    let msg = s.apply_logout_reply(Err("timeout".to_string()));
    assert_eq!(msg, "Tried to logout from session 9. Error: timeout");
    assert!(s.signed_in);
    assert_eq!(s.connection_id, 9);
    let msg = s.apply_logout_reply(Ok("Logged out successfully.".to_string()));
    assert_eq!(msg, "Logged out successfully.");
    assert!(!s.signed_in);
    assert_eq!(s.user_login, "");
    assert_eq!(s.connection_id, 0);
    assert_eq!(s.user_id, 0);
}

#[test]
fn login_codes_from_database() {
    assert_eq!(login_codes(LoginQueryOutcome::ConnectionFailed), (0, -1));
    assert_eq!(login_codes(LoginQueryOutcome::QueryFailed), (0, -3));
    assert_eq!(
        login_codes(LoginQueryOutcome::Row { user_id: Some(4), connection_id: Some(88) }),
        (4, 88)
    );
    assert_eq!(login_codes(LoginQueryOutcome::Row { user_id: None, connection_id: None }), (0, -2));
}

#[test]
fn save_codes_from_database() {
    assert_eq!(save_game_code(None), -3);
    assert_eq!(save_game_code(Some(None)), -2);
    assert_eq!(save_game_code(Some(Some(41))), 41);
}

#[test]
fn decimal_texts() {
    assert_eq!(decimal_text(0), "0");
    assert_eq!(decimal_text(7), "7");
    assert_eq!(decimal_text(1234), "1234");
    assert_eq!(decimal_text(-56), "-56");
    assert_eq!(decimal_text(i64::MIN), i64::MIN.to_string());
    assert_eq!(decimal_text(i64::MAX), i64::MAX.to_string());
}

#[test]
fn sql_statements() {
    assert_eq!(logout_statement(17), "call logout(session_id => 17);");
    assert_eq!(list_levels_statement(-2), "select * from list_levels_user_id(u_id => -2);");
    assert_eq!(
        save_game_statement(3, 1, "[]"),
        "call save_game_user_id(user_id => 3, level_id => 1::smallint, moves => '[]'::JSONB);"
    );
}
