use vstd::prelude::*;
use crate::decimal::{push_decimal, spec_decimal};

verus! {

/// The statement that ends the session `connection_id`.
pub fn logout_statement(connection_id: i32) -> (res: String)
    ensures
        res@ == "call logout(session_id => "@ + spec_decimal(connection_id as int) + ");"@,
{
    let mut s = String::from_str("call logout(session_id => ");
    push_decimal(connection_id as i64, &mut s);
    s.append(");");
    s
}

/// The query that lists the levels of the user `user_id`.
pub fn list_levels_statement(user_id: i32) -> (res: String)
    ensures
        res@ == "select * from list_levels_user_id(u_id => "@ + spec_decimal(user_id as int)
            + ");"@,
{
    let mut s = String::from_str("select * from list_levels_user_id(u_id => ");
    push_decimal(user_id as i64, &mut s);
    s.append(");");
    s
}

/// The statement that saves the moves (a JSON text) of `user_id` on
/// `level_id`.
pub fn save_game_statement(user_id: i32, level_id: i16, moves: &str) -> (res: String)
    ensures
        res@ == "call save_game_user_id(user_id => "@ + spec_decimal(user_id as int)
            + ", level_id => "@ + spec_decimal(level_id as int) + "::smallint, moves => '"@
            + moves@ + "'::JSONB);"@,
{
    let mut s = String::from_str("call save_game_user_id(user_id => ");
    push_decimal(user_id as i64, &mut s);
    s.append(", level_id => ");
    push_decimal(level_id as i64, &mut s);
    s.append("::smallint, moves => '");
    s.append(moves);
    s.append("'::JSONB);");
    s
}

} // verus!
