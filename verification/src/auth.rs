use vstd::prelude::*;
use crate::decimal::{
    is_digit_char, lemma_decimal_numeral, lemma_digits_numeral, numeral_value, push_decimal,
    push_unsigned, spec_decimal, spec_digits,
};

verus! {

/// The shortest login and password accepted at sign-up: four characters.
pub open spec fn long_enough(s: Seq<char>) -> bool {
    s.len() > 3
}

/// Whether a sign-up may go ahead: login and password both hold at least
/// four characters.
pub fn credentials_long_enough(login: &str, pwd: &str) -> (res: bool)
    ensures
        res == (long_enough(login@) && long_enough(pwd@)),
{
    login.unicode_len() > 3 && pwd.unicode_len() > 3
}

/// `<prefix><login length>, <password length>`, lengths in characters.
pub open spec fn spec_lengths_message(prefix: Seq<char>, login: Seq<char>, pwd: Seq<char>) -> Seq<char> {
    prefix + spec_digits(login.len()) + ", "@ + spec_digits(pwd.len())
}

fn lengths_message(prefix: &str, login: &str, pwd: &str) -> (res: String)
    ensures
        res@ == spec_lengths_message(prefix@, login@, pwd@),
{
    let mut s = String::from_str(prefix);
    push_unsigned(login.unicode_len() as u64, &mut s);
    s.append(", ");
    push_unsigned(pwd.unicode_len() as u64, &mut s);
    s
}

/// The line under the sign-up form that reports the lengths typed so far.
pub fn signup_length_report(login: &str, pwd: &str) -> (res: String)
    ensures
        res@ == spec_lengths_message("Len of current Login and password: "@, login@, pwd@),
{
    lengths_message("Len of current Login and password: ", login, pwd)
}

/// The message shown when a sign-up is refused for too short a login or
/// password.
pub fn signup_rejection_message(login: &str, pwd: &str) -> (res: String)
    ensures
        res@ == spec_lengths_message(
            "Login and password should be of >= 4 symbols. Received: "@,
            login@,
            pwd@,
        ),
{
    lengths_message("Login and password should be of >= 4 symbols. Received: ", login, pwd)
}

/// The code pair `(user id, connection id)` that stands for a login whose
/// server did not reply.
pub open spec fn spec_login_reply_or_unreachable(reply: Option<(i32, i32)>) -> (i32, i32) {
    match reply {
        Some(r) => r,
        None => (0i32, -4i32),
    }
}

/// A login reply `(user id, connection id)` succeeds exactly when its
/// connection id is positive.
pub open spec fn login_reply_succeeded(r: (i32, i32)) -> bool {
    r.1 > 0
}

/// The codes of a login attempt: the server's reply, or `(0, -4)` when the
/// server did not reply.
pub fn login_reply_or_unreachable(reply: Option<(i32, i32)>) -> (res: (i32, i32))
    ensures
        res == spec_login_reply_or_unreachable(reply),
{
    match reply {
        Some(r) => r,
        None => (0, -4),
    }
}

/// What the browser keeps about the signed-in user.
pub struct AccountState {
    pub signed_in: bool,
    pub user_login: String,
    pub connection_id: i32,
    pub user_id: i32,
}

/// The message shown after a login attempt with codes `r`.
pub open spec fn spec_login_message(r: (i32, i32)) -> Seq<char> {
    if login_reply_succeeded(r) {
        "Login successful, connection id "@ + spec_decimal(r.1 as int)
    } else {
        "Login failed, code "@ + spec_decimal(r.1 as int)
    }
}

/// The message shown after a logout attempt that failed with `error`.
pub open spec fn spec_logout_failure_message(connection_id: i32, error: Seq<char>) -> Seq<char> {
    "Tried to logout from session "@ + spec_decimal(connection_id as int) + ". Error: "@ + error
}

impl AccountState {
    /// The state before anyone signs in.
    pub fn signed_out(user_id: i32) -> (res: AccountState)
        ensures
            !res.signed_in,
            res.user_login@ == Seq::<char>::empty(),
            res.connection_id == 0,
            res.user_id == user_id,
    {
        AccountState { signed_in: false, user_login: String::new(), connection_id: 0, user_id }
    }

    /// The greeting and the text of the account button: signed in, the
    /// user's login and "Sign out"; signed out, an invitation and "Sign in".
    pub fn greeting(&self) -> (res: (String, String))
        ensures
            self.signed_in ==> res.0@ == "You are signed in as: "@ + self.user_login@,
            self.signed_in ==> res.1@ == "Sign out"@,
            !self.signed_in ==> res.0@ == "Please, sign in"@,
            !self.signed_in ==> res.1@ == "Sign in"@,
    {
        if self.signed_in {
            let mut m = String::from_str("You are signed in as: ");
            m.append(self.user_login.as_str());
            (m, String::from_str("Sign out"))
        } else {
            (String::from_str("Please, sign in"), String::from_str("Sign in"))
        }
    }

    /// Applies the reply to a login attempt with `candidate_login`: on a
    /// positive connection id the user is signed in under that login, with
    /// the ids of the reply; otherwise nothing changes. Returns the message
    /// to show; on success the typed login is to be cleared.
    pub fn apply_login_reply(&mut self, candidate_login: &str, reply: Option<(i32, i32)>) -> (res:
        String)
        ensures
            ({
                let r = spec_login_reply_or_unreachable(reply);
                &&& res@ == spec_login_message(r)
                &&& login_reply_succeeded(r) ==> {
                    &&& final(self).signed_in
                    &&& final(self).user_login@ == candidate_login@
                    &&& final(self).connection_id == r.1
                    &&& final(self).user_id == r.0
                }
                &&& !login_reply_succeeded(r) ==> *final(self) == *old(self)
            }),
    {
        let r = login_reply_or_unreachable(reply);
        if r.1 > 0 {
            self.connection_id = r.1;
            self.signed_in = true;
            self.user_login = String::from_str(candidate_login);
            self.user_id = r.0;
            let mut m = String::from_str("Login successful, connection id ");
            push_decimal(r.1 as i64, &mut m);
            m
        } else {
            let mut m = String::from_str("Login failed, code ");
            push_decimal(r.1 as i64, &mut m);
            m
        }
    }

    /// Applies the reply to a logout attempt: on success the user is signed
    /// out (login cleared, both ids 0) and the server's message is shown;
    /// on failure nothing changes and the error is reported with the session.
    pub fn apply_logout_reply(&mut self, reply: Result<String, String>) -> (res: String)
        ensures
            reply matches Ok(msg) ==> {
                &&& res@ == msg@
                &&& !final(self).signed_in
                &&& final(self).user_login@ == Seq::<char>::empty()
                &&& final(self).connection_id == 0
                &&& final(self).user_id == 0
            },
            reply matches Err(e) ==> {
                &&& res@ == spec_logout_failure_message(old(self).connection_id, e@)
                &&& *final(self) == *old(self)
            },
    {
        match reply {
            Ok(msg) => {
                self.signed_in = false;
                self.user_login = String::new();
                self.connection_id = 0;
                self.user_id = 0;
                msg
            },
            Err(e) => {
                let mut m = String::from_str("Tried to logout from session ");
                push_decimal(self.connection_id as i64, &mut m);
                m.append(". Error: ");
                m.append(e.as_str());
                m
            },
        }
    }
}

/// What the database answered to a login query.
pub enum LoginQueryOutcome {
    /// No connection to the database could be made.
    ConnectionFailed,
    /// The database refused the login (unknown user or wrong password).
    QueryFailed,
    /// A row came back, with the columns that could be read from it.
    Row { user_id: Option<i32>, connection_id: Option<i32> },
}

/// The codes `(user id, connection id)` the middleware returns for a login:
/// `(0, -1)` without a database connection, `(0, -3)` when the login is
/// refused, and otherwise the row's ids, 0 for a missing user id and -2 for a
/// missing connection id.
pub fn login_codes(outcome: LoginQueryOutcome) -> (res: (i32, i32))
    ensures
        outcome is ConnectionFailed ==> res == (0i32, -1i32),
        outcome is QueryFailed ==> res == (0i32, -3i32),
        outcome matches LoginQueryOutcome::Row { user_id, connection_id } ==> res == (
            match user_id {
                Some(u) => u,
                None => 0i32,
            },
            match connection_id {
                Some(c) => c,
                None => -2i32,
            },
        ),
{
    match outcome {
        LoginQueryOutcome::ConnectionFailed => (0, -1),
        LoginQueryOutcome::QueryFailed => (0, -3),
        LoginQueryOutcome::Row { user_id, connection_id } => {
            let u = match user_id {
                Some(u) => u,
                None => 0,
            };
            let c = match connection_id {
                Some(c) => c,
                None => -2,
            };
            (u, c)
        },
    }
}

/// The save id the middleware returns once connected to the database: the
/// id in the returned row, -2 when the row holds none, -3 when the call failed.
pub fn save_game_code(row: Option<Option<i32>>) -> (res: i32)
    ensures
        row is None ==> res == -3,
        row == Some(None::<i32>) ==> res == -2,
        row matches Some(Some(id)) ==> res == id,
{
    match row {
        None => -3,
        Some(None) => -2,
        Some(Some(id)) => id,
    }
}

/// Sign-up goes ahead exactly when login and password each hold at least
/// four characters; there is no upper bound on either length.
pub proof fn lemma_signup_length_rule(login: Seq<char>, pwd: Seq<char>)
    ensures
        (long_enough(login) && long_enough(pwd)) <==> (login.len() >= 4 && pwd.len() >= 4),
        forall|extra: Seq<char>|
            long_enough(login) ==> #[trigger] long_enough(login + extra),
{
    assert forall|extra: Seq<char>| long_enough(login) implies #[trigger] long_enough(login + extra) by {
        assert((login + extra).len() == login.len() + extra.len());
    }
}

/// A login reply signs the user in exactly when its connection id is
/// positive, for every `i32` connection id; the ids of the reply become the
/// account's ids, and the message names the connection id. A reply with a
/// connection id of 0 or less changes nothing and reports that code.
pub proof fn lemma_login_reply_rule(r: (i32, i32))
    ensures
        login_reply_succeeded(r) <==> r.1 > 0,
        r.1 > 0 ==> spec_login_message(r) == "Login successful, connection id "@ + spec_decimal(
            r.1 as int,
        ),
        r.1 <= 0 ==> spec_login_message(r) == "Login failed, code "@ + spec_decimal(r.1 as int),
        spec_login_reply_or_unreachable(Some(r)) == r,
        spec_login_reply_or_unreachable(None) == (0i32, -4i32),
{
}

/// A lengths message is the prefix, then the login's length in characters as
/// a base-10 numeral, then `, `, then the password's length the same way:
/// the two numerals read back as the two lengths.
pub proof fn lemma_lengths_message_reads_back(prefix: Seq<char>, login: Seq<char>, pwd: Seq<char>)
    ensures
        ({
            let m = spec_lengths_message(prefix, login, pwd);
            let d1 = spec_digits(login.len());
            let d2 = spec_digits(pwd.len());
            let a: int = prefix.len() + d1.len() as int;
            &&& m.take(prefix.len() as int) == prefix
            &&& numeral_value(m.subrange(prefix.len() as int, a)) == login.len()
            &&& forall|i: int| prefix.len() <= i < a ==> is_digit_char(#[trigger] m[i])
            &&& m.subrange(a, a + 2) == seq![',', ' ']
            &&& numeral_value(m.subrange(a + 2, m.len() as int)) == pwd.len()
            &&& m.len() == a + 2 + d2.len()
        }),
{
    reveal_strlit(", ");
    let m = spec_lengths_message(prefix, login, pwd);
    let d1 = spec_digits(login.len());
    let d2 = spec_digits(pwd.len());
    let a: int = prefix.len() + d1.len() as int;
    lemma_digits_numeral(login.len());
    lemma_digits_numeral(pwd.len());
    assert(m.take(prefix.len() as int) =~= prefix);
    assert(m.subrange(prefix.len() as int, a) =~= d1);
    assert forall|i: int| prefix.len() <= i < a implies is_digit_char(#[trigger] m[i]) by {
        assert(m[i] == d1[i - prefix.len()]);
    }
    assert(m.subrange(a, a + 2) =~= seq![',', ' ']);
    assert(m.subrange(a + 2, m.len() as int) =~= d2);
}

/// A failed logout is reported as `Tried to logout from session ` (29
/// characters), the session's connection id in decimal, `. Error: ` (9), and
/// the whole error text, which ends the message.
pub proof fn lemma_logout_failure_message(connection_id: i32, error: Seq<char>)
    ensures
        ({
            let m = spec_logout_failure_message(connection_id, error);
            let d = spec_decimal(connection_id as int);
            &&& m.len() == 29 + d.len() + 9 + error.len()
            &&& m.subrange(29, 29 + d.len() as int) == d
            &&& m.subrange(m.len() - error.len(), m.len() as int) == error
        }),
        connection_id >= 0 ==> numeral_value(spec_decimal(connection_id as int)) == connection_id,
{
    reveal_strlit("Tried to logout from session ");
    reveal_strlit(". Error: ");
    let m = spec_logout_failure_message(connection_id, error);
    let d = spec_decimal(connection_id as int);
    assert(m.subrange(29, 29 + d.len() as int) =~= d);
    assert(m.subrange(m.len() - error.len(), m.len() as int) =~= error);
    lemma_decimal_numeral(connection_id as int);
}

} // verus!
