use vstd::prelude::*;
use vstd::utf8::is_ascii_chars;
use crate::text::{join_texts, push_char, seq_join, texts_of};

verus! {

broadcast use vstd::array::group_array_axioms;

/// A move in UCI notation: four characters (`c6c7`), or five when a
/// promotion piece follows (`e7e8q`).
pub enum UCIstr {
    Move4char([char; 4]),
    Move5char([char; 5]),
}

/// What `UCIstr::new` accepts: four or five characters, all ASCII (a string
/// whose byte length equals its character count).
pub open spec fn valid_uci_text(s: Seq<char>) -> bool {
    &&& (s.len() == 4 || s.len() == 5)
    &&& is_ascii_chars(s)
}

impl View for UCIstr {
    type V = Seq<char>;

    /// The move's characters.
    open spec fn view(&self) -> Seq<char> {
        match self {
            UCIstr::Move4char(a) => a@,
            UCIstr::Move5char(a) => a@,
        }
    }
}

impl UCIstr {
    /// Reads a move from its text; the text is four or five ASCII characters.
    pub fn new(input_str: &str) -> (res: UCIstr)
        requires
            valid_uci_text(input_str@),
        ensures
            res@ == input_str@,
            input_str@.len() == 4 ==> res is Move4char,
            input_str@.len() == 5 ==> res is Move5char,
    {
        if input_str.unicode_len() == 4 {
            let mut a: [char; 4] = ['\0'; 4];
            let mut i: usize = 0;
            while i < 4
                invariant
                    0 <= i <= 4,
                    input_str@.len() == 4,
                    forall|j: int| 0 <= j < i ==> a[j] == input_str@[j],
                decreases 4 - i,
            {
                a[i] = input_str.get_char(i);
                i = i + 1;
            }
            assert(a@ =~= input_str@);
            UCIstr::Move4char(a)
        } else {
            let mut a: [char; 5] = ['\0'; 5];
            let mut i: usize = 0;
            while i < 5
                invariant
                    0 <= i <= 5,
                    input_str@.len() == 5,
                    forall|j: int| 0 <= j < i ==> a[j] == input_str@[j],
                decreases 5 - i,
            {
                a[i] = input_str.get_char(i);
                i = i + 1;
            }
            assert(a@ =~= input_str@);
            UCIstr::Move5char(a)
        }
    }

    /// The move's text.
    pub fn to_string(&self) -> (res: String)
        ensures
            res@ == self@,
    {
        let mut s = String::new();
        match self {
            UCIstr::Move4char(a) => {
                let mut i: usize = 0;
                while i < 4
                    invariant
                        0 <= i <= 4,
                        s@ =~= a@.take(i as int),
                    decreases 4 - i,
                {
                    push_char(&mut s, a[i]);
                    i = i + 1;
                }
            },
            UCIstr::Move5char(a) => {
                let mut i: usize = 0;
                while i < 5
                    invariant
                        0 <= i <= 5,
                        s@ =~= a@.take(i as int),
                    decreases 5 - i,
                {
                    push_char(&mut s, a[i]);
                    i = i + 1;
                }
            },
        }
        s
    }
}

/// A move is determined by its text: two moves that print the same are the
/// same move. With `UCIstr::new` giving back its input text and
/// `UCIstr::to_string` giving the move's text, reading what a move prints
/// gives back that move, and printing a move read from a text gives that text.
pub proof fn lemma_uci_text_determines_move(a: UCIstr, b: UCIstr)
    requires
        a@ == b@,
    ensures
        a == b,
{
    match (a, b) {
        (UCIstr::Move4char(x), UCIstr::Move4char(y)) => {
            assert(x =~= y);
        },
        (UCIstr::Move5char(x), UCIstr::Move5char(y)) => {
            assert(x =~= y);
        },
        (UCIstr::Move4char(x), UCIstr::Move5char(y)) => {
            assert(x@.len() != y@.len());
        },
        (UCIstr::Move5char(x), UCIstr::Move4char(y)) => {
            assert(x@.len() != y@.len());
        },
    }
}

/// One full move of the mini-game: the player's move and the opponent's reply.
pub struct FullMove {
    pub player: UCIstr,
    pub opponent: UCIstr,
}

/// The JSON object saved for one full move, as `FullMove::to_json` writes it.
pub open spec fn spec_move_json(player: Seq<char>, opponent: Seq<char>) -> Seq<char> {
    "{\"player\": \""@ + player + "\", \"opponent\": \""@ + opponent + "\"}"@
}

/// The JSON array saved for a sequence of full moves.
pub open spec fn spec_moves_json(moves: Seq<FullMove>) -> Seq<char> {
    "["@ + seq_join(moves.map_values(|m: FullMove| spec_move_json(m.player@, m.opponent@)), ","@)
        + "]"@
}

impl FullMove {
    /// Builds a full move from the texts of the player's move and of the reply.
    pub fn new(str_player: &str, str_opponent: &str) -> (res: FullMove)
        requires
            valid_uci_text(str_player@),
            valid_uci_text(str_opponent@),
        ensures
            res.player@ == str_player@,
            res.opponent@ == str_opponent@,
    {
        FullMove { player: UCIstr::new(str_player), opponent: UCIstr::new(str_opponent) }
    }

    /// The JSON object `{"player": "<move>", "opponent": "<reply>"}` saved in
    /// the database.
    pub fn to_json(&self) -> (res: String)
        ensures
            res@ == spec_move_json(self.player@, self.opponent@),
    {
        let mut s = String::from_str("{\"player\": \"");
        let p = self.player.to_string();
        s.append(p.as_str());
        s.append("\", \"opponent\": \"");
        let o = self.opponent.to_string();
        s.append(o.as_str());
        s.append("\"}");
        s
    }
}

/// Converts a list of full moves to the JSON array saved in the database:
/// the objects of the moves, in order, separated by commas, in brackets.
pub fn to_json(arr_full_moves: &[FullMove]) -> (res: String)
    ensures
        res@ == spec_moves_json(arr_full_moves@),
{
    let mut objects: Vec<String> = Vec::new();
    let mut i: usize = 0;
    while i < arr_full_moves.len()
        invariant
            0 <= i <= arr_full_moves@.len(),
            objects@.len() == i,
            forall|j: int|
                0 <= j < i ==> (#[trigger] objects@[j])@ == spec_move_json(
                    arr_full_moves@[j].player@,
                    arr_full_moves@[j].opponent@,
                ),
        decreases arr_full_moves@.len() - i,
    {
        objects.push(arr_full_moves[i].to_json());
        i = i + 1;
    }
    let body = join_texts(&objects, ",");
    assert(texts_of(objects@) =~= arr_full_moves@.map_values(
        |m: FullMove| spec_move_json(m.player@, m.opponent@),
    ));
    let mut s = String::from_str("[");
    s.append(body.as_str());
    s.append("]");
    s
}

/// The correct solution of level 1: `c6c7` answered by `d5d6`, then `b6b5`
/// answered by `d6d5`, then `b5b4` answered by `d5d4`.
pub fn solution_lvl1() -> (res: [FullMove; 3])
    ensures
        res[0].player@ == "c6c7"@,
        res[0].opponent@ == "d5d6"@,
        res[1].player@ == "b6b5"@,
        res[1].opponent@ == "d6d5"@,
        res[2].player@ == "b5b4"@,
        res[2].opponent@ == "d5d4"@,
{
    proof {
        reveal_strlit("c6c7");
        reveal_strlit("d5d6");
        reveal_strlit("b6b5");
        reveal_strlit("d6d5");
        reveal_strlit("b5b4");
        reveal_strlit("d5d4");
    }
    [
        FullMove::new("c6c7", "d5d6"),
        FullMove::new("b6b5", "d6d5"),
        FullMove::new("b5b4", "d5d4"),
    ]
}

/// Whether the text the player typed is the expected move of `expected`.
pub fn is_expected_player_move(candidate: &str, expected: &FullMove) -> (res: bool)
    ensures
        res == (candidate@ == expected.player@),
{
    let typed = String::from_str(candidate);
    let wanted = expected.player.to_string();
    typed == wanted
}

/// Appending a move to a list adds a comma and the move's object before the
/// closing bracket of the list's JSON (or, for an empty list, gives the array
/// of that one object).
pub proof fn lemma_moves_json_push(moves: Seq<FullMove>, m: FullMove)
    ensures
        moves.len() == 0 ==> spec_moves_json(moves.push(m)) == "["@ + spec_move_json(
            m.player@,
            m.opponent@,
        ) + "]"@,
        moves.len() > 0 ==> spec_moves_json(moves.push(m)) == spec_moves_json(moves).take(
            spec_moves_json(moves).len() - 1,
        ) + ","@ + spec_move_json(m.player@, m.opponent@) + "]"@,
{
    let f = |x: FullMove| spec_move_json(x.player@, x.opponent@);
    let objs = moves.map_values(f);
    let objs2 = moves.push(m).map_values(f);
    assert(objs2.drop_last() =~= objs);
    assert(objs2.last() == f(m));
    if moves.len() == 0 {
        assert(objs2.len() == 1);
    } else {
        let j = seq_join(objs, ","@);
        assert(spec_moves_json(moves) == "["@ + j + "]"@);
        reveal_strlit("]");
        assert(("["@ + j + "]"@).take(("["@ + j + "]"@).len() - 1) =~= "["@ + j);
        assert(seq_join(objs2, ","@) == j + ","@ + f(m));
        assert(spec_moves_json(moves.push(m)) =~= "["@ + j + ","@ + f(m) + "]"@);
    }
}

/// The JSON object of a full move copies both moves character for
/// character into its two fields: it is `{"player": "` (12 characters), the
/// player's move, `", "opponent": "` (16 characters), the reply, and `"}`.
/// Reading the two fields back at those places gives the two moves.
pub proof fn lemma_move_json_fields(player: Seq<char>, opponent: Seq<char>)
    ensures
        ({
            let j = spec_move_json(player, opponent);
            let a: int = 12 + player.len() as int;
            let b: int = a + 16;
            &&& j.len() == 30 + player.len() + opponent.len()
            &&& j.take(12) == seq!['{', '"', 'p', 'l', 'a', 'y', 'e', 'r', '"', ':', ' ', '"']
            &&& j.subrange(12, a) == player
            &&& j.subrange(a, b) == seq![
                '"', ',', ' ', '"', 'o', 'p', 'p', 'o', 'n', 'e', 'n', 't', '"', ':', ' ', '"',
            ]
            &&& j.subrange(b, b + opponent.len()) == opponent
            &&& j.subrange(b + opponent.len(), j.len() as int) == seq!['"', '}']
        }),
{
    reveal_strlit("{\"player\": \"");
    reveal_strlit("\", \"opponent\": \"");
    reveal_strlit("\"}");
    let j = spec_move_json(player, opponent);
    let a: int = 12 + player.len() as int;
    let b: int = a + 16;
    assert(j.take(12) =~= seq!['{', '"', 'p', 'l', 'a', 'y', 'e', 'r', '"', ':', ' ', '"']);
    assert(j.subrange(12, a) =~= player);
    assert(j.subrange(a, b) =~= seq![
        '"', ',', ' ', '"', 'o', 'p', 'p', 'o', 'n', 'e', 'n', 't', '"', ':', ' ', '"',
    ]);
    assert(j.subrange(b, b + opponent.len()) =~= opponent);
    assert(j.subrange(b + opponent.len(), j.len() as int) =~= seq!['"', '}']);
}

} // verus!
