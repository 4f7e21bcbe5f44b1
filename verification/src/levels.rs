use vstd::prelude::*;
use crate::decimal::{push_decimal, spec_decimal};
use crate::text::{debug_quoted, join_texts, seq_join, spec_debug_quoted, texts_of};

verus! {

/// One level of the game as the database lists it for a user.
#[derive(Debug)]
pub struct LevelInfo {
    pub level_id: i16,
    pub full_fen: String,
    pub goal: String,
    pub won: bool,
}

/// `true` or `false`.
pub open spec fn spec_bool_text(b: bool) -> Seq<char> {
    if b {
        "true"@
    } else {
        "false"@
    }
}

/// The `Debug` text of a level whose two strings are already in their
/// quoted `Debug` form:
/// `LevelInfo { level_id: 1, full_fen: "...", goal: "...", won: false }`.
pub open spec fn spec_level_text(
    level_id: i16,
    quoted_fen: Seq<char>,
    quoted_goal: Seq<char>,
    won: bool,
) -> Seq<char> {
    "LevelInfo { level_id: "@ + spec_decimal(level_id as int) + ", full_fen: "@ + quoted_fen
        + ", goal: "@ + quoted_goal + ", won: "@ + spec_bool_text(won) + " }"@
}

/// The `Debug` text of a level.
pub open spec fn spec_level_debug(l: LevelInfo) -> Seq<char> {
    spec_level_text(l.level_id, spec_debug_quoted(l.full_fen@), spec_debug_quoted(l.goal@), l.won)
}

/// One level shown as an HTML paragraph.
pub open spec fn spec_level_paragraph(l: LevelInfo) -> Seq<char> {
    "<p>"@ + spec_level_debug(l) + "</p>"@
}

/// Writes the `Debug` text of a level from its id, its two strings already
/// quoted, and its `won` flag.
pub fn level_text_from_quoted(level_id: i16, quoted_fen: &str, quoted_goal: &str, won: bool) -> (res:
    String)
    ensures
        res@ == spec_level_text(level_id, quoted_fen@, quoted_goal@, won),
{
    let mut s = String::from_str("LevelInfo { level_id: ");
    push_decimal(level_id as i64, &mut s);
    s.append(", full_fen: ");
    s.append(quoted_fen);
    s.append(", goal: ");
    s.append(quoted_goal);
    s.append(", won: ");
    if won {
        s.append("true");
    } else {
        s.append("false");
    }
    s.append(" }");
    s
}

impl LevelInfo {
    /// The `Debug` text of the level, as `format!("{:?}", level)` writes it.
    pub fn debug_text(&self) -> (res: String)
        ensures
            res@ == spec_level_debug(*self),
    {
        let fen = debug_quoted(self.full_fen.as_str());
        let goal = debug_quoted(self.goal.as_str());
        level_text_from_quoted(self.level_id, fen.as_str(), goal.as_str(), self.won)
    }
}

/// Concatenates levels, surrounding each of them with an HTML paragraph tag,
/// one paragraph per line.
pub fn display_concat_levels_par(lvls: &[LevelInfo]) -> (res: String)
    ensures
        res@ == seq_join(lvls@.map_values(|l: LevelInfo| spec_level_paragraph(l)), "\n"@),
{
    let mut pars: Vec<String> = Vec::new();
    let mut i: usize = 0;
    while i < lvls.len()
        invariant
            0 <= i <= lvls@.len(),
            pars@.len() == i,
            forall|j: int| 0 <= j < i ==> (#[trigger] pars@[j])@ == spec_level_paragraph(lvls@[j]),
        decreases lvls@.len() - i,
    {
        let mut p = String::from_str("<p>");
        let d = lvls[i].debug_text();
        p.append(d.as_str());
        p.append("</p>");
        pars.push(p);
        i = i + 1;
    }
    assert(texts_of(pars@) =~= lvls@.map_values(|l: LevelInfo| spec_level_paragraph(l)));
    join_texts(&pars, "\n")
}

/// The next level to play, if any: the id of the first level in the list
/// that is not won.
pub fn next_unsolved_level(lvls: &[LevelInfo]) -> (res: Option<i16>)
    ensures
        res is None <==> forall|i: int| 0 <= i < lvls@.len() ==> (#[trigger] lvls@[i]).won,
        res matches Some(id) ==> exists|i: int|
            0 <= i < lvls@.len() && !(#[trigger] lvls@[i]).won && lvls@[i].level_id == id && (
            forall|j: int| 0 <= j < i ==> (#[trigger] lvls@[j]).won),
{
    let mut i: usize = 0;
    while i < lvls.len()
        invariant
            0 <= i <= lvls@.len(),
            forall|j: int| 0 <= j < i ==> (#[trigger] lvls@[j]).won,
        decreases lvls@.len() - i,
    {
        if !lvls[i].won {
            return Some(lvls[i].level_id);
        }
        i = i + 1;
    }
    None
}

/// The paragraph of a level is `<p>`, then the level's whole `Debug` text,
/// then `</p>`: `<p>LevelInfo { level_id: ` (25 characters), the decimal id,
/// `, full_fen: ` (12), the whole position quoted as `Debug` quotes a string,
/// `, goal: ` (8), the whole goal quoted the same way, `, won: ` (7), `true`
/// or `false`, and ` }</p>` (6). Reading the fields back at those places
/// gives the id's numeral, the quoted position, the quoted goal (whatever its
/// length) and the flag.
pub proof fn lemma_level_paragraph_fields(l: LevelInfo)
    ensures
        ({
            let p = spec_level_paragraph(l);
            let d = spec_decimal(l.level_id as int);
            let qf = spec_debug_quoted(l.full_fen@);
            let qg = spec_debug_quoted(l.goal@);
            let w = if l.won { seq!['t', 'r', 'u', 'e'] } else { seq!['f', 'a', 'l', 's', 'e'] };
            let a: int = 25 + d.len() as int;
            let b: int = a + 12 + qf.len() as int;
            let c: int = b + 8 + qg.len() as int;
            &&& p.len() == c + 7 + w.len() + 6
            &&& p.take(3) == seq!['<', 'p', '>']
            &&& p.subrange(3, 25) == "LevelInfo { level_id: "@
            &&& p.subrange(25, a) == d
            &&& p.subrange(a, a + 12) == ", full_fen: "@
            &&& p.subrange(b, b + 8) == ", goal: "@
            &&& p.subrange(c, c + 7) == ", won: "@
            &&& p.subrange(p.len() - 6, p.len() - 4) == seq![' ', '}']
            &&& p.subrange(a + 12, b) == qf
            &&& p.subrange(b + 8, c) == qg
            &&& p.subrange(c + 7, c + 7 + w.len() as int) == w
            &&& p.subrange(p.len() - 4, p.len() as int) == seq!['<', '/', 'p', '>']
        }),
{
    reveal_strlit("<p>");
    reveal_strlit("</p>");
    reveal_strlit("LevelInfo { level_id: ");
    reveal_strlit(", full_fen: ");
    reveal_strlit(", goal: ");
    reveal_strlit(", won: ");
    reveal_strlit(" }");
    reveal_strlit("true");
    reveal_strlit("false");
    let p = spec_level_paragraph(l);
    let d = spec_decimal(l.level_id as int);
    let qf = spec_debug_quoted(l.full_fen@);
    let qg = spec_debug_quoted(l.goal@);
    let w = if l.won { seq!['t', 'r', 'u', 'e'] } else { seq!['f', 'a', 'l', 's', 'e'] };
    assert(spec_bool_text(l.won) =~= w);
    let a: int = 25 + d.len() as int;
    let b: int = a + 12 + qf.len() as int;
    let c: int = b + 8 + qg.len() as int;
    assert(p.take(3) =~= seq!['<', 'p', '>']);
    assert(p.subrange(25, a) =~= d);
    assert(p.subrange(3, 25) =~= "LevelInfo { level_id: "@);
    assert(p.subrange(a, a + 12) =~= ", full_fen: "@);
    assert(p.subrange(b, b + 8) =~= ", goal: "@);
    assert(p.subrange(c, c + 7) =~= ", won: "@);
    assert(p.subrange(p.len() - 6, p.len() - 4) =~= seq![' ', '}']);
    assert(p.subrange(a + 12, b) =~= qf);
    assert(p.subrange(b + 8, c) =~= qg);
    assert(p.subrange(c + 7, c + 7 + w.len() as int) =~= w);
    assert(p.subrange(p.len() - 4, p.len() as int) =~= seq!['<', '/', 'p', '>']);
}

} // verus!
