//! The Command Responder's text: the monospace roster table sent in answer
//! to the on-demand player-list command, and the fixed failure line.

use vstd::prelude::*;
use crate::textfmt::spec_pad_left;
use crate::textfmt::spec_pad_right;
use crate::textfmt::spec_decimal_signed;
use crate::textfmt::spec_play_time;
use crate::textfmt::pad_left;
use crate::textfmt::pad_right;
use crate::textfmt::decimal_string_signed;
use crate::textfmt::play_time_string;

verus! {

/// One connected player, as the game-query collaborator reports it: name,
/// score, and whole seconds of play time.
pub struct PlayerRecord {
    pub name: String,
    pub score: i32,
    pub duration_seconds: u64,
}

/// One table row: the name left-aligned in nine columns, the score
/// right-aligned in seven, the play time, each separated by ` | `.
pub open spec fn spec_roster_row(p: PlayerRecord) -> Seq<char> {
    spec_pad_right(p.name@, 9) + " | "@ + spec_pad_left(spec_decimal_signed(p.score as int), 7)
        + " | "@ + spec_play_time(p.duration_seconds as nat) + "\n"@
}

/// The rows for a roster, in the order the records came.
pub open spec fn spec_roster_rows(ps: Seq<PlayerRecord>) -> Seq<char>
    decreases ps.len(),
{
    if ps.len() == 0 {
        Seq::empty()
    } else {
        spec_roster_rows(ps.drop_last()) + spec_roster_row(ps.last())
    }
}

/// The header above the rows, opening the monospace block.
pub open spec fn spec_roster_header() -> Seq<char> {
    "```\n Player   |   Score | Time\n----------+---------+------------\n"@
}

/// The whole table: header, one row per record, closing fence. An empty
/// roster gives the header-only table.
pub open spec fn spec_roster_table(ps: Seq<PlayerRecord>) -> Seq<char> {
    spec_roster_header() + spec_roster_rows(ps) + "```"@
}

/// The fixed reply when the roster query fails.
pub open spec fn spec_roster_failure_text() -> Seq<char> {
    "Failed to get player information."@
}

/// Formats one table row.
pub fn roster_row(p: &PlayerRecord) -> (s: String)
    ensures
        s@ == spec_roster_row(*p),
{
    let mut s = pad_right(p.name.as_str(), 9);
    s.append(" | ");
    let score = decimal_string_signed(p.score);
    let padded = pad_left(score.as_str(), 7);
    s.append(padded.as_str());
    s.append(" | ");
    let t = play_time_string(p.duration_seconds);
    s.append(t.as_str());
    s.append("\n");
    s
}

/// Formats the whole roster table.
pub fn roster_table(ps: &Vec<PlayerRecord>) -> (s: String)
    ensures
        s@ == spec_roster_table(ps@),
{
    let mut s = String::from_str(
        "```\n Player   |   Score | Time\n----------+---------+------------\n",
    );
    let mut i: usize = 0;
    while i < ps.len()
        invariant
            i <= ps@.len(),
            s@ == spec_roster_header() + spec_roster_rows(ps@.take(i as int)),
        decreases ps@.len() - i,
    {
        let row = roster_row(&ps[i]);
        s.append(row.as_str());
        proof {
            assert(ps@.take(i + 1 as int).drop_last() =~= ps@.take(i as int));
            assert(ps@.take(i + 1 as int).last() == ps@[i as int]);
        }
        i = i + 1;
    }
    proof {
        assert(ps@.take(ps@.len() as int) =~= ps@);
    }
    s.append("```");
    s
}

/// The reply to one invocation of the roster command: the formatted table
/// where the query succeeded, the fixed failure line where it did not. The
/// failure is answered, never propagated.
pub fn roster_response(players: &Option<Vec<PlayerRecord>>) -> (s: String)
    ensures
        match players {
            Some(ps) => s@ == spec_roster_table(ps@),
            None => s@ == spec_roster_failure_text(),
        },
{
    match players {
        Some(ps) => roster_table(ps),
        None => String::from_str("Failed to get player information."),
    }
}

} // verus!
