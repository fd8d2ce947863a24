//! The Presence Poller's text: what the chat-platform status line reads on
//! each poll tick, for a reachable and for an unreachable game server.

use vstd::prelude::*;
use crate::textfmt::spec_decimal;
use crate::textfmt::decimal_string;

verus! {

/// A fresh snapshot of a game server's state, fetched on one poll tick and
/// never cached across ticks.
pub struct ServerInfo {
    pub players: u64,
    pub max_players: u64,
    pub map_name: String,
}

/// The status line for a reachable server.
pub open spec fn spec_presence_text(players: nat, max_players: nat, map_name: Seq<char>) -> Seq<
    char,
> {
    "Playing "@ + spec_decimal(players) + "/"@ + spec_decimal(max_players) + " on map: "@
        + map_name
}

/// The status line for an unreachable server.
pub open spec fn spec_offline_text() -> Seq<char> {
    "Server Offline"@
}

/// The text a worker pushes as its presence after one poll: the player count,
/// capacity and map of a reachable server, or the fixed offline line where
/// the query failed. A failed query is an expected outcome, not an error.
pub fn presence_text(info: &Option<ServerInfo>) -> (s: String)
    ensures
        match info {
            Some(i) => s@ == spec_presence_text(i.players as nat, i.max_players as nat, i.map_name@),
            None => s@ == spec_offline_text(),
        },
{
    match info {
        Some(i) => {
            let mut s = String::from_str("Playing ");
            let p = decimal_string(i.players);
            s.append(p.as_str());
            s.append("/");
            let m = decimal_string(i.max_players);
            s.append(m.as_str());
            s.append(" on map: ");
            s.append(i.map_name.as_str());
            s
        },
        None => String::from_str("Server Offline"),
    }
}

} // verus!
