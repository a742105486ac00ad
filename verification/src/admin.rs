//! Player names as the admin panel shows them.
use vstd::prelude::*;
use vstd::string::*;
use crate::text::{decimal, push_decimal};

verus! {

/// A player as listed in the admin panel.
#[derive(Debug, Clone)]
pub struct PlayerInfo {
    pub id: u32,
    pub name: String,
}

/// The name shown for player `player_id`: the name of the first listed
/// player with that id, else `Player#<id>`.
pub open spec fn player_name_of(player_id: u32, players: Seq<PlayerInfo>) -> Seq<char>
    decreases players.len(),
{
    if players.len() == 0 {
        "Player#"@ + decimal(player_id as nat)
    } else if players[0].id == player_id {
        players[0].name@
    } else {
        player_name_of(player_id, players.drop_first())
    }
}

/// The name shown for player `player_id`.
pub fn get_player_name(player_id: u32, all_players: &[PlayerInfo]) -> (r: String)
    ensures
        r@ == player_name_of(player_id, all_players@),
{
    let n = all_players.len();
    let mut i: usize = 0;
    assert(all_players@.skip(0) =~= all_players@);
    while i < n
        invariant
            n == all_players@.len(),
            i <= n,
            player_name_of(player_id, all_players@.skip(i as int)) == player_name_of(
                player_id,
                all_players@,
            ),
        decreases n - i,
    {
        assert(all_players@.skip(i as int).drop_first() =~= all_players@.skip(i + 1));
        if all_players[i].id == player_id {
            return all_players[i].name.clone();
        }
        i = i + 1;
    }
    assert(all_players@.skip(n as int).len() == 0);
    let mut s = String::from_str("Player#");
    push_decimal(&mut s, player_id);
    s
}

} // verus!
