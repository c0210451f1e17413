//! Per-side starting configuration of a duel.

use crate::ocg::OcgPlayer;
use vstd::prelude::*;
use vstd::std_specs::convert::FromSpecImpl;

verus! {

/// Starting life total, starting hand size and cards drawn per turn.
#[derive(Debug, Clone, Copy)]
pub struct Player {
    starting_lp: u32,
    starting_draw_count: u32,
    draw_count_per_turn: u32,
}

impl Player {
    /// The configuration as the engine will see it.
    pub closed spec fn layout(self) -> OcgPlayer {
        OcgPlayer {
            starting_lp: self.starting_lp,
            starting_draw_count: self.starting_draw_count,
            draw_count_per_turn: self.draw_count_per_turn,
        }
    }

    /// The standard rules: 8000 life points, a hand of 5, one draw per turn.
    pub open spec fn standard() -> OcgPlayer {
        OcgPlayer { starting_lp: 8000, starting_draw_count: 5, draw_count_per_turn: 1 }
    }
}

impl Default for Player {
    fn default() -> (player: Player)
        ensures
            player.layout() == Player::standard(),
    {
        Player { starting_lp: 8000, starting_draw_count: 5, draw_count_per_turn: 1 }
    }
}

impl From<Player> for OcgPlayer {
    fn from(val: Player) -> (layout: OcgPlayer) {
        OcgPlayer {
            starting_lp: val.starting_lp,
            starting_draw_count: val.starting_draw_count,
            draw_count_per_turn: val.draw_count_per_turn,
        }
    }
}

impl FromSpecImpl<Player> for OcgPlayer {
    open spec fn obeys_from_spec() -> bool {
        true
    }

    open spec fn from_spec(val: Player) -> OcgPlayer {
        val.layout()
    }
}

} // verus!
