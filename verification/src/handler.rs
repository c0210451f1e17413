//! The four callbacks that a duel is created with, and what stands in for
//! one that was not set.
//!
//! The engine keeps calling them for as long as the duel exists, on the
//! thread that drives the duel and from within the call that drives it.

use crate::card::CardData;
use crate::duel::Duel;
use crate::error::DuelError;
use vstd::prelude::*;

verus! {

/// Supplies the descriptor of a card.
///
/// The engine asks once for each code it meets and expects the same answer
/// should it ask again.
pub trait CardHandler {
    fn read_card(&mut self, code: u32) -> CardData;
}

/// Loads the script of a given name into the duel it is handed, and says
/// whether that worked. It is only ever handed a duel that is bound.
pub trait ScriptHandler {
    fn load_script(&mut self, duel: &Duel, name: &str) -> Result<(), DuelError>
        requires
            duel.is_bound(),
    ;
}

/// Receives the engine's diagnostic lines, each with the kind of the line.
///
/// A handler may keep account of the lines it is given. For one that does,
/// `log` adds the line it is given to the account and nothing else; of one
/// that does not, nothing is said.
pub trait LogHandler {
    /// The handler keeps account of the lines it is given.
    open spec fn keeps_account(&self) -> bool {
        false
    }

    /// The lines that the handler has been given, the oldest first, if it
    /// keeps account of them.
    open spec fn lines(&self) -> Seq<(Seq<char>, i32)> {
        Seq::empty()
    }

    fn log(&mut self, msg: &str, msg_type: i32)
        ensures
            old(self).keeps_account() ==> final(self).keeps_account() && final(self).lines()
                == old(self).lines().push((msg@, msg_type)),
    ;
}

/// Is told that the engine has read a descriptor, once for each descriptor
/// that the card handler supplied.
pub trait CardReadDoneHandler {
    fn card_read_done(&mut self, card: &CardData);
}

} // verus!
