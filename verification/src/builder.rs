//! Configuring a duel, and the callbacks the engine is given with it.

use crate::card::{
    carries, first_zero, is_terminated, lemma_decode_of_encoding, lemma_encoding_len,
    lemma_first_zero_is, terminated_len, CardData, CardDataView,
};
use crate::duel::Duel;
use crate::error::DuelError;
use crate::handler::{CardHandler, CardReadDoneHandler, LogHandler, ScriptHandler};
use crate::ocg::{OcgCardData, OcgDuelOptions, OcgPlayer};
use crate::player::Player;
use vstd::prelude::*;

verus! {

/// Which of the four callbacks were set. One that was not set is stood in
/// for: every card is blank but for its code, no script can be loaded, and
/// log lines and read-done notices are dropped.
pub struct HandlerSet {
    pub card: bool,
    pub script: bool,
    pub log: bool,
    pub card_read_done: bool,
}

/// What the engine is told of the outcome of a script handler: 1 when the
/// script was loaded, 0 when it was not.
pub open spec fn loader_status_of(loaded: bool) -> i32 {
    if loaded {
        1
    } else {
        0
    }
}

/// Turns the outcome of a script handler into the engine's terms.
pub fn loader_status(outcome: &Result<(), DuelError>) -> (status: i32)
    ensures
        status == loader_status_of(outcome is Ok),
{
    match outcome {
        Ok(_) => 1,
        Err(_) => 0,
    }
}

/// Answers the engine's requests for card descriptors.
pub struct CardReader {
    handler: Option<Box<dyn CardHandler>>,
}

impl CardReader {
    /// A card handler was set.
    pub closed spec fn is_set(&self) -> bool {
        self.handler is Some
    }

    /// Answers the engine's request for the card `code`.
    ///
    /// The record that comes back owns the buffer of the card's set codes,
    /// which is exactly as long as a scan for its terminator finds it to be.
    /// It is the engine's until the engine reports the card as read.
    pub fn read_card(&mut self, code: u32) -> (layout: OcgCardData)
        ensures
            final(self).is_set() == old(self).is_set(),
            is_terminated(layout.setcodes@),
            first_zero(layout.setcodes@) + 1 == layout.setcodes@.len(),
            !old(self).is_set() ==> carries(layout, CardDataView::blank(code)) && layout.setcodes@
                == seq![0u16],
    {
        let card = match &mut self.handler {
            Some(handler) => handler.read_card(code),
            None => CardData::blank(code),
        };
        let layout = card.into_ocg_carddata_leaky();
        proof {
            lemma_decode_of_encoding(layout.setcodes@, card@.setcodes);
            if !old(self).is_set() {
                lemma_encoding_len(layout.setcodes@, card@.setcodes);
                assert(card@.setcodes.remove(0) =~= Set::<u16>::empty());
                assert(layout.setcodes@ =~= seq![0u16]);
            }
        }
        layout
    }
}

/// Answers the engine's requests to load a script.
pub struct ScriptReader {
    handler: Option<Box<dyn ScriptHandler>>,
}

impl ScriptReader {
    /// A script handler was set.
    pub closed spec fn is_set(&self) -> bool {
        self.handler is Some
    }

    /// Answers the engine's request to load the script `name` into the duel
    /// that the engine names by `handle`.
    ///
    /// The engine may ask while it still creates the duel. So `duel` is bound
    /// to `handle` first, and only then is the script handler called, with
    /// the duel that is now bound. A null handle names no duel: then nothing
    /// is bound, no handler is called, and the engine is told of a failure.
    pub fn load_script(&mut self, duel: &mut Duel, handle: usize, name: &str) -> (status: i32)
        ensures
            final(self).is_set() == old(self).is_set(),
            handle == 0 ==> status == 0 && final(duel).handle() == old(duel).handle(),
            handle != 0 ==> final(duel).handle() == handle,
            status == 0 || status == 1,
            !old(self).is_set() ==> status == 0,
    {
        if !duel.bind(handle) {
            return 0;
        }
        match &mut self.handler {
            Some(handler) => {
                let outcome = handler.load_script(duel, name);
                loader_status(&outcome)
            },
            None => 0,
        }
    }
}

/// Receives the engine's diagnostic lines.
pub struct LogReceiver {
    handler: Option<Box<dyn LogHandler>>,
}

impl LogReceiver {
    /// A log handler was set.
    pub closed spec fn is_set(&self) -> bool {
        self.handler is Some
    }

    /// Passes a line on to the log handler, if there is one.
    pub fn log(&mut self, msg: &str, msg_type: i32)
        ensures
            final(self).is_set() == old(self).is_set(),
            old(self).keeps_account() ==> final(self).keeps_account() && final(self).lines()
                == old(self).lines().push((msg@, msg_type)),
            !old(self).is_set() ==> final(self).lines() == old(self).lines(),
    {
        match &mut self.handler {
            Some(handler) => handler.log(msg, msg_type),
            None => {},
        }
    }

    /// A log handler was set, and it keeps account of the lines it is
    /// given.
    pub closed spec fn keeps_account(&self) -> bool {
        match self.handler {
            Some(handler) => handler.keeps_account(),
            None => false,
        }
    }

    /// The lines that the log handler has been given, the oldest first, if
    /// there is one and it keeps account of them.
    pub closed spec fn lines(&self) -> Seq<(Seq<char>, i32)> {
        match self.handler {
            Some(handler) => handler.lines(),
            None => Seq::empty(),
        }
    }
}

/// Takes back the descriptors that the engine has read.
pub struct CardReaderDone {
    handler: Option<Box<dyn CardReadDoneHandler>>,
}

impl CardReaderDone {
    /// A read-done handler was set.
    pub closed spec fn is_set(&self) -> bool {
        self.handler is Some
    }

    /// Takes back a descriptor that the engine has read: tells the read-done
    /// handler what the descriptor was, and says how many words the buffer of
    /// its set codes has, terminator included, so that exactly that buffer is
    /// released. A buffer without a terminator is none of this library's;
    /// then nothing is to be released.
    pub fn card_read_done(&mut self, layout: &OcgCardData) -> (release: Option<usize>)
        ensures
            final(self).is_set() == old(self).is_set(),
            release is Some <==> first_zero(layout.setcodes@) < layout.setcodes@.len(),
            release matches Some(len) ==> len == first_zero(layout.setcodes@) + 1,
            is_terminated(layout.setcodes@) ==> release == Some(layout.setcodes@.len() as usize),
    {
        let card = CardData::from_layout(layout);
        let release = terminated_len(layout.setcodes.as_slice());
        match &mut self.handler {
            Some(handler) => handler.card_read_done(&card),
            None => {},
        }
        proof {
            if is_terminated(layout.setcodes@) {
                lemma_first_zero_is(layout.setcodes@, layout.setcodes@.len() - 1);
            }
        }
        release
    }
}

/// What it takes to create a duel: the options for the engine, the four
/// callbacks to register with it, and the duel that waits to be bound.
///
/// The callbacks are the duel's for as long as it exists: the engine is given
/// them once, at creation, and calls them until the duel is destroyed.
pub struct DuelRequest {
    pub options: OcgDuelOptions,
    pub card_reader: CardReader,
    pub script_reader: ScriptReader,
    pub log_handler: LogReceiver,
    pub card_reader_done: CardReaderDone,
    pub duel: Duel,
}

impl DuelRequest {
    /// Which callbacks were set.
    pub open spec fn handlers(&self) -> HandlerSet {
        HandlerSet {
            card: self.card_reader.is_set(),
            script: self.script_reader.is_set(),
            log: self.log_handler.is_set(),
            card_read_done: self.card_reader_done.is_set(),
        }
    }
}

/// Collects the configuration of a duel.
pub struct DuelBuilder {
    card_reader: CardReader,
    script_reader: ScriptReader,
    log_handler: LogReceiver,
    card_reader_done: CardReaderDone,
    seed: [u64; 4],
    flags: u64,
    team_1: Player,
    team_2: Player,
    enable_unsafe_libraries: bool,
}

impl DuelBuilder {
    /// The options that the engine will be given.
    pub closed spec fn options(&self) -> OcgDuelOptions {
        OcgDuelOptions {
            seed: self.seed,
            flags: self.flags,
            team1: self.team_1.layout(),
            team2: self.team_2.layout(),
            enable_unsafe_libraries: if self.enable_unsafe_libraries {
                1
            } else {
                0
            },
        }
    }

    /// Which callbacks were set.
    pub closed spec fn handlers(&self) -> HandlerSet {
        HandlerSet {
            card: self.card_reader.is_set(),
            script: self.script_reader.is_set(),
            log: self.log_handler.is_set(),
            card_read_done: self.card_reader_done.is_set(),
        }
    }

    /// The options of a builder that nothing was set on: a seed of zeros, no
    /// rule flags, both sides under the standard rules, and scripts allowed
    /// to use the libraries that reach outside the engine.
    pub open spec fn initial(options: OcgDuelOptions) -> bool {
        &&& options.seed@ == seq![0u64, 0u64, 0u64, 0u64]
        &&& options.flags == 0
        &&& options.team1 == Player::standard()
        &&& options.team2 == Player::standard()
        &&& options.enable_unsafe_libraries == 1
    }

    /// A builder with no callback set and the initial options.
    pub fn new() -> (builder: DuelBuilder)
        ensures
            DuelBuilder::initial(builder.options()),
            builder.handlers() == (HandlerSet {
                card: false,
                script: false,
                log: false,
                card_read_done: false,
            }),
    {
        DuelBuilder {
            card_reader: CardReader { handler: None },
            script_reader: ScriptReader { handler: None },
            log_handler: LogReceiver { handler: None },
            card_reader_done: CardReaderDone { handler: None },
            seed: [0u64, 0u64, 0u64, 0u64],
            flags: 0,
            team_1: Player::default(),
            team_2: Player::default(),
            enable_unsafe_libraries: true,
        }
    }

    /// Sets the card handler. Without one, every card is blank but for its
    /// code.
    pub fn set_card_handler<F>(&mut self, callback: F) where F: CardHandler, F: 'static
        ensures
            final(self).options() == old(self).options(),
            final(self).handlers() == (HandlerSet { card: true, ..old(self).handlers() }),
    {
        self.card_reader.handler = Some(Box::new(callback));
    }

    /// Sets the script handler. Without one, no script can be loaded.
    pub fn set_script_handler<F>(&mut self, callback: F) where F: ScriptHandler, F: 'static
        ensures
            final(self).options() == old(self).options(),
            final(self).handlers() == (HandlerSet { script: true, ..old(self).handlers() }),
    {
        self.script_reader.handler = Some(Box::new(callback));
    }

    /// Sets the log handler. Without one, the engine's log lines are dropped.
    pub fn set_log_handler<F>(&mut self, callback: F) where F: LogHandler, F: 'static
        ensures
            final(self).options() == old(self).options(),
            final(self).handlers() == (HandlerSet { log: true, ..old(self).handlers() }),
    {
        self.log_handler.handler = Some(Box::new(callback));
    }

    /// Sets the read-done handler. Without one, nothing more happens when the
    /// engine has read a card.
    ///
    /// The buffer of the card's set codes is released in any case; a handler
    /// has no part in that.
    pub fn set_card_read_done_handler<F>(&mut self, callback: F) where
        F: CardReadDoneHandler,
        F: 'static,

        ensures
            final(self).options() == old(self).options(),
            final(self).handlers() == (HandlerSet { card_read_done: true, ..old(self).handlers() }),
    {
        self.card_reader_done.handler = Some(Box::new(callback));
    }

    /// Sets the seed of the engine's random numbers.
    pub fn set_seed(&mut self, seed: [u64; 4])
        ensures
            final(self).options() == (OcgDuelOptions { seed, ..old(self).options() }),
            final(self).handlers() == old(self).handlers(),
    {
        self.seed = seed;
    }

    /// Sets the rule flags.
    pub fn set_flags(&mut self, flags: u64)
        ensures
            final(self).options() == (OcgDuelOptions { flags, ..old(self).options() }),
            final(self).handlers() == old(self).handlers(),
    {
        self.flags = flags;
    }

    /// Sets the starting configuration of the first side.
    pub fn set_team_1(&mut self, player: Player)
        ensures
            final(self).options() == (OcgDuelOptions {
                team1: player.layout(),
                ..old(self).options()
            }),
            final(self).handlers() == old(self).handlers(),
    {
        self.team_1 = player;
    }

    /// Sets the starting configuration of the second side.
    pub fn set_team_2(&mut self, player: Player)
        ensures
            final(self).options() == (OcgDuelOptions {
                team2: player.layout(),
                ..old(self).options()
            }),
            final(self).handlers() == old(self).handlers(),
    {
        self.team_2 = player;
    }

    /// Allows or forbids scripts the libraries that reach outside the engine.
    pub fn set_enable_unsafe_libraries(&mut self, enable: bool)
        ensures
            final(self).options() == (OcgDuelOptions {
                enable_unsafe_libraries: if enable {
                    1u8
                } else {
                    0u8
                },
                ..old(self).options()
            }),
            final(self).handlers() == old(self).handlers(),
    {
        self.enable_unsafe_libraries = enable;
    }

    /// Ends the configuration. What comes back is all that the creation of
    /// the duel takes; `Duel::complete` turns the engine's answer into the
    /// duel.
    pub fn build(self) -> (request: DuelRequest)
        ensures
            request.options == self.options(),
            request.handlers() == self.handlers(),
            !request.duel.is_bound(),
    {
        DuelRequest {
            options: OcgDuelOptions {
                seed: self.seed,
                flags: self.flags,
                team1: OcgPlayer::from(self.team_1),
                team2: OcgPlayer::from(self.team_2),
                enable_unsafe_libraries: if self.enable_unsafe_libraries {
                    1
                } else {
                    0
                },
            },
            card_reader: self.card_reader,
            script_reader: self.script_reader,
            log_handler: self.log_handler,
            card_reader_done: self.card_reader_done,
            duel: Duel::pending(),
        }
    }
}

impl Default for DuelBuilder {
    fn default() -> (builder: DuelBuilder)
        ensures
            DuelBuilder::initial(builder.options()),
            builder.handlers() == (HandlerSet {
                card: false,
                script: false,
                log: false,
                card_read_done: false,
            }),
    {
        DuelBuilder::new()
    }
}

} // verus!
