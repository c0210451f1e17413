use ocg_duel::builder::loader_status;
use ocg_duel::ocg::{OcgCardData, OcgPlayer};
use ocg_duel::{
    CardData, CardHandler, CardReadDoneHandler, Duel, DuelBuilder, DuelError, LogHandler,
    NewCardInfo, Player, ScriptHandler,
};
use std::cell::RefCell;
use std::collections::HashSet;
use std::rc::Rc;

fn set_of(codes: &[u16]) -> HashSet<u16> {
    codes.iter().copied().collect()
}

/// Answers every request with one card, under the code that was asked for.
struct OneCard {
    card: CardData,
}

impl CardHandler for OneCard {
    fn read_card(&mut self, code: u32) -> CardData {
        self.card.code = code;
        self.card.clone()
    }
}

/// Keeps every card that the engine reports as read.
struct ReadCards {
    cards: Rc<RefCell<Vec<CardData>>>,
}

impl CardReadDoneHandler for ReadCards {
    fn card_read_done(&mut self, card: &CardData) {
        self.cards.borrow_mut().push(card.clone());
    }
}

/// Keeps every log line.
struct Lines {
    lines: Rc<RefCell<Vec<(String, i32)>>>,
}

impl LogHandler for Lines {
    fn log(&mut self, msg: &str, msg_type: i32) {
        self.lines.borrow_mut().push((msg.to_owned(), msg_type));
    }
}

/// Knows one script; keeps the handle of every duel it was called for.
struct OneScript {
    known: &'static str,
    handles: Rc<RefCell<Vec<usize>>>,
}

impl ScriptHandler for OneScript {
    fn load_script(&mut self, duel: &Duel, name: &str) -> Result<(), DuelError> {
        self.handles.borrow_mut().push(duel.get_raw_ptr());
        if name == self.known {
            Ok(())
        } else {
            Err(DuelError::ScriptLoadFailure(name.to_owned()))
        }
    }
}

#[test]
fn test_new_card_duel() {
    let mut duel_builder = DuelBuilder::default();
    let setcodes = set_of(&[1]);
    let card_data = CardData {
        code: 100,
        alias: 1,
        setcodes: setcodes.clone(),
        card_type: 1,
        level: 1,
        attribute: 1,
        race: 1,
        attack: 1,
        defense: 1,
        lscale: 1,
        rscale: 1,
        link_marker: 1,
    };
    let read = Rc::new(RefCell::new(Vec::new()));
    duel_builder.set_card_handler(OneCard { card: card_data.clone() });
    duel_builder.set_card_read_done_handler(ReadCards { cards: read.clone() });
    let mut request = duel_builder.build();
    let info = NewCardInfo { team: 1, duelist: 1, code: card_data.code, con: 1, loc: 1, seq: 1, pos: 1 };

    // What the engine does with a new card: it asks for the card's
    // descriptor, reads it, and reports it as read.
    let layout = request.card_reader.read_card(info.code);
    let release = request.card_reader_done.card_read_done(&layout);

    assert_eq!(release, Some(layout.setcodes.len()));
    let read = read.borrow();
    assert_eq!(read.len(), 1);
    let card = &read[0];
    assert!(card.code == card_data.code);
    assert!(card.alias == card_data.alias);
    assert!(card.setcodes.len() == card_data.setcodes.len());
    for setcode in card.setcodes.iter() {
        assert!(&setcodes.contains(setcode))
    }
    assert!(card.card_type == card_data.card_type);
    assert!(card.level == card_data.level);
    assert!(card.attribute == card_data.attribute);
    assert!(card.race == card_data.race);
    assert!(card.attack == card_data.attack);
    assert!(card.defense == card_data.defense);
    assert!(card.lscale == card_data.lscale);
    assert!(card.rscale == card_data.rscale);
    assert!(card.link_marker == card_data.link_marker);
}

#[test]
fn new_builder_has_the_initial_options() {
    let options = DuelBuilder::new().build().options;
    let standard = OcgPlayer { starting_lp: 8000, starting_draw_count: 5, draw_count_per_turn: 1 };
    assert_eq!(options.seed, [0u64; 4]);
    assert_eq!(options.flags, 0);
    assert_eq!(options.team1, standard);
    assert_eq!(options.team2, standard);
    assert_eq!(options.enable_unsafe_libraries, 1);
}

#[test]
fn setters_change_what_they_name() {
    let mut builder = DuelBuilder::new();
    builder.set_seed([1, 2, 3, 4]);
    builder.set_flags(0x0050_0000_0000);
    builder.set_team_1(Player::default());
    builder.set_team_2(Player::default());
    builder.set_enable_unsafe_libraries(false);
    let options = builder.build().options;
    assert_eq!(options.seed, [1u64, 2, 3, 4]);
    assert_eq!(options.flags, 0x0050_0000_0000);
    assert_eq!(options.team1, OcgPlayer::from(Player::default()));
    assert_eq!(options.team2.starting_lp, 8000);
    assert_eq!(options.enable_unsafe_libraries, 0);
}

#[test]
fn built_duel_waits_for_its_handle() {
    let request = DuelBuilder::new().build();
    assert_eq!(request.duel.get_raw_ptr(), 0);
}

#[test]
fn without_a_card_handler_every_card_is_blank() {
    let mut card_reader = DuelBuilder::new().build().card_reader;
    let layout = card_reader.read_card(70095154);
    assert_eq!(layout.code, 70095154);
    assert_eq!(layout.alias, 0);
    assert_eq!(layout.setcodes, vec![0u16]);
    assert_eq!(layout.type_, 0);
    assert_eq!(layout.level, 0);
    assert_eq!(layout.attribute, 0);
    assert_eq!(layout.race, 0);
    assert_eq!(layout.attack, 0);
    assert_eq!(layout.defense, 0);
    assert_eq!(layout.lscale, 0);
    assert_eq!(layout.rscale, 0);
    assert_eq!(layout.link_marker, 0);
}

#[test]
fn card_handler_decides_the_card() {
    let mut builder = DuelBuilder::new();
    let mut card = CardData::blank(0);
    card.attack = 2100;
    card.setcodes = set_of(&[0, 0x93]);
    builder.set_card_handler(OneCard { card });
    let mut card_reader = builder.build().card_reader;
    let layout = card_reader.read_card(70095154);
    assert_eq!(layout.code, 70095154);
    assert_eq!(layout.attack, 2100);
    assert_eq!(layout.setcodes, vec![0x93u16, 0]);
}

#[test]
fn without_a_script_handler_no_script_loads() {
    let request = DuelBuilder::new().build();
    let mut script_reader = request.script_reader;
    let mut duel = request.duel;
    assert_eq!(script_reader.load_script(&mut duel, 0x5000, "constants.lua"), 0);
    assert_eq!(duel.get_raw_ptr(), 0x5000);
}

#[test]
fn script_handler_is_given_the_bound_duel() {
    let handles = Rc::new(RefCell::new(Vec::new()));
    let mut builder = DuelBuilder::new();
    builder.set_script_handler(OneScript { known: "constants.lua", handles: handles.clone() });
    let request = builder.build();
    let mut script_reader = request.script_reader;
    let mut duel = request.duel;
    assert_eq!(duel.get_raw_ptr(), 0);
    assert_eq!(script_reader.load_script(&mut duel, 0x5000, "constants.lua"), 1);
    assert_eq!(duel.get_raw_ptr(), 0x5000);
    assert_eq!(script_reader.load_script(&mut duel, 0x5000, "missing.lua"), 0);
    assert_eq!(duel.get_raw_ptr(), 0x5000);
    assert_eq!(*handles.borrow(), vec![0x5000usize, 0x5000]);
}

#[test]
fn script_handler_is_not_called_for_a_null_handle() {
    let handles = Rc::new(RefCell::new(Vec::new()));
    let mut builder = DuelBuilder::new();
    builder.set_script_handler(OneScript { known: "constants.lua", handles: handles.clone() });
    let request = builder.build();
    let mut script_reader = request.script_reader;
    let mut duel = request.duel;
    assert_eq!(script_reader.load_script(&mut duel, 0, "constants.lua"), 0);
    assert_eq!(duel.get_raw_ptr(), 0);
    assert!(handles.borrow().is_empty());
}

#[test]
fn loader_status_is_one_for_success_and_zero_for_failure() {
    assert_eq!(loader_status(&Ok(())), 1);
    assert_eq!(loader_status(&Err(DuelError::ScriptLoadFailure("x".to_owned()))), 0);
    assert_eq!(loader_status(&Err(DuelError::NulError(3))), 0);
}

#[test]
fn log_handler_gets_the_line_and_its_kind() {
    let lines = Rc::new(RefCell::new(Vec::new()));
    let mut builder = DuelBuilder::new();
    builder.set_log_handler(Lines { lines: lines.clone() });
    let mut log_handler = builder.build().log_handler;
    log_handler.log("script error", 0);
    log_handler.log("for debug", 2);
    assert_eq!(*lines.borrow(), vec![("script error".to_owned(), 0), ("for debug".to_owned(), 2)]);
}

#[test]
fn without_a_log_handler_lines_are_dropped() {
    let mut log_handler = DuelBuilder::new().build().log_handler;
    log_handler.log("script error", 0);
}

#[test]
fn read_done_gives_the_length_to_release() {
    let mut card_reader_done = DuelBuilder::new().build().card_reader_done;
    let layout = OcgCardData {
        code: 1,
        alias: 0,
        setcodes: vec![4, 5, 6, 0],
        type_: 0,
        level: 0,
        attribute: 0,
        race: 0,
        attack: 0,
        defense: 0,
        lscale: 0,
        rscale: 0,
        link_marker: 0,
    };
    assert_eq!(card_reader_done.card_read_done(&layout), Some(4));
    let unterminated = OcgCardData { setcodes: vec![4, 5], ..layout.clone() };
    assert_eq!(card_reader_done.card_read_done(&unterminated), None);
}

#[test]
fn read_done_handler_sees_the_card_without_zero() {
    let read = Rc::new(RefCell::new(Vec::new()));
    let mut builder = DuelBuilder::new();
    let mut card = CardData::blank(0);
    card.setcodes = set_of(&[0, 7, 8]);
    builder.set_card_handler(OneCard { card });
    builder.set_card_read_done_handler(ReadCards { cards: read.clone() });
    let mut request = builder.build();
    let layout = request.card_reader.read_card(55);
    assert_eq!(request.card_reader_done.card_read_done(&layout), Some(3));
    assert_eq!(read.borrow().len(), 1);
    assert_eq!(read.borrow()[0].code, 55);
    assert_eq!(read.borrow()[0].setcodes, set_of(&[7, 8]));
}
