//! The fixed-layout records and status codes that cross the engine boundary.
//!
//! Every record here is plain data. A host value is converted into its record
//! right before it is handed to the engine, and a record that the engine fills
//! is converted back right after.

use vstd::prelude::*;

verus! {

/// The duel has ended.
pub const OCG_DUEL_STATUS_END: i32 = 0;

/// The engine waits for a response.
pub const OCG_DUEL_STATUS_AWAITING: i32 = 1;

/// The engine can be advanced again at once.
pub const OCG_DUEL_STATUS_CONTINUE: i32 = 2;

/// A duel was created.
pub const OCG_DUEL_CREATION_SUCCESS: i32 = 0;

/// The engine was given no place to put the new duel.
pub const OCG_DUEL_CREATION_NO_OUTPUT: i32 = 1;

/// The engine could not create the duel.
pub const OCG_DUEL_CREATION_NOT_CREATED: i32 = 2;

/// No card reader was registered.
pub const OCG_DUEL_CREATION_NULL_DATA_READER: i32 = 3;

/// No script reader was registered.
pub const OCG_DUEL_CREATION_NULL_SCRIPT_READER: i32 = 4;

/// One side's starting configuration.
#[derive(Debug, Clone, Copy, PartialEq, Eq, Structural)]
pub struct OcgPlayer {
    pub starting_lp: u32,
    pub starting_draw_count: u32,
    pub draw_count_per_turn: u32,
}

/// Where a new card is put.
#[derive(Debug, Clone, Copy, PartialEq, Eq, Structural)]
pub struct OcgNewCardInfo {
    pub team: u8,
    pub duelist: u8,
    pub code: u32,
    pub con: u8,
    pub loc: u32,
    pub seq: u32,
    pub pos: u32,
}

/// Which cards a query is about, and which of their fields it asks for.
#[derive(Debug, Clone, Copy, PartialEq, Eq, Structural)]
pub struct OcgQueryInfo {
    pub flags: u32,
    pub con: u8,
    pub loc: u32,
    pub seq: u32,
    pub overlay_seq: u32,
}

/// A card descriptor. `setcodes` is the zero-terminated buffer of its set
/// codes; whoever holds the record owns that buffer.
#[derive(Debug)]
pub struct OcgCardData {
    pub code: u32,
    pub alias: u32,
    pub setcodes: Vec<u16>,
    pub type_: u32,
    pub level: u32,
    pub attribute: u32,
    pub race: u64,
    pub attack: i32,
    pub defense: i32,
    pub lscale: u32,
    pub rscale: u32,
    pub link_marker: u32,
}

impl Clone for OcgCardData {
    fn clone(&self) -> (layout: OcgCardData)
        ensures
            layout.setcodes@ == self.setcodes@,
            (OcgCardData { setcodes: self.setcodes, ..layout }) == *self,
    {
        OcgCardData {
            code: self.code,
            alias: self.alias,
            setcodes: self.setcodes.clone(),
            type_: self.type_,
            level: self.level,
            attribute: self.attribute,
            race: self.race,
            attack: self.attack,
            defense: self.defense,
            lscale: self.lscale,
            rscale: self.rscale,
            link_marker: self.link_marker,
        }
    }
}

/// What the engine is told when a duel is created, the callbacks aside.
#[derive(Debug, Clone, Copy)]
pub struct OcgDuelOptions {
    pub seed: [u64; 4],
    pub flags: u64,
    pub team1: OcgPlayer,
    pub team2: OcgPlayer,
    pub enable_unsafe_libraries: u8,
}

} // verus!
