//! Host-side session layer for a card-game simulation engine: value types and
//! their fixed-layout counterparts, framing of engine buffers, and the rules
//! that govern a duel's life cycle.

pub mod buffer;
pub mod builder;
pub mod card;
pub mod common;
pub mod duel;
pub mod error;
pub mod handler;
pub mod ocg;
pub mod player;
pub mod protocol;
pub mod query;
pub mod script;

pub use crate::builder::{
    loader_status, CardReader, CardReaderDone, DuelBuilder, DuelRequest, HandlerSet, LogReceiver,
    ScriptReader,
};
pub use crate::card::{CardData, CardDataView, NewCardInfo};
pub use crate::duel::{Duel, DuelCreationError, DuelStatus};
pub use crate::error::DuelError;
pub use crate::handler::{CardHandler, CardReadDoneHandler, LogHandler, ScriptHandler};
pub use crate::player::Player;
pub use crate::protocol::{DuelCall, DuelPhase};
pub use crate::query::QueryInfo;
