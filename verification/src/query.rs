//! Selecting the cards that a query is about.

use crate::ocg::OcgQueryInfo;
use vstd::prelude::*;
use vstd::std_specs::convert::FromSpecImpl;

verus! {

/// Which cards a query is about (zone, controller, place in the zone, place
/// among the overlays) and which of their fields it asks for.
#[derive(Debug, Clone, Copy)]
pub struct QueryInfo {
    pub flags: u32,
    pub con: u8,
    pub loc: u32,
    pub seq: u32,
    pub overlay_seq: u32,
}

impl QueryInfo {
    /// The selector as the engine reads it.
    pub open spec fn layout(self) -> OcgQueryInfo {
        OcgQueryInfo {
            flags: self.flags,
            con: self.con,
            loc: self.loc,
            seq: self.seq,
            overlay_seq: self.overlay_seq,
        }
    }
}

impl Default for QueryInfo {
    fn default() -> (info: QueryInfo)
        ensures
            info == (QueryInfo { flags: 0, con: 0, loc: 0, seq: 0, overlay_seq: 0 }),
    {
        QueryInfo { flags: 0, con: 0, loc: 0, seq: 0, overlay_seq: 0 }
    }
}

impl From<QueryInfo> for OcgQueryInfo {
    fn from(val: QueryInfo) -> (layout: OcgQueryInfo) {
        OcgQueryInfo {
            flags: val.flags,
            con: val.con,
            loc: val.loc,
            seq: val.seq,
            overlay_seq: val.overlay_seq,
        }
    }
}

impl FromSpecImpl<QueryInfo> for OcgQueryInfo {
    open spec fn obeys_from_spec() -> bool {
        true
    }

    open spec fn from_spec(val: QueryInfo) -> OcgQueryInfo {
        val.layout()
    }
}

} // verus!
