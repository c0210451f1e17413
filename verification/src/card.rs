//! Card descriptors, card placements, and the zero-terminated buffer that
//! carries a descriptor's set codes to the engine and back.

use crate::ocg::{OcgCardData, OcgNewCardInfo};
use std::collections::HashSet;
use vstd::prelude::*;
use vstd::std_specs::convert::FromSpecImpl;
use vstd::std_specs::hash::*;
use vstd::std_specs::iter::IteratorSpec;

verus! {

/// Index of the first zero in `words`, or `words.len()` when none is zero.
pub open spec fn first_zero(words: Seq<u16>) -> int
    decreases words.len(),
{
    if words.len() == 0 || words[0] == 0 {
        0
    } else {
        1 + first_zero(words.drop_first())
    }
}

/// The set codes a buffer carries: everything in front of its first zero.
pub open spec fn members(words: Seq<u16>) -> Seq<u16> {
    words.take(first_zero(words))
}

/// A buffer that ends in its only zero, so that scanning for the terminator
/// recovers exactly the buffer's length.
pub open spec fn is_terminated(words: Seq<u16>) -> bool {
    &&& words.len() >= 1
    &&& words[words.len() - 1] == 0
    &&& forall|i: int| 0 <= i < words.len() - 1 ==> words[i] != 0
}

/// `words` is an encoding of `setcodes`: each non-zero code once, in any
/// order, then the terminator. Zero is never a member.
pub open spec fn encodes(words: Seq<u16>, setcodes: Set<u16>) -> bool {
    &&& is_terminated(words)
    &&& words.drop_last().no_duplicates()
    &&& words.drop_last().to_set() == setcodes.remove(0)
}

/// `first_zero` is the least index that holds a zero.
pub proof fn lemma_first_zero(words: Seq<u16>)
    ensures
        0 <= first_zero(words) <= words.len(),
        first_zero(words) < words.len() ==> words[first_zero(words)] == 0,
        forall|i: int| 0 <= i < first_zero(words) ==> words[i] != 0,
    decreases words.len(),
{
    if words.len() == 0 || words[0] == 0 {
    } else {
        let rest = words.drop_first();
        lemma_first_zero(rest);
        assert forall|i: int| 0 <= i < first_zero(words) implies words[i] != 0 by {
            if i > 0 {
                assert(words[i] == rest[i - 1]);
            }
        }
        assert(first_zero(rest) < rest.len() ==> words[first_zero(words)] == rest[first_zero(rest)]);
    }
}

/// An index that holds a zero and has none in front of it is `first_zero`.
pub proof fn lemma_first_zero_is(words: Seq<u16>, at: int)
    requires
        0 <= at <= words.len(),
        at < words.len() ==> words[at] == 0,
        forall|i: int| 0 <= i < at ==> words[i] != 0,
    ensures
        first_zero(words) == at,
{
    lemma_first_zero(words);
    let found = first_zero(words);
    if found < at {
        assert(words[found] != 0);
    } else if found > at {
        assert(words[at] != 0);
    }
}

/// `code` is among the first `upto` keys that a walk over a set has yielded.
spec fn yielded(keys: Seq<&u16>, upto: int, code: u16) -> bool {
    exists|k: int| 0 <= k < upto && *#[trigger] keys[k] == code
}

/// Writes `setcodes` as a zero-terminated buffer, leaving out zero itself.
pub fn encode_setcodes(setcodes: &HashSet<u16>) -> (words: Vec<u16>)
    ensures
        encodes(words@, setcodes@),
{
    broadcast use group_hash_axioms;

    let mut words: Vec<u16> = Vec::new();
    for setcode in iter: setcodes.iter()
        invariant
            iter.seq() == spec_hash_keys_iter(setcodes).remaining(),
            iter.seq().no_duplicates(),
            words@.no_duplicates(),
            forall|j: int| 0 <= j < words@.len() ==> words@[j] != 0,
            forall|j: int|
                0 <= j < words@.len() ==> #[trigger] yielded(iter.seq(), iter.index(), words@[j]),
            forall|k: int|
                0 <= k < iter.index() && *iter.seq()[k] != 0 ==> words@.contains(
                    *#[trigger] iter.seq()[k],
                ),
    {
        let ghost keys = iter.seq();
        let ghost at = iter.index();
        let ghost before = words@;
        assert(setcode == keys[at]);
        if *setcode != 0 {
            proof {
                assert forall|j: int| 0 <= j < before.len() implies before[j] != *setcode by {
                    assert(yielded(keys, at, before[j]));
                    let k = choose|k: int| 0 <= k < at && *#[trigger] keys[k] == before[j];
                    assert(keys[k] != keys[at]);
                }
            }
            words.push(*setcode);
            assert(words@[before.len() as int] == *keys[at]);
        }
        proof {
            assert forall|j: int| 0 <= j < words@.len() implies #[trigger] yielded(
                keys,
                at + 1,
                words@[j],
            ) by {
                if j < before.len() {
                    assert(yielded(keys, at, before[j]));
                    let k = choose|k: int| 0 <= k < at && *#[trigger] keys[k] == before[j];
                    assert(*keys[k] == words@[j]);
                } else {
                    assert(*keys[at] == words@[j]);
                }
            }
            assert forall|k: int| 0 <= k < at + 1 && *keys[k] != 0 implies words@.contains(
                *#[trigger] keys[k],
            ) by {
                if k < at {
                    let j = choose|j: int| 0 <= j < before.len() && before[j] == *keys[k];
                    assert(words@[j] == *keys[k]);
                } else {
                    assert(words@[before.len() as int] == *keys[k]);
                }
            }
        }
    }
    let ghost codes = words@;
    words.push(0);
    proof {
        let keys = spec_hash_keys_iter(setcodes).remaining();
        assert(words@.drop_last() =~= codes);
        assert forall|code: u16| codes.to_set().contains(code) <==> setcodes@.remove(0).contains(
            code,
        ) by {
            if codes.to_set().contains(code) {
                let j = choose|j: int| 0 <= j < codes.len() && codes[j] == code;
                assert(yielded(keys, keys.len() as int, codes[j]));
                let k = choose|k: int| 0 <= k < keys.len() && *#[trigger] keys[k] == code;
                assert(keys.unref()[k] == code);
                assert(keys.unref().to_set().contains(code));
            }
            if setcodes@.remove(0).contains(code) {
                assert(keys.unref().to_set().contains(code));
                let k = choose|k: int| 0 <= k < keys.unref().len() && keys.unref()[k] == code;
                assert(*keys[k] == code);
                assert(codes.contains(code));
            }
        }
        assert(codes.to_set() =~= setcodes@.remove(0));
    }
    words
}

/// Number of words up to and including the first zero, or `None` when the
/// buffer holds no zero. For an encoded buffer this is its whole length.
pub fn terminated_len(words: &[u16]) -> (len: Option<usize>)
    ensures
        len is Some <==> first_zero(words@) < words@.len(),
        len matches Some(n) ==> n == first_zero(words@) + 1,
{
    let mut at: usize = 0;
    while at < words.len()
        invariant
            at <= words@.len(),
            forall|i: int| 0 <= i < at ==> words@[i] != 0,
        decreases words@.len() - at,
    {
        if words[at] == 0 {
            proof {
                lemma_first_zero_is(words@, at as int);
            }
            return Some(at + 1);
        }
        at += 1;
    }
    proof {
        lemma_first_zero_is(words@, at as int);
    }
    None
}

/// Collects the set codes in front of the first zero of `words`; a buffer
/// without a zero is read to its end.
pub fn decode_setcodes(words: &[u16]) -> (setcodes: HashSet<u16>)
    ensures
        setcodes@ == members(words@).to_set(),
{
    broadcast use group_hash_axioms;

    let mut setcodes: HashSet<u16> = HashSet::new();
    let mut at: usize = 0;
    while at < words.len() && words[at] != 0
        invariant
            at <= words@.len(),
            forall|i: int| 0 <= i < at ==> words@[i] != 0,
            setcodes@ == words@.take(at as int).to_set(),
        decreases words@.len() - at,
    {
        proof {
            let seen = words@.take(at as int);
            let next = words@.take(at + 1);
            assert(next =~= seen.push(words@[at as int]));
            assert(next.to_set() =~= seen.to_set().insert(words@[at as int])) by {
                assert forall|code: u16| next.to_set().contains(code) <==> seen.to_set().insert(
                    words@[at as int],
                ).contains(code) by {
                    if next.contains(code) {
                        let j = choose|j: int| 0 <= j < next.len() && next[j] == code;
                        if j < at {
                            assert(seen[j] == code);
                        }
                    }
                    if seen.contains(code) {
                        let j = choose|j: int| 0 <= j < seen.len() && seen[j] == code;
                        assert(next[j] == code);
                    }
                    if code == words@[at as int] {
                        assert(next[at as int] == code);
                    }
                }
            }
        }
        setcodes.insert(words[at]);
        at += 1;
    }
    proof {
        lemma_first_zero_is(words@, at as int);
    }
    setcodes
}

/// Decoding an encoding gives the set back without zero, and the scan for
/// the terminator ends on the buffer's last word.
pub proof fn lemma_decode_of_encoding(words: Seq<u16>, setcodes: Set<u16>)
    requires
        encodes(words, setcodes),
    ensures
        members(words).to_set() == setcodes.remove(0),
        first_zero(words) + 1 == words.len(),
{
    lemma_first_zero_is(words, words.len() - 1);
    assert(members(words) =~= words.drop_last());
}

/// An encoding is one word longer than the set has non-zero codes.
pub proof fn lemma_encoding_len(words: Seq<u16>, setcodes: Set<u16>)
    requires
        encodes(words, setcodes),
    ensures
        setcodes.remove(0).finite(),
        words.len() == setcodes.remove(0).len() + 1,
{
    words.drop_last().unique_seq_to_set();
}

/// Where a card is put: the team and the duelist within it, the card's code,
/// its controller, the zone, the place within the zone, and the position.
#[derive(Debug)]
pub struct NewCardInfo {
    pub team: u8,
    pub duelist: u8,
    pub code: u32,
    pub con: u8,
    pub loc: u32,
    pub seq: u32,
    pub pos: u32,
}

impl NewCardInfo {
    /// The placement as the engine reads it.
    pub open spec fn layout(self) -> OcgNewCardInfo {
        OcgNewCardInfo {
            team: self.team,
            duelist: self.duelist,
            code: self.code,
            con: self.con,
            loc: self.loc,
            seq: self.seq,
            pos: self.pos,
        }
    }
}

impl Clone for NewCardInfo {
    fn clone(&self) -> (info: NewCardInfo)
        ensures
            info == *self,
    {
        NewCardInfo {
            team: self.team,
            duelist: self.duelist,
            code: self.code,
            con: self.con,
            loc: self.loc,
            seq: self.seq,
            pos: self.pos,
        }
    }
}

impl Default for NewCardInfo {
    fn default() -> (info: NewCardInfo)
        ensures
            info == (NewCardInfo { team: 0, duelist: 0, code: 0, con: 0, loc: 0, seq: 0, pos: 0 }),
    {
        NewCardInfo { team: 0, duelist: 0, code: 0, con: 0, loc: 0, seq: 0, pos: 0 }
    }
}

impl From<NewCardInfo> for OcgNewCardInfo {
    fn from(val: NewCardInfo) -> (layout: OcgNewCardInfo) {
        OcgNewCardInfo {
            team: val.team,
            duelist: val.duelist,
            code: val.code,
            con: val.con,
            loc: val.loc,
            seq: val.seq,
            pos: val.pos,
        }
    }
}

impl FromSpecImpl<NewCardInfo> for OcgNewCardInfo {
    open spec fn obeys_from_spec() -> bool {
        true
    }

    open spec fn from_spec(val: NewCardInfo) -> OcgNewCardInfo {
        val.layout()
    }
}

/// What a card descriptor is, with its set codes as a mathematical set.
pub struct CardDataView {
    pub code: u32,
    pub alias: u32,
    pub setcodes: Set<u16>,
    pub card_type: u32,
    pub level: u32,
    pub attribute: u32,
    pub race: u64,
    pub attack: i32,
    pub defense: i32,
    pub lscale: u32,
    pub rscale: u32,
    pub link_marker: u32,
}

impl CardDataView {
    /// The descriptor with nothing but its code.
    pub open spec fn blank(code: u32) -> CardDataView {
        CardDataView {
            code,
            alias: 0,
            setcodes: Set::empty(),
            card_type: 0,
            level: 0,
            attribute: 0,
            race: 0,
            attack: 0,
            defense: 0,
            lscale: 0,
            rscale: 0,
            link_marker: 0,
        }
    }

    /// The descriptor as it survives the engine boundary: zero is the
    /// terminator of the set-code buffer, never a set code.
    pub open spec fn without_zero(self) -> CardDataView {
        CardDataView { setcodes: self.setcodes.remove(0), ..self }
    }
}

/// A card descriptor.
#[derive(Debug)]
pub struct CardData {
    pub code: u32,
    pub alias: u32,
    /// A zero in this set is ignored: it marks the end of the buffer that
    /// carries the set to the engine and is no set code.
    pub setcodes: HashSet<u16>,
    pub card_type: u32,
    pub level: u32,
    pub attribute: u32,
    pub race: u64,
    pub attack: i32,
    pub defense: i32,
    pub lscale: u32,
    pub rscale: u32,
    pub link_marker: u32,
}

impl View for CardData {
    type V = CardDataView;

    open spec fn view(&self) -> CardDataView {
        CardDataView {
            code: self.code,
            alias: self.alias,
            setcodes: self.setcodes@,
            card_type: self.card_type,
            level: self.level,
            attribute: self.attribute,
            race: self.race,
            attack: self.attack,
            defense: self.defense,
            lscale: self.lscale,
            rscale: self.rscale,
            link_marker: self.link_marker,
        }
    }
}

/// The descriptor that a fixed-layout record carries.
pub open spec fn descriptor(layout: OcgCardData) -> CardDataView {
    CardDataView {
        code: layout.code,
        alias: layout.alias,
        setcodes: members(layout.setcodes@).to_set(),
        card_type: layout.type_,
        level: layout.level,
        attribute: layout.attribute,
        race: layout.race,
        attack: layout.attack,
        defense: layout.defense,
        lscale: layout.lscale,
        rscale: layout.rscale,
        link_marker: layout.link_marker,
    }
}

/// A set with the same codes.
fn copy_setcodes(setcodes: &HashSet<u16>) -> (copy: HashSet<u16>)
    ensures
        copy@ == setcodes@,
{
    broadcast use group_hash_axioms;

    let mut copy: HashSet<u16> = HashSet::new();
    for setcode in iter: setcodes.iter()
        invariant
            iter.seq() == spec_hash_keys_iter(setcodes).remaining(),
            forall|code: u16| copy@.contains(code) <==> yielded(iter.seq(), iter.index(), code),
    {
        let ghost keys = iter.seq();
        let ghost at = iter.index();
        let ghost before = copy@;
        copy.insert(*setcode);
        proof {
            assert forall|code: u16| copy@.contains(code) <==> yielded(keys, at + 1, code) by {
                if yielded(keys, at + 1, code) {
                    let k = choose|k: int| 0 <= k < at + 1 && *#[trigger] keys[k] == code;
                    if k < at {
                        assert(yielded(keys, at, code));
                    }
                }
                if before.contains(code) {
                    let k = choose|k: int| 0 <= k < at && *#[trigger] keys[k] == code;
                    assert(*keys[k] == code);
                }
                if code == *setcode {
                    assert(*keys[at] == code);
                }
            }
        }
    }
    proof {
        let keys = spec_hash_keys_iter(setcodes).remaining();
        assert forall|code: u16| copy@.contains(code) <==> setcodes@.contains(code) by {
            if copy@.contains(code) {
                let k = choose|k: int| 0 <= k < keys.len() && *#[trigger] keys[k] == code;
                assert(keys.unref()[k] == code);
                assert(keys.unref().to_set().contains(code));
            }
            if setcodes@.contains(code) {
                assert(keys.unref().to_set().contains(code));
                let k = choose|k: int| 0 <= k < keys.unref().len() && keys.unref()[k] == code;
                assert(*keys[k] == code);
            }
        }
        assert(copy@ =~= setcodes@);
    }
    copy
}

impl Clone for CardData {
    fn clone(&self) -> (card: CardData)
        ensures
            card@ == self@,
    {
        CardData {
            code: self.code,
            alias: self.alias,
            setcodes: copy_setcodes(&self.setcodes),
            card_type: self.card_type,
            level: self.level,
            attribute: self.attribute,
            race: self.race,
            attack: self.attack,
            defense: self.defense,
            lscale: self.lscale,
            rscale: self.rscale,
            link_marker: self.link_marker,
        }
    }
}

/// `layout` is `card` in the engine's layout: the same numbers, and a buffer
/// that encodes the card's set codes.
pub open spec fn carries(layout: OcgCardData, card: CardDataView) -> bool {
    &&& encodes(layout.setcodes@, card.setcodes)
    &&& layout.code == card.code
    &&& layout.alias == card.alias
    &&& layout.type_ == card.card_type
    &&& layout.level == card.level
    &&& layout.attribute == card.attribute
    &&& layout.race == card.race
    &&& layout.attack == card.attack
    &&& layout.defense == card.defense
    &&& layout.lscale == card.lscale
    &&& layout.rscale == card.rscale
    &&& layout.link_marker == card.link_marker
}

/// What is read out of a record that carries a card is the card, without
/// zero among its set codes; and the buffer of the record is as long as a
/// scan for its terminator finds it to be.
pub proof fn lemma_card_round_trip(layout: OcgCardData, card: CardDataView)
    requires
        carries(layout, card),
    ensures
        descriptor(layout) == card.without_zero(),
        first_zero(layout.setcodes@) + 1 == layout.setcodes@.len(),
{
    lemma_decode_of_encoding(layout.setcodes@, card.setcodes);
}

impl Default for CardData {
    fn default() -> (card: CardData)
        ensures
            card@ == CardDataView::blank(0),
    {
        CardData::blank(0)
    }
}

impl CardData {
    /// A descriptor that carries `code` and nothing else.
    pub fn blank(code: u32) -> (card: CardData)
        ensures
            card@ == CardDataView::blank(code),
    {
        CardData {
            code,
            alias: 0,
            setcodes: HashSet::new(),
            card_type: 0,
            level: 0,
            attribute: 0,
            race: 0,
            attack: 0,
            defense: 0,
            lscale: 0,
            rscale: 0,
            link_marker: 0,
        }
    }

    /// Reads a descriptor out of the engine's layout. The record and its
    /// buffer stay as they are.
    pub fn from_layout(layout: &OcgCardData) -> (card: CardData)
        ensures
            card@ == descriptor(*layout),
    {
        let setcodes = decode_setcodes(layout.setcodes.as_slice());
        CardData {
            code: layout.code,
            alias: layout.alias,
            setcodes,
            card_type: layout.type_,
            level: layout.level,
            attribute: layout.attribute,
            race: layout.race,
            attack: layout.attack,
            defense: layout.defense,
            lscale: layout.lscale,
            rscale: layout.rscale,
            link_marker: layout.link_marker,
        }
    }

    /// The descriptor in the engine's layout, for the engine to keep.
    ///
    /// The record owns a buffer that encodes the set codes. Once the buffer
    /// is handed to the engine it must stay allocated until the engine
    /// reports that it has read the card; it is released there and nowhere
    /// else.
    pub fn into_ocg_carddata_leaky(self) -> (layout: OcgCardData)
        ensures
            carries(layout, self@),
            descriptor(layout) == self@.without_zero(),
    {
        let setcodes = encode_setcodes(&self.setcodes);
        proof {
            lemma_decode_of_encoding(setcodes@, self@.setcodes);
        }
        OcgCardData {
            code: self.code,
            alias: self.alias,
            setcodes,
            type_: self.card_type,
            level: self.level,
            attribute: self.attribute,
            race: self.race,
            attack: self.attack,
            defense: self.defense,
            lscale: self.lscale,
            rscale: self.rscale,
            link_marker: self.link_marker,
        }
    }
}

impl From<OcgCardData> for CardData {
    fn from(value: OcgCardData) -> (card: CardData)
        ensures
            card@ == descriptor(value),
    {
        CardData::from_layout(&value)
    }
}

/// Two sets of the same codes need not be the same value, so `from` is
/// specified by the view of what it gives and not by a value.
impl FromSpecImpl<OcgCardData> for CardData {
    open spec fn obeys_from_spec() -> bool {
        false
    }

    open spec fn from_spec(value: OcgCardData) -> CardData {
        arbitrary()
    }
}

} // verus!
