//! Decoding inbound frames into depth snapshots.

use vstd::prelude::*;
use vstd::string::*;
use crate::error::{DecodeError, Side};
use crate::json::{
    integer_of, items_of, json_parsed, json_tree, member, parse_document, text_of, tree_member,
    trees_of, JsonTree,
};
use crate::price::{price_of, Price};
use crate::snapshot::{DepthSnapshot, Level, SnapshotView};

verus! {

/// The level that one entry of a side writes: an array of exactly a price
/// text and an integer size. Any other entry writes none.
pub open spec fn level_of(entry: JsonTree) -> Option<Level> {
    match entry {
        JsonTree::Array(items) => if items.len() == 2 {
            match (items[0], items[1]) {
                (JsonTree::Text(text), JsonTree::Integer(size)) => match price_of(text) {
                    Some(price) => Some(Level { price, size }),
                    None => None,
                },
                _ => None,
            }
        } else {
            None
        },
        _ => None,
    }
}

/// The index of the first entry at or after `from` that writes no level.
pub open spec fn first_malformed_from(entries: Seq<JsonTree>, from: int) -> Option<int>
    decreases entries.len() - from,
{
    if from < 0 || from >= entries.len() {
        None
    } else if level_of(entries[from]) is None {
        Some(from)
    } else {
        first_malformed_from(entries, from + 1)
    }
}

/// The index of the first entry that writes no level.
pub open spec fn first_malformed(entries: Seq<JsonTree>) -> Option<int> {
    first_malformed_from(entries, 0)
}

/// The levels that the entries write, in their order.
pub open spec fn levels_of(entries: Seq<JsonTree>) -> Seq<Level> {
    entries.map_values(|entry: JsonTree| level_of(entry).unwrap())
}

/// The key under which an update holds a side.
pub open spec fn side_key(side: Side) -> Seq<char> {
    match side {
        Side::Ask => "asks"@,
        Side::Bid => "bids"@,
    }
}

/// One side of an update: its levels, or the first thing wrong with it.
pub open spec fn decoded_side(data: Option<JsonTree>, side: Side) -> Result<
    Seq<Level>,
    DecodeError,
> {
    match data {
        Some(tree) => match tree_member(tree, side_key(side)) {
            Some(JsonTree::Array(entries)) => match first_malformed(entries) {
                Some(index) => Err(DecodeError::BadLevel { side, index: index as usize }),
                None => Ok(levels_of(entries)),
            },
            _ => Err(DecodeError::MissingSide { side }),
        },
        None => Err(DecodeError::MissingSide { side }),
    }
}

/// Whether a document is a data update: an object whose `type` is the text
/// `message`.
pub open spec fn is_message(tree: JsonTree) -> bool {
    tree_member(tree, "type"@) == Some(JsonTree::Text("message"@))
}

/// What a document decodes to: no event unless it is a data update, else the
/// snapshot under `data`, asks examined before bids.
pub open spec fn decoded_document(tree: JsonTree) -> Result<Option<SnapshotView>, DecodeError> {
    if !is_message(tree) {
        Ok(None)
    } else {
        let data = tree_member(tree, "data"@);
        match decoded_side(data, Side::Ask) {
            Err(error) => Err(error),
            Ok(asks) => match decoded_side(data, Side::Bid) {
                Err(error) => Err(error),
                Ok(bids) => Ok(Some(SnapshotView { asks, bids })),
            },
        }
    }
}

/// What a frame decodes to, given what its text parses to.
pub open spec fn decoded(parsed: Option<JsonTree>) -> Result<Option<SnapshotView>, DecodeError> {
    match parsed {
        None => Err(DecodeError::Syntax),
        Some(tree) => decoded_document(tree),
    }
}

/// The outcome of decoding, with the snapshot taken by its view.
pub open spec fn outcome_view(outcome: Result<Option<DepthSnapshot>, DecodeError>) -> Result<
    Option<SnapshotView>,
    DecodeError,
> {
    match outcome {
        Ok(Some(snapshot)) => Ok(Some(snapshot@)),
        Ok(None) => Ok(None),
        Err(error) => Err(error),
    }
}

/// The contents of a document that may be absent.
pub open spec fn tree_of(doc: Option<&serde_json::Value>) -> Option<JsonTree> {
    match doc {
        Some(found) => Some(json_tree(*found)),
        None => None,
    }
}

/// From any index on, the first malformed entry found is malformed, and
/// every entry between the index and it writes a level.
pub proof fn lemma_first_malformed_from(entries: Seq<JsonTree>, from: int)
    requires
        0 <= from,
    ensures
        match first_malformed_from(entries, from) {
            Some(index) => {
                &&& from <= index < entries.len()
                &&& level_of(entries[index]) is None
                &&& forall|j: int| from <= j < index ==> level_of(#[trigger] entries[j]) is Some
            },
            None => forall|j: int|
                from <= j < entries.len() ==> level_of(#[trigger] entries[j]) is Some,
        },
    decreases entries.len() - from,
{
    if from < entries.len() && level_of(entries[from]) is Some {
        lemma_first_malformed_from(entries, from + 1);
    }
}

/// The index reported for a side is that of its first malformed entry: the
/// entry there writes no level, and every entry before it writes one. Where
/// none is reported, every entry writes a level.
pub proof fn lemma_first_malformed_is_least(entries: Seq<JsonTree>)
    ensures
        match first_malformed(entries) {
            Some(index) => {
                &&& 0 <= index < entries.len()
                &&& level_of(entries[index]) is None
                &&& forall|j: int| 0 <= j < index ==> level_of(#[trigger] entries[j]) is Some
            },
            None => forall|j: int|
                0 <= j < entries.len() ==> level_of(#[trigger] entries[j]) is Some,
        },
{
    lemma_first_malformed_from(entries, 0);
}

/// A data update with a malformed ask entry decodes to an error that names
/// the ask side and the first such entry, whatever its bids hold.
pub proof fn lemma_malformed_ask_is_reported(tree: JsonTree, entries: Seq<JsonTree>, k: int)
    requires
        is_message(tree),
        tree_member(tree, "data"@) matches Some(data) && tree_member(data, "asks"@) == Some(
            JsonTree::Array(entries),
        ),
        entries.len() <= usize::MAX,
        0 <= k < entries.len(),
        level_of(entries[k]) is None,
    ensures
        decoded_document(tree) matches Err(DecodeError::BadLevel { side, index }) && side
            == Side::Ask && index <= k && first_malformed(entries) == Some(index as int),
{
    lemma_first_malformed_is_least(entries);
}

/// Reads one entry of a side.
pub fn decode_level(entry: &serde_json::Value) -> (res: Option<Level>)
    ensures
        res == level_of(json_tree(*entry)),
{
    let items = match items_of(entry) {
        Some(items) => items,
        None => { return None; },
    };
    if items.len() != 2 {
        return None;
    }
    let text = match text_of(&items[0]) {
        Some(text) => text,
        None => { return None; },
    };
    let size = match integer_of(&items[1]) {
        Some(size) => size,
        None => { return None; },
    };
    match Price::parse(text) {
        Some(price) => Some(Level { price, size }),
        None => None,
    }
}

/// Reads one side of an update from the document under `data`.
pub fn decode_side(data: Option<&serde_json::Value>, side: Side) -> (res: Result<
    Vec<Level>,
    DecodeError,
>)
    ensures
        match res {
            Ok(levels) => decoded_side(tree_of(data), side) == Ok::<Seq<Level>, DecodeError>(
                levels@,
            ),
            Err(error) => decoded_side(tree_of(data), side) == Err::<Seq<Level>, DecodeError>(
                error,
            ),
        },
{
    let holder = match data {
        Some(holder) => holder,
        None => { return Err(DecodeError::MissingSide { side }); },
    };
    let key = match side {
        Side::Ask => "asks",
        Side::Bid => "bids",
    };
    let found = match member(holder, key) {
        Some(found) => found,
        None => { return Err(DecodeError::MissingSide { side }); },
    };
    let items = match items_of(found) {
        Some(items) => items,
        None => { return Err(DecodeError::MissingSide { side }); },
    };
    let ghost entries = trees_of(items@);
    let mut levels: Vec<Level> = Vec::new();
    let mut i: usize = 0;
    while i < items.len()
        invariant
            i <= items.len(),
            entries == trees_of(items@),
            tree_of(data) matches Some(tree) && tree_member(tree, side_key(side)) == Some(
                JsonTree::Array(entries),
            ),
            first_malformed(entries) == first_malformed_from(entries, i as int),
            levels@.len() == i,
            forall|j: int| 0 <= j < i ==> level_of(#[trigger] entries[j]) == Some(levels@[j]),
        decreases items.len() - i,
    {
        assert(entries[i as int] == json_tree(items@[i as int]));
        match decode_level(&items[i]) {
            Some(level) => {
                levels.push(level);
            },
            None => {
                return Err(DecodeError::BadLevel { side, index: i });
            },
        }
        i = i + 1;
    }
    assert(levels@ =~= levels_of(entries));
    Ok(levels)
}

/// Whether a document is a data update.
pub fn is_message_document(doc: &serde_json::Value) -> (res: bool)
    ensures
        res == is_message(json_tree(*doc)),
{
    match member(doc, "type") {
        Some(kind) => match text_of(kind) {
            Some(text) => String::from_str(text) == String::from_str("message"),
            None => false,
        },
        None => false,
    }
}

/// Decodes a parsed frame: no event unless it is a data update, else its
/// snapshot, or the first malformed part of it.
pub fn decode_document(doc: &serde_json::Value) -> (res: Result<
    Option<DepthSnapshot>,
    DecodeError,
>)
    ensures
        outcome_view(res) == decoded_document(json_tree(*doc)),
{
    if !is_message_document(doc) {
        return Ok(None);
    }
    let data = member(doc, "data");
    let asks = match decode_side(data, Side::Ask) {
        Ok(levels) => levels,
        Err(error) => { return Err(error); },
    };
    let bids = match decode_side(data, Side::Bid) {
        Ok(levels) => levels,
        Err(error) => { return Err(error); },
    };
    Ok(Some(DepthSnapshot { asks, bids }))
}

/// Decodes the text of one inbound frame.
pub fn decode(raw_text: &str) -> (res: Result<Option<DepthSnapshot>, DecodeError>)
    ensures
        outcome_view(res) == decoded(json_parsed(raw_text@)),
{
    match parse_document(raw_text) {
        Ok(doc) => decode_document(&doc),
        Err(_) => Err(DecodeError::Syntax),
    }
}

} // verus!
