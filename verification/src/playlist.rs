//! Playlist wire decoding.
//!
//! A playlist item arrives as a JSON object: an asset identifier, a duration
//! given as a number (possibly fractional, truncated — never rounded — to
//! whole seconds), and an optional ordering position that is never written
//! back out. A playlist file holds a predicate, a playlist identifier and
//! the decoded items.
use vstd::prelude::*;

verus! {

use crate::errors::CommandError;
use crate::json::{JsonValue, json_lookup, json_has, spec_as_u64};

/// One entry of a playlist.
#[derive(Debug, Clone, PartialEq)]
pub struct PlaylistItem {
    pub asset_id: String,
    pub duration: u32,
    pub position: u64,
}

/// Default ordering key for a playlist item whose wire value gave none.
pub fn default_pos_value() -> (r: u64)
    ensures
        r == 0,
{
    0
}

/// A duration clamped into `u32`: what casting the (already truncated)
/// wire number down to 32 bits gives.
pub open spec fn clamp_u32(n: u64) -> u32 {
    if n > u32::MAX {
        u32::MAX as u32
    } else {
        n as u32
    }
}

/// The record a JSON value decodes to, when it is well-shaped: an object
/// whose `asset_id` is a string, whose `duration` is a number — truncated
/// toward zero, not rounded — and whose `position`, if present, is an
/// unsigned integer, zero when absent.
pub open spec fn spec_item_of(v: JsonValue) -> Option<PlaylistItem> {
    if !(v is Obj) {
        None
    } else {
        let aid = json_lookup(v, "asset_id"@);
        let dur = json_lookup(v, "duration"@);
        let pos = json_lookup(v, "position"@);
        if !(aid is Str) {
            None
        } else if !(dur is Num) {
            None
        } else if json_has(v, "position"@) && spec_as_u64(pos) is None {
            None
        } else {
            Some(
                PlaylistItem {
                    asset_id: aid->Str_0,
                    duration: clamp_u32(dur->Num_0.trunc),
                    position: if json_has(v, "position"@) {
                        spec_as_u64(pos)->Some_0
                    } else {
                        0
                    },
                },
            )
        }
    }
}

impl PlaylistItem {
    /// Decodes one playlist item from its JSON object.
    pub fn from_json(v: &JsonValue) -> (r: Result<PlaylistItem, CommandError>)
        ensures
            match spec_item_of(*v) {
                Some(item) => r == Ok::<PlaylistItem, CommandError>(item),
                None => r == Err::<PlaylistItem, CommandError>(CommandError::Parse),
            },
    {
        if !matches!(v, JsonValue::Obj(_)) {
            return Err(CommandError::Parse);
        }
        let asset_id: String = match v.index("asset_id") {
            Some(JsonValue::Str(s)) => s.clone(),
            _ => {
                return Err(CommandError::Parse);
            },
        };
        let duration: u32 = match v.index("duration") {
            Some(JsonValue::Num(n)) => {
                if n.trunc > u32::MAX as u64 {
                    u32::MAX
                } else {
                    n.trunc as u32
                }
            },
            _ => {
                return Err(CommandError::Parse);
            },
        };
        let position: u64 = match v.index("position") {
            Some(p) => match p.as_u64() {
                Some(n) => n,
                None => {
                    return Err(CommandError::Parse);
                },
            },
            None => default_pos_value(),
        };
        Ok(PlaylistItem { asset_id, duration, position })
    }
}

/// Whether every element of an array decodes as a playlist item.
pub open spec fn all_items_good(items: Seq<JsonValue>) -> bool {
    forall|i: int| 0 <= i < items.len() ==> (#[trigger] spec_item_of(items[i])) is Some
}

/// The decoded items of a well-shaped array, in array order.
pub open spec fn decoded_items(items: Seq<JsonValue>) -> Seq<PlaylistItem> {
    Seq::new(items.len(), |i: int| spec_item_of(items[i])->Some_0)
}

/// A predicate expression, a playlist identifier, and the playlist's items.
#[derive(Debug, Clone, PartialEq)]
pub struct PlaylistFile {
    predicate: String,
    playlist_id: String,
    items: Vec<PlaylistItem>,
}

impl PlaylistFile {
    pub closed spec fn spec_predicate(&self) -> String {
        self.predicate
    }

    pub closed spec fn spec_playlist_id(&self) -> String {
        self.playlist_id
    }

    pub closed spec fn spec_items(&self) -> Seq<PlaylistItem> {
        self.items@
    }

    /// Builds a playlist file by decoding a raw JSON items array; fails
    /// exactly when the value is no array or some element is ill-shaped.
    #[verifier::loop_isolation(false)]
    pub fn new(predicate: String, playlist_id: String, items: JsonValue) -> (r: Result<
        PlaylistFile,
        CommandError,
    >)
        ensures
            match r {
                Ok(p) => items is Arr && all_items_good(items->Arr_0@) && p.spec_predicate()
                    == predicate && p.spec_playlist_id() == playlist_id && p.spec_items()
                    == decoded_items(items->Arr_0@),
                Err(e) => (!(items is Arr) || !all_items_good(items->Arr_0@)) && e
                    == CommandError::Parse,
            },
    {
        let arr = match items {
            JsonValue::Arr(a) => a,
            _ => {
                return Err(CommandError::Parse);
            },
        };
        let n = arr.len();
        let mut out: Vec<PlaylistItem> = Vec::new();
        let mut i: usize = 0;
        while i < n
            invariant
                i <= n,
                forall|k: int| 0 <= k < i ==> (#[trigger] spec_item_of(arr@[k])) is Some,
                out@ =~= decoded_items(arr@).take(i as int),
            decreases n - i,
        {
            match PlaylistItem::from_json(&arr[i]) {
                Ok(item) => {
                    out.push(item);
                },
                Err(_) => {
                    return Err(CommandError::Parse);
                },
            }
            i = i + 1;
        }
        proof {
            assert(out@ =~= decoded_items(arr@));
        }
        Ok(PlaylistFile { predicate, playlist_id, items: out })
    }

    /// The predicate expression.
    pub fn predicate(&self) -> (r: &String)
        ensures
            r == self.spec_predicate(),
    {
        &self.predicate
    }

    /// The playlist identifier.
    pub fn playlist_id(&self) -> (r: &String)
        ensures
            r == self.spec_playlist_id(),
    {
        &self.playlist_id
    }

    /// The decoded items.
    pub fn items(&self) -> (r: &Vec<PlaylistItem>)
        ensures
            r@ == self.spec_items(),
    {
        &self.items
    }
}

} // verus!
