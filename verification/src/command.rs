//! The kinds of item that the commands work on.

use vstd::prelude::*;

verus! {

/// `rspotify`'s `SearchType`, declared with its variants: it is a plain
/// enumeration without fields, so the verifier reads its definition and
/// nothing about it is taken on trust.
#[verifier::external_type_specification]
pub struct ExSearchType(rspotify::model::SearchType);

/// The kind of item to search for or to save.
#[derive(Clone, Copy, Debug, PartialEq, Eq, Structural)]
pub enum ItemType {
    Track,
    Album,
    Artist,
    Playlist,
}

impl ItemType {
    /// The word for this kind in reports.
    pub open spec fn name(self) -> Seq<char> {
        match self {
            ItemType::Track => "track"@,
            ItemType::Album => "album"@,
            ItemType::Artist => "artist"@,
            ItemType::Playlist => "playlist"@,
        }
    }

    /// The word for this kind in reports.
    pub fn label(&self) -> (r: &'static str)
        ensures
            r@ == self.name(),
    {
        match self {
            ItemType::Track => "track",
            ItemType::Album => "album",
            ItemType::Artist => "artist",
            ItemType::Playlist => "playlist",
        }
    }

    /// The search that finds items of this kind.
    pub fn to_search_type(&self) -> (r: rspotify::model::SearchType)
        ensures
            r == match *self {
                ItemType::Track => rspotify::model::SearchType::Track,
                ItemType::Album => rspotify::model::SearchType::Album,
                ItemType::Artist => rspotify::model::SearchType::Artist,
                ItemType::Playlist => rspotify::model::SearchType::Playlist,
            },
    {
        match self {
            ItemType::Track => rspotify::model::SearchType::Track,
            ItemType::Album => rspotify::model::SearchType::Album,
            ItemType::Artist => rspotify::model::SearchType::Artist,
            ItemType::Playlist => rspotify::model::SearchType::Playlist,
        }
    }
}

} // verus!
