//! Albums of the catalog.

use vstd::prelude::*;
use crate::wire::{artist_names, cover_url, first_url, names, FullAlbum};

verus! {

/// An album: identity and display data.
#[derive(Debug, PartialEq, Eq)]
pub struct Album {
    pub id: String,
    pub title: String,
    pub artists: Vec<String>,
    pub cover_url: Option<String>,
}

/// What an album holds, with its list as a sequence.
pub struct AlbumView {
    pub id: String,
    pub title: String,
    pub artists: Seq<String>,
    pub cover_url: Option<String>,
}

impl View for Album {
    type V = AlbumView;

    open spec fn view(&self) -> AlbumView {
        AlbumView {
            id: self.id,
            title: self.title,
            artists: self.artists@,
            cover_url: self.cover_url,
        }
    }
}

impl Album {
    /// What `from_full_album` makes of a fetched album.
    pub open spec fn full(album: FullAlbum) -> AlbumView {
        AlbumView {
            id: album.id,
            title: album.name,
            artists: names(album.artists@),
            cover_url: first_url(album.images@),
        }
    }

    /// An album fetched by its identifier.
    pub fn from_full_album(album: &FullAlbum) -> (r: Album)
        ensures
            r@ == Album::full(*album),
    {
        Album {
            id: album.id.clone(),
            title: album.name.clone(),
            artists: artist_names(&album.artists),
            cover_url: cover_url(&album.images),
        }
    }
}

} // verus!
