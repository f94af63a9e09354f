//! Catalog records as the remote service hands them out, reduced to the plain
//! values that the item model reads.

use vstd::prelude::*;

verus! {

/// An artist as named on a track or an album; the identifier may be missing.
#[derive(Debug, PartialEq, Eq)]
pub struct SimplifiedArtist {
    pub id: Option<String>,
    pub name: String,
}

/// One rendition of a cover image.
#[derive(Debug, PartialEq, Eq)]
pub struct Image {
    pub url: String,
}

/// The album a full track belongs to.
#[derive(Debug, PartialEq, Eq)]
pub struct SimplifiedAlbum {
    pub id: Option<String>,
    pub name: String,
    pub artists: Vec<SimplifiedArtist>,
    pub images: Vec<Image>,
}

/// An album fetched by its identifier.
#[derive(Debug, PartialEq, Eq)]
pub struct FullAlbum {
    pub id: String,
    pub name: String,
    pub artists: Vec<SimplifiedArtist>,
    pub images: Vec<Image>,
}

/// A track as listed inside an album.
#[derive(Debug, PartialEq, Eq)]
pub struct SimplifiedTrack {
    pub id: Option<String>,
    pub uri: String,
    pub name: String,
    pub track_number: u32,
    pub disc_number: i32,
    pub duration_ms: u32,
    pub artists: Vec<SimplifiedArtist>,
}

/// A track fetched by its identifier, with its album.
#[derive(Debug, PartialEq, Eq)]
pub struct FullTrack {
    pub id: Option<String>,
    pub uri: String,
    pub name: String,
    pub track_number: u32,
    pub disc_number: i32,
    pub duration_ms: u32,
    pub artists: Vec<SimplifiedArtist>,
    pub album: SimplifiedAlbum,
}

/// An entry of the saved-items listing: a track and the moment it was saved,
/// in milliseconds since the Unix epoch.
#[derive(Debug, PartialEq, Eq)]
pub struct SavedTrack {
    pub added_at: i64,
    pub track: FullTrack,
}

/// The artists' names, in the order of the list.
pub open spec fn names(artists: Seq<SimplifiedArtist>) -> Seq<String> {
    artists.map_values(|a: SimplifiedArtist| a.name)
}

/// The identifiers of those artists that have one, in the order of the list.
pub open spec fn known_ids(artists: Seq<SimplifiedArtist>) -> Seq<String>
    decreases artists.len(),
{
    if artists.len() == 0 {
        Seq::empty()
    } else {
        let head = known_ids(artists.drop_last());
        match artists.last().id {
            Some(id) => head.push(id),
            None => head,
        }
    }
}

/// The address of the first image, if there is one.
pub open spec fn first_url(images: Seq<Image>) -> Option<String> {
    if images.len() > 0 {
        Some(images[0].url)
    } else {
        None
    }
}

/// The names of `artists`, in order.
pub fn artist_names(artists: &Vec<SimplifiedArtist>) -> (r: Vec<String>)
    ensures
        r@ == names(artists@),
{
    let mut out: Vec<String> = Vec::new();
    let mut i: usize = 0;
    while i < artists.len()
        invariant
            i <= artists.len(),
            out@ == names(artists@.take(i as int)),
        decreases artists.len() - i,
    {
        out.push(artists[i].name.clone());
        assert(out@ =~= names(artists@.take(i + 1)));
        i += 1;
    }
    assert(artists@.take(i as int) =~= artists@);
    out
}

/// The identifiers of those of `artists` that have one, in order.
pub fn artist_ids(artists: &Vec<SimplifiedArtist>) -> (r: Vec<String>)
    ensures
        r@ == known_ids(artists@),
{
    let mut out: Vec<String> = Vec::new();
    let mut i: usize = 0;
    while i < artists.len()
        invariant
            i <= artists.len(),
            out@ == known_ids(artists@.take(i as int)),
        decreases artists.len() - i,
    {
        proof {
            assert(artists@.take(i + 1).drop_last() =~= artists@.take(i as int));
        }
        match &artists[i].id {
            Some(id) => {
                out.push(id.clone());
            },
            None => {},
        }
        i += 1;
    }
    assert(artists@.take(i as int) =~= artists@);
    out
}

/// The address of the first of `images`, if there is one.
pub fn cover_url(images: &Vec<Image>) -> (r: Option<String>)
    ensures
        r == first_url(images@),
{
    if images.len() > 0 {
        Some(images[0].url.clone())
    } else {
        None
    }
}

/// Artists with an identifier are never more than artists.
pub proof fn lemma_known_ids_len(artists: Seq<SimplifiedArtist>)
    ensures
        known_ids(artists).len() <= artists.len(),
        names(artists).len() == artists.len(),
    decreases artists.len(),
{
    if artists.len() > 0 {
        lemma_known_ids_len(artists.drop_last());
    }
}

} // verus!
