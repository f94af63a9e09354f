use ncspot::album::Album;
use ncspot::artist::Artist;
use ncspot::library::{Config, Library};
use ncspot::playable::Playable;
use ncspot::queue::Queue;
use ncspot::track::Track;
use ncspot::traits::ListItem;
use ncspot::wire::{
    FullAlbum, FullTrack, Image, SavedTrack, SimplifiedAlbum, SimplifiedArtist, SimplifiedTrack,
};

fn artist(id: Option<&str>, name: &str) -> SimplifiedArtist {
    SimplifiedArtist { id: id.map(|s| s.to_string()), name: name.to_string() }
}

fn simplified() -> SimplifiedTrack {
    SimplifiedTrack {
        id: Some("t1".to_string()),
        uri: "spotify:track:t1".to_string(),
        name: "Song".to_string(),
        track_number: 3,
        disc_number: 1,
        duration_ms: 215_000,
        artists: vec![artist(Some("a1"), "Ann"), artist(None, "Bob"), artist(Some("a3"), "Cy")],
    }
}

fn full_album() -> FullAlbum {
    FullAlbum {
        id: "al1".to_string(),
        name: "Record".to_string(),
        artists: vec![artist(Some("a1"), "Ann")],
        images: vec![
            Image { url: "http://img/large".to_string() },
            Image { url: "http://img/small".to_string() },
        ],
    }
}

fn full_track() -> FullTrack {
    FullTrack {
        id: Some("t9".to_string()),
        uri: "spotify:track:t9".to_string(),
        name: "Tune".to_string(),
        track_number: 7,
        disc_number: 2,
        duration_ms: 61_000,
        artists: vec![artist(Some("a7"), "Zed"), artist(Some("a8"), "Yan")],
        album: SimplifiedAlbum {
            id: None,
            name: "Loose".to_string(),
            artists: vec![artist(None, "Various")],
            images: vec![],
        },
    }
}

fn plain_track(id: Option<&str>, title: &str, duration: u32) -> Track {
    Track {
        id: id.map(|s| s.to_string()),
        uri: format!("spotify:track:{}", title),
        title: title.to_string(),
        track_number: 1,
        disc_number: 1,
        duration,
        artists: vec!["Ann".to_string(), "Bob".to_string()],
        artist_ids: vec!["a1".to_string()],
        album: Some("Record".to_string()),
        album_id: Some("al1".to_string()),
        album_artists: vec!["Ann".to_string()],
        cover_url: None,
        url: format!("spotify:track:{}", title),
        added_at: None,
    }
}

fn config(album_column: Option<bool>, use_nerdfont: Option<bool>) -> Config {
    Config { album_column, use_nerdfont }
}

#[test]
fn from_simplified_track_keeps_identity_and_artist_order() {
    let t = Track::from_simplified_track(&simplified(), &full_album());
    assert_eq!(t.id, Some("t1".to_string()));
    assert_eq!(t.uri, "spotify:track:t1");
    assert_eq!(t.url, "spotify:track:t1");
    assert_eq!(t.title, "Song");
    assert_eq!(t.track_number, 3);
    assert_eq!(t.disc_number, 1);
    assert_eq!(t.duration, 215_000);
    assert_eq!(t.artists, vec!["Ann".to_string(), "Bob".to_string(), "Cy".to_string()]);
    assert_eq!(t.artist_ids, vec!["a1".to_string(), "a3".to_string()]);
    assert_eq!(t.album, Some("Record".to_string()));
    assert_eq!(t.album_id, Some("al1".to_string()));
    assert_eq!(t.album_artists, vec!["Ann".to_string()]);
    assert_eq!(t.cover_url, Some("http://img/large".to_string()));
    assert_eq!(t.added_at, None);
}

#[test]
fn from_simplified_alone_knows_no_album() {
    let t = Track::from_simplified(&simplified());
    assert_eq!(t.id, Some("t1".to_string()));
    assert_eq!(t.duration, 215_000);
    assert_eq!(t.artists.len(), 3);
    assert_eq!(t.artist_ids.len(), 2);
    assert_eq!(t.album, None);
    assert_eq!(t.album_id, None);
    assert!(t.album_artists.is_empty());
    assert_eq!(t.cover_url, None);
}

#[test]
fn from_full_track_keeps_identity_and_artist_order() {
    let t = Track::from_full_track(&full_track());
    assert_eq!(t.id, Some("t9".to_string()));
    assert_eq!(t.uri, "spotify:track:t9");
    assert_eq!(t.duration, 61_000);
    assert_eq!(t.artists, vec!["Zed".to_string(), "Yan".to_string()]);
    assert_eq!(t.artist_ids, vec!["a7".to_string(), "a8".to_string()]);
    assert_eq!(t.album, Some("Loose".to_string()));
    assert_eq!(t.album_id, None);
    assert_eq!(t.album_artists, vec!["Various".to_string()]);
    assert_eq!(t.cover_url, None);
    assert_eq!(t.added_at, None);
}

#[test]
fn from_saved_track_stamps_the_moment() {
    let st = SavedTrack { added_at: 1_560_000_000_123, track: full_track() };
    let t = Track::from_saved_track(&st);
    assert_eq!(t.added_at, Some(1_560_000_000_123));
    let mut plain = Track::from_full_track(&full_track());
    plain.added_at = Some(1_560_000_000_123);
    assert_eq!(t, plain);
}

#[test]
fn artist_without_id_shortens_the_id_list() {
    let mut st = simplified();
    st.artists = vec![artist(None, "Solo")];
    let t = Track::from_simplified(&st);
    assert_eq!(t.artists, vec!["Solo".to_string()]);
    assert!(t.artist_ids.is_empty());
    assert_eq!(t.artist(), None);
}

#[test]
fn duration_str_zero() {
    assert_eq!(plain_track(None, "x", 0).duration_str(), "00:00");
}

#[test]
fn duration_str_ninety_seconds() {
    assert_eq!(plain_track(None, "x", 90_000).duration_str(), "01:30");
}

#[test]
fn duration_str_does_not_roll_over_into_hours() {
    assert_eq!(plain_track(None, "x", 3_600_000).duration_str(), "60:00");
}

#[test]
fn duration_str_truncates_and_pads() {
    assert_eq!(plain_track(None, "x", 59_999).duration_str(), "00:59");
    assert_eq!(plain_track(None, "x", 605_000).duration_str(), "10:05");
    assert_eq!(plain_track(None, "x", u32::MAX).duration_str(), "71582:47");
}

#[test]
fn duration_str_is_stable() {
    let t = plain_track(None, "x", 754_321);
    assert_eq!(t.duration_str(), t.duration_str());
    assert_eq!(t.duration_str(), "12:34");
}

#[test]
fn label_joins_artists_and_title() {
    let t = plain_track(None, "Song", 0);
    assert_eq!(t.to_string(), "Ann, Bob - Song");
    assert_eq!(t.display_left(), "Ann, Bob - Song");
    let mut lone = plain_track(None, "Song", 0);
    lone.artists = vec!["Ann".to_string()];
    assert_eq!(lone.to_string(), "Ann - Song");
    lone.artists = vec![];
    assert_eq!(lone.to_string(), " - Song");
}

#[test]
fn display_center_follows_the_album_column_switch() {
    let t = plain_track(Some("t1"), "Song", 0);
    assert_eq!(t.display_center(&Library::new(config(None, None))), "Record");
    assert_eq!(t.display_center(&Library::new(config(Some(true), None))), "Record");
    assert_eq!(t.display_center(&Library::new(config(Some(false), None))), "");
    let mut bare = plain_track(Some("t1"), "Song", 0);
    bare.album = None;
    assert_eq!(bare.display_center(&Library::new(config(None, None))), "");
}

#[test]
fn display_right_marks_saved_tracks() {
    let t = plain_track(Some("t1"), "Song", 90_000);
    let mut library = Library::new(config(None, None));
    assert_eq!(t.display_right(&library), "01:30");
    t.save(&mut library);
    assert_eq!(t.display_right(&library), "\u{2713} 01:30");
    library.cfg = config(None, Some(true));
    assert_eq!(t.display_right(&library), "\u{f62b} 01:30");
    library.cfg = config(None, Some(false));
    assert_eq!(t.display_right(&library), "\u{2713} 01:30");
}

#[test]
fn share_url_needs_an_identifier() {
    assert_eq!(
        plain_track(Some("abc123"), "Song", 0).share_url(),
        Some("https://open.spotify.com/track/abc123".to_string())
    );
    assert_eq!(plain_track(None, "Song", 0).share_url(), None);
}

#[test]
fn narrow_accessors() {
    let t = plain_track(Some("t1"), "Song", 0);
    assert_eq!(t.track(), Some(plain_track(Some("t1"), "Song", 0)));
    assert_eq!(t.artist(), Some(Artist::new("a1".to_string(), "Ann".to_string())));
    let queue = Queue::new();
    let library = Library::new(config(None, None));
    assert_eq!(t.open(&queue, &library), None);
}

#[test]
fn album_needs_an_identifier_and_a_fetch() {
    let t = plain_track(Some("t1"), "Song", 0);
    assert_eq!(t.album_request(), Some("al1".to_string()));
    let got = t.album(&Some(full_album()));
    assert_eq!(
        got,
        Some(Album {
            id: "al1".to_string(),
            title: "Record".to_string(),
            artists: vec!["Ann".to_string()],
            cover_url: Some("http://img/large".to_string()),
        })
    );
    assert_eq!(t.album(&None), None);
    let mut bare = plain_track(Some("t1"), "Song", 0);
    bare.album_id = None;
    assert_eq!(bare.album_request(), None);
    assert_eq!(bare.album(&Some(full_album())), None);
}

#[test]
fn clone_is_equal() {
    let t = plain_track(Some("t1"), "Song", 5);
    assert_eq!(t.clone(), t);
    let p = Playable::Track(t);
    assert_eq!(p.clone(), p);
    assert_eq!(p.id(), Some("t1".to_string()));
}

#[test]
fn is_playing_compares_identifiers() {
    let a = plain_track(Some("a"), "A", 0);
    let b = plain_track(Some("b"), "B", 0);
    let mut queue = Queue::new();
    assert!(!a.is_playing(&queue));
    queue.append(Playable::Track(a.clone()));
    queue.append(Playable::Track(b.clone()));
    assert!(!a.is_playing(&queue));
    queue.play(0, false, false);
    assert!(a.is_playing(&queue));
    assert!(!b.is_playing(&queue));
}

#[test]
fn recommendations_need_a_seed_identifier() {
    let seedless = plain_track(None, "Song", 0);
    assert_eq!(seedless.recommendation_seed(), None);
    assert_eq!(seedless.open_recommendations(&Some(vec![Some(full_track())])), None);
}

#[test]
fn empty_recommendations_open_no_view() {
    let seed = plain_track(Some("t1"), "Song", 0);
    assert_eq!(seed.recommendation_seed(), Some("t1".to_string()));
    assert_eq!(seed.open_recommendations(&Some(vec![])), None);
    assert_eq!(seed.open_recommendations(&None), None);
    assert_eq!(seed.open_recommendations(&Some(vec![None, None])), None);
}

#[test]
fn failed_fetches_are_left_out_of_recommendations() {
    let seed = plain_track(Some("t1"), "Song", 0);
    let mut other = full_track();
    other.id = Some("t10".to_string());
    let view = seed
        .open_recommendations(&Some(vec![None, Some(full_track()), None, Some(other)]))
        .unwrap();
    assert_eq!(view.list.content.len(), 2);
    assert_eq!(view.list.content[0], Track::from_full_track(&full_track()));
    assert_eq!(view.list.content[1].id, Some("t10".to_string()));
    assert_eq!(view.list.get_selected_index(), 0);
    assert_eq!(view.title(), "Similar Tracks");
}
