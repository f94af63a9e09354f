use ncspot::library::{Config, Library, RemoteWrite, WriteKind};
use ncspot::playable::Playable;
use ncspot::playlist::Playlist;
use ncspot::track::Track;
use ncspot::traits::ListItem;

fn track(id: Option<&str>, title: &str) -> Track {
    Track {
        id: id.map(|s| s.to_string()),
        uri: format!("spotify:track:{}", title),
        title: title.to_string(),
        track_number: 1,
        disc_number: 1,
        duration: 1000,
        artists: vec!["Ann".to_string()],
        artist_ids: vec![],
        album: None,
        album_id: None,
        album_artists: vec![],
        cover_url: None,
        url: format!("spotify:track:{}", title),
        added_at: None,
    }
}

fn library() -> Library {
    Library::new(Config { album_column: None, use_nerdfont: None })
}

fn playlist(id: &str) -> Playlist {
    Playlist { id: id.to_string(), name: id.to_uppercase(), tracks: vec![] }
}

fn titles(l: &Library) -> Vec<String> {
    l.tracks.iter().map(|t| t.title.clone()).collect()
}

fn saved(l: &Library, t: &Track) -> bool {
    l.is_saved_track(&Playable::Track(t.clone()))
}

#[test]
fn new_library_is_empty() {
    let l = library();
    assert!(l.tracks.is_empty());
    assert!(l.items().is_empty());
    assert!(l.foru.is_empty());
    assert!(l.outbox.is_empty());
    assert!(!l.refresh_due);
    assert!(!saved(&l, &track(Some("a"), "A")));
}

#[test]
fn save_tracks_puts_new_ones_in_front_once() {
    let mut l = library();
    l.save_tracks(&vec![track(Some("a"), "A")], false);
    assert!(!l.refresh_due);
    l.save_tracks(
        &vec![track(Some("b"), "B"), track(Some("a"), "A2"), track(Some("b"), "B2"), track(Some("c"), "C")],
        true,
    );
    assert_eq!(titles(&l), vec!["B", "C", "A"]);
    assert!(l.refresh_due);
    assert!(saved(&l, &track(Some("b"), "other title")));
    assert!(!saved(&l, &track(Some("z"), "A")));
    assert_eq!(
        l.outbox,
        vec![
            RemoteWrite { kind: WriteKind::SaveTracks, ids: vec!["a".to_string()] },
            RemoteWrite {
                kind: WriteKind::SaveTracks,
                ids: vec!["b".to_string(), "a".to_string(), "b".to_string(), "c".to_string()],
            },
        ]
    );
}

#[test]
fn unsave_tracks_drops_by_identifier() {
    let mut l = library();
    l.save_tracks(&vec![track(Some("a"), "A"), track(Some("b"), "B"), track(Some("c"), "C")], false);
    l.unsave_tracks(&vec![track(Some("b"), "whatever"), track(Some("x"), "X")], true);
    assert_eq!(titles(&l), vec!["A", "C"]);
    assert!(l.refresh_due);
    assert_eq!(
        l.outbox[1],
        RemoteWrite { kind: WriteKind::UnsaveTracks, ids: vec!["b".to_string(), "x".to_string()] }
    );
}

#[test]
fn toggle_saved_twice_restores_membership() {
    let mut l = library();
    l.save_tracks(&vec![track(Some("a"), "A"), track(Some("b"), "B")], false);
    let a = track(Some("a"), "A");
    let n = track(Some("n"), "N");
    a.toggle_saved(&mut l);
    assert!(!saved(&l, &a));
    a.toggle_saved(&mut l);
    assert!(saved(&l, &a));
    n.toggle_saved(&mut l);
    assert!(saved(&l, &n));
    n.toggle_saved(&mut l);
    assert!(!saved(&l, &n));
    assert!(saved(&l, &track(Some("b"), "B")));
    assert_eq!(l.tracks.len(), 2);
}

#[test]
fn save_and_unsave_through_the_track() {
    let mut l = library();
    let a = track(Some("a"), "A");
    a.save(&mut l);
    assert!(saved(&l, &a));
    assert!(l.refresh_due);
    a.save(&mut l);
    assert_eq!(l.tracks.len(), 1);
    a.unsave(&mut l);
    assert!(!saved(&l, &a));
    assert!(l.tracks.is_empty());
}

#[test]
fn tracks_without_identifier_share_the_absent_one() {
    let mut l = library();
    let x = track(None, "X");
    let y = track(None, "Y");
    x.save(&mut l);
    assert!(saved(&l, &y));
    assert!(!saved(&l, &track(Some("a"), "A")));
    assert_eq!(l.outbox[0], RemoteWrite { kind: WriteKind::SaveTracks, ids: vec![] });
}

#[test]
fn delete_playlist_removes_the_first_match() {
    let mut l = library();
    l.playlists = vec![playlist("mix"), playlist("jazz"), playlist("rock")];
    l.foru = vec![playlist("jazz")];
    l.delete_playlist(&"jazz".to_string());
    assert_eq!(l.playlists, vec![playlist("mix"), playlist("rock")]);
    assert_eq!(l.foru, vec![playlist("jazz")]);
    assert_eq!(
        l.outbox,
        vec![RemoteWrite { kind: WriteKind::DeletePlaylist, ids: vec!["jazz".to_string()] }]
    );
    l.delete_playlist(&"nope".to_string());
    assert_eq!(l.playlists.len(), 2);
    assert_eq!(l.outbox.len(), 2);
}

#[test]
fn take_writes_empties_the_outbox() {
    let mut l = library();
    track(Some("a"), "A").save(&mut l);
    l.delete_playlist(&"p".to_string());
    let writes = l.take_writes();
    assert_eq!(writes.len(), 2);
    assert_eq!(writes[0].kind, WriteKind::SaveTracks);
    assert_eq!(writes[1].kind, WriteKind::DeletePlaylist);
    assert!(l.outbox.is_empty());
    assert_eq!(l.tracks.len(), 1);
}
