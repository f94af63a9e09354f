use ncspot::command::{Command, CommandResult, FollowUp};
use ncspot::library::{Config, Library, WriteKind};
use ncspot::playable::Playable;
use ncspot::playlist::{Playlist, PlaylistType};
use ncspot::queue::Queue;
use ncspot::token::{
    cookie_header, fetch_illegal_access_token, session_cookie, status_is_success, TokenInfo,
};
use ncspot::track::Track;
use ncspot::ui::modal::Modal;
use ncspot::ui::playlists::PlaylistsView;
use ncspot::ui::recommendations::RecommendationsView;
use ncspot::ui::stack::{Screen, ViewStack};

fn track(id: &str) -> Track {
    Track {
        id: Some(id.to_string()),
        uri: format!("spotify:track:{}", id),
        title: id.to_uppercase(),
        track_number: 1,
        disc_number: 1,
        duration: 1000,
        artists: vec!["Ann".to_string()],
        artist_ids: vec![],
        album: None,
        album_id: None,
        album_artists: vec![],
        cover_url: None,
        url: format!("spotify:track:{}", id),
        added_at: None,
    }
}

fn playlist(id: &str) -> Playlist {
    Playlist { id: id.to_string(), name: id.to_uppercase(), tracks: vec![] }
}

fn library() -> Library {
    let mut l = Library::new(Config { album_column: None, use_nerdfont: None });
    l.playlists = vec![playlist("mix"), playlist("jazz")];
    l.foru = vec![playlist("daily"), playlist("weekly"), playlist("radar")];
    l
}

fn token() -> TokenInfo {
    TokenInfo {
        client_id: "client".to_string(),
        access_token: "SECRET-REDACTED".to_string(),
        expires_at: 1_560_000_000_000,
        is_anonymous: false,
    }
}

#[test]
fn playlists_view_reads_the_chosen_collection() {
    let l = library();
    let owned = PlaylistsView::new(PlaylistType::Library);
    let foru = PlaylistsView::new(PlaylistType::ForYou);
    assert_eq!(owned.selected, 0);
    assert_eq!(owned.list(&l).len(), 2);
    assert_eq!(foru.list(&l).len(), 3);
    assert_eq!(foru.list(&l)[0].id, "daily");
}

#[test]
fn delete_dialog_names_the_selected_playlist() {
    let l = library();
    let mut v = PlaylistsView::new(PlaylistType::Library);
    assert_eq!(v.delete_dialog(&l), Some(Modal { playlist_id: "mix".to_string() }));
    v.selected = 1;
    assert_eq!(v.delete_dialog(&l), Some(Modal { playlist_id: "jazz".to_string() }));
    v.selected = 2;
    assert_eq!(v.delete_dialog(&l), None);
}

#[test]
fn playlists_view_answers() {
    let l = library();
    let mut v = PlaylistsView::new(PlaylistType::ForYou);
    assert_eq!(v.on_command(Command::Down, &l), CommandResult::Consumed(None));
    assert_eq!(v.on_command(Command::Down, &l), CommandResult::Consumed(None));
    assert_eq!(v.on_command(Command::Down, &l), CommandResult::Consumed(None));
    assert_eq!(v.selected, 2);
    assert_eq!(v.on_command(Command::Delete, &l), CommandResult::Consumed(None));
    assert_eq!(v.on_command(Command::Up, &l), CommandResult::Consumed(None));
    assert_eq!(v.selected, 1);
    assert_eq!(
        v.on_command(Command::Delete, &l),
        CommandResult::Consumed(Some(FollowUp::Push(Screen::Modal(Modal {
            playlist_id: "jazz".to_string()
        }))))
    );
    assert_eq!(v.on_command(Command::Play, &l), CommandResult::Ignored);
    assert_eq!(v.on_command(Command::Back, &l), CommandResult::Ignored);
}

#[test]
fn recommendations_view_forwards_to_its_list() {
    let mut q = Queue::new();
    let mut l = library();
    let mut v = RecommendationsView::new(vec![track("a"), track("b")]);
    assert_eq!(v.on_command(Command::Down, &mut q, &mut l), CommandResult::Consumed(None));
    assert_eq!(v.on_command(Command::Down, &mut q, &mut l), CommandResult::Consumed(None));
    assert_eq!(v.list.selected, 1);
    assert_eq!(v.on_command(Command::Play, &mut q, &mut l), CommandResult::Consumed(None));
    assert_eq!(q.get_current(), Some(Playable::Track(track("b"))));
    assert_eq!(v.on_command(Command::Save, &mut q, &mut l), CommandResult::Consumed(None));
    assert!(l.is_saved_track(&Playable::Track(track("b"))));
    assert_eq!(v.on_command(Command::Up, &mut q, &mut l), CommandResult::Consumed(None));
    assert_eq!(v.on_command(Command::Queue, &mut q, &mut l), CommandResult::Consumed(None));
    assert_eq!(v.on_command(Command::PlayNext, &mut q, &mut l), CommandResult::Consumed(None));
    assert_eq!(q.len(), 3);
    assert_eq!(q.queue[1], Playable::Track(track("a")));
    assert_eq!(v.on_command(Command::Open, &mut q, &mut l), CommandResult::Consumed(None));
    assert_eq!(v.on_command(Command::Delete, &mut q, &mut l), CommandResult::Ignored);
    assert_eq!(v.on_command(Command::Back, &mut q, &mut l), CommandResult::Ignored);
}

#[test]
fn empty_track_list_consumes_without_effect() {
    let mut q = Queue::new();
    let mut l = library();
    let mut v = RecommendationsView::new(vec![]);
    assert_eq!(v.on_command(Command::Play, &mut q, &mut l), CommandResult::Consumed(None));
    assert_eq!(v.on_command(Command::Save, &mut q, &mut l), CommandResult::Consumed(None));
    assert_eq!(q.len(), 0);
    assert!(l.tracks.is_empty());
}

#[test]
fn consumed_command_is_not_offered_further_down() {
    let mut q = Queue::new();
    let mut l = library();
    let mut stack = ViewStack::new();
    stack.push(Screen::Recommendations(RecommendationsView::new(vec![track("low")])));
    stack.push(Screen::Playlists(PlaylistsView::new(PlaylistType::Library)));
    stack.push(Screen::Recommendations(RecommendationsView::new(vec![track("high")])));
    assert_eq!(stack.on_command(Command::Play, &mut q, &mut l), Some(2));
    assert_eq!(q.len(), 1);
    assert_eq!(q.get_current(), Some(Playable::Track(track("high"))));
    assert_eq!(stack.on_command(Command::Down, &mut q, &mut l), Some(2));
    assert_eq!(
        stack.views[0],
        Screen::Recommendations(RecommendationsView::new(vec![track("low")]))
    );
    assert_eq!(stack.views[1], Screen::Playlists(PlaylistsView::new(PlaylistType::Library)));
}

#[test]
fn declined_command_bubbles_down() {
    let mut q = Queue::new();
    let mut l = library();
    let mut stack = ViewStack::new();
    stack.push(Screen::Recommendations(RecommendationsView::new(vec![track("low")])));
    stack.push(Screen::Playlists(PlaylistsView::new(PlaylistType::Library)));
    assert_eq!(stack.on_command(Command::Queue, &mut q, &mut l), Some(0));
    assert_eq!(q.queue, vec![Playable::Track(track("low"))]);
    assert_eq!(stack.views.len(), 2);
}

#[test]
fn command_declined_by_all_is_dropped() {
    let mut q = Queue::new();
    let mut l = library();
    let mut stack = ViewStack::new();
    assert_eq!(stack.on_command(Command::Play, &mut q, &mut l), None);
    stack.push(Screen::Recommendations(RecommendationsView::new(vec![track("low")])));
    stack.push(Screen::Playlists(PlaylistsView::new(PlaylistType::Library)));
    assert_eq!(stack.on_command(Command::Back, &mut q, &mut l), None);
    assert_eq!(stack.on_command(Command::Confirm, &mut q, &mut l), None);
    assert_eq!(stack.views.len(), 2);
    assert_eq!(q.len(), 0);
    assert_eq!(l, library());
}

#[test]
fn delete_asks_first_and_confirm_deletes() {
    let mut q = Queue::new();
    let mut l = library();
    let mut stack = ViewStack::new();
    stack.push(Screen::Playlists(PlaylistsView::new(PlaylistType::Library)));
    assert_eq!(stack.on_command(Command::Down, &mut q, &mut l), Some(0));
    assert_eq!(stack.on_command(Command::Delete, &mut q, &mut l), Some(0));
    assert_eq!(stack.views.len(), 2);
    assert_eq!(stack.views[1], Screen::Modal(Modal { playlist_id: "jazz".to_string() }));
    assert_eq!(l.playlists.len(), 2);
    assert_eq!(stack.on_command(Command::Down, &mut q, &mut l), Some(1));
    assert_eq!(stack.views[0], Screen::Playlists(PlaylistsView { p_type: PlaylistType::Library, selected: 1 }));
    assert_eq!(stack.on_command(Command::Confirm, &mut q, &mut l), Some(1));
    assert_eq!(stack.views.len(), 1);
    assert_eq!(l.playlists, vec![playlist("mix")]);
    assert_eq!(l.outbox.len(), 1);
    assert_eq!(l.outbox[0].kind, WriteKind::DeletePlaylist);
    assert_eq!(l.outbox[0].ids, vec!["jazz".to_string()]);
}

#[test]
fn cancel_closes_the_dialog_and_keeps_the_playlist() {
    let mut q = Queue::new();
    let mut l = library();
    let mut stack = ViewStack::new();
    stack.push(Screen::Playlists(PlaylistsView::new(PlaylistType::Library)));
    assert_eq!(stack.on_command(Command::Delete, &mut q, &mut l), Some(0));
    assert_eq!(stack.on_command(Command::Cancel, &mut q, &mut l), Some(1));
    assert_eq!(stack.views.len(), 1);
    assert_eq!(l, library());
    assert_eq!(stack.pop(), Some(Screen::Playlists(PlaylistsView::new(PlaylistType::Library))));
    assert_eq!(stack.pop(), None);
}

#[test]
fn delete_on_an_empty_collection_opens_no_dialog() {
    let mut q = Queue::new();
    let mut l = Library::new(Config { album_column: None, use_nerdfont: None });
    let mut stack = ViewStack::new();
    stack.push(Screen::Playlists(PlaylistsView::new(PlaylistType::Library)));
    assert_eq!(stack.on_command(Command::Delete, &mut q, &mut l), Some(0));
    assert_eq!(stack.views.len(), 1);
}

#[test]
fn modal_answers() {
    let mut l = library();
    let m = Modal { playlist_id: "mix".to_string() };
    assert_eq!(m.on_command(Command::Play, &mut l), CommandResult::Consumed(None));
    assert_eq!(l, library());
    assert_eq!(m.on_command(Command::Cancel, &mut l), CommandResult::Consumed(Some(FollowUp::Pop)));
    assert_eq!(l, library());
    assert_eq!(m.on_command(Command::Confirm, &mut l), CommandResult::Consumed(Some(FollowUp::Pop)));
    assert_eq!(l.playlists, vec![playlist("jazz")]);
}

#[test]
fn token_endpoint_rejection_gives_no_token() {
    assert_eq!(fetch_illegal_access_token(401, None), None);
    assert_eq!(fetch_illegal_access_token(401, Some(token())), None);
    assert_eq!(fetch_illegal_access_token(500, Some(token())), None);
    assert_eq!(fetch_illegal_access_token(199, Some(token())), None);
    assert_eq!(fetch_illegal_access_token(300, Some(token())), None);
}

#[test]
fn token_endpoint_success_gives_the_token() {
    assert_eq!(fetch_illegal_access_token(200, Some(token())), Some(token()));
    assert_eq!(fetch_illegal_access_token(299, Some(token())), Some(token()));
    assert_eq!(fetch_illegal_access_token(200, None), None);
    assert!(status_is_success(204));
    assert!(!status_is_success(404));
}

#[test]
fn session_cookie_drops_the_line_end() {
    assert_eq!(session_cookie("sp_dc=abc; sp_key=def\n"), "sp_dc=abc; sp_key=def");
    assert_eq!(session_cookie("\n"), "");
    assert_eq!(session_cookie(""), "");
    assert_eq!(session_cookie("no line end"), "no line end");
    assert_eq!(session_cookie("twice\n\n"), "twice\n");
    assert_eq!(session_cookie("k\u{e9}y=\u{2713}\n"), "k\u{e9}y=\u{2713}");
}

#[test]
fn cookie_header_holds_the_cookie_without_the_line_end() {
    let value = cookie_header("sp_dc=abc; sp_key=def\n").unwrap();
    assert_eq!(value.as_bytes(), &b"sp_dc=abc; sp_key=def"[..]);
    assert_eq!(cookie_header("a\tb\n").unwrap().as_bytes(), &b"a\tb"[..]);
    assert!(cookie_header("").is_some());
    assert_eq!(cookie_header("bare").unwrap().as_bytes(), &b"bare"[..]);
    assert!(cookie_header("k\u{e9}y\n").is_some());
}

#[test]
fn cookie_header_refuses_control_characters() {
    assert!(cookie_header("two\nlines\n").is_none());
    assert!(cookie_header("a\u{7f}b\n").is_none());
    assert!(cookie_header("a\rb\n").is_none());
    assert!(cookie_header("ends twice\n\n").is_none());
}
