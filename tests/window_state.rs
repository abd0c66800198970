use music_db_gui::config::DbConfig;
use music_db_gui::music_app::{Action, AlbumPanel, DbError, Message, MusicApp};

fn fresh() -> MusicApp {
    MusicApp::new(DbConfig::new(None, None, None, None, None))
}

fn names(v: &[&str]) -> Vec<String> {
    v.iter().map(|s| s.to_string()).collect()
}

#[test]
fn fresh_state() {
    let app = fresh();
    assert!(app.albums.is_empty());
    assert!(app.error.is_none());
    assert!(!app.loading);
    assert!(app.new_genre_name.is_empty());
    assert!(app.status_message.is_none());
    assert_eq!(app.title(), "Music Database GUI");
}

#[test]
fn load_albums_starts_fetch() {
    let mut app = fresh();
    app.error = Some("old".to_string());
    let act = app.update(Message::LoadAlbums);
    assert!(app.loading);
    assert!(app.error.is_none());
    match act {
        Action::FetchAlbums(c) => assert_eq!(c.host, "localhost"),
        _ => panic!("expected a fetch"),
    }
}

#[test]
fn albums_loaded_replaces_list() {
    let mut app = fresh();
    app.loading = true;
    let act = app.update(Message::AlbumsLoaded(Ok(names(&["B", "A"]))));
    assert!(matches!(act, Action::Idle));
    assert_eq!(app.albums, names(&["B", "A"]));
    assert!(!app.loading);
}

#[test]
fn albums_loaded_twice_last_wins() {
    let mut app = fresh();
    app.loading = true;
    app.update(Message::AlbumsLoaded(Ok(names(&["X", "Y", "Z"]))));
    assert!(!app.loading);
    app.update(Message::AlbumsLoaded(Ok(names(&["Q"]))));
    assert_eq!(app.albums, names(&["Q"]));
    assert!(!app.loading);
}

#[test]
fn albums_failed_sets_error() {
    let mut app = fresh();
    app.loading = true;
    let e = DbError::QueryFailed("relation \"albums\" does not exist".to_string());
    app.update(Message::AlbumsLoaded(Err(e)));
    assert_eq!(app.error.as_deref(), Some("relation \"albums\" does not exist"));
    assert!(!app.loading);
}

#[test]
fn add_genre_two_spaces_is_refused() {
    let mut app = fresh();
    app.update(Message::UpdateGenreName("  ".to_string()));
    let act = app.update(Message::AddGenre);
    assert!(matches!(act, Action::Idle));
    assert_eq!(app.error.as_deref(), Some("Please enter a genre name"));
    assert!(!app.loading);
}

#[test]
fn add_genre_empty_is_refused() {
    let mut app = fresh();
    let act = app.update(Message::AddGenre);
    assert!(matches!(act, Action::Idle));
    assert!(app.error.is_some());
}

#[test]
fn add_genre_starts_insert() {
    let mut app = fresh();
    app.error = Some("old".to_string());
    app.update(Message::UpdateGenreName(" Jazz ".to_string()));
    let act = app.update(Message::AddGenre);
    assert!(app.loading);
    assert!(app.error.is_none());
    match act {
        Action::InsertGenre(c, name) => {
            assert_eq!(name, " Jazz ");
            assert_eq!(c.dbname, "music_db");
        }
        _ => panic!("expected an insert"),
    }
}

#[test]
fn genre_added_clears_name() {
    let mut app = fresh();
    app.update(Message::UpdateGenreName("Jazz".to_string()));
    app.loading = true;
    let act = app.update(Message::GenreAdded(Ok(())));
    assert!(matches!(act, Action::Idle));
    assert!(!app.loading);
    assert_eq!(app.status_message.as_deref(), Some("Genre added successfully!"));
    assert_eq!(app.new_genre_name, "");
}

#[test]
fn genre_failed_prefixes_message() {
    let mut app = fresh();
    app.loading = true;
    let e = DbError::ConnectionFailed("connection refused".to_string());
    app.update(Message::GenreAdded(Err(e)));
    assert!(!app.loading);
    assert_eq!(app.error.as_deref(), Some("Failed to add genre: connection refused"));
}

#[test]
fn error_messages() {
    assert_eq!(DbError::ConnectionFailed("a".to_string()).message(), "a");
    assert_eq!(DbError::QueryFailed("b".to_string()).message(), "b");
}

#[test]
fn load_button_states() {
    let mut app = fresh();
    assert_eq!(app.load_button(), ("Load Albums".to_string(), true));
    app.loading = true;
    assert_eq!(app.load_button(), ("Loading...".to_string(), false));
}

#[test]
fn album_panel_notices() {
    let mut app = fresh();
    match app.album_panel() {
        AlbumPanel::Notice(t) => {
            assert_eq!(t, "No albums loaded. Click 'Load Albums' to fetch data.")
        }
        _ => panic!("expected a notice"),
    }
    app.loading = true;
    match app.album_panel() {
        AlbumPanel::Notice(t) => assert_eq!(t, "Loading albums..."),
        _ => panic!("expected a notice"),
    }
}

#[test]
fn album_panel_numbers_lines() {
    let mut app = fresh();
    let titles: Vec<String> = (0..12).map(|i| format!("T{}", i)).collect();
    app.update(Message::AlbumsLoaded(Ok(titles)));
    match app.album_panel() {
        AlbumPanel::Lines(l) => {
            assert_eq!(l.len(), 12);
            assert_eq!(l[0], "1. T0");
            assert_eq!(l[9], "10. T9");
            assert_eq!(l[11], "12. T11");
        }
        _ => panic!("expected lines"),
    }
}
