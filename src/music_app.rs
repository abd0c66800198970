use vstd::prelude::*;
use crate::config::DbConfig;
use crate::text::{blank, is_blank};
use crate::text::{decimal, decimal_text};

verus! {

/// Why a database operation failed, with the driver's message.
pub enum DbError {
    /// Opening the connection failed (network, handshake or authentication).
    ConnectionFailed(String),
    /// The connection opened but the statement failed.
    QueryFailed(String),
}

impl DbError {
    /// The message the window shows for this error.
    pub open spec fn text(self) -> Seq<char> {
        match self {
            DbError::ConnectionFailed(m) => m@,
            DbError::QueryFailed(m) => m@,
        }
    }

    /// The driver's message, as the window shows it.
    pub fn message(&self) -> (r: String)
        ensures
            r@ == self.text(),
    {
        match self {
            DbError::ConnectionFailed(m) => m.clone(),
            DbError::QueryFailed(m) => m.clone(),
        }
    }
}

/// What the window hands to the state machine: a user action or the
/// outcome of a database operation.
pub enum Message {
    LoadAlbums,
    AlbumsLoaded(Result<Vec<String>, DbError>),
    AddGenre,
    GenreAdded(Result<(), DbError>),
    UpdateGenreName(String),
}

/// The work a step asks the runtime to start; its outcome comes back as a
/// `Message`.
pub enum Action {
    /// Nothing to start.
    Idle,
    /// Fetch the album titles with these settings.
    FetchAlbums(DbConfig),
    /// Insert this genre name with these settings.
    InsertGenre(DbConfig, String),
}

/// The state behind the window.
pub struct MusicApp {
    pub albums: Vec<String>,
    pub error: Option<String>,
    pub loading: bool,
    pub config: DbConfig,
    pub new_genre_name: String,
    pub status_message: Option<String>,
}

/// Whether `m` holds exactly the text `t`.
pub open spec fn shows(m: Option<String>, t: Seq<char>) -> bool {
    m is Some && m->0@ == t
}

/// One step of the state machine: from `pre`, message `m` leads to `post`
/// and asks for `act`.
pub open spec fn stepped(pre: MusicApp, m: Message, post: MusicApp, act: Action) -> bool {
    match m {
        Message::LoadAlbums => post == (MusicApp { loading: true, error: None, ..pre })
            && act == Action::FetchAlbums(pre.config),
        Message::AlbumsLoaded(Ok(v)) => post == (MusicApp { albums: v, loading: false, ..pre })
            && act is Idle,
        Message::AlbumsLoaded(Err(e)) => shows(post.error, e.text()) && post == (MusicApp {
            error: post.error,
            loading: false,
            ..pre
        }) && act is Idle,
        Message::AddGenre => if blank(pre.new_genre_name@) {
            shows(post.error, "Please enter a genre name"@) && post == (MusicApp {
                error: post.error,
                ..pre
            }) && act is Idle
        } else {
            post == (MusicApp { loading: true, error: None, ..pre }) && act == Action::InsertGenre(
                pre.config,
                pre.new_genre_name,
            )
        },
        Message::GenreAdded(Ok(_)) => shows(post.status_message, "Genre added successfully!"@)
            && post.new_genre_name@.len() == 0 && post == (MusicApp {
            status_message: post.status_message,
            new_genre_name: post.new_genre_name,
            loading: false,
            ..pre
        }) && act is Idle,
        Message::GenreAdded(Err(e)) => shows(post.error, "Failed to add genre: "@ + e.text())
            && post == (MusicApp { error: post.error, loading: false, ..pre }) && act is Idle,
        Message::UpdateGenreName(n) => post == (MusicApp { new_genre_name: n, ..pre })
            && act is Idle,
    }
}

/// The genre name is checked before any work starts: a blank name (empty
/// once trimmed) starts nothing, leaves the loading flag alone and sets an
/// error; any other name starts its insertion and sets the loading flag.
pub proof fn lemma_genre_name_checked(pre: MusicApp, post: MusicApp, act: Action)
    requires
        stepped(pre, Message::AddGenre, post, act),
    ensures
        blank(pre.new_genre_name@) ==> act is Idle && post.error is Some && post.loading
            == pre.loading,
        !blank(pre.new_genre_name@) ==> act == Action::InsertGenre(pre.config, pre.new_genre_name)
            && post.loading && post.error is None,
{
}

/// Two loaded lists in a row: the state holds the later one, and the
/// loading flag is off after each.
pub proof fn lemma_albums_last_write_wins(
    s0: MusicApp,
    v1: Vec<String>,
    s1: MusicApp,
    a1: Action,
    v2: Vec<String>,
    s2: MusicApp,
    a2: Action,
)
    requires
        stepped(s0, Message::AlbumsLoaded(Ok(v1)), s1, a1),
        stepped(s1, Message::AlbumsLoaded(Ok(v2)), s2, a2),
    ensures
        s2.albums == v2,
        !s1.loading,
        !s2.loading,
        a1 is Idle,
        a2 is Idle,
{
}

/// What the album area of the window shows.
pub enum AlbumPanel {
    /// A one-line notice in place of the list.
    Notice(String),
    /// One numbered line per album.
    Lines(Vec<String>),
}

/// The numbered line for the album at position `i` (counting from zero).
pub open spec fn album_line(i: int, title: Seq<char>) -> Seq<char> {
    decimal_text((i + 1) as nat) + ". "@ + title
}

impl MusicApp {
    /// A fresh state: no albums, no messages, not loading, an empty name.
    pub fn new(config: DbConfig) -> (r: MusicApp)
        ensures
            r.albums@.len() == 0,
            r.error is None,
            !r.loading,
            r.config == config,
            r.new_genre_name@.len() == 0,
            r.status_message is None,
    {
        MusicApp {
            albums: Vec::new(),
            error: None,
            loading: false,
            config,
            new_genre_name: String::new(),
            status_message: None,
        }
    }

    /// The window's title.
    pub fn title(&self) -> (r: String)
        ensures
            r@ == "Music Database GUI"@,
    {
        String::from_str("Music Database GUI")
    }

    /// Applies `message` to the state and returns the work to start.
    pub fn update(&mut self, message: Message) -> (act: Action)
        ensures
            stepped(*old(self), message, *final(self), act),
    {
        match message {
            Message::LoadAlbums => {
                self.loading = true;
                self.error = None;
                Action::FetchAlbums(self.config.duplicate())
            },
            Message::AlbumsLoaded(Ok(albums)) => {
                self.albums = albums;
                self.loading = false;
                Action::Idle
            },
            Message::AlbumsLoaded(Err(e)) => {
                self.error = Some(e.message());
                self.loading = false;
                Action::Idle
            },
            Message::AddGenre => {
                if is_blank(self.new_genre_name.as_str()) {
                    self.error = Some(String::from_str("Please enter a genre name"));
                    return Action::Idle;
                }
                self.loading = true;
                self.error = None;
                Action::InsertGenre(self.config.duplicate(), self.new_genre_name.clone())
            },
            Message::GenreAdded(Ok(_)) => {
                self.loading = false;
                self.status_message = Some(String::from_str("Genre added successfully!"));
                self.new_genre_name = String::new();
                Action::Idle
            },
            Message::GenreAdded(Err(e)) => {
                self.loading = false;
                let mut m = String::from_str("Failed to add genre: ");
                m.append(e.message().as_str());
                self.error = Some(m);
                Action::Idle
            },
            Message::UpdateGenreName(name) => {
                self.new_genre_name = name;
                Action::Idle
            },
        }
    }
    /// The label of the load button and whether it can be pressed: it is
    /// shown disabled, as "Loading...", while an operation is outstanding.
    pub fn load_button(&self) -> (r: (String, bool))
        ensures
            r.0@ == (if self.loading {
                "Loading..."@
            } else {
                "Load Albums"@
            }),
            r.1 == !self.loading,
    {
        if self.loading {
            (String::from_str("Loading..."), false)
        } else {
            (String::from_str("Load Albums"), true)
        }
    }

    /// The album list as numbered lines, `1. <title>` first.
    pub fn album_lines(&self) -> (r: Vec<String>)
        ensures
            r@.len() == self.albums@.len(),
            forall|i: int|
                0 <= i < r@.len() ==> #[trigger] r@[i]@ == album_line(i, self.albums@[i]@),
    {
        let mut lines: Vec<String> = Vec::new();
        let n = self.albums.len();
        let mut i: usize = 0;
        while i < n
            invariant
                n == self.albums@.len(),
                i <= n,
                lines@.len() == i,
                forall|j: int|
                    0 <= j < i ==> #[trigger] lines@[j]@ == album_line(j, self.albums@[j]@),
            decreases n - i,
        {
            let mut line = decimal(i + 1);
            line.append(". ");
            line.append(self.albums[i].as_str());
            lines.push(line);
            i = i + 1;
        }
        lines
    }

    /// What the album area shows: a notice while the list is empty (one
    /// inviting a load when idle, one saying a load runs otherwise), else
    /// the numbered lines.
    pub fn album_panel(&self) -> (r: AlbumPanel)
        ensures
            self.albums@.len() == 0 && !self.loading ==> (r matches AlbumPanel::Notice(t)
                && t@ == "No albums loaded. Click 'Load Albums' to fetch data."@),
            self.albums@.len() == 0 && self.loading ==> (r matches AlbumPanel::Notice(t)
                && t@ == "Loading albums..."@),
            self.albums@.len() > 0 ==> (r matches AlbumPanel::Lines(l)
                && l@.len() == self.albums@.len() && forall|i: int|
                0 <= i < l@.len() ==> #[trigger] l@[i]@ == album_line(i, self.albums@[i]@)),
    {
        if self.albums.len() == 0 && !self.loading {
            AlbumPanel::Notice(String::from_str("No albums loaded. Click 'Load Albums' to fetch data."))
        } else if self.albums.len() == 0 {
            AlbumPanel::Notice(String::from_str("Loading albums..."))
        } else {
            AlbumPanel::Lines(self.album_lines())
        }
    }
}

} // verus!
