//! State of the desktop client: the connection, the login, the page shown,
//! the servers known and the favourite projects of each server.

use crate::text::owned;
use vstd::prelude::*;

verus! {

/// The connection to a manager.
#[derive(Debug, Clone)]
pub enum ConnectionState {
    Disconnected,
    Connecting,
    Connected,
    Error(String),
}

impl Default for ConnectionState {
    /// A client starts disconnected.
    fn default() -> (s: Self)
        ensures
            s is Disconnected,
    {
        ConnectionState::Disconnected
    }
}

/// Authentication state for tracking user login status.
#[derive(Debug, Clone)]
pub struct AuthState {
    /// JWT token received from manager
    pub jwt_token: Option<String>,
    /// User ID
    pub user_id: Option<i64>,
    /// Username
    pub username: Option<String>,
    /// Whether this is the first user (for UI messaging)
    pub is_first_user: bool,
}

impl Default for AuthState {
    /// Nobody is logged in.
    fn default() -> (s: Self)
        ensures
            s.jwt_token is None,
            s.user_id is None,
            s.username is None,
            !s.is_first_user,
    {
        AuthState { jwt_token: None, user_id: None, username: None, is_first_user: false }
    }
}

/// The user is authenticated: connected to a server and logged in.
pub open spec fn authenticated(connection: ConnectionState, auth: AuthState) -> bool {
    connection is Connected && auth.jwt_token is Some
}

/// Whether the user is authenticated: connected to a server and logged in.
pub fn is_authenticated(connection: &ConnectionState, auth: &AuthState) -> (b: bool)
    ensures
        b == authenticated(*connection, *auth),
{
    (match connection {
        ConnectionState::Connected => true,
        _ => false,
    }) && auth.jwt_token.is_some()
}

/// The pages of the client.
#[derive(Debug, Clone, Copy, PartialEq, Eq, Structural)]
pub enum Page {
    Projects,
    Work,
    /// The page of the project with this ID.
    ProjectDetail(i64),
    Mentions,
    Users,
    Teams,
    Servers,
    Settings,
    UiReference,
    UiTwoColumnMainContent,
}

impl Default for Page {
    /// The client opens on the servers page.
    fn default() -> (p: Self)
        ensures
            p == Page::Servers,
    {
        Page::Servers
    }
}

/// A server reached over SSH.
#[derive(Debug, Clone)]
pub struct Server {
    pub host: String,
    pub user: String,
    pub key_path: Option<String>,
    pub port: u16,
}

impl Server {
    /// How the server is listed: user, `@`, host.
    pub fn display_name(&self) -> (name: String)
        ensures
            name@ == self.user@ + "@"@ + self.host@,
    {
        let mut name = crate::documents::copy_string(&self.user);
        name.append("@");
        name.append(self.host.as_str());
        name
    }
}

/// The server, user and port recorded for a connection to the manager
/// running on this computer.
pub fn local_server_info() -> (info: (String, String, u16))
    ensures
        info.0@ == "localhost"@,
        info.1@ == "local"@,
        info.2 == 8081,
{
    (owned("localhost"), owned("local"), 8081)
}

/// The SSH port used when a stored server names none.
pub fn default_ssh_port() -> (port: u16)
    ensures
        port == 22,
{
    22
}

/// The view of a favourite: host, user, port and project ID.
pub open spec fn favorite_view(f: (String, String, u16, i64)) -> (Seq<char>, Seq<char>, u16, i64) {
    (f.0@, f.1@, f.2, f.3)
}

/// Favourite projects, each for one server.
pub struct Favorites {
    entries: Vec<(String, String, u16, i64)>,
}

impl View for Favorites {
    type V = Set<(Seq<char>, Seq<char>, u16, i64)>;

    closed spec fn view(&self) -> Set<(Seq<char>, Seq<char>, u16, i64)> {
        self.entries@.map_values(|f: (String, String, u16, i64)| favorite_view(f)).to_set()
    }
}

impl Favorites {
    /// No favourite is recorded twice.
    pub closed spec fn well_formed(&self) -> bool {
        forall|i: int, j: int|
            0 <= i < j < self.entries@.len() ==> favorite_view(#[trigger] self.entries@[i]) != favorite_view(
                #[trigger] self.entries@[j],
            )
    }

    /// No favourites.
    pub fn new() -> (f: Self)
        ensures
            f.well_formed(),
            f@ == Set::<(Seq<char>, Seq<char>, u16, i64)>::empty(),
    {
        let f = Favorites { entries: Vec::new() };
        assert(f@ =~= Set::<(Seq<char>, Seq<char>, u16, i64)>::empty());
        f
    }

    /// The number of favourites.
    pub fn len(&self) -> (n: usize)
        requires
            self.well_formed(),
        ensures
            n == self@.len(),
    {
        proof {
            self.lemma_len();
        }
        self.entries.len()
    }

    proof fn lemma_len(&self)
        requires
            self.well_formed(),
        ensures
            self@.len() == self.entries@.len(),
    {
        let s = self.entries@.map_values(|f: (String, String, u16, i64)| favorite_view(f));
        assert forall|i: int, j: int| 0 <= i < s.len() && 0 <= j < s.len() && i != j implies s[i] != s[j] by {
            if i < j {
                assert(favorite_view(self.entries@[i]) != favorite_view(self.entries@[j]));
            } else {
                assert(favorite_view(self.entries@[j]) != favorite_view(self.entries@[i]));
            }
        }
        assert(s.no_duplicates());
        s.unique_seq_to_set();
    }

    fn position(&self, host: &str, user: &str, port: u16, project_id: i64) -> (r: Option<usize>)
        ensures
            match r {
                Some(i) => i < self.entries@.len() && favorite_view(self.entries@[i as int]) == (
                    host@,
                    user@,
                    port,
                    project_id,
                ),
                None => !self@.contains((host@, user@, port, project_id)),
            },
    {
        let mut i: usize = 0;
        while i < self.entries.len()
            invariant
                i <= self.entries@.len(),
                forall|j: int| 0 <= j < i ==> favorite_view(#[trigger] self.entries@[j]) != (
                    host@,
                    user@,
                    port,
                    project_id,
                ),
            decreases self.entries@.len() - i,
        {
            let e = &self.entries[i];
            if e.2 == port && e.3 == project_id && crate::text::str_eq(e.0.as_str(), host)
                && crate::text::str_eq(e.1.as_str(), user) {
                return Some(i);
            }
            i = i + 1;
        }
        proof {
            let s = self.entries@.map_values(|f: (String, String, u16, i64)| favorite_view(f));
            if self@.contains((host@, user@, port, project_id)) {
                assert(s.contains((host@, user@, port, project_id)));
                let j = choose|j: int| 0 <= j < s.len() && s[j] == (host@, user@, port, project_id);
                assert(favorite_view(self.entries@[j]) == (host@, user@, port, project_id));
            }
        }
        None
    }

    /// Whether the project is a favourite on the server.
    pub fn contains(&self, host: &str, user: &str, port: u16, project_id: i64) -> (b: bool)
        ensures
            b == self@.contains((host@, user@, port, project_id)),
    {
        match self.position(host, user, port, project_id) {
            Some(i) => {
                proof {
                    let s = self.entries@.map_values(|f: (String, String, u16, i64)| favorite_view(f));
                    assert(s[i as int] == (host@, user@, port, project_id));
                    assert(s.contains((host@, user@, port, project_id)));
                }
                true
            },
            None => false,
        }
    }

    /// Makes the project a favourite on the server when it was not one, and
    /// removes it when it was. Returns whether it is a favourite now.
    pub fn toggle(&mut self, host: &str, user: &str, port: u16, project_id: i64) -> (now_favorite: bool)
        requires
            old(self).well_formed(),
        ensures
            final(self).well_formed(),
            now_favorite == !old(self)@.contains((host@, user@, port, project_id)),
            final(self)@ == toggled(old(self)@, (host@, user@, port, project_id)),
    {
        let ghost key = (host@, user@, port, project_id);
        let ghost old_entries = self.entries@;
        match self.position(host, user, port, project_id) {
            Some(i) => {
                self.entries.remove(i);
                proof {
                    let ne = self.entries@;
                    assert(ne =~= old_entries.remove(i as int));
                    let os = old_entries.map_values(|f: (String, String, u16, i64)| favorite_view(f));
                    let ns = ne.map_values(|f: (String, String, u16, i64)| favorite_view(f));
                    assert(self.well_formed()) by {
                        assert forall|a: int, b: int| 0 <= a < b < ne.len() implies favorite_view(#[trigger] ne[a])
                            != favorite_view(#[trigger] ne[b]) by {
                            let a0 = if a < i { a } else { a + 1 };
                            let b0 = if b < i { b } else { b + 1 };
                            assert(ne[a] == old_entries[a0]);
                            assert(ne[b] == old_entries[b0]);
                        }
                    }
                    assert forall|x| #[trigger] ns.to_set().contains(x) == os.to_set().remove(key).contains(x) by {
                        if ns.contains(x) {
                            let a = choose|a: int| 0 <= a < ns.len() && ns[a] == x;
                            let a0 = if a < i { a } else { a + 1 };
                            assert(ns[a] == os[a0]);
                            assert(os.contains(x));
                            assert(a0 != i);
                            assert(x != key) by {
                                if a0 < i {
                                    assert(favorite_view(old_entries[a0]) != favorite_view(old_entries[i as int]));
                                } else {
                                    assert(favorite_view(old_entries[i as int]) != favorite_view(old_entries[a0]));
                                }
                            }
                        }
                        if os.contains(x) && x != key {
                            let a0 = choose|a0: int| 0 <= a0 < os.len() && os[a0] == x;
                            assert(a0 != i);
                            let a = if a0 < i { a0 } else { a0 - 1 };
                            assert(ns[a] == os[a0]);
                            assert(ns.contains(x));
                        }
                    }
                    assert(ns.to_set() =~= os.to_set().remove(key));
                    assert(os[i as int] == key);
                    assert(os.contains(key));
                }
                false
            },
            None => {
                self.entries.push((owned(host), owned(user), port, project_id));
                proof {
                    let ne = self.entries@;
                    let os = old_entries.map_values(|f: (String, String, u16, i64)| favorite_view(f));
                    let ns = ne.map_values(|f: (String, String, u16, i64)| favorite_view(f));
                    assert(ns =~= os.push(key));
                    assert(self.well_formed()) by {
                        assert forall|a: int, b: int| 0 <= a < b < ne.len() implies favorite_view(#[trigger] ne[a])
                            != favorite_view(#[trigger] ne[b]) by {
                            if b == old_entries.len() {
                                assert(ns[a] == os[a]);
                                assert(os.contains(os[a]));
                            } else {
                                assert(ne[a] == old_entries[a]);
                                assert(ne[b] == old_entries[b]);
                            }
                        }
                    }
                    assert(ns.to_set() =~= os.to_set().insert(key)) by {
                        assert forall|x| #[trigger] ns.to_set().contains(x) == os.to_set().insert(key).contains(x) by {
                            if ns.contains(x) {
                                let a = choose|a: int| 0 <= a < ns.len() && ns[a] == x;
                                if a < os.len() {
                                    assert(os[a] == x);
                                }
                            }
                            if os.contains(x) {
                                let a = choose|a: int| 0 <= a < os.len() && os[a] == x;
                                assert(ns[a] == x);
                            }
                            if x == key {
                                assert(ns[os.len() as int] == x);
                            }
                        }
                    }
                }
                true
            },
        }
    }

    /// Records the project as a favourite on the server.
    pub fn insert(&mut self, host: &str, user: &str, port: u16, project_id: i64)
        requires
            old(self).well_formed(),
        ensures
            final(self).well_formed(),
            final(self)@ == old(self)@.insert((host@, user@, port, project_id)),
    {
        if !self.contains(host, user, port, project_id) {
            self.toggle(host, user, port, project_id);
        } else {
            assert(self@.insert((host@, user@, port, project_id)) =~= self@);
        }
    }

    /// Replaces the favourites by those read for the server: the project
    /// rows among `rows` (entity type and ID), keyed by the server.
    pub fn load_for_server(&mut self, rows: &Vec<(String, i64)>, host: &str, user: &str, port: u16)
        ensures
            final(self).well_formed(),
            final(self)@ == project_favorites(rows@, host@, user@, port),
    {
        self.clear();
        let mut i: usize = 0;
        while i < rows.len()
            invariant
                i <= rows@.len(),
                self.well_formed(),
                self@ == project_favorites(rows@.take(i as int), host@, user@, port),
            decreases rows@.len() - i,
        {
            proof {
                assert(rows@.take(i + 1).drop_last() =~= rows@.take(i as int));
            }
            if crate::text::str_eq(rows[i].0.as_str(), "project") {
                self.insert(host, user, port, rows[i].1);
            }
            i = i + 1;
        }
        assert(rows@.take(rows@.len() as int) =~= rows@);
    }

    /// Removes every favourite.
    pub fn clear(&mut self)
        ensures
            final(self).well_formed(),
            final(self)@ == Set::<(Seq<char>, Seq<char>, u16, i64)>::empty(),
    {
        self.entries = Vec::new();
        assert(self@ =~= Set::<(Seq<char>, Seq<char>, u16, i64)>::empty());
    }
}

/// The favourites that stored rows give for a server: one per row of
/// entity type "project".
pub open spec fn project_favorites(rows: Seq<(String, i64)>, host: Seq<char>, user: Seq<char>, port: u16) -> Set<
    (Seq<char>, Seq<char>, u16, i64),
>
    decreases rows.len(),
{
    if rows.len() == 0 {
        Set::empty()
    } else {
        let rest = project_favorites(rows.drop_last(), host, user, port);
        if rows.last().0@ == "project"@ {
            rest.insert((host, user, port, rows.last().1))
        } else {
            rest
        }
    }
}

/// Whether the project is a favourite on the server the client is
/// connected to; never when it is connected to none.
pub fn is_project_favorite(current_server: &Option<(String, String, u16)>, favorites: &Favorites, project_id: i64) -> (b:
    bool)
    ensures
        b == match current_server {
            Some(s) => favorites@.contains((s.0@, s.1@, s.2, project_id)),
            None => false,
        },
{
    match current_server {
        Some(s) => favorites.contains(s.0.as_str(), s.1.as_str(), s.2, project_id),
        None => false,
    }
}

/// Loads the favourites of the server the client is connected to from the
/// project rows (entity type and ID) read for it, when a database is open
/// (`rows` is its answer). With no server or no database the favourites
/// stay as they are.
pub fn load_favorites_for_current_server(
    favorites: &mut Favorites,
    current_server: &Option<(String, String, u16)>,
    rows: Option<&Vec<(String, i64)>>,
)
    requires
        old(favorites).well_formed(),
    ensures
        final(favorites).well_formed(),
        current_server matches Some(s) ==> (rows matches Some(r) ==> final(favorites)@ == project_favorites(
            r@,
            s.0@,
            s.1@,
            s.2,
        )),
        (current_server is None || rows is None) ==> *final(favorites) == *old(favorites),
{
    match (current_server, rows) {
        (Some(s), Some(r)) => favorites.load_for_server(r, s.0.as_str(), s.1.as_str(), s.2),
        _ => {},
    }
}

/// Toggles the project as a favourite on the server the client is
/// connected to, returning whether it is a favourite now; with no server
/// nothing changes and `None` is returned.
pub fn toggle_project_favorite(
    favorites: &mut Favorites,
    current_server: &Option<(String, String, u16)>,
    project_id: i64,
) -> (now_favorite: Option<bool>)
    requires
        old(favorites).well_formed(),
    ensures
        final(favorites).well_formed(),
        match current_server {
            Some(s) => {
                &&& now_favorite == Some(!old(favorites)@.contains((s.0@, s.1@, s.2, project_id)))
                &&& final(favorites)@ == toggled(old(favorites)@, (s.0@, s.1@, s.2, project_id))
            },
            None => now_favorite is None && *final(favorites) == *old(favorites),
        },
{
    match current_server {
        Some(s) => Some(favorites.toggle(s.0.as_str(), s.1.as_str(), s.2, project_id)),
        None => None,
    }
}

/// The favourites after toggling `key`: removed when present, added
/// otherwise.
pub open spec fn toggled(
    favorites: Set<(Seq<char>, Seq<char>, u16, i64)>,
    key: (Seq<char>, Seq<char>, u16, i64),
) -> Set<(Seq<char>, Seq<char>, u16, i64)> {
    if favorites.contains(key) {
        favorites.remove(key)
    } else {
        favorites.insert(key)
    }
}

/// Toggling the same favourite twice leaves the favourites as they were.
pub proof fn lemma_toggle_twice(
    favorites: Set<(Seq<char>, Seq<char>, u16, i64)>,
    key: (Seq<char>, Seq<char>, u16, i64),
)
    ensures
        toggled(toggled(favorites, key), key) == favorites,
{
    if favorites.contains(key) {
        assert(toggled(toggled(favorites, key), key) =~= favorites);
    } else {
        assert(toggled(toggled(favorites, key), key) =~= favorites);
    }
}

} // verus!
