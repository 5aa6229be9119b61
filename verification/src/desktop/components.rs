//! Components of the desktop client's window: dialogs, the sidebar, the
//! status bar, project cards and the labels shown on messages.

use crate::desktop::state::{is_authenticated, AuthState, ConnectionState, Favorites, authenticated};
use crate::desktop::session::SessionState;
use crate::desktop::ssh::{connect_key_path, expanded_key_path};
use crate::models::{CreateUserRequest, LoginRequest, Project};
use crate::text::{decimal_int, i64_to_decimal, owned, trim_seq, trim_chars, chars_of};
use vstd::prelude::*;

verus! {

/// The login and registration dialog.
pub struct AuthDialog {
    username: String,
    password: String,
    email: String,
    is_register_mode: bool,
    error_message: Option<String>,
}

/// The message shown when a required field is blank.
pub open spec fn credentials_required() -> Seq<char> {
    "Username and password are required"@
}

impl AuthDialog {
    /// An empty login form.
    pub fn new() -> (d: Self)
        ensures
            d.username()@.len() == 0,
            d.password()@.len() == 0,
            d.email()@.len() == 0,
            !d.is_register_mode(),
            d.error_message() is None,
    {
        AuthDialog {
            username: String::new(),
            password: String::new(),
            email: String::new(),
            is_register_mode: false,
            error_message: None,
        }
    }

    pub closed spec fn username(&self) -> String {
        self.username
    }

    pub closed spec fn password(&self) -> String {
        self.password
    }

    pub closed spec fn email(&self) -> String {
        self.email
    }

    pub closed spec fn is_register_mode(&self) -> bool {
        self.is_register_mode
    }

    pub closed spec fn error_message(&self) -> Option<String> {
        self.error_message
    }

    /// Sets what the user typed.
    pub fn set_fields(&mut self, username: String, password: String, email: String)
        ensures
            final(self).username() == username,
            final(self).password() == password,
            final(self).email() == email,
            final(self).is_register_mode() == old(self).is_register_mode(),
            final(self).error_message() == old(self).error_message(),
    {
        self.username = username;
        self.password = password;
        self.email = email;
    }

    /// The dialog's title, which is also its button's label.
    pub fn title(&self) -> (t: &'static str)
        ensures
            t@ == if self.is_register_mode() {
                "Register"@
            } else {
                "Login"@
            },
    {
        if self.is_register_mode {
            "Register"
        } else {
            "Login"
        }
    }

    /// Switches between login and registration, clearing the error.
    pub fn toggle_mode(&mut self)
        ensures
            final(self).is_register_mode() == !old(self).is_register_mode(),
            final(self).error_message() is None,
            final(self).username() == old(self).username(),
            final(self).password() == old(self).password(),
            final(self).email() == old(self).email(),
    {
        self.is_register_mode = !self.is_register_mode;
        self.error_message = None;
    }

    /// The error shown, if any.
    pub fn error(&self) -> (e: Option<&String>)
        ensures
            e == match self.error_message() {
                Some(m) => Some(&m),
                None => None::<&String>,
            },
    {
        match &self.error_message {
            Some(m) => Some(m),
            None => None,
        }
    }

    /// Checks the form before logging in or registering: a username and a
    /// password that are not blank are needed; otherwise the error is
    /// shown and `false` returned.
    pub fn validate_credentials(&mut self) -> (ok: bool)
        ensures
            ok == (trim_seq(old(self).username()@).len() > 0 && trim_seq(old(self).password()@).len() > 0),
            !ok ==> (final(self).error_message() matches Some(m) && m@ == credentials_required()),
            ok ==> final(self).error_message() == old(self).error_message(),
            final(self).username() == old(self).username(),
            final(self).password() == old(self).password(),
            final(self).email() == old(self).email(),
            final(self).is_register_mode() == old(self).is_register_mode(),
    {
        let u = trim_chars(chars_of(self.username.as_str()).as_slice());
        let p = trim_chars(chars_of(self.password.as_str()).as_slice());
        if u.len() == 0 || p.len() == 0 {
            self.error_message = Some(owned("Username and password are required"));
            false
        } else {
            true
        }
    }

    /// Shows an error.
    pub fn set_error(&mut self, message: String)
        ensures
            final(self).error_message() == Some(message),
            final(self).username() == old(self).username(),
            final(self).password() == old(self).password(),
            final(self).email() == old(self).email(),
            final(self).is_register_mode() == old(self).is_register_mode(),
    {
        self.error_message = Some(message);
    }
}

/// Whether the client is connected to the manager on this machine, where
/// the machine's fingerprint identifies the user instead of an SSH key.
pub open spec fn is_local_host(host: Option<String>) -> bool {
    host matches Some(h) && h@ == "localhost"@
}

/// Where the fingerprint that identifies the user comes from.
#[derive(Debug)]
pub enum FingerprintSource {
    /// The machine's own fingerprint.
    Machine,
    /// The SSH key at the path given, or the default keys when none.
    SshKey(Option<String>),
}

/// The message shown when the machine's fingerprint cannot be made.
pub open spec fn machine_fingerprint_failed(e: Seq<char>) -> Seq<char> {
    "Failed to generate machine fingerprint: "@ + e
}

/// The message shown when the SSH key's fingerprint cannot be made.
pub open spec fn ssh_fingerprint_failed(e: Seq<char>) -> Seq<char> {
    "Failed to calculate SSH fingerprint: "@ + e
}

/// The message shown when the SSH public key cannot be read.
pub open spec fn public_key_failed(e: Seq<char>) -> Seq<char> {
    "Failed to read SSH public key: "@ + e
}

/// The message shown when the fingerprint cannot be made, locally or over SSH.
pub open spec fn fingerprint_failed(local: bool, e: Seq<char>) -> Seq<char> {
    if local {
        machine_fingerprint_failed(e)
    } else {
        ssh_fingerprint_failed(e)
    }
}

fn prefixed(prefix: &str, e: &str) -> (m: String)
    ensures
        m@ == prefix@ + e@,
{
    let mut m = owned(prefix);
    m.append(e);
    m
}

fn fingerprint_error(local: bool, e: &str) -> (m: String)
    ensures
        m@ == fingerprint_failed(local, e@),
{
    if local {
        prefixed("Failed to generate machine fingerprint: ", e)
    } else {
        prefixed("Failed to calculate SSH fingerprint: ", e)
    }
}

fn is_local_connection(session: &SessionState) -> (b: bool)
    ensures
        b == is_local_host(session.connected_host),
{
    match &session.connected_host {
        Some(h) => crate::text::str_eq(h.as_str(), "localhost"),
        None => false,
    }
}

/// The email sent with a registration: none when blank.
pub open spec fn registration_email(email: String) -> Option<String> {
    if trim_seq(email@).len() == 0 {
        None
    } else {
        Some(email)
    }
}

/// `new` is `old` with the login dialog closed and the board to be shown
/// once the user is in.
pub open spec fn auth_submitted(old: SessionState, new: SessionState) -> bool {
    new == (SessionState { show_auth_dialog: false, should_navigate_after_auth: true, ..old })
}

impl AuthDialog {
    /// Where the fingerprint for this login or registration comes from: the
    /// machine when connected to `localhost`, else the SSH key at
    /// `ssh_key_path`, or the default keys when it is blank.
    pub fn fingerprint_source(session: &SessionState, ssh_key_path: &str) -> (src: FingerprintSource)
        ensures
            is_local_host(session.connected_host) ==> src is Machine,
            !is_local_host(session.connected_host) ==> (src matches FingerprintSource::SshKey(k) && (if ssh_key_path@.len() == 0 {
                k is None
            } else {
                k matches Some(p) && p@ == ssh_key_path@
            })),
    {
        if is_local_connection(session) {
            FingerprintSource::Machine
        } else if ssh_key_path.is_empty() {
            FingerprintSource::SshKey(None)
        } else {
            FingerprintSource::SshKey(Some(owned(ssh_key_path)))
        }
    }

    /// Submits the login form with the fingerprint obtained (or the reason
    /// it could not be). With a blank username or password the error is
    /// shown; when the fingerprint failed its error is shown; either way
    /// nothing else changes. Otherwise the login to send is returned, the
    /// dialog closes and the board is to be shown once the user is in.
    pub fn submit_login(&mut self, session: &mut SessionState, fingerprint: Result<String, String>) -> (req: Option<LoginRequest>)
        ensures
            ({
                let filled = trim_seq(old(self).username()@).len() > 0 && trim_seq(old(self).password()@).len() > 0;
                let local = is_local_host(old(session).connected_host);
                &&& !filled ==> {
                    &&& req is None
                    &&& final(self).error_message() matches Some(m) && m@ == credentials_required()
                    &&& *final(session) == *old(session)
                }
                &&& filled ==> match fingerprint {
                    Err(e) => {
                        &&& req is None
                        &&& final(self).error_message() matches Some(m) && m@ == fingerprint_failed(local, e@)
                        &&& *final(session) == *old(session)
                    },
                    Ok(f) => {
                        &&& req matches Some(r) && r.username == old(self).username() && r.password == old(self).password() && r.ssh_fingerprint == f
                        &&& final(self).error_message() == old(self).error_message()
                        &&& auth_submitted(*old(session), *final(session))
                    },
                }
            }),
            final(self).username() == old(self).username(),
            final(self).password() == old(self).password(),
            final(self).email() == old(self).email(),
            final(self).is_register_mode() == old(self).is_register_mode(),
    {
        if !self.validate_credentials() {
            return None;
        }
        let local = is_local_connection(session);
        match fingerprint {
            Err(e) => {
                self.error_message = Some(fingerprint_error(local, e.as_str()));
                None
            },
            Ok(f) => {
                session.should_navigate_after_auth = true;
                session.show_auth_dialog = false;
                Some(LoginRequest { username: self.username.clone(), password: self.password.clone(), ssh_fingerprint: f })
            },
        }
    }

    /// Submits the registration form with the fingerprint and, over SSH,
    /// the public key obtained (or the reasons they could not be). Locally
    /// the fingerprint also serves as the public key. With a blank username
    /// or password, or when the fingerprint or (over SSH) the public key
    /// failed, the first such error is shown and nothing else changes.
    /// Otherwise the registration to send is returned, with no email when
    /// it is blank, the dialog closes and the board is to be shown once the
    /// user is in.
    pub fn submit_registration(
        &mut self,
        session: &mut SessionState,
        fingerprint: Result<String, String>,
        public_key: Result<String, String>,
    ) -> (req: Option<CreateUserRequest>)
        ensures
            ({
                let filled = trim_seq(old(self).username()@).len() > 0 && trim_seq(old(self).password()@).len() > 0;
                let local = is_local_host(old(session).connected_host);
                &&& !filled ==> {
                    &&& req is None
                    &&& final(self).error_message() matches Some(m) && m@ == credentials_required()
                    &&& *final(session) == *old(session)
                }
                &&& filled ==> match fingerprint {
                    Err(e) => {
                        &&& req is None
                        &&& final(self).error_message() matches Some(m) && m@ == fingerprint_failed(local, e@)
                        &&& *final(session) == *old(session)
                    },
                    Ok(f) => if !local && public_key is Err {
                        &&& req is None
                        &&& final(self).error_message() matches Some(m) && m@ == public_key_failed(public_key->Err_0@)
                        &&& *final(session) == *old(session)
                    } else {
                        &&& req matches Some(r) && r.username == old(self).username() && r.password == old(self).password()
                            && r.email == registration_email(old(self).email()) && r.ssh_fingerprint == f
                            && r.ssh_public_key == if local { f } else { public_key->Ok_0 }
                        &&& final(self).error_message() == old(self).error_message()
                        &&& auth_submitted(*old(session), *final(session))
                    },
                }
            }),
            final(self).username() == old(self).username(),
            final(self).password() == old(self).password(),
            final(self).email() == old(self).email(),
            final(self).is_register_mode() == old(self).is_register_mode(),
    {
        if !self.validate_credentials() {
            return None;
        }
        let local = is_local_connection(session);
        let f = match fingerprint {
            Err(e) => {
                self.error_message = Some(fingerprint_error(local, e.as_str()));
                return None;
            },
            Ok(f) => f,
        };
        let key = if local {
            f.clone()
        } else {
            match public_key {
                Err(e) => {
                    self.error_message = Some(prefixed("Failed to read SSH public key: ", e.as_str()));
                    return None;
                },
                Ok(k) => k,
            }
        };
        let email = if trim_chars(chars_of(self.email.as_str()).as_slice()).len() == 0 {
            None
        } else {
            Some(self.email.clone())
        };
        session.should_navigate_after_auth = true;
        session.show_auth_dialog = false;
        Some(CreateUserRequest {
            username: self.username.clone(),
            email,
            password: self.password.clone(),
            ssh_public_key: key,
            ssh_fingerprint: f,
        })
    }
}

impl AuthDialog {
    /// What follows a registration: once the manager has registered the
    /// user, the login with the same username, password and fingerprint;
    /// after a failed registration, nothing.
    pub fn login_after_registration(registration: &CreateUserRequest, registered: bool) -> (login: Option<LoginRequest>)
        ensures
            registered ==> (login matches Some(l) && l.username == registration.username && l.password
                == registration.password && l.ssh_fingerprint == registration.ssh_fingerprint),
            !registered ==> login is None,
    {
        if registered {
            Some(
                LoginRequest {
                    username: registration.username.clone(),
                    password: registration.password.clone(),
                    ssh_fingerprint: registration.ssh_fingerprint.clone(),
                },
            )
        } else {
            None
        }
    }
}

/// The dialog to connect to a server.
pub struct ConnectionDialog;

impl ConnectionDialog {
    pub fn new() -> (d: Self) {
        ConnectionDialog
    }

    /// Starts connecting: the client is connecting with no error shown, and
    /// the stored key path has a leading `~/` expanded with the home
    /// directory. Returns the key path to connect with: none when the
    /// stored path is blank.
    pub fn start_connect(&self, session: &mut SessionState, ssh_key_path: &mut String, home: &str) -> (key: Option<String>)
        ensures
            *final(session) == (SessionState {
                connection_state: ConnectionState::Connecting,
                connection_error: None,
                ..*old(session)
            }),
            crate::text::opt_str(key) == expanded_key_path(old(ssh_key_path)@, home@),
            final(ssh_key_path)@ == match expanded_key_path(old(ssh_key_path)@, home@) {
                Some(p) => p,
                None => old(ssh_key_path)@,
            },
    {
        session.on_connect_start();
        connect_key_path(ssh_key_path, home)
    }
}

/// The navigation sidebar.
pub struct Sidebar;

impl Sidebar {
    pub fn new() -> (s: Self) {
        Sidebar
    }

    /// Whether a link is enabled: the servers link always is, the others
    /// only when the user is authenticated.
    pub fn link_enabled(&self, always: bool, connection: &ConnectionState, auth: &AuthState) -> (b: bool)
        ensures
            b == (always || authenticated(*connection, *auth)),
    {
        always || is_authenticated(connection, auth)
    }

    /// The IDs of the projects listed as favourites, in the order of
    /// `projects`: those that are favourites on the current server, shown
    /// only when there are favourites, the user is authenticated and a
    /// server is known.
    pub fn favorite_project_ids(
        &self,
        projects: &Vec<Project>,
        favorites: &Favorites,
        current_server: &Option<(String, String, u16)>,
        connection: &ConnectionState,
        auth: &AuthState,
    ) -> (ids: Vec<i64>)
        requires
            favorites.well_formed(),
        ensures
            ids@ == match current_server {
                Some(s) => if favorites@.len() > 0 && authenticated(*connection, *auth) {
                    favorite_ids(projects@, favorites@, s.0@, s.1@, s.2)
                } else {
                    seq![]
                },
                None => seq![],
            },
    {
        let mut ids: Vec<i64> = Vec::new();
        if favorites.len() == 0 || !is_authenticated(connection, auth) {
            return ids;
        }
        match current_server {
            None => ids,
            Some(s) => {
                let ghost fav = favorites@;
                let mut i: usize = 0;
                while i < projects.len()
                    invariant
                        i <= projects@.len(),
                        fav == favorites@,
                        ids@ == favorite_ids(projects@.take(i as int), fav, s.0@, s.1@, s.2),
                    decreases projects@.len() - i,
                {
                    proof {
                        assert(projects@.take(i + 1).drop_last() =~= projects@.take(i as int));
                    }
                    let id = projects[i].id;
                    if favorites.contains(s.0.as_str(), s.1.as_str(), s.2, id) {
                        ids.push(id);
                    }
                    i = i + 1;
                }
                assert(projects@.take(projects@.len() as int) =~= projects@);
                ids
            },
        }
    }
}

/// The IDs of the projects that are favourites on a server, in order.
pub open spec fn favorite_ids(
    projects: Seq<Project>,
    favorites: Set<(Seq<char>, Seq<char>, u16, i64)>,
    host: Seq<char>,
    user: Seq<char>,
    port: u16,
) -> Seq<i64>
    decreases projects.len(),
{
    if projects.len() == 0 {
        seq![]
    } else {
        let rest = favorite_ids(projects.drop_last(), favorites, host, user, port);
        if favorites.contains((host, user, port, projects.last().id)) {
            rest.push(projects.last().id)
        } else {
            rest
        }
    }
}

/// The status bar at the bottom of the window.
pub struct StatusBar;

impl StatusBar {
    pub fn new() -> (s: Self) {
        StatusBar
    }
}

/// A clickable card showing a project; `F` is what runs on a click.
pub struct ProjectCard<'a, F: Fn()> {
    project: &'a Project,
    on_click: Option<F>,
}

impl<'a, F: Fn()> ProjectCard<'a, F> {
    /// A card for the project, with nothing to do on a click.
    pub fn new(project: &'a Project) -> (c: Self)
        ensures
            c.project() == project,
            !c.has_on_click(),
    {
        ProjectCard { project, on_click: None }
    }

    pub closed spec fn project(&self) -> &'a Project {
        self.project
    }

    pub closed spec fn has_on_click(&self) -> bool {
        self.on_click is Some
    }

    /// What runs on a click, if anything.
    pub closed spec fn handler(&self) -> Option<F> {
        self.on_click
    }

    /// The project shown.
    pub fn project_ref(&self) -> (p: &'a Project)
        ensures
            p == self.project(),
    {
        self.project
    }

    /// What runs when the card is clicked, if anything.
    pub fn click_handler(&self) -> (h: Option<&F>)
        ensures
            h is Some == self.has_on_click(),
            h matches Some(f) ==> self.handler() == Some(*f),
    {
        match &self.on_click {
            Some(h) => Some(h),
            None => None,
        }
    }

    /// The same card, running `f` when clicked.
    pub fn on_click(self, f: F) -> (c: Self)
        ensures
            c.project() == self.project(),
            c.has_on_click(),
            c.handler() == Some(f),
    {
        ProjectCard { project: self.project, on_click: Some(f) }
    }
}

/// A grid of project cards; `F` is what runs, with the project's ID, on a
/// click.
pub struct ProjectsView<F: Fn(i64) + Send + Sync> {
    projects: Vec<Project>,
    on_project_click: Option<F>,
}

impl<F: Fn(i64) + Send + Sync> ProjectsView<F> {
    /// A view of these projects, with nothing to do on a click.
    pub fn new(projects: Vec<Project>) -> (v: Self)
        ensures
            v.projects() == projects@,
            !v.has_on_project_click(),
    {
        ProjectsView { projects, on_project_click: None }
    }

    pub closed spec fn projects(&self) -> Seq<Project> {
        self.projects@
    }

    pub closed spec fn has_on_project_click(&self) -> bool {
        self.on_project_click is Some
    }

    /// What runs on a click, if anything.
    pub closed spec fn handler(&self) -> Option<F> {
        self.on_project_click
    }

    /// Runs `callback` with a project's ID when its card is clicked.
    pub fn set_on_project_click(&mut self, callback: F)
        ensures
            final(self).projects() == old(self).projects(),
            final(self).has_on_project_click(),
            final(self).handler() == Some(callback),
    {
        self.on_project_click = Some(callback);
    }

    /// The projects shown.
    pub fn project_list(&self) -> (p: &Vec<Project>)
        ensures
            p@ == self.projects(),
    {
        &self.projects
    }

    /// What runs when a card is clicked, if anything.
    pub fn click_handler(&self) -> (h: Option<&F>)
        ensures
            h is Some == self.has_on_project_click(),
            h matches Some(f) ==> self.handler() == Some(*f),
    {
        match &self.on_project_click {
            Some(h) => Some(h),
            None => None,
        }
    }
}

/// How long ago something happened, given the seconds elapsed and, for
/// more than a week, the date it happened.
pub open spec fn elapsed_text(diff: int, date: Seq<char>) -> Seq<char> {
    if diff < 60 {
        "just now"@
    } else if diff < 3600 {
        decimal_int(diff / 60) + "m ago"@
    } else if diff < 86400 {
        decimal_int(diff / 3600) + "h ago"@
    } else if diff < 604800 {
        decimal_int(diff / 86400) + "d ago"@
    } else {
        date
    }
}

/// How long ago `timestamp` was at `now`: "just now", minutes, hours or
/// days, else the date given (formatted by the caller).
pub fn format_elapsed(now: i64, timestamp: i64, date: &str) -> (t: String)
    requires
        i64::MIN <= now - timestamp <= i64::MAX,
    ensures
        t@ == elapsed_text(now - timestamp, date@),
{
    let diff: i64 = now - timestamp;
    if diff < 60 {
        owned("just now")
    } else if diff < 3600 {
        let mut t = i64_to_decimal(diff / 60);
        t.append("m ago");
        t
    } else if diff < 86400 {
        let mut t = i64_to_decimal(diff / 3600);
        t.append("h ago");
        t
    } else if diff < 604800 {
        let mut t = i64_to_decimal(diff / 86400);
        t.append("d ago");
        t
    } else {
        owned(date)
    }
}

/// How a UTC time, in seconds since the Unix epoch, is written as
/// "%b %d, %Y" (such as "Jan 01, 1970"); none when chrono cannot represent it.
pub uninterp spec fn utc_short_date(timestamp: i64) -> Option<Seq<char>>;

/// Calls `chrono::DateTime::from_timestamp` and formats the result with
/// "%b %d, %Y"; the result is named `utc_short_date`, a function of the time
/// alone (it is in UTC).
#[verifier::external_body]
fn short_date_text(timestamp: i64) -> (t: Option<String>)
    ensures
        crate::text::opt_str(t) == utc_short_date(timestamp),
{
    match chrono::DateTime::from_timestamp(timestamp, 0) {
        Some(dt) => Some(dt.format("%b %d, %Y").to_string()),
        None => None,
    }
}

/// The date shown for a time more than a week ago: its date, or the date
/// of `now` when chrono cannot represent it (and nothing when neither can).
pub open spec fn last_executed_date(now: i64, timestamp: i64) -> Seq<char> {
    match utc_short_date(timestamp) {
        Some(d) => d,
        None => match utc_short_date(now) {
            Some(d) => d,
            None => seq![],
        },
    }
}

/// When a command last ran, as seen at `now`: "just now", minutes, hours or
/// days ago, else the date it ran.
pub fn format_last_executed(now: i64, timestamp: i64) -> (t: String)
    requires
        i64::MIN <= now - timestamp <= i64::MAX,
    ensures
        t@ == elapsed_text(now - timestamp, last_executed_date(now, timestamp)),
{
    let date = match short_date_text(timestamp) {
        Some(d) => d,
        None => match short_date_text(now) {
            Some(d) => d,
            None => String::new(),
        },
    };
    format_elapsed(now, timestamp, date.as_str())
}

} // verus!
