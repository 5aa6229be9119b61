//! How the desktop client's connection, login and first page follow the
//! results of its background requests.

use crate::desktop::state::{authenticated, AuthState, ConnectionState, Page};
use crate::text::owned;
use vstd::prelude::*;

verus! {

/// The part of the client's state that connecting and logging in decide.
pub struct SessionState {
    pub connection_state: ConnectionState,
    pub auth_state: AuthState,
    /// The host connected to.
    pub connected_host: Option<String>,
    /// The error shown in the status bar.
    pub connection_error: Option<String>,
    /// Host, user and port of the server connected to.
    pub current_server_info: Option<(String, String, u16)>,
    pub show_auth_dialog: bool,
    pub current_page: Page,
    /// Whether to go to the board once the first projects are loaded.
    pub should_navigate_after_auth: bool,
    pub pending_works_refresh: bool,
    pub models_fetch_attempted: bool,
}

/// What a successful login gives: the token, the user's ID and name.
pub struct LoginInfo {
    pub token: String,
    pub user_id: i64,
    pub username: String,
}

/// `new` is `old` after the result of connecting to a server: on success
/// the client is connected to it, the error is cleared, models may be
/// fetched again and, without a token yet, the login dialog opens; on
/// failure the error is kept and shown and no host is connected. The login
/// and the navigation are unchanged.
pub open spec fn connection_applied(
    old: SessionState,
    new: SessionState,
    result: Result<(String, String, u16), String>,
) -> bool {
    &&& match result {
        Ok((server, user, port)) => {
            &&& new.connection_state is Connected
            &&& new.connected_host == Some(server)
            &&& new.connection_error is None
            &&& new.current_server_info == Some((server, user, port))
            &&& !new.models_fetch_attempted
            &&& new.show_auth_dialog == (old.show_auth_dialog || old.auth_state.jwt_token is None)
        },
        Err(e) => {
            &&& new.connection_state == ConnectionState::Error(e)
            &&& new.connection_error == Some(e)
            &&& new.connected_host is None
            &&& new.current_server_info == old.current_server_info
            &&& new.models_fetch_attempted == old.models_fetch_attempted
            &&& new.show_auth_dialog == old.show_auth_dialog
        },
    }
    &&& new.auth_state == old.auth_state
    &&& new.current_page == old.current_page
    &&& new.should_navigate_after_auth == old.should_navigate_after_auth
    &&& new.pending_works_refresh == old.pending_works_refresh
}

/// `new` is `old` after the result of logging in: on success the token,
/// user ID and name are kept; on failure the error is shown. The
/// connection and the navigation are unchanged.
pub open spec fn login_applied(old: SessionState, new: SessionState, result: Result<LoginInfo, String>) -> bool {
    &&& match result {
        Ok(info) => {
            &&& new.auth_state.jwt_token == Some(info.token)
            &&& new.auth_state.user_id == Some(info.user_id)
            &&& new.auth_state.username == Some(info.username)
            &&& new.auth_state.is_first_user == old.auth_state.is_first_user
            &&& new.connection_error == old.connection_error
        },
        Err(e) => {
            &&& new.auth_state == old.auth_state
            &&& new.connection_error matches Some(m) && m@ == "Login failed: "@ + e@
        },
    }
    &&& new.connection_state == old.connection_state
    &&& new.connected_host == old.connected_host
    &&& new.current_server_info == old.current_server_info
    &&& new.current_page == old.current_page
    &&& new.show_auth_dialog == old.show_auth_dialog
    &&& new.should_navigate_after_auth == old.should_navigate_after_auth
    &&& new.pending_works_refresh == old.pending_works_refresh
    &&& new.models_fetch_attempted == old.models_fetch_attempted
}

impl SessionState {
    /// A client that has not connected yet, on the servers page.
    pub fn new() -> (s: Self)
        ensures
            s.connection_state is Disconnected,
            s.auth_state.jwt_token is None,
            s.auth_state.user_id is None,
            s.auth_state.username is None,
            s.connected_host is None,
            s.connection_error is None,
            s.current_server_info is None,
            !s.show_auth_dialog,
            s.current_page == Page::Servers,
            !s.should_navigate_after_auth,
            !s.pending_works_refresh,
            !s.models_fetch_attempted,
    {
        SessionState {
            connection_state: ConnectionState::Disconnected,
            auth_state: AuthState { jwt_token: None, user_id: None, username: None, is_first_user: false },
            connected_host: None,
            connection_error: None,
            current_server_info: None,
            show_auth_dialog: false,
            current_page: Page::Servers,
            should_navigate_after_auth: false,
            pending_works_refresh: false,
            models_fetch_attempted: false,
        }
    }

    /// The user is connected and logged in.
    pub open spec fn is_authenticated(&self) -> bool {
        authenticated(self.connection_state, self.auth_state)
    }

    /// Starts connecting: the client is connecting and no error is shown.
    pub fn on_connect_start(&mut self)
        ensures
            *final(self) == (SessionState {
                connection_state: ConnectionState::Connecting,
                connection_error: None,
                ..*old(self)
            }),
    {
        self.connection_state = ConnectionState::Connecting;
        self.connection_error = None;
    }

    /// Applies the result of connecting to `server` as `user` on `port`: on
    /// success the client is connected to it, the error is cleared, models
    /// may be fetched again and, without a token yet, the login dialog
    /// opens; on failure the error is kept and shown and no host is
    /// connected.
    pub fn on_connection_result(&mut self, result: Result<(String, String, u16), String>)
        ensures
            connection_applied(*old(self), *final(self), result),
    {
        match result {
            Ok((server, user, port)) => {
                self.connection_state = ConnectionState::Connected;
                self.connected_host = Some(server.clone());
                self.connection_error = None;
                self.current_server_info = Some((server, user, port));
                self.models_fetch_attempted = false;
                if self.auth_state.jwt_token.is_none() {
                    self.show_auth_dialog = true;
                }
            },
            Err(error) => {
                self.connection_state = ConnectionState::Error(error.clone());
                self.connection_error = Some(error);
                self.connected_host = None;
            },
        }
    }

    /// Applies the result of logging in: on success the token, user ID and
    /// name are kept and `true` is returned, asking the caller to load the
    /// data that needs a login; on failure the error is shown.
    pub fn on_login_result(&mut self, result: Result<LoginInfo, String>) -> (refresh: bool)
        ensures
            refresh == (result is Ok),
            login_applied(*old(self), *final(self), result),
    {
        match result {
            Ok(info) => {
                self.auth_state.jwt_token = Some(info.token);
                self.auth_state.user_id = Some(info.user_id);
                self.auth_state.username = Some(info.username);
                true
            },
            Err(e) => {
                let mut m = owned("Login failed: ");
                m.append(e.as_str());
                self.connection_error = Some(m);
                false
            },
        }
    }

    /// Applies the result of loading the projects, given whether none were
    /// loaded before: on success the error is cleared and, when these are
    /// the first projects, the servers page is shown and the user just
    /// logged in, the board is shown and its works are loaded; on failure
    /// the error is shown.
    pub fn on_projects_result(&mut self, had_projects: bool, result: Result<usize, String>)
        ensures
            match result {
                Ok(count) => {
                    let go = !had_projects && count > 0 && old(self).current_page == Page::Servers
                        && old(self).should_navigate_after_auth;
                    &&& final(self).connection_error is None
                    &&& final(self).current_page == if go {
                        Page::Work
                    } else {
                        old(self).current_page
                    }
                    &&& final(self).pending_works_refresh == (old(self).pending_works_refresh || go)
                    &&& final(self).should_navigate_after_auth == (old(self).should_navigate_after_auth && !go)
                },
                Err(e) => {
                    &&& final(self).connection_error matches Some(m) && m@ == "Failed to load projects: "@ + e@
                    &&& final(self).current_page == old(self).current_page
                    &&& final(self).pending_works_refresh == old(self).pending_works_refresh
                    &&& final(self).should_navigate_after_auth == old(self).should_navigate_after_auth
                },
            },
            final(self).connection_state == old(self).connection_state,
            final(self).auth_state == old(self).auth_state,
            final(self).connected_host == old(self).connected_host,
            final(self).current_server_info == old(self).current_server_info,
            final(self).show_auth_dialog == old(self).show_auth_dialog,
            final(self).models_fetch_attempted == old(self).models_fetch_attempted,
    {
        match result {
            Ok(count) => {
                self.connection_error = None;
                if !had_projects && count > 0 && self.current_page == Page::Servers && self.should_navigate_after_auth {
                    self.current_page = Page::Work;
                    self.pending_works_refresh = true;
                    self.should_navigate_after_auth = false;
                }
            },
            Err(e) => {
                let mut m = owned("Failed to load projects: ");
                m.append(e.as_str());
                self.connection_error = Some(m);
            },
        }
    }
}

/// Connecting to a server and then logging in, both successfully, leaves
/// the user authenticated on that server, whatever the state before.
pub proof fn lemma_connect_then_login(
    s0: SessionState,
    s1: SessionState,
    s2: SessionState,
    server: (String, String, u16),
    login: LoginInfo,
)
    requires
        connection_applied(s0, s1, Ok(server)),
        login_applied(s1, s2, Ok(login)),
    ensures
        s2.is_authenticated(),
        s2.current_server_info == Some(server),
{
}

/// A failed login changes neither whether nor where the user is
/// authenticated.
pub proof fn lemma_failed_login_keeps_authentication(s0: SessionState, s1: SessionState, error: String)
    requires
        login_applied(s0, s1, Err(error)),
    ensures
        s1.is_authenticated() == s0.is_authenticated(),
        s1.current_server_info == s0.current_server_info,
{
}

/// A failed connection leaves the user unauthenticated.
pub proof fn lemma_failed_connection_is_not_authenticated(s0: SessionState, s1: SessionState, error: String)
    requires
        connection_applied(s0, s1, Err(error)),
    ensures
        !s1.is_authenticated(),
{
}

} // verus!
