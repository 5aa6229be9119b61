//! The connection to the manager: how it is reached, and when a failing
//! connection is re-established.

use crate::desktop::api_client::ApiError;
use crate::desktop::ssh::SshError;
use crate::text::{opt_str, owned};
use vstd::prelude::*;

verus! {

/// How the client reaches the manager.
#[derive(Debug, Clone)]
pub enum ConnectionType {
    /// Through an SSH tunnel to a server.
    Ssh { server: String, username: String, key_path: Option<String>, port: u16, remote_port: u16 },
    /// Directly, on a local port.
    Local { port: u16 },
}

/// The host a connection shows: the SSH server, or "localhost".
pub fn connection_info(connection: &Option<ConnectionType>) -> (info: Option<String>)
    ensures
        opt_str(info) == match connection {
            Some(ConnectionType::Ssh { server, .. }) => Some(server@),
            Some(ConnectionType::Local { .. }) => Some("localhost"@),
            None => None,
        },
{
    match connection {
        Some(ConnectionType::Ssh { server, .. }) => Some(server.clone()),
        Some(ConnectionType::Local { .. }) => Some(owned("localhost")),
        None => None,
    }
}

/// Why connecting failed.
#[derive(Debug)]
pub enum ConnectionError {
    SshError(SshError),
    ApiError(ApiError),
    /// Reconnecting was asked for with no connection recorded.
    NoConnectionInfo,
}

/// What the connection manager keeps: the connection to re-establish, the
/// local port its API client talks to, whether it is connected, and the
/// login token, kept across reconnections.
pub struct ConnectionManager {
    pub connection_type: Option<ConnectionType>,
    pub client_port: Option<u16>,
    pub connected: bool,
    pub jwt_token: Option<String>,
}

/// `new` is `old` disconnected: no connection recorded, no client, not
/// connected; the token is kept.
pub open spec fn disconnected(old: ConnectionManager, new: ConnectionManager) -> bool {
    new == (ConnectionManager { connection_type: None, client_port: None, connected: false, ..old })
}

impl ConnectionManager {
    /// A manager with no connection and no token.
    pub fn new() -> (m: Self)
        ensures
            m.connection_type is None,
            m.client_port is None,
            !m.connected,
            m.jwt_token is None,
    {
        ConnectionManager { connection_type: None, client_port: None, connected: false, jwt_token: None }
    }

    /// Connects to the manager on this machine at `port`, given the result
    /// of checking its health there. The connection is recorded either way;
    /// on success the client talks to `port` and the manager is connected,
    /// on failure the check's error is returned.
    pub fn connect_local(&mut self, port: u16, health: Result<(), ApiError>) -> (r: Result<(), ConnectionError>)
        ensures
            final(self).connection_type == Some(ConnectionType::Local { port }),
            final(self).jwt_token == old(self).jwt_token,
            match health {
                Ok(()) => r is Ok && final(self).client_port == Some(port) && final(self).connected,
                Err(e) => r == Err::<(), ConnectionError>(ConnectionError::ApiError(e))
                    && final(self).client_port == old(self).client_port
                    && final(self).connected == old(self).connected,
            },
    {
        self.connection_type = Some(ConnectionType::Local { port });
        match health {
            Ok(()) => {
                self.client_port = Some(port);
                self.connected = true;
                Ok(())
            },
            Err(e) => Err(ConnectionError::ApiError(e)),
        }
    }

    /// Connects through an SSH tunnel to `username@server:port`, forwarding
    /// to `remote_port`, given the result of opening it: the tunnel's local
    /// port, or why it failed. The connection is recorded either way; on
    /// success the client talks to the tunnel's port and the manager is
    /// connected, on failure the tunnel's error is returned.
    pub fn connect_ssh(
        &mut self,
        server: String,
        username: String,
        key_path: Option<String>,
        port: u16,
        remote_port: u16,
        tunnel: Result<u16, SshError>,
    ) -> (r: Result<(), ConnectionError>)
        ensures
            final(self).connection_type == Some(ConnectionType::Ssh { server, username, key_path, port, remote_port }),
            final(self).jwt_token == old(self).jwt_token,
            match tunnel {
                Ok(local_port) => r is Ok && final(self).client_port == Some(local_port) && final(self).connected,
                Err(e) => r == Err::<(), ConnectionError>(ConnectionError::SshError(e))
                    && final(self).client_port == old(self).client_port
                    && final(self).connected == old(self).connected,
            },
    {
        self.connection_type = Some(ConnectionType::Ssh { server, username, key_path, port, remote_port });
        match tunnel {
            Ok(local_port) => {
                self.client_port = Some(local_port);
                self.connected = true;
                Ok(())
            },
            Err(e) => Err(ConnectionError::SshError(e)),
        }
    }

    /// Disconnects: forgets the connection and the client; the token is kept
    /// for the next connection.
    pub fn disconnect(&mut self)
        ensures
            disconnected(*old(self), *final(self)),
    {
        self.connection_type = None;
        self.client_port = None;
        self.connected = false;
    }

    /// Starts reconnecting: with a connection recorded, disconnects and
    /// returns that connection to be made again; with none, fails and
    /// changes nothing.
    pub fn reconnect(&mut self) -> (r: Result<ConnectionType, ConnectionError>)
        ensures
            match old(self).connection_type {
                Some(c) => r == Ok::<ConnectionType, ConnectionError>(c) && disconnected(*old(self), *final(self)),
                None => r matches Err(ConnectionError::NoConnectionInfo) && *final(self) == *old(self),
            },
    {
        match self.connection_type.take() {
            Some(c) => {
                self.disconnect();
                Ok(c)
            },
            None => Err(ConnectionError::NoConnectionInfo),
        }
    }

    /// Keeps the token of a successful login.
    pub fn on_login(&mut self, token: String)
        ensures
            *final(self) == (ConnectionManager { jwt_token: Some(token), ..*old(self) }),
    {
        self.jwt_token = Some(token);
    }

    /// The host connected to: the SSH server, or "localhost".
    pub fn get_connection_info(&self) -> (info: Option<String>)
        ensures
            opt_str(info) == match self.connection_type {
                Some(ConnectionType::Ssh { server, .. }) => Some(server@),
                Some(ConnectionType::Local { .. }) => Some("localhost"@),
                None => None,
            },
    {
        connection_info(&self.connection_type)
    }
}

/// The outcome of one periodic health check.
#[derive(Debug, Clone, Copy, PartialEq, Eq, Structural)]
pub enum HealthEvent {
    /// The manager answered.
    Healthy,
    /// The manager refused the request for want of a login.
    Unauthorized,
    /// The request failed.
    Failed,
    /// No answer came in time.
    TimedOut,
}

/// What to do after a health check.
#[derive(Debug, Clone, Copy, PartialEq, Eq, Structural)]
pub enum HealthAction {
    Nothing,
    /// Ask the user to log in again; do not reconnect.
    RequireLogin,
    /// Mark the connection lost and re-establish it.
    Reconnect,
}

/// Counts the failed health checks since the last good one, and whether
/// the connection is up; checks run only while it is.
pub struct HealthMonitor {
    pub consecutive_failures: u32,
    pub connected: bool,
}

/// The failures counted after a check, and the action it calls for: a good
/// answer or a refused login resets the count; a failure counts and, from
/// the second in a row, calls for reconnecting; a timeout only counts.
pub open spec fn health_step(failures: u32, event: HealthEvent) -> (u32, HealthAction) {
    let counted = if failures == u32::MAX {
        failures
    } else {
        (failures + 1) as u32
    };
    match event {
        HealthEvent::Healthy => (0, HealthAction::Nothing),
        HealthEvent::Unauthorized => (0, HealthAction::RequireLogin),
        HealthEvent::Failed => (
            counted,
            if counted >= 2 {
                HealthAction::Reconnect
            } else {
                HealthAction::Nothing
            },
        ),
        HealthEvent::TimedOut => (counted, HealthAction::Nothing),
    }
}

/// The monitor after a check, and the action called for: while connected
/// the count follows `health_step` and a call for reconnecting marks the
/// connection lost; while not connected no check runs and nothing changes.
pub open spec fn monitor_step(m: HealthMonitor, event: HealthEvent) -> (HealthMonitor, HealthAction) {
    if m.connected {
        let (failures, action) = health_step(m.consecutive_failures, event);
        (HealthMonitor { consecutive_failures: failures, connected: action != HealthAction::Reconnect }, action)
    } else {
        (m, HealthAction::Nothing)
    }
}

/// The monitor after trying to reconnect: success brings the connection
/// back with no failure counted; a failure leaves it lost.
pub open spec fn monitor_reconnected(m: HealthMonitor, success: bool) -> HealthMonitor {
    if success {
        HealthMonitor { consecutive_failures: 0, connected: true }
    } else {
        m
    }
}

impl HealthMonitor {
    /// A monitor of a connection just made: connected, no failure counted.
    pub fn new() -> (m: Self)
        ensures
            m.consecutive_failures == 0,
            m.connected,
    {
        HealthMonitor { consecutive_failures: 0, connected: true }
    }

    /// Whether the next periodic check runs: only while connected.
    pub fn should_check(&self) -> (b: bool)
        ensures
            b == self.connected,
    {
        self.connected
    }

    /// Counts a health check and says what to do.
    pub fn on_check(&mut self, event: HealthEvent) -> (action: HealthAction)
        ensures
            (*final(self), action) == monitor_step(*old(self), event),
    {
        if !self.connected {
            return HealthAction::Nothing;
        }
        let counted = self.consecutive_failures.saturating_add(1);
        match event {
            HealthEvent::Healthy => {
                self.consecutive_failures = 0;
                HealthAction::Nothing
            },
            HealthEvent::Unauthorized => {
                self.consecutive_failures = 0;
                HealthAction::RequireLogin
            },
            HealthEvent::Failed => {
                self.consecutive_failures = counted;
                if counted >= 2 {
                    self.connected = false;
                    HealthAction::Reconnect
                } else {
                    HealthAction::Nothing
                }
            },
            HealthEvent::TimedOut => {
                self.consecutive_failures = counted;
                HealthAction::Nothing
            },
        }
    }

    /// Records the outcome of reconnecting: success brings the connection
    /// back and resets the count; a failure leaves the connection lost, so
    /// no further check runs.
    pub fn on_reconnect(&mut self, success: bool)
        ensures
            *final(self) == monitor_reconnected(*old(self), success),
    {
        if success {
            self.consecutive_failures = 0;
            self.connected = true;
        }
    }
}

/// After a check that calls for reconnecting and a reconnection that
/// fails, the connection stays lost: every later check does nothing.
pub proof fn lemma_failed_reconnect_stops_checks(m: HealthMonitor, event: HealthEvent, later: HealthEvent)
    requires
        monitor_step(m, event).1 == HealthAction::Reconnect,
    ensures
        ({
            let lost = monitor_reconnected(monitor_step(m, event).0, false);
            &&& !lost.connected
            &&& monitor_step(lost, later) == (lost, HealthAction::Nothing)
        }),
{
}

/// One failure right after a good answer never calls for reconnecting.
pub proof fn lemma_single_failure_keeps_connection(failures: u32)
    ensures
        health_step(health_step(failures, HealthEvent::Healthy).0, HealthEvent::Failed).1 == HealthAction::Nothing,
{
}

/// Two failures in a row always call for reconnecting.
pub proof fn lemma_second_failure_reconnects(failures: u32)
    ensures
        health_step(health_step(failures, HealthEvent::Failed).0, HealthEvent::Failed).1 == HealthAction::Reconnect,
{
}

/// A refused login never calls for reconnecting, and the failure after it
/// does not either.
pub proof fn lemma_unauthorized_never_reconnects(failures: u32)
    ensures
        health_step(failures, HealthEvent::Unauthorized).1 == HealthAction::RequireLogin,
        health_step(health_step(failures, HealthEvent::Unauthorized).0, HealthEvent::Failed).1 == HealthAction::Nothing,
{
}

} // verus!
