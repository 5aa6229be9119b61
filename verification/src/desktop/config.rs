//! Settings of the desktop client and where they are kept.

use crate::text::{opt_str, owned};
use vstd::prelude::*;

verus! {

/// Settings of the desktop client.
#[derive(Debug, Clone)]
pub struct DesktopConfig {
    pub ssh: SshConfig,
}

/// How to reach the manager over SSH.
#[derive(Debug, Clone)]
pub struct SshConfig {
    pub server: String,
    pub username: String,
    pub ssh_key_path: String,
    pub remote_port: u16,
}

impl Default for DesktopConfig {
    /// The settings used until some are saved.
    fn default() -> (c: Self)
        ensures
            c.ssh.server@ == "dev-server.example.com"@,
            c.ssh.username@ == "nocodo"@,
            c.ssh.ssh_key_path@ == "~/.ssh/id_ed25519"@,
            c.ssh.remote_port == 8081,
    {
        DesktopConfig {
            ssh: SshConfig {
                server: owned("dev-server.example.com"),
                username: owned("nocodo"),
                ssh_key_path: owned("~/.ssh/id_ed25519"),
                remote_port: 8081,
            },
        }
    }
}

/// What `std::path::Path::join` gives for a base path and a relative part,
/// as text.
pub uninterp spec fn joined_path(base: Seq<char>, part: Seq<char>) -> Seq<char>;

/// Calls `std::path::Path::join`; the result is named `joined_path`, a
/// function of the two arguments alone. Joining text gives text, so the
/// lossy conversion loses nothing.
#[verifier::external_body]
pub(crate) fn join_path(base: &str, part: &str) -> (r: String)
    ensures
        r@ == joined_path(base@, part@),
{
    std::path::Path::new(base).join(part).to_string_lossy().into_owned()
}

/// Calls `dirs::home_dir`: the home directory depends on the environment,
/// so nothing is claimed of it.
#[verifier::external_body]
fn home_dir() -> (r: Option<String>) {
    match dirs::home_dir() {
        Some(p) => Some(p.to_string_lossy().into_owned()),
        None => None,
    }
}

/// Where the settings are kept, given the home directory.
pub open spec fn config_path_under(home: Option<Seq<char>>) -> Seq<char> {
    match home {
        Some(h) => joined_path(joined_path(joined_path(h, ".config"@), "nocodo"@), "desktop.toml"@),
        None => "./nocodo-desktop.toml"@,
    }
}

/// Where the settings are kept for the home directory `home`:
/// `.config/nocodo/desktop.toml` under it, else a file in the working
/// directory.
pub fn config_path_in(home: Option<String>) -> (p: String)
    ensures
        p@ == config_path_under(opt_str(home)),
{
    match home {
        Some(h) => {
            let a = join_path(h.as_str(), ".config");
            let b = join_path(a.as_str(), "nocodo");
            join_path(b.as_str(), "desktop.toml")
        },
        None => owned("./nocodo-desktop.toml"),
    }
}

/// Where the settings are kept for the user running the client.
pub fn config_path() -> (p: String)
    ensures
        exists|home: Option<Seq<char>>| p@ == config_path_under(home),
{
    let home = home_dir();
    let ghost h = opt_str(home);
    let p = config_path_in(home);
    assert(p@ == config_path_under(h));
    p
}

} // verus!
