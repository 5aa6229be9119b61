//! SSH keys of the desktop client: where they are looked for and the
//! fingerprint that identifies one to the manager.

use crate::desktop::config::{join_path, joined_path};
use crate::text::{chars_of, owned, string_of, trim_chars, trim_seq};
use vstd::prelude::*;

verus! {

/// Why an SSH operation failed.
#[derive(Debug)]
pub enum SshError {
    ConnectionFailed(String),
    AuthenticationFailed(String),
    Io(std::io::Error),
    Ssh(String),
}

/// The key files tried, in order: the one given, else the RSA, Ed25519
/// and ECDSA keys under `~/.ssh`.
pub open spec fn key_candidates(key_path: Option<Seq<char>>, home: Seq<char>) -> Seq<Seq<char>> {
    match key_path {
        Some(k) => seq![k],
        None => seq![home + "/.ssh/id_rsa"@, home + "/.ssh/id_ed25519"@, home + "/.ssh/id_ecdsa"@],
    }
}

fn under_home(home: &str, rest: &str) -> (p: String)
    ensures
        p@ == home@ + rest@,
{
    let mut p = owned(home);
    p.append(rest);
    p
}

/// The key files tried, in order, for the key path given (if any) and the
/// home directory.
pub fn candidate_key_paths(key_path: Option<&str>, home: &str) -> (paths: Vec<String>)
    ensures
        crate::text::strs(paths@) == key_candidates(
            match key_path {
                Some(k) => Some(k@),
                None => None,
            },
            home@,
        ),
{
    let mut paths: Vec<String> = Vec::new();
    match key_path {
        Some(k) => paths.push(owned(k)),
        None => {
            paths.push(under_home(home, "/.ssh/id_rsa"));
            paths.push(under_home(home, "/.ssh/id_ed25519"));
            paths.push(under_home(home, "/.ssh/id_ecdsa"));
        },
    }
    assert(crate::text::strs(paths@) =~= key_candidates(
        match key_path {
            Some(k) => Some(k@),
            None => None,
        },
        home@,
    ));
    paths
}

/// The key path used to connect: none when blank; a leading `~/` is
/// replaced by the home directory.
pub open spec fn expanded_key_path(key_path: Seq<char>, home: Seq<char>) -> Option<Seq<char>> {
    if key_path.len() == 0 {
        None
    } else if crate::text::has_prefix(key_path, "~/"@) {
        Some(home + key_path.skip(1))
    } else {
        Some(key_path)
    }
}

/// The key path used to connect, with a leading `~/` expanded.
pub fn expand_key_path(key_path: &str, home: &str) -> (p: Option<String>)
    ensures
        crate::text::opt_str(p) == expanded_key_path(key_path@, home@),
{
    if key_path.is_empty() {
        None
    } else if crate::text::str_starts_with(key_path, "~/") {
        let chars = chars_of(key_path);
        let rest = crate::text::slice_subrange(chars.as_slice(), 1, chars.len());
        let tail = string_of(rest.as_slice());
        let mut p = owned(home);
        p.append(tail.as_str());
        Some(p)
    } else {
        Some(owned(key_path))
    }
}

/// The public key file that goes with a key file.
pub fn public_key_path(key_path: &str) -> (p: String)
    ensures
        p@ == key_path@ + ".pub"@,
{
    under_home(key_path, ".pub")
}

/// The key proposed by default: the first of Ed25519, RSA and ECDSA that
/// exists, else RSA.
pub open spec fn default_key_of(has_ed25519: bool, has_rsa: bool, has_ecdsa: bool) -> Seq<char> {
    if has_ed25519 {
        "id_ed25519"@
    } else if has_rsa {
        "id_rsa"@
    } else if has_ecdsa {
        "id_ecdsa"@
    } else {
        "id_rsa"@
    }
}

/// The name of the key file proposed by default, given which exist.
pub fn default_key_name(has_ed25519: bool, has_rsa: bool, has_ecdsa: bool) -> (name: &'static str)
    ensures
        name@ == default_key_of(has_ed25519, has_rsa, has_ecdsa),
{
    if has_ed25519 {
        "id_ed25519"
    } else if has_rsa {
        "id_rsa"
    } else if has_ecdsa {
        "id_ecdsa"
    } else {
        "id_rsa"
    }
}

/// The key path proposed by default: the key named by `default_key_of`
/// in the `.ssh` folder of the home directory.
pub open spec fn default_key_path_of(home: Seq<char>, has_ed25519: bool, has_rsa: bool, has_ecdsa: bool) -> Seq<char> {
    joined_path(joined_path(home, ".ssh"@), default_key_of(has_ed25519, has_rsa, has_ecdsa))
}

/// The key path proposed by default, given the home directory and which of
/// the Ed25519, RSA and ECDSA keys exist there.
pub fn default_key_path(home: &str, has_ed25519: bool, has_rsa: bool, has_ecdsa: bool) -> (p: String)
    ensures
        p@ == default_key_path_of(home@, has_ed25519, has_rsa, has_ecdsa),
{
    let dir = join_path(home, ".ssh");
    join_path(dir.as_str(), default_key_name(has_ed25519, has_rsa, has_ecdsa))
}

/// The key path handed to the connection when it starts: none when the
/// stored path is blank, else the stored path with a leading `~/`
/// expanded; the stored path becomes that expanded path.
pub fn connect_key_path(stored: &mut String, home: &str) -> (key: Option<String>)
    ensures
        crate::text::opt_str(key) == expanded_key_path(old(stored)@, home@),
        final(stored)@ == match expanded_key_path(old(stored)@, home@) {
            Some(p) => p,
            None => old(stored)@,
        },
{
    match expand_key_path(stored.as_str(), home) {
        Some(p) => {
            *stored = owned(p.as_str());
            Some(p)
        },
        None => None,
    }
}

/// A public key as read from its file, without surrounding whitespace.
pub fn trimmed_public_key(content: &str) -> (key: String)
    ensures
        key@ == trim_seq(content@),
{
    let t = trim_chars(chars_of(content).as_slice());
    string_of(t.as_slice())
}

/// The error when no public key file could be read.
pub fn no_public_key() -> (e: SshError)
    ensures
        e matches SshError::AuthenticationFailed(m) && m@ == "No SSH public key found"@,
{
    SshError::AuthenticationFailed(owned("No SSH public key found"))
}

/// The error when no key file could be loaded.
pub fn no_valid_key() -> (e: SshError)
    ensures
        e matches SshError::AuthenticationFailed(m) && m@ == "No valid SSH keys found"@,
{
    SshError::AuthenticationFailed(owned("No valid SSH keys found"))
}

/// The SHA-256 digest of some bytes.
pub uninterp spec fn sha256_of(data: Seq<u8>) -> Seq<u8>;

/// Calls `sha2::Sha256::digest`; its result is named `sha256_of`, and a
/// SHA-256 digest is 32 bytes long.
#[verifier::external_body]
fn sha256_digest(data: &[u8]) -> (d: Vec<u8>)
    ensures
        d@ == sha256_of(data@),
        d@.len() == 32,
{
    <sha2::Sha256 as sha2::Digest>::digest(data).to_vec()
}

/// The character of a six-bit value in the standard base64 alphabet:
/// `A`-`Z`, `a`-`z`, `0`-`9`, `+` and `/`.
pub open spec fn base64_char(v: int) -> char {
    if v < 26 {
        ('A' as int + v) as char
    } else if v < 52 {
        ('a' as int + (v - 26)) as char
    } else if v < 62 {
        ('0' as int + (v - 52)) as char
    } else if v == 62 {
        '+'
    } else {
        '/'
    }
}

/// The standard, padded base64 encoding of some bytes: each group of three
/// bytes gives four characters of six bits each; a last group of one or two
/// bytes is completed with zero bits and padded with `=`.
pub open spec fn base64_of(data: Seq<u8>) -> Seq<char>
    decreases data.len(),
{
    if data.len() == 0 {
        seq![]
    } else if data.len() == 1 {
        let b0 = data[0] as int;
        seq![base64_char(b0 / 4), base64_char((b0 % 4) * 16), '=', '=']
    } else if data.len() == 2 {
        let b0 = data[0] as int;
        let b1 = data[1] as int;
        seq![base64_char(b0 / 4), base64_char((b0 % 4) * 16 + b1 / 16), base64_char((b1 % 16) * 4), '=']
    } else {
        let b0 = data[0] as int;
        let b1 = data[1] as int;
        let b2 = data[2] as int;
        seq![
            base64_char(b0 / 4),
            base64_char((b0 % 4) * 16 + b1 / 16),
            base64_char((b1 % 16) * 4 + b2 / 64),
            base64_char(b2 % 64),
        ] + base64_of(data.subrange(3, data.len() as int))
    }
}

/// The encoding holds four characters for every three bytes begun.
pub proof fn lemma_base64_len(data: Seq<u8>)
    ensures
        base64_of(data).len() == 4 * ((data.len() + 2) / 3),
    decreases data.len(),
{
    if data.len() >= 3 {
        lemma_base64_len(data.subrange(3, data.len() as int));
    }
}

/// Calls `base64::Engine::encode` with the standard engine, which encodes
/// as `base64_of` states, padding the last group. The call panics when the
/// encoded length overflows `usize`.
#[verifier::external_body]
fn base64_encode(data: &[u8]) -> (s: String)
    requires
        4 * ((data@.len() + 2) / 3) <= usize::MAX,
    ensures
        s@ == base64_of(data@),
{
    base64::Engine::encode(&base64::engine::general_purpose::STANDARD, data)
}

/// The fingerprint of a public key: "SHA256:" and the base64 of the SHA-256
/// digest of its bytes.
pub open spec fn fingerprint_of(public_key: Seq<u8>) -> Seq<char> {
    "SHA256:"@ + base64_of(sha256_of(public_key))
}

/// The fingerprint of a public key, as the manager knows it.
pub fn ssh_fingerprint(public_key: &[u8]) -> (f: String)
    ensures
        f@ == fingerprint_of(public_key@),
        f@.len() == 51,
{
    let digest = sha256_digest(public_key);
    let encoded = base64_encode(digest.as_slice());
    let mut f = owned("SHA256:");
    f.append(encoded.as_str());
    proof {
        reveal_strlit("SHA256:");
        lemma_base64_len(digest@);
    }
    f
}

} // verus!
