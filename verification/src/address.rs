//! Transport-address construction.
//!
//! Each constructor produces a canonical URI for one transport kind and
//! clears any pre-existing filesystem artifact at the underlying local path,
//! so that a later bind by the agent does not collide with a stale socket
//! file.  A missing artifact is the clean outcome, never an error.  The tcp
//! constructor additionally resolves its source through the system resolver
//! when the source does not look like an address literal (it holds no `.`).

use vstd::prelude::*;

use crate::errors::{AgentError, TransportKind};

verus! {

/// The local filesystem path a vsock endpoint binds: `source:port`.
pub open spec fn vsock_path(source: Seq<char>, port: Seq<char>) -> Seq<char> {
    source + ":"@ + port
}

/// The canonical vsock URI: `vsock://source:port`.
pub open spec fn vsock_uri(source: Seq<char>, port: Seq<char>) -> Seq<char> {
    "vsock://"@ + vsock_path(source, port)
}

/// The local filesystem path a unix-domain endpoint binds: `source_port`.
pub open spec fn unix_path(source: Seq<char>, port: Seq<char>) -> Seq<char> {
    source + "_"@ + port
}

/// The canonical unix-domain URI: `unix://source_port`.
pub open spec fn unix_uri(source: Seq<char>, port: Seq<char>) -> Seq<char> {
    "unix://"@ + unix_path(source, port)
}

/// The local path kept for symmetry by the tcp constructor: `source:port`.
pub open spec fn tcp_path(source: Seq<char>, port: Seq<char>) -> Seq<char> {
    source + ":"@ + port
}

/// The canonical tcp URI: `tcp://source:port`.
pub open spec fn tcp_uri(source: Seq<char>, port: Seq<char>) -> Seq<char> {
    "tcp://"@ + tcp_path(source, port)
}

/// What became of an attempt to remove a filesystem entry.
#[derive(Clone, Copy, Debug, PartialEq, Eq, Structural)]
pub enum RemoveOutcome {
    /// The entry existed and was removed.
    Removed,
    /// No entry existed at the path.
    NotFound,
    /// Removal failed with the given OS error number.
    Failed { errno: i32 },
}

/// Relies on nix::unistd::unlink: removes the directory entry at `path`.
/// ENOENT is handed back apart from other errors, since a missing entry is
/// the clean outcome here.  What comes back depends on what is on disk, so
/// nothing is promised of it.
#[verifier::external_body]
fn remove_path(path: &str) -> (out: RemoveOutcome) {
    match nix::unistd::unlink(path) {
        Ok(()) => RemoveOutcome::Removed,
        Err(nix::errno::Errno::ENOENT) => RemoveOutcome::NotFound,
        Err(e) => RemoveOutcome::Failed { errno: e as i32 },
    }
}

/// Relies on dns_lookup::lookup_host: resolves `host` through the system
/// resolver.  Hands back the textual addresses in resolver order, or `None`
/// when resolution fails.  What comes back depends on the environment, so
/// nothing is promised of it.
#[verifier::external_body]
fn resolve_host(host: &str) -> (out: Option<Vec<String>>) {
    match dns_lookup::lookup_host(host) {
        Ok(addrs) => Some(addrs.map(|a| a.to_string()).collect()),
        Err(_) => None,
    }
}

/// Decides the result of a cleanup attempt: a removed or already-absent
/// artifact is success; any other outcome aborts the construction, with the
/// transport kind, the path and the OS error attached.
pub fn cleanup_result(kind: TransportKind, path: String, out: RemoveOutcome) -> (r: Result<
    (),
    AgentError,
>)
    ensures
        match out {
            RemoveOutcome::Removed | RemoveOutcome::NotFound => r is Ok,
            RemoveOutcome::Failed { errno } => (r matches Err(
                AgentError::FilesystemCleanupFailure { kind: k, path: p, errno: e },
            ) && k == kind && p@ == path@ && e == errno),
        },
{
    match out {
        RemoveOutcome::Removed => Ok(()),
        RemoveOutcome::NotFound => Ok(()),
        RemoveOutcome::Failed { errno } => Err(
            AgentError::FilesystemCleanupFailure { kind, path, errno },
        ),
    }
}

/// Decides the effective tcp source from what resolution came to: the
/// first resolved address when there is one; a typed resolution failure
/// carrying the hostname when resolution failed or yielded no address.
pub fn source_of_resolution(host: String, resolved: Option<Vec<String>>) -> (r: Result<
    String,
    AgentError,
>)
    ensures
        match resolved {
            Some(addrs) => if addrs@.len() > 0 {
                r matches Ok(s) && s@ == addrs@[0]@
            } else {
                r matches Err(AgentError::ResolutionFailure { host: h }) && h@ == host@
            },
            None => r matches Err(AgentError::ResolutionFailure { host: h }) && h@ == host@,
        },
{
    match resolved {
        None => Err(AgentError::ResolutionFailure { host }),
        Some(addrs) => {
            if addrs.len() == 0 {
                Err(AgentError::ResolutionFailure { host })
            } else {
                Ok(addrs[0].clone())
            }
        },
    }
}

/// Whether `s` holds the character `c`; the executable counterpart of
/// `Seq::contains`.
pub fn contains_char(s: &str, c: char) -> (b: bool)
    ensures
        b == s@.contains(c),
{
    let len: usize = s.unicode_len();
    let mut i: usize = 0;
    while i < len
        invariant
            i <= len,
            len == s@.len(),
            forall|k: int| 0 <= k < i ==> s@[k] != c,
        decreases len - i,
    {
        if s.get_char(i) == c {
            proof {
                assert(s@.contains(c)) by {
                    assert(s@[i as int] == c);
                }
            }
            return true;
        }
        i += 1;
    }
    false
}

/// Joins `a`, `sep` and `b` into one owned string.
fn join3(a: &str, sep: &str, b: &str) -> (r: String)
    ensures
        r@ == a@ + sep@ + b@,
{
    let mut r = a.to_owned();
    r.append(sep);
    r.append(b);
    r
}

/// Joins `a` and `b` into one owned string.
fn join2(a: &str, b: &str) -> (r: String)
    ensures
        r@ == a@ + b@,
{
    let mut r = a.to_owned();
    r.append(b);
    r
}

/// Builds the vsock URI `vsock://source:port` and clears a stale artifact
/// at `source:port`.  A missing artifact is success; any other removal
/// failure aborts with the path and the vsock kind attached.
pub fn construct_vsock(source: String, port: String) -> (r: Result<String, AgentError>)
    ensures
        match r {
            Ok(uri) => uri@ == vsock_uri(source@, port@),
            Err(e) => (e matches AgentError::FilesystemCleanupFailure { kind, path, errno }
                && kind == TransportKind::Vsock && path@ == vsock_path(source@, port@)),
        },
{
    let path = join3(source.as_str(), ":", port.as_str());
    let uri = join2("vsock://", path.as_str());
    proof {
        assert(uri@ =~= vsock_uri(source@, port@));
    }
    let out = remove_path(path.as_str());
    match cleanup_result(TransportKind::Vsock, path, out) {
        Ok(_) => Ok(uri),
        Err(e) => Err(e),
    }
}

/// Builds the unix-domain URI `unix://source_port` and clears a stale
/// artifact at `source_port`.  A missing artifact is success; any other
/// removal failure aborts with the path and the unix kind attached.
pub fn construct_unix(source: String, port: String) -> (r: Result<String, AgentError>)
    ensures
        match r {
            Ok(uri) => uri@ == unix_uri(source@, port@),
            Err(e) => (e matches AgentError::FilesystemCleanupFailure { kind, path, errno }
                && kind == TransportKind::Unix && path@ == unix_path(source@, port@)),
        },
{
    let path = join3(source.as_str(), "_", port.as_str());
    let uri = join2("unix://", path.as_str());
    proof {
        assert(uri@ =~= unix_uri(source@, port@));
    }
    let out = remove_path(path.as_str());
    match cleanup_result(TransportKind::Unix, path, out) {
        Ok(_) => Ok(uri),
        Err(e) => Err(e),
    }
}

/// Builds the tcp URI `tcp://source:port` for a source that needs no
/// resolution, and clears a stale artifact at `source:port` kept for
/// symmetry with the other constructors.
pub fn construct_tcp_resolved(source: String, port: String) -> (r: Result<String, AgentError>)
    ensures
        match r {
            Ok(uri) => uri@ == tcp_uri(source@, port@),
            Err(e) => (e matches AgentError::FilesystemCleanupFailure { kind, path, errno }
                && kind == TransportKind::Tcp && path@ == tcp_path(source@, port@)),
        },
{
    let path = join3(source.as_str(), ":", port.as_str());
    let uri = join2("tcp://", path.as_str());
    proof {
        assert(uri@ =~= tcp_uri(source@, port@));
    }
    let out = remove_path(path.as_str());
    match cleanup_result(TransportKind::Tcp, path, out) {
        Ok(_) => Ok(uri),
        Err(e) => Err(e),
    }
}

/// Builds the tcp URI for `source`.  A source holding a `.` is taken as an
/// address literal and used as it stands; any other source is taken as a
/// hostname, resolved, and the first resolved address is substituted into
/// both the cleanup path and the returned URI.  A resolution that fails or
/// yields no address aborts with the hostname attached.
pub fn construct_tcp(source: String, port: String) -> (r: Result<String, AgentError>)
    ensures
        source@.contains('.') ==> match r {
            Ok(uri) => uri@ == tcp_uri(source@, port@),
            Err(e) => (e matches AgentError::FilesystemCleanupFailure { kind, path, errno }
                && kind == TransportKind::Tcp && path@ == tcp_path(source@, port@)),
        },
        !source@.contains('.') ==> match r {
            Ok(uri) => exists|resolved: Seq<char>| uri@ == tcp_uri(resolved, port@),
            Err(e) => match e {
                AgentError::ResolutionFailure { host } => host@ == source@,
                AgentError::FilesystemCleanupFailure { kind, path, errno } => kind
                    == TransportKind::Tcp && (exists|resolved: Seq<char>|
                    path@ == tcp_path(resolved, port@)),
                _ => false,
            },
        },
{
    if contains_char(source.as_str(), '.') {
        construct_tcp_resolved(source, port)
    } else {
        let resolved = resolve_host(source.as_str());
        match source_of_resolution(source, resolved) {
            Err(e) => Err(e),
            Ok(first) => {
                let ghost fv = first@;
                let r = construct_tcp_resolved(first, port);
                proof {
                    if r is Ok {
                        assert(exists|res: Seq<char>| r->Ok_0@ == tcp_uri(res, port@)) by {
                            assert(r->Ok_0@ == tcp_uri(fv, port@));
                        }
                    } else {
                        let e = r->Err_0;
                        assert(e matches AgentError::FilesystemCleanupFailure {
                            kind,
                            path,
                            errno,
                        } && kind == TransportKind::Tcp && path@ == tcp_path(fv, port@));
                    }
                }
                r
            },
        }
    }
}

} // verus!
