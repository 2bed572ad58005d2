use vstd::prelude::*;

use crate::error::{SftpError, SftpErrorText};
use crate::text::{is_blank, is_blank_text};

verus! {

/// The mathematical content of an upload target: the values the pipeline
/// decisions depend on.
pub struct TargetView {
    pub host: Seq<char>,
    pub port: u16,
    pub username: Seq<char>,
    /// `Some` selects password authentication, `None` agent authentication.
    pub credential: Option<Seq<char>>,
    pub remote_dir: Seq<char>,
}

/// A validated upload target: host, port, username, the optional
/// credential, and the configured remote directory.
///
/// Construction goes through [`SftpUploader::new`], which rejects an empty
/// host or username, so a value of this type always names a concrete
/// account on a concrete host.
pub struct SftpUploader {
    host: String,
    port: u16,
    username: String,
    password: Option<String>,
    remote_path: String,
}

impl View for SftpUploader {
    type V = TargetView;

    closed spec fn view(&self) -> TargetView {
        TargetView {
            host: self.host@,
            port: self.port,
            username: self.username@,
            credential: match self.password {
                Some(p) => Some(p@),
                None => None,
            },
            remote_dir: self.remote_path@,
        }
    }
}

impl SftpUploader {
    /// Validating factory: fails with `InvalidConfig` if and only if the
    /// host or the username is empty. The credential is taken as given —
    /// `Some` means password authentication, `None` means agent
    /// authentication — and is never inspected for emptiness here;
    /// callers normalize an empty password beforehand (see
    /// [`credential_from_password`]).
    pub fn new(
        host: String,
        port: u16,
        username: String,
        password: Option<String>,
        remote_path: String,
    ) -> (r: Result<Self, SftpError>)
        ensures
            host@.len() == 0 ==> (r matches Err(e) && e@ == SftpErrorText::InvalidConfig(
                "Host cannot be empty"@,
            )),
            host@.len() > 0 && username@.len() == 0 ==> (r matches Err(e) && e@
                == SftpErrorText::InvalidConfig("Username cannot be empty"@)),
            host@.len() > 0 && username@.len() > 0 ==> (r matches Ok(t) && t@ == (TargetView {
                host: host@,
                port,
                username: username@,
                credential: password.deep_view(),
                remote_dir: remote_path@,
            })),
    {
        if host.as_str().is_empty() {
            return Err(SftpError::InvalidConfig("Host cannot be empty".to_owned()));
        }
        if username.as_str().is_empty() {
            return Err(SftpError::InvalidConfig("Username cannot be empty".to_owned()));
        }
        Ok(Self { host, port, username, password, remote_path })
    }

    /// The configured host name or address.
    pub fn host(&self) -> (r: &str)
        ensures
            r@ == self@.host,
    {
        self.host.as_str()
    }

    /// The configured port.
    pub fn port(&self) -> (r: u16)
        ensures
            r == self@.port,
    {
        self.port
    }

    /// The configured account name.
    pub fn username(&self) -> (r: &str)
        ensures
            r@ == self@.username,
    {
        self.username.as_str()
    }

    /// The configured remote directory; empty means "the session's
    /// default directory".
    pub fn remote_dir(&self) -> (r: &str)
        ensures
            r@ == self@.remote_dir,
    {
        self.remote_path.as_str()
    }

    /// A copy of the credential. `Some` selects password authentication.
    pub fn clone_credential(&self) -> (r: Option<String>)
        ensures
            r.deep_view() == self@.credential,
    {
        match &self.password {
            Some(p) => Some(p.clone()),
            None => None,
        }
    }
}

/// Preflight validation of a caller-supplied upload request, before
/// any target is constructed: host, username and password must each
/// hold something besides white space (this entry point always uses
/// password authentication). The first missing one is reported with a
/// configuration hint rather than a pipeline error.
pub fn validate_upload_request(host: &str, username: &str, password: &str) -> (r: Result<
    (),
    String,
>)
    ensures
        is_blank_text(host@) ==> (r matches Err(m) && m@
            == "SFTP host is not configured. Please configure SFTP settings first."@),
        !is_blank_text(host@) && is_blank_text(username@) ==> (r matches Err(m) && m@
            == "SFTP username is not configured. Please configure SFTP settings first."@),
        !is_blank_text(host@) && !is_blank_text(username@) && is_blank_text(password@) ==> (
        r matches Err(m) && m@
            == "SFTP password is not configured. Please configure SFTP settings first."@),
        !is_blank_text(host@) && !is_blank_text(username@) && !is_blank_text(password@) ==> r
            is Ok,
{
    if is_blank(host) {
        return Err("SFTP host is not configured. Please configure SFTP settings first.".to_owned());
    }
    if is_blank(username) {
        return Err(
            "SFTP username is not configured. Please configure SFTP settings first.".to_owned(),
        );
    }
    if is_blank(password) {
        return Err(
            "SFTP password is not configured. Please configure SFTP settings first.".to_owned(),
        );
    }
    Ok(())
}

/// Normalize a caller-supplied password string into the credential of an
/// upload target: an empty string means "no password was configured" and
/// selects agent authentication.
pub fn credential_from_password(password: String) -> (r: Option<String>)
    ensures
        password@.len() == 0 ==> r is None,
        password@.len() > 0 ==> (r matches Some(p) && p@ == password@),
{
    if password.as_str().is_empty() {
        None
    } else {
        Some(password)
    }
}

} // verus!
