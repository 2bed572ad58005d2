use vstd::prelude::*;
use vstd::string::StringExecFns;

verus! {

/// The upload-related half of the persisted settings.
pub struct SftpConfig {
    pub host: String,
    pub port: u16,
    pub username: String,
    /// The carried password. A settings save writes it into the
    /// settings file along with the rest, and also into the OS secret
    /// store (or clears the store entry when it is empty).
    pub password: String,
    /// When set, agent authentication is used instead of a password.
    pub use_ssh_key: bool,
    pub remote_path: String,
    pub base_url: String,
    pub copy_to_clipboard: bool,
}

/// The base URL a fresh configuration points at.
pub fn default_base_url() -> (r: String)
    ensures
        r@ == "https://example.com"@,
{
    "https://example.com".to_owned()
}

/// Whether a fresh configuration copies uploads to the clipboard.
pub fn default_copy_to_clipboard() -> (r: bool)
    ensures
        r == true,
{
    true
}

/// What a freshly constructed configuration holds.
pub open spec fn is_default_sftp_config(c: SftpConfig) -> bool {
    &&& c.host@.len() == 0
    &&& c.port == 22
    &&& c.username@.len() == 0
    &&& c.password@.len() == 0
    &&& c.use_ssh_key == false
    &&& c.remote_path@ == "/uploads"@
    &&& c.base_url@ == "https://example.com"@
    &&& c.copy_to_clipboard == true
}

impl Default for SftpConfig {
    /// A fresh configuration: no account, the conventional port, the
    /// `/uploads` remote directory, and clipboard copying on.
    fn default() -> (r: Self)
        ensures
            is_default_sftp_config(r),
    {
        SftpConfig {
            host: String::new(),
            port: 22,
            username: String::new(),
            password: String::new(),
            use_ssh_key: false,
            remote_path: "/uploads".to_owned(),
            base_url: "https://example.com".to_owned(),
            copy_to_clipboard: true,
        }
    }
}

/// The persisted application settings.
pub struct Settings {
    pub save_directory: String,
    pub screenshot_shortcut: String,
    pub sftp: SftpConfig,
}

impl Settings {
    /// Fresh settings, given the platform pictures directory (if the
    /// platform reports one): screenshots land in a `Screenshots`
    /// folder under it, or under the current directory otherwise.
    pub fn with_picture_dir(picture_dir: Option<String>) -> (r: Settings)
        ensures
            picture_dir matches Some(d) ==> r.save_directory@ == d@ + "/Screenshots"@,
            picture_dir is None ==> r.save_directory@ == "./Screenshots"@,
            r.screenshot_shortcut@ == "CommandOrControl+Shift+S"@,
            is_default_sftp_config(r.sftp),
    {
        let save_directory: String = match picture_dir {
            Some(d) => {
                let mut s = d;
                s.append("/Screenshots");
                s
            },
            None => "./Screenshots".to_owned(),
        };
        Settings {
            save_directory,
            screenshot_shortcut: "CommandOrControl+Shift+S".to_owned(),
            sftp: SftpConfig::default(),
        }
    }
}

/// Everything but the carried password is the same in `a` and `b`.
pub open spec fn same_but_password(a: Settings, b: Settings) -> bool {
    &&& a.save_directory == b.save_directory
    &&& a.screenshot_shortcut == b.screenshot_shortcut
    &&& a.sftp.host == b.sftp.host
    &&& a.sftp.port == b.sftp.port
    &&& a.sftp.username == b.sftp.username
    &&& a.sftp.use_ssh_key == b.sftp.use_ssh_key
    &&& a.sftp.remote_path == b.sftp.remote_path
    &&& a.sftp.base_url == b.sftp.base_url
    &&& a.sftp.copy_to_clipboard == b.sftp.copy_to_clipboard
}

/// Apply the optional password of a settings-update request: a new,
/// non-empty password replaces the carried one; a missing or empty one
/// leaves the carried password (possibly an existing one) unchanged.
/// Nothing else in the settings is touched.
pub fn apply_password_update(settings: &mut Settings, password: Option<String>)
    ensures
        same_but_password(*final(settings), *old(settings)),
        password matches Some(p) ==> (if p@.len() > 0 {
            final(settings).sftp.password@ == p@
        } else {
            final(settings).sftp.password == old(settings).sftp.password
        }),
        password is None ==> final(settings).sftp.password == old(settings).sftp.password,
{
    if let Some(new_password) = password {
        if !new_password.as_str().is_empty() {
            settings.sftp.password = new_password;
        }
    }
}

/// What the secret store reported when the stored password was looked
/// up.
pub enum PasswordLookup {
    /// An entry exists and holds this password.
    Found(String),
    /// No entry is stored yet.
    Missing,
    /// The store itself failed, with this cause text.
    Failed(String),
}

/// The rule applied to a secret-store lookup: a missing entry is not an
/// error — it yields the empty password — while a store failure is
/// surfaced with its cause.
pub fn resolve_password_lookup(lookup: PasswordLookup) -> (r: Result<String, String>)
    ensures
        lookup matches PasswordLookup::Found(p) ==> (r matches Ok(q) && q@ == p@),
        lookup is Missing ==> (r matches Ok(q) && q@.len() == 0),
        lookup matches PasswordLookup::Failed(c) ==> (r matches Err(m) && m@
            == "Failed to get password from keyring: "@ + c@),
{
    match lookup {
        PasswordLookup::Found(p) => Ok(p),
        PasswordLookup::Missing => Ok(String::new()),
        PasswordLookup::Failed(c) => {
            let mut m = "Failed to get password from keyring: ".to_owned();
            m.append(c.as_str());
            Err(m)
        },
    }
}

/// What saving the settings does to the secret store.
#[derive(Clone, Copy, Debug, PartialEq, Eq, Structural)]
pub enum CredentialStoreAction {
    /// Write the carried password to the store.
    StorePassword,
    /// Delete any stored entry (best effort).
    ClearPassword,
}

/// While settings are saved, a non-empty carried password is written to
/// the secret store, and an empty one deletes whatever entry exists.
pub fn credential_store_action(password: &str) -> (r: CredentialStoreAction)
    ensures
        r == CredentialStoreAction::StorePassword <==> password@.len() > 0,
        r == CredentialStoreAction::ClearPassword <==> password@.len() == 0,
{
    if password.is_empty() {
        CredentialStoreAction::ClearPassword
    } else {
        CredentialStoreAction::StorePassword
    }
}

/// The service name of the secret-store entry.
pub fn keyring_service() -> (r: &'static str)
    ensures
        r@ == "shot-share"@,
{
    "shot-share"
}

/// The user name of the secret-store entry.
pub fn keyring_username() -> (r: &'static str)
    ensures
        r@ == "sftp-password"@,
{
    "sftp-password"
}

/// The application's own folder below the platform configuration
/// directory.
pub fn app_config_dir_path(config_dir: &str) -> (r: String)
    ensures
        r@ == config_dir@ + "/shot-share"@,
{
    let mut out = config_dir.to_owned();
    out.append("/shot-share");
    out
}

/// The settings file below the application's configuration folder.
pub fn settings_file_path(app_config_dir: &str) -> (r: String)
    ensures
        r@ == app_config_dir@ + "/settings.json"@,
{
    let mut out = app_config_dir.to_owned();
    out.append("/settings.json");
    out
}

} // verus!
