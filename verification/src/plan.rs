use vstd::prelude::*;

use crate::error::{SftpError, SftpErrorText};
use crate::messages::{
    address_text, agent_auth_failed_message, agent_auth_failed_text, channel_open_failed_message,
    channel_open_failed_text, handshake_failed_message, handshake_failed_text,
    invalid_address_message, invalid_address_text, password_auth_failed_message,
    password_auth_failed_text, unauthenticated_message, unauthenticated_text,
    unreachable_message, unreachable_text, unresolved_host_message, unresolved_host_text,
};
use crate::remote_path::{join_remote_path, remote_path_of};
use crate::target::SftpUploader;

verus! {

/// Timeout for opening the transport connection, in seconds.
pub const CONNECT_TIMEOUT_SECS: u64 = 10;

/// Session-level timeout for a connectivity test, in milliseconds.
pub const TEST_SESSION_TIMEOUT_MS: u32 = 10000;

/// Session-level timeout for an upload session, in milliseconds; it
/// covers the handshake and the subsequent data transfer.
pub const UPLOAD_SESSION_TIMEOUT_MS: u32 = 30000;

/// The steps of the pipeline, in the order they are performed. A plan
/// starts at `Resolve` and ends at `Complete` or, after the first
/// failure, at `Failed`.
#[derive(Clone, Copy, Debug, PartialEq, Eq, Structural)]
pub enum Phase {
    /// Resolve `host:port` to a socket address.
    Resolve,
    /// Open the transport connection, bounded by a timeout.
    Connect,
    /// Create the protocol session over the connection and set the
    /// session timeout.
    StartSession,
    /// Perform the protocol handshake.
    Handshake,
    /// Attempt exactly one authentication strategy.
    Authenticate,
    /// Confirm that the session reports an authenticated state.
    ConfirmAuthentication,
    /// Open the file-transfer sub-channel.
    OpenChannel,
    /// Read the local file fully into memory.
    ReadLocalFile,
    /// Create the remote file at the computed destination.
    CreateRemoteFile,
    /// Copy the buffered bytes into the remote file.
    WriteRemoteBytes,
    /// The operation finished successfully.
    Complete,
    /// A step failed; the pipeline is abandoned.
    Failed,
}

/// What a plan is for: validating a configuration, or transferring one
/// local file to the remote directory.
pub enum Operation {
    ConnectionTest,
    FileUpload { local_path: String, remote_filename: String },
}

/// The mathematical content of an [`Operation`].
pub enum OperationView {
    ConnectionTest,
    FileUpload { local_path: Seq<char>, remote_filename: Seq<char> },
}

impl View for Operation {
    type V = OperationView;

    open spec fn view(&self) -> OperationView {
        match self {
            Operation::ConnectionTest => OperationView::ConnectionTest,
            Operation::FileUpload { local_path, remote_filename } => OperationView::FileUpload {
                local_path: local_path@,
                remote_filename: remote_filename@,
            },
        }
    }
}

/// One concrete step the driver must perform next. Every parameter the
/// step needs is embedded, so the driver decides nothing itself.
pub enum SessionAction {
    /// Resolve the given `host:port` text to socket addresses and keep
    /// the first result.
    ResolveAddress { address: String },
    /// Connect to the resolved address, giving up after the timeout.
    ConnectWithTimeout { timeout_secs: u64 },
    /// Create the protocol session over the open connection and set its
    /// timeout.
    StartSession { timeout_ms: u32 },
    /// Perform the protocol handshake.
    PerformHandshake,
    /// Authenticate with the given username and password.
    AuthenticateWithPassword { username: String, password: String },
    /// Authenticate through the local key agent for the given username.
    AuthenticateWithAgent { username: String },
    /// Ask the session whether it is authenticated; report failure if
    /// it is not.
    ConfirmAuthenticated,
    /// Open the file-transfer sub-channel on the session.
    OpenFileChannel,
    /// Read the whole local file at the given path into memory.
    ReadLocalFile { path: String },
    /// Create the remote file at the given destination path.
    CreateRemoteFile { path: String },
    /// Copy the buffered file contents into the remote file.
    WriteRemoteBytes,
}

/// The mathematical content of a [`SessionAction`].
pub enum SessionActionView {
    ResolveAddress { address: Seq<char> },
    ConnectWithTimeout { timeout_secs: u64 },
    StartSession { timeout_ms: u32 },
    PerformHandshake,
    AuthenticateWithPassword { username: Seq<char>, password: Seq<char> },
    AuthenticateWithAgent { username: Seq<char> },
    ConfirmAuthenticated,
    OpenFileChannel,
    ReadLocalFile { path: Seq<char> },
    CreateRemoteFile { path: Seq<char> },
    WriteRemoteBytes,
}

impl View for SessionAction {
    type V = SessionActionView;

    open spec fn view(&self) -> SessionActionView {
        match self {
            SessionAction::ResolveAddress { address } => SessionActionView::ResolveAddress {
                address: address@,
            },
            SessionAction::ConnectWithTimeout { timeout_secs } => (
            SessionActionView::ConnectWithTimeout { timeout_secs: *timeout_secs }),
            SessionAction::StartSession { timeout_ms } => SessionActionView::StartSession {
                timeout_ms: *timeout_ms,
            },
            SessionAction::PerformHandshake => SessionActionView::PerformHandshake,
            SessionAction::AuthenticateWithPassword { username, password } => (
            SessionActionView::AuthenticateWithPassword {
                username: username@,
                password: password@,
            }),
            SessionAction::AuthenticateWithAgent { username } => (
            SessionActionView::AuthenticateWithAgent { username: username@ }),
            SessionAction::ConfirmAuthenticated => SessionActionView::ConfirmAuthenticated,
            SessionAction::OpenFileChannel => SessionActionView::OpenFileChannel,
            SessionAction::ReadLocalFile { path } => SessionActionView::ReadLocalFile {
                path: path@,
            },
            SessionAction::CreateRemoteFile { path } => SessionActionView::CreateRemoteFile {
                path: path@,
            },
            SessionAction::WriteRemoteBytes => SessionActionView::WriteRemoteBytes,
        }
    }
}

impl DeepView for SessionAction {
    type V = SessionActionView;

    open spec fn deep_view(&self) -> SessionActionView {
        self.view()
    }
}

/// The mathematical content of a [`TransferPlan`].
pub struct PlanView {
    pub host: Seq<char>,
    pub port: u16,
    pub username: Seq<char>,
    pub credential: Option<Seq<char>>,
    pub remote_dir: Seq<char>,
    pub op: OperationView,
    pub phase: Phase,
}

/// `p` with only its phase changed.
pub open spec fn with_phase(p: PlanView, phase: Phase) -> PlanView {
    PlanView {
        host: p.host,
        port: p.port,
        username: p.username,
        credential: p.credential,
        remote_dir: p.remote_dir,
        op: p.op,
        phase,
    }
}

/// The local file read by an upload; empty for a connectivity test,
/// which reads no file.
pub open spec fn upload_source(op: OperationView) -> Seq<char> {
    match op {
        OperationView::FileUpload { local_path, .. } => local_path,
        OperationView::ConnectionTest => Seq::empty(),
    }
}

/// The remote filename written by an upload; empty for a connectivity
/// test, which writes no file.
pub open spec fn upload_filename(op: OperationView) -> Seq<char> {
    match op {
        OperationView::FileUpload { remote_filename, .. } => remote_filename,
        OperationView::ConnectionTest => Seq::empty(),
    }
}

/// The destination path an upload resolves to: a pure function of the
/// configured remote directory and the remote filename alone.
pub open spec fn destination_of(p: PlanView) -> Seq<char> {
    remote_path_of(p.remote_dir, upload_filename(p.op))
}

/// The session timeout handed to the protocol library: shorter for a
/// connectivity test, longer for an upload session.
pub open spec fn session_timeout_ms(op: OperationView) -> u32 {
    match op {
        OperationView::ConnectionTest => TEST_SESSION_TIMEOUT_MS,
        OperationView::FileUpload { .. } => UPLOAD_SESSION_TIMEOUT_MS,
    }
}

/// The phase a plan moves to when its current step succeeds. The two
/// terminal phases stay where they are.
pub open spec fn next_phase(p: PlanView) -> Phase {
    match p.phase {
        Phase::Resolve => Phase::Connect,
        Phase::Connect => Phase::StartSession,
        Phase::StartSession => Phase::Handshake,
        Phase::Handshake => Phase::Authenticate,
        Phase::Authenticate => Phase::ConfirmAuthentication,
        Phase::ConfirmAuthentication => match p.op {
            OperationView::ConnectionTest => Phase::Complete,
            OperationView::FileUpload { .. } => Phase::OpenChannel,
        },
        Phase::OpenChannel => Phase::ReadLocalFile,
        Phase::ReadLocalFile => Phase::CreateRemoteFile,
        Phase::CreateRemoteFile => Phase::WriteRemoteBytes,
        Phase::WriteRemoteBytes => Phase::Complete,
        Phase::Complete => Phase::Complete,
        Phase::Failed => Phase::Failed,
    }
}

/// The step a plan prescribes in its current phase; nothing once it has
/// completed or failed.
pub open spec fn action_of(p: PlanView) -> Option<SessionActionView> {
    match p.phase {
        Phase::Resolve => Some(
            SessionActionView::ResolveAddress { address: address_text(p.host, p.port) },
        ),
        Phase::Connect => Some(
            SessionActionView::ConnectWithTimeout { timeout_secs: CONNECT_TIMEOUT_SECS },
        ),
        Phase::StartSession => Some(
            SessionActionView::StartSession { timeout_ms: session_timeout_ms(p.op) },
        ),
        Phase::Handshake => Some(SessionActionView::PerformHandshake),
        Phase::Authenticate => Some(
            match p.credential {
                Some(secret) => SessionActionView::AuthenticateWithPassword {
                    username: p.username,
                    password: secret,
                },
                None => SessionActionView::AuthenticateWithAgent { username: p.username },
            },
        ),
        Phase::ConfirmAuthentication => Some(SessionActionView::ConfirmAuthenticated),
        Phase::OpenChannel => Some(SessionActionView::OpenFileChannel),
        Phase::ReadLocalFile => Some(
            SessionActionView::ReadLocalFile { path: upload_source(p.op) },
        ),
        Phase::CreateRemoteFile => Some(
            SessionActionView::CreateRemoteFile { path: destination_of(p) },
        ),
        Phase::WriteRemoteBytes => Some(SessionActionView::WriteRemoteBytes),
        Phase::Complete => None,
        Phase::Failed => None,
    }
}

/// The error a plan reports when its current step fails with the given
/// cause text: the kind and message of the failure taxonomy for that
/// step. The two terminal phases never fail a step; their value here is
/// fixed as a plain `UploadFailed` and is never produced by [`TransferPlan::fail`],
/// whose precondition keeps it to plans still in flight.
pub open spec fn error_of(p: PlanView, cause: Seq<char>) -> SftpErrorText {
    match p.phase {
        Phase::Resolve => SftpErrorText::ConnectionFailed(
            invalid_address_text(p.host, p.port, cause),
        ),
        Phase::Connect => SftpErrorText::ConnectionFailed(unreachable_text(p.host, p.port, cause)),
        Phase::StartSession => SftpErrorText::ConnectionFailed(cause),
        Phase::Handshake => SftpErrorText::ConnectionFailed(handshake_failed_text(cause)),
        Phase::Authenticate => SftpErrorText::AuthenticationFailed(
            if p.credential is Some {
                password_auth_failed_text(p.username, cause)
            } else {
                agent_auth_failed_text(p.username, cause)
            },
        ),
        Phase::ConfirmAuthentication => SftpErrorText::AuthenticationFailed(
            unauthenticated_text(p.username),
        ),
        Phase::OpenChannel => SftpErrorText::UploadFailed(channel_open_failed_text(cause)),
        Phase::ReadLocalFile => SftpErrorText::FileReadError(cause),
        Phase::CreateRemoteFile => SftpErrorText::UploadFailed(cause),
        Phase::WriteRemoteBytes => SftpErrorText::UploadFailed(cause),
        Phase::Complete => SftpErrorText::UploadFailed(cause),
        Phase::Failed => SftpErrorText::UploadFailed(cause),
    }
}

/// The state of one connectivity test or one upload: the target values,
/// the operation, and how far the pipeline has come.
///
/// The plan is the deciding half of the subsystem. A driver repeatedly
/// asks [`TransferPlan::current_action`] what to do, performs that one step
/// against the outside world, and reports back: [`TransferPlan::advance`] on
/// success, [`TransferPlan::fail`] with the cause on failure. The plan
/// prescribes every parameter (address text, timeouts, strategy,
/// destination path) and classifies every failure, so the driver holds
/// no logic of its own.
pub struct TransferPlan {
    host: String,
    port: u16,
    username: String,
    password: Option<String>,
    remote_dir: String,
    op: Operation,
    phase: Phase,
}

impl View for TransferPlan {
    type V = PlanView;

    closed spec fn view(&self) -> PlanView {
        PlanView {
            host: self.host@,
            port: self.port,
            username: self.username@,
            credential: self.password.deep_view(),
            remote_dir: self.remote_dir@,
            op: self.op@,
            phase: self.phase,
        }
    }
}

impl SftpUploader {
    /// Begin a connectivity test: the plan walks the pipeline up to the
    /// authentication confirmation and then completes, opening no
    /// channel and touching no file.
    pub fn connection_test_plan(&self) -> (r: TransferPlan)
        ensures
            r@ == (PlanView {
                host: self@.host,
                port: self@.port,
                username: self@.username,
                credential: self@.credential,
                remote_dir: self@.remote_dir,
                op: OperationView::ConnectionTest,
                phase: Phase::Resolve,
            }),
    {
        TransferPlan {
            host: self.host().to_owned(),
            port: self.port(),
            username: self.username().to_owned(),
            password: self.clone_credential(),
            remote_dir: self.remote_dir().to_owned(),
            op: Operation::ConnectionTest,
            phase: Phase::Resolve,
        }
    }

    /// Begin an upload of the file at `local_path` to the configured
    /// remote directory under `remote_filename`.
    pub fn upload_plan(&self, local_path: &str, remote_filename: &str) -> (r: TransferPlan)
        ensures
            r@ == (PlanView {
                host: self@.host,
                port: self@.port,
                username: self@.username,
                credential: self@.credential,
                remote_dir: self@.remote_dir,
                op: OperationView::FileUpload {
                    local_path: local_path@,
                    remote_filename: remote_filename@,
                },
                phase: Phase::Resolve,
            }),
    {
        TransferPlan {
            host: self.host().to_owned(),
            port: self.port(),
            username: self.username().to_owned(),
            password: self.clone_credential(),
            remote_dir: self.remote_dir().to_owned(),
            op: Operation::FileUpload {
                local_path: local_path.to_owned(),
                remote_filename: remote_filename.to_owned(),
            },
            phase: Phase::Resolve,
        }
    }
}

impl TransferPlan {
    /// A plan is in flight until it completes or fails.
    pub open spec fn in_flight(&self) -> bool {
        self@.phase != Phase::Complete && self@.phase != Phase::Failed
    }

    /// The phase the plan is currently at.
    pub fn phase(&self) -> (r: Phase)
        ensures
            r == self@.phase,
    {
        self.phase
    }

    /// Whether the plan still prescribes steps.
    pub fn is_in_flight(&self) -> (r: bool)
        ensures
            r == self.in_flight(),
    {
        match self.phase {
            Phase::Complete => false,
            Phase::Failed => false,
            _ => true,
        }
    }

    /// The step to perform now, with every parameter it needs; `None`
    /// once the plan has completed or failed.
    pub fn current_action(&self) -> (r: Option<SessionAction>)
        ensures
            r.deep_view() == action_of(self@),
    {
        match self.phase {
            Phase::Resolve => {
                let mut address = String::new();
                crate::messages::push_address(&mut address, self.host.as_str(), self.port);
                Some(SessionAction::ResolveAddress { address })
            },
            Phase::Connect => Some(
                SessionAction::ConnectWithTimeout { timeout_secs: CONNECT_TIMEOUT_SECS },
            ),
            Phase::StartSession => {
                let timeout_ms: u32 = match &self.op {
                    Operation::ConnectionTest => TEST_SESSION_TIMEOUT_MS,
                    Operation::FileUpload { .. } => UPLOAD_SESSION_TIMEOUT_MS,
                };
                Some(SessionAction::StartSession { timeout_ms })
            },
            Phase::Handshake => Some(SessionAction::PerformHandshake),
            Phase::Authenticate => match &self.password {
                Some(secret) => Some(
                    SessionAction::AuthenticateWithPassword {
                        username: self.username.clone(),
                        password: secret.clone(),
                    },
                ),
                None => Some(
                    SessionAction::AuthenticateWithAgent { username: self.username.clone() },
                ),
            },
            Phase::ConfirmAuthentication => Some(SessionAction::ConfirmAuthenticated),
            Phase::OpenChannel => Some(SessionAction::OpenFileChannel),
            Phase::ReadLocalFile => {
                let path: String = match &self.op {
                    Operation::FileUpload { local_path, .. } => local_path.clone(),
                    Operation::ConnectionTest => String::new(),
                };
                proof {
                    assert(path@ =~= upload_source(self@.op));
                }
                Some(SessionAction::ReadLocalFile { path })
            },
            Phase::CreateRemoteFile => {
                let path: String = match &self.op {
                    Operation::FileUpload { remote_filename, .. } => join_remote_path(
                        self.remote_dir.as_str(),
                        remote_filename.as_str(),
                    ),
                    Operation::ConnectionTest => join_remote_path(self.remote_dir.as_str(), ""),
                };
                proof {
                    reveal_strlit("");
                    assert(""@ =~= Seq::<char>::empty());
                    assert(path@ =~= destination_of(self@));
                }
                Some(SessionAction::CreateRemoteFile { path })
            },
            Phase::WriteRemoteBytes => Some(SessionAction::WriteRemoteBytes),
            Phase::Complete => None,
            Phase::Failed => None,
        }
    }

    /// Record that the current step succeeded: the plan moves to the
    /// next phase and nothing else about it changes.
    pub fn advance(&mut self)
        requires
            old(self).in_flight(),
        ensures
            final(self)@ == with_phase(old(self)@, next_phase(old(self)@)),
    {
        let next: Phase = match self.phase {
            Phase::Resolve => Phase::Connect,
            Phase::Connect => Phase::StartSession,
            Phase::StartSession => Phase::Handshake,
            Phase::Handshake => Phase::Authenticate,
            Phase::Authenticate => Phase::ConfirmAuthentication,
            Phase::ConfirmAuthentication => match &self.op {
                Operation::ConnectionTest => Phase::Complete,
                Operation::FileUpload { .. } => Phase::OpenChannel,
            },
            Phase::OpenChannel => Phase::ReadLocalFile,
            Phase::ReadLocalFile => Phase::CreateRemoteFile,
            Phase::CreateRemoteFile => Phase::WriteRemoteBytes,
            Phase::WriteRemoteBytes => Phase::Complete,
            Phase::Complete => Phase::Complete,
            Phase::Failed => Phase::Failed,
        };
        self.phase = next;
    }

    /// Record that the current step failed with the given cause text:
    /// the plan moves to `Failed` and returns the classified error, its
    /// message embedding the offending parameters. The cause is ignored
    /// only at the authentication confirmation, whose message depends
    /// on the username alone.
    pub fn fail(&mut self, cause: &str) -> (r: SftpError)
        requires
            old(self).in_flight(),
        ensures
            r@ == error_of(old(self)@, cause@),
            final(self)@ == with_phase(old(self)@, Phase::Failed),
    {
        let e: SftpError = match self.phase {
            Phase::Resolve => SftpError::ConnectionFailed(
                invalid_address_message(self.host.as_str(), self.port, cause),
            ),
            Phase::Connect => SftpError::ConnectionFailed(
                unreachable_message(self.host.as_str(), self.port, cause),
            ),
            Phase::StartSession => SftpError::ConnectionFailed(cause.to_owned()),
            Phase::Handshake => SftpError::ConnectionFailed(handshake_failed_message(cause)),
            Phase::Authenticate => match &self.password {
                Some(_) => SftpError::AuthenticationFailed(
                    password_auth_failed_message(self.username.as_str(), cause),
                ),
                None => SftpError::AuthenticationFailed(
                    agent_auth_failed_message(self.username.as_str(), cause),
                ),
            },
            Phase::ConfirmAuthentication => SftpError::AuthenticationFailed(
                unauthenticated_message(self.username.as_str()),
            ),
            Phase::OpenChannel => SftpError::UploadFailed(channel_open_failed_message(cause)),
            Phase::ReadLocalFile => SftpError::FileReadError(cause.to_owned()),
            Phase::CreateRemoteFile => SftpError::UploadFailed(cause.to_owned()),
            Phase::WriteRemoteBytes => SftpError::UploadFailed(cause.to_owned()),
            Phase::Complete => SftpError::UploadFailed(cause.to_owned()),
            Phase::Failed => SftpError::UploadFailed(cause.to_owned()),
        };
        self.phase = Phase::Failed;
        e
    }

    /// Record that address resolution produced no address at all: the
    /// plan fails with the dedicated diagnostic, which names the host.
    pub fn fail_unresolved(&mut self) -> (r: SftpError)
        requires
            old(self)@.phase == Phase::Resolve,
        ensures
            r@ == SftpErrorText::ConnectionFailed(unresolved_host_text(old(self)@.host)),
            final(self)@ == with_phase(old(self)@, Phase::Failed),
    {
        let e = SftpError::ConnectionFailed(unresolved_host_message(self.host.as_str()));
        self.phase = Phase::Failed;
        e
    }

    /// The destination path an upload resolves to — the value returned
    /// to the caller on success. It depends only on the configured
    /// remote directory and the remote filename, never on the phase, so
    /// repeated identical uploads always compute the same path. A
    /// connectivity test has no destination.
    pub fn remote_destination(&self) -> (r: Option<String>)
        ensures
            self@.op is ConnectionTest ==> r is None,
            self@.op is FileUpload ==> (r matches Some(p) && p@ == destination_of(self@)),
    {
        match &self.op {
            Operation::ConnectionTest => None,
            Operation::FileUpload { remote_filename, .. } => Some(
                join_remote_path(self.remote_dir.as_str(), remote_filename.as_str()),
            ),
        }
    }
}

/// Authentication strategy exclusivity: at the authentication step, a
/// plan holding a credential is told to authenticate by password — with
/// exactly the configured username and that credential — and never
/// through the agent; a plan without a credential is told to use the
/// agent and never a password.
pub proof fn lemma_auth_strategy_exclusive(p: PlanView)
    requires
        p.phase == Phase::Authenticate,
    ensures
        p.credential is Some <==> (action_of(p) matches Some(a)
            && a is AuthenticateWithPassword),
        p.credential is None <==> (action_of(p) matches Some(a) && a is AuthenticateWithAgent),
        action_of(p) matches Some(SessionActionView::AuthenticateWithPassword {
            username,
            password,
        }) ==> username == p.username && p.credential == Some(password),
        action_of(p) matches Some(SessionActionView::AuthenticateWithAgent { username })
            ==> username == p.username,
{
}

/// Fail-fast: a failed plan prescribes no further step and stepping it
/// leaves it failed, so once the transport connect step has failed,
/// authentication and transfer are never attempted.
pub proof fn lemma_failed_plan_is_terminal(p: PlanView)
    requires
        p.phase == Phase::Failed,
    ensures
        action_of(p) is None,
        next_phase(p) == Phase::Failed,
{
}

/// Where a phase stands in the pipeline, front to back.
pub open spec fn phase_rank(ph: Phase) -> int {
    match ph {
        Phase::Resolve => 0,
        Phase::Connect => 1,
        Phase::StartSession => 2,
        Phase::Handshake => 3,
        Phase::Authenticate => 4,
        Phase::ConfirmAuthentication => 5,
        Phase::OpenChannel => 6,
        Phase::ReadLocalFile => 7,
        Phase::CreateRemoteFile => 8,
        Phase::WriteRemoteBytes => 9,
        Phase::Complete => 10,
        Phase::Failed => 11,
    }
}

/// A single pass, no retries: while a plan is in flight, a successful
/// step moves it strictly forward in the pipeline and never into the
/// failed state — only an explicit failure report can fail a plan.
pub proof fn lemma_stepping_only_advances(p: PlanView)
    requires
        p.phase != Phase::Complete,
        p.phase != Phase::Failed,
    ensures
        next_phase(p) != Phase::Failed,
        phase_rank(next_phase(p)) > phase_rank(p.phase),
{
}

/// The phases that open the transfer channel or touch a file.
pub open spec fn in_transfer_phase(ph: Phase) -> bool {
    ||| ph == Phase::OpenChannel
    ||| ph == Phase::ReadLocalFile
    ||| ph == Phase::CreateRemoteFile
    ||| ph == Phase::WriteRemoteBytes
}

/// A connectivity test stops at authentication: a test plan standing
/// outside the transfer phases never steps into one. Since every plan
/// starts at address resolution, a test completes without opening a
/// channel or touching a file.
pub proof fn lemma_test_skips_transfer_phases(p: PlanView)
    requires
        p.op is ConnectionTest,
        !in_transfer_phase(p.phase),
    ensures
        !in_transfer_phase(next_phase(p)),
{
}

/// The destination path is deterministic: two upload plans that agree
/// on the remote directory and the remote filename resolve to the same
/// destination, whatever their host, port, credential, or progress.
pub proof fn lemma_destination_deterministic(p1: PlanView, p2: PlanView)
    requires
        p1.remote_dir == p2.remote_dir,
        p1.op is FileUpload,
        p2.op is FileUpload,
        p1.op->remote_filename == p2.op->remote_filename,
    ensures
        destination_of(p1) == destination_of(p2),
{
}

} // verus!
