use vstd::prelude::*;
use vstd::string::StringExecFns;

verus! {

/// The failure taxonomy of the upload subsystem.
///
/// Every variant carries a self-contained, diagnostic-grade message that
/// already embeds the offending parameters (host, port, username) and the
/// underlying cause, so a caller can surface it verbatim.
#[derive(Debug)]
pub enum SftpError {
    /// Address parse or resolve failure, connect timeout or refusal, or a
    /// failed protocol handshake.
    ConnectionFailed(String),
    /// A failed password or agent authentication call, or a session left
    /// unauthenticated by a nominally successful call.
    AuthenticationFailed(String),
    /// The local file is missing or unreadable.
    FileReadError(String),
    /// Remote channel open, remote file creation, or copy failure.
    UploadFailed(String),
    /// An empty host or username at construction.
    InvalidConfig(String),
}

/// The mathematical shape of an [`SftpError`]: its kind together with the
/// text of its message.
pub enum SftpErrorText {
    ConnectionFailed(Seq<char>),
    AuthenticationFailed(Seq<char>),
    FileReadError(Seq<char>),
    UploadFailed(Seq<char>),
    InvalidConfig(Seq<char>),
}

impl View for SftpError {
    type V = SftpErrorText;

    open spec fn view(&self) -> SftpErrorText {
        match self {
            SftpError::ConnectionFailed(m) => SftpErrorText::ConnectionFailed(m@),
            SftpError::AuthenticationFailed(m) => SftpErrorText::AuthenticationFailed(m@),
            SftpError::FileReadError(m) => SftpErrorText::FileReadError(m@),
            SftpError::UploadFailed(m) => SftpErrorText::UploadFailed(m@),
            SftpError::InvalidConfig(m) => SftpErrorText::InvalidConfig(m@),
        }
    }
}

/// The message text carried inside an error, without its kind prefix.
pub open spec fn message_of(e: SftpErrorText) -> Seq<char> {
    match e {
        SftpErrorText::ConnectionFailed(m) => m,
        SftpErrorText::AuthenticationFailed(m) => m,
        SftpErrorText::FileReadError(m) => m,
        SftpErrorText::UploadFailed(m) => m,
        SftpErrorText::InvalidConfig(m) => m,
    }
}

/// The full display form of an error: a prefix naming the kind, then the
/// carried message.
pub open spec fn display_of(e: SftpErrorText) -> Seq<char> {
    match e {
        SftpErrorText::ConnectionFailed(m) => "Failed to connect to SFTP server: "@ + m,
        SftpErrorText::AuthenticationFailed(m) => "Authentication failed: "@ + m,
        SftpErrorText::FileReadError(m) => "Failed to read file: "@ + m,
        SftpErrorText::UploadFailed(m) => "Failed to upload file: "@ + m,
        SftpErrorText::InvalidConfig(m) => "Invalid configuration: "@ + m,
    }
}

impl SftpError {
    /// The diagnostic message carried by the error.
    pub fn message(&self) -> (r: &str)
        ensures
            r@ == message_of(self@),
    {
        match self {
            SftpError::ConnectionFailed(m) => m.as_str(),
            SftpError::AuthenticationFailed(m) => m.as_str(),
            SftpError::FileReadError(m) => m.as_str(),
            SftpError::UploadFailed(m) => m.as_str(),
            SftpError::InvalidConfig(m) => m.as_str(),
        }
    }

    /// The display form of the error: kind prefix plus message.
    pub fn describe(&self) -> (r: String)
        ensures
            r@ == display_of(self@),
    {
        let mut out: String;
        match self {
            SftpError::ConnectionFailed(m) => {
                out = "Failed to connect to SFTP server: ".to_owned();
                out.append(m.as_str());
            },
            SftpError::AuthenticationFailed(m) => {
                out = "Authentication failed: ".to_owned();
                out.append(m.as_str());
            },
            SftpError::FileReadError(m) => {
                out = "Failed to read file: ".to_owned();
                out.append(m.as_str());
            },
            SftpError::UploadFailed(m) => {
                out = "Failed to upload file: ".to_owned();
                out.append(m.as_str());
            },
            SftpError::InvalidConfig(m) => {
                out = "Invalid configuration: ".to_owned();
                out.append(m.as_str());
            },
        }
        out
    }
}

} // verus!
