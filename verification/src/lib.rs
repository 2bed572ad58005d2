//! Verified core of a screenshot-sharing utility: the remote upload
//! subsystem (target configuration, the connect/authenticate/transfer
//! pipeline and its error taxonomy, remote path building), the settings
//! data model, and the image payload encoding helpers.
//!
//! All network, file and secret-store traffic is performed by the thin
//! driver around this library; the library decides every step of the
//! pipeline and classifies every failure.

mod encoding;
mod error;
mod messages;
mod plan;
mod remote_path;
mod settings;
mod target;
mod text;

pub use encoding::{
    base64_decoding_of, base64_encoding_of, clipboard_image_bytes, comma_index_from,
    data_url_payload, data_url_payload_of, decode_image_data, png_data_url,
};
pub use error::{display_of, message_of, SftpError, SftpErrorText};
pub use messages::{
    address_text, agent_auth_failed_text, channel_open_failed_text, connection_success_message,
    connection_success_text, greet, handshake_failed_text, invalid_address_text,
    password_auth_failed_text, unauthenticated_text, unreachable_text, unresolved_host_text,
};
pub use plan::{
    action_of, destination_of, error_of, in_transfer_phase, lemma_auth_strategy_exclusive,
    lemma_destination_deterministic, lemma_failed_plan_is_terminal, lemma_stepping_only_advances,
    lemma_test_skips_transfer_phases, next_phase, phase_rank, session_timeout_ms, upload_filename,
    upload_source, with_phase, Operation, OperationView, Phase, PlanView, SessionAction,
    SessionActionView, TransferPlan, CONNECT_TIMEOUT_SECS, TEST_SESSION_TIMEOUT_MS,
    UPLOAD_SESSION_TIMEOUT_MS,
};
pub use remote_path::{join_remote_path, remote_path_of, trim_trailing_slashes};
pub use settings::{
    app_config_dir_path, apply_password_update, credential_store_action, default_base_url,
    default_copy_to_clipboard, is_default_sftp_config, keyring_service, keyring_username,
    resolve_password_lookup, same_but_password, settings_file_path, CredentialStoreAction,
    PasswordLookup, Settings, SftpConfig,
};
pub use target::{credential_from_password, validate_upload_request, SftpUploader, TargetView};
pub use text::{
    decimal_digit, decimal_of, decimal_string_u16, is_blank, is_blank_text, is_space_char,
    push_decimal_u16,
};
