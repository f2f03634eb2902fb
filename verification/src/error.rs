//! The failure taxonomy of the settings store.

use vstd::prelude::*;

verus! {

/// Spec-level shape of a [`SettingsError`], with string payloads as
/// character sequences.
pub enum ErrorKind {
    StoreUnavailable,
    Malformed(Seq<char>),
    SecretUnreadable(Seq<char>),
    WrongExtensionType,
    ExtensionMissing,
}

/// Why an operation against the settings store failed.
///
/// `MalformedStoredValue` and `SecretDecryptionFailure` carry the flat key
/// whose stored text could not be read back; both are fatal for a whole load.
/// `StoreUnavailable` stands for a transport failure reaching the backing
/// row store; it is raised by the code that performs the actual I/O, never by
/// the in-memory model itself. The two extension errors are programmer
/// errors: a typed lookup with the wrong type tag, or for an identifier that
/// was never registered or populated.
#[derive(Debug, PartialEq, Eq)]
pub enum SettingsError {
    StoreUnavailable,
    MalformedStoredValue(String),
    SecretDecryptionFailure(String),
    ExtensionTypeMismatch,
    MissingExtensionSettings,
}

impl View for SettingsError {
    type V = ErrorKind;

    open spec fn view(&self) -> ErrorKind {
        match self {
            SettingsError::StoreUnavailable => ErrorKind::StoreUnavailable,
            SettingsError::MalformedStoredValue(key) => ErrorKind::Malformed(key@),
            SettingsError::SecretDecryptionFailure(key) => ErrorKind::SecretUnreadable(key@),
            SettingsError::ExtensionTypeMismatch => ErrorKind::WrongExtensionType,
            SettingsError::MissingExtensionSettings => ErrorKind::ExtensionMissing,
        }
    }
}

impl SettingsError {
    /// A short human-readable description, for callers that log or display
    /// failures.
    pub fn message(&self) -> String {
        match self {
            SettingsError::StoreUnavailable => "settings store is unavailable".to_owned(),
            SettingsError::MalformedStoredValue(key) => {
                let mut m = "malformed stored value for key ".to_owned();
                m.append(key.as_str());
                m
            },
            SettingsError::SecretDecryptionFailure(key) => {
                let mut m = "stored secret could not be decrypted for key ".to_owned();
                m.append(key.as_str());
                m
            },
            SettingsError::ExtensionTypeMismatch => {
                "failed to downcast extension settings".to_owned()
            },
            SettingsError::MissingExtensionSettings => {
                "failed to find extension settings".to_owned()
            },
        }
    }
}

} // verus!
