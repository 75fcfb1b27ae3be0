//! Error type describing every way a cache operation can fail.

use vstd::prelude::*;
use vstd::string::StringExecFns;

verus! {

/// Cache library error kinds.  Every variant carries a human-readable
/// message; I/O failures carry the message of the underlying I/O error.
#[derive(Debug)]
pub enum CacheError {
    /// I/O operation failed
    Io(String),
    /// Invalid cache name
    InvalidName(String),
    /// Configuration parsing error
    ConfigParse(String),
    /// Cache object not found
    NotFound(String),
    /// Permission denied for operation
    PermissionDenied(String),
    /// Cache object already exists
    AlreadyExists(String),
    /// Cache object has expired
    Expired(String),
    /// Invalid configuration provided
    InvalidConfig(String),
    /// Serialization/deserialization error
    Serialization(String),
    /// Invalid path or directory
    InvalidPath(String),
    /// Symbolic link detected (security risk)
    SymlinkDetected(String),
    /// Cache size limit exceeded
    SizeLimitExceeded(String),
    /// Cache file count limit exceeded
    FileCountLimitExceeded(String),
    /// Cache object corrupted
    Corrupted(String),
    /// Generic error with message
    Generic(String),
}

impl CacheError {
    /// The short machine-readable tag of an error's kind.
    pub open spec fn spec_kind(&self) -> Seq<char> {
        match self {
            CacheError::Io(_) => "io"@,
            CacheError::InvalidName(_) => "invalid_name"@,
            CacheError::ConfigParse(_) => "config_parse"@,
            CacheError::NotFound(_) => "not_found"@,
            CacheError::PermissionDenied(_) => "permission_denied"@,
            CacheError::AlreadyExists(_) => "already_exists"@,
            CacheError::Expired(_) => "expired"@,
            CacheError::InvalidConfig(_) => "invalid_config"@,
            CacheError::Serialization(_) => "serialization"@,
            CacheError::InvalidPath(_) => "invalid_path"@,
            CacheError::SymlinkDetected(_) => "symlink_detected"@,
            CacheError::SizeLimitExceeded(_) => "size_limit_exceeded"@,
            CacheError::FileCountLimitExceeded(_) => "file_count_limit_exceeded"@,
            CacheError::Corrupted(_) => "corrupted"@,
            CacheError::Generic(_) => "generic"@,
        }
    }

    /// The message carried by an error, without its kind prefix.
    pub open spec fn spec_message(&self) -> Seq<char> {
        match self {
            CacheError::Io(m) => m@,
            CacheError::InvalidName(m) => m@,
            CacheError::ConfigParse(m) => m@,
            CacheError::NotFound(m) => m@,
            CacheError::PermissionDenied(m) => m@,
            CacheError::AlreadyExists(m) => m@,
            CacheError::Expired(m) => m@,
            CacheError::InvalidConfig(m) => m@,
            CacheError::Serialization(m) => m@,
            CacheError::InvalidPath(m) => m@,
            CacheError::SymlinkDetected(m) => m@,
            CacheError::SizeLimitExceeded(m) => m@,
            CacheError::FileCountLimitExceeded(m) => m@,
            CacheError::Corrupted(m) => m@,
            CacheError::Generic(m) => m@,
        }
    }

    /// The full display form of an error: a kind prefix followed by the message.
    pub open spec fn spec_display(&self) -> Seq<char> {
        match self {
            CacheError::Io(m) => "I/O error: "@ + m@,
            CacheError::InvalidName(m) => "Invalid cache name: "@ + m@,
            CacheError::ConfigParse(m) => "Configuration parse error: "@ + m@,
            CacheError::NotFound(m) => "Cache not found: "@ + m@,
            CacheError::PermissionDenied(m) => "Permission denied: "@ + m@,
            CacheError::AlreadyExists(m) => "Cache already exists: "@ + m@,
            CacheError::Expired(m) => "Cache expired: "@ + m@,
            CacheError::InvalidConfig(m) => "Invalid configuration: "@ + m@,
            CacheError::Serialization(m) => "Serialization error: "@ + m@,
            CacheError::InvalidPath(m) => "Invalid path: "@ + m@,
            CacheError::SymlinkDetected(m) => "Symbolic link detected: "@ + m@,
            CacheError::SizeLimitExceeded(m) => "Cache size limit exceeded: "@ + m@,
            CacheError::FileCountLimitExceeded(m) => "Cache file count limit exceeded: "@ + m@,
            CacheError::Corrupted(m) => "Cache corrupted: "@ + m@,
            CacheError::Generic(m) => "Error: "@ + m@,
        }
    }

    /// Returns the error kind as a static string tag.
    pub fn kind(&self) -> (r: &'static str)
        ensures
            r@ == self.spec_kind(),
    {
        match self {
            CacheError::Io(_) => "io",
            CacheError::InvalidName(_) => "invalid_name",
            CacheError::ConfigParse(_) => "config_parse",
            CacheError::NotFound(_) => "not_found",
            CacheError::PermissionDenied(_) => "permission_denied",
            CacheError::AlreadyExists(_) => "already_exists",
            CacheError::Expired(_) => "expired",
            CacheError::InvalidConfig(_) => "invalid_config",
            CacheError::Serialization(_) => "serialization",
            CacheError::InvalidPath(_) => "invalid_path",
            CacheError::SymlinkDetected(_) => "symlink_detected",
            CacheError::SizeLimitExceeded(_) => "size_limit_exceeded",
            CacheError::FileCountLimitExceeded(_) => "file_count_limit_exceeded",
            CacheError::Corrupted(_) => "corrupted",
            CacheError::Generic(_) => "generic",
        }
    }

    /// Returns the error message without the error kind prefix.
    pub fn message(&self) -> (r: String)
        ensures
            r@ == self.spec_message(),
    {
        match self {
            CacheError::Io(m) => m.clone(),
            CacheError::InvalidName(m) => m.clone(),
            CacheError::ConfigParse(m) => m.clone(),
            CacheError::NotFound(m) => m.clone(),
            CacheError::PermissionDenied(m) => m.clone(),
            CacheError::AlreadyExists(m) => m.clone(),
            CacheError::Expired(m) => m.clone(),
            CacheError::InvalidConfig(m) => m.clone(),
            CacheError::Serialization(m) => m.clone(),
            CacheError::InvalidPath(m) => m.clone(),
            CacheError::SymlinkDetected(m) => m.clone(),
            CacheError::SizeLimitExceeded(m) => m.clone(),
            CacheError::FileCountLimitExceeded(m) => m.clone(),
            CacheError::Corrupted(m) => m.clone(),
            CacheError::Generic(m) => m.clone(),
        }
    }

    /// Returns the full display form of the error, kind prefix included.
    pub fn display_string(&self) -> (r: String)
        ensures
            r@ == self.spec_display(),
    {
        match self {
            CacheError::Io(m) => String::from_str("I/O error: ").concat(m.as_str()),
            CacheError::InvalidName(m) => String::from_str("Invalid cache name: ").concat(
                m.as_str(),
            ),
            CacheError::ConfigParse(m) => String::from_str("Configuration parse error: ").concat(
                m.as_str(),
            ),
            CacheError::NotFound(m) => String::from_str("Cache not found: ").concat(m.as_str()),
            CacheError::PermissionDenied(m) => String::from_str("Permission denied: ").concat(
                m.as_str(),
            ),
            CacheError::AlreadyExists(m) => String::from_str("Cache already exists: ").concat(
                m.as_str(),
            ),
            CacheError::Expired(m) => String::from_str("Cache expired: ").concat(m.as_str()),
            CacheError::InvalidConfig(m) => String::from_str("Invalid configuration: ").concat(
                m.as_str(),
            ),
            CacheError::Serialization(m) => String::from_str("Serialization error: ").concat(
                m.as_str(),
            ),
            CacheError::InvalidPath(m) => String::from_str("Invalid path: ").concat(m.as_str()),
            CacheError::SymlinkDetected(m) => String::from_str("Symbolic link detected: ").concat(
                m.as_str(),
            ),
            CacheError::SizeLimitExceeded(m) => String::from_str(
                "Cache size limit exceeded: ",
            ).concat(m.as_str()),
            CacheError::FileCountLimitExceeded(m) => String::from_str(
                "Cache file count limit exceeded: ",
            ).concat(m.as_str()),
            CacheError::Corrupted(m) => String::from_str("Cache corrupted: ").concat(m.as_str()),
            CacheError::Generic(m) => String::from_str("Error: ").concat(m.as_str()),
        }
    }

    /// Creates a new generic error carrying the given message.
    pub fn new(message: &str) -> (r: Self)
        ensures
            r matches CacheError::Generic(m) && m@ == message@,
    {
        CacheError::Generic(message.to_owned())
    }

    /// Checks if the error is an I/O error.
    pub fn is_io_error(&self) -> (r: bool)
        ensures
            r == (self matches CacheError::Io(_)),
    {
        matches!(self, CacheError::Io(_))
    }

    /// Checks if the error indicates something wasn't found.
    pub fn is_not_found(&self) -> (r: bool)
        ensures
            r == (self matches CacheError::NotFound(_)),
    {
        matches!(self, CacheError::NotFound(_))
    }

    /// Checks if the error indicates permission was denied.
    pub fn is_permission_denied(&self) -> (r: bool)
        ensures
            r == (self matches CacheError::PermissionDenied(_)),
    {
        matches!(self, CacheError::PermissionDenied(_))
    }
}

} // verus!
