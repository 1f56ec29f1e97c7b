use vstd::prelude::*;
use vstd::string::*;

use crate::coverage::fingerprint::{fingerprint_text, CoverageDefinitionFingerprint};
use crate::text::{decimal_spec, push_decimal, push_str};

verus! {

/// File-system operation of a persistence failure.
#[derive(Debug, Clone, Copy, PartialEq, Eq, Hash, Structural)]
pub enum CoverageIoOperation {
    /// Creating the destination directory.
    CreateDirectory,
    /// Creating the temporary file.
    CreateTemporaryFile,
    /// Writing the temporary file.
    Write,
    /// Synchronising the temporary file.
    Synchronize,
    /// Renaming the temporary file into place.
    Rename,
    /// Reading an artifact.
    Read,
}

/// Lowercase name of an I/O operation.
pub open spec fn io_operation_text(op: CoverageIoOperation) -> Seq<char> {
    match op {
        CoverageIoOperation::CreateDirectory => "create directory"@,
        CoverageIoOperation::CreateTemporaryFile => "create temporary file"@,
        CoverageIoOperation::Write => "write"@,
        CoverageIoOperation::Synchronize => "synchronize"@,
        CoverageIoOperation::Rename => "rename"@,
        CoverageIoOperation::Read => "read"@,
    }
}

impl CoverageIoOperation {
    /// Returns the lowercase operation name.
    pub fn text(self) -> (r: &'static str)
        ensures
            r@ == io_operation_text(self),
    {
        match self {
            CoverageIoOperation::CreateDirectory => "create directory",
            CoverageIoOperation::CreateTemporaryFile => "create temporary file",
            CoverageIoOperation::Write => "write",
            CoverageIoOperation::Synchronize => "synchronize",
            CoverageIoOperation::Rename => "rename",
            CoverageIoOperation::Read => "read",
        }
    }
}

/// Failure while encoding, decoding, validating or storing a coverage artifact.
#[derive(Debug, Clone, PartialEq, Eq)]
pub enum CoveragePersistenceError {
    /// JSON encoding failed.
    JsonEncode {
        /// Encoder message.
        message: String,
    },
    /// JSON decoding failed.
    JsonDecode {
        /// Decoder message.
        message: String,
    },
    /// The document names another format.
    InvalidFormat {
        /// Found format name.
        found: String,
    },
    /// The document has an unsupported schema version.
    UnsupportedSchemaVersion {
        /// Found version.
        found: u32,
        /// Supported version.
        supported: u32,
    },
    /// A fingerprint string is not canonical.
    InvalidFingerprint {
        /// Rejected text.
        value: String,
    },
    /// A stored fingerprint differs from the recomputed one.
    FingerprintMismatch {
        /// Group instance path.
        instance_path: String,
        /// Stored fingerprint.
        stored: CoverageDefinitionFingerprint,
        /// Recomputed fingerprint.
        computed: CoverageDefinitionFingerprint,
    },
    /// A number does not fit its field.
    NumericOverflow {
        /// Field description.
        field: String,
    },
    /// A field holds invalid data.
    InvalidData {
        /// Field path.
        path: String,
        /// Reason.
        reason: String,
    },
    /// The destination file already exists.
    DestinationExists {
        /// Destination path.
        path: String,
    },
    /// A file-system operation failed.
    Io {
        /// Operation.
        operation: CoverageIoOperation,
        /// Affected path.
        path: String,
        /// System message.
        message: String,
    },
}

/// Human-readable description of a persistence error.
pub open spec fn persistence_error_text(e: CoveragePersistenceError) -> Seq<char> {
    match e {
        CoveragePersistenceError::JsonEncode { message } =>
            "could not encode coverage artifact JSON: "@ + message@,
        CoveragePersistenceError::JsonDecode { message } =>
            "could not decode coverage artifact JSON: "@ + message@,
        CoveragePersistenceError::InvalidFormat { found } =>
            "unsupported coverage artifact format `"@ + found@ + "`"@,
        CoveragePersistenceError::UnsupportedSchemaVersion { found, supported } =>
            "unsupported coverage artifact schema version "@ + decimal_spec(found as nat)
            + "; supported version is "@ + decimal_spec(supported as nat),
        CoveragePersistenceError::InvalidFingerprint { value } =>
            "invalid coverage definition fingerprint `"@ + value@ + "`"@,
        CoveragePersistenceError::FingerprintMismatch { instance_path, stored, computed } =>
            "coverage fingerprint mismatch for instance `"@ + instance_path@ + "`: stored "@
            + fingerprint_text(stored@) + ", computed "@ + fingerprint_text(computed@),
        CoveragePersistenceError::NumericOverflow { field } =>
            "coverage artifact numeric overflow for `"@ + field@ + "`"@,
        CoveragePersistenceError::InvalidData { path, reason } =>
            "invalid coverage artifact data at `"@ + path@ + "`: "@ + reason@,
        CoveragePersistenceError::DestinationExists { path } =>
            "coverage artifact destination `"@ + path@ + "` already exists"@,
        CoveragePersistenceError::Io { operation, path, message } => "could not "@
            + io_operation_text(operation) + " coverage artifact `"@ + path@ + "`: "@ + message@,
    }
}

impl CoveragePersistenceError {
    /// Creates an invalid-data error for a field path.
    pub fn invalid(path: &str, reason: &str) -> (r: Self)
        ensures
            r matches CoveragePersistenceError::InvalidData { path: p, reason: q } && p@ == path@
                && q@ == reason@,
    {
        CoveragePersistenceError::InvalidData {
            path: String::from_str(path),
            reason: String::from_str(reason),
        }
    }

    /// Human-readable description of the error.
    pub fn message(&self) -> (r: String)
        ensures
            r@ == persistence_error_text(*self),
    {
        let mut s = String::new();
        match self {
            CoveragePersistenceError::JsonEncode { message } => {
                push_str(&mut s, "could not encode coverage artifact JSON: ");
                push_str(&mut s, message.as_str());
            },
            CoveragePersistenceError::JsonDecode { message } => {
                push_str(&mut s, "could not decode coverage artifact JSON: ");
                push_str(&mut s, message.as_str());
            },
            CoveragePersistenceError::InvalidFormat { found } => {
                push_str(&mut s, "unsupported coverage artifact format `");
                push_str(&mut s, found.as_str());
                push_str(&mut s, "`");
            },
            CoveragePersistenceError::UnsupportedSchemaVersion { found, supported } => {
                push_str(&mut s, "unsupported coverage artifact schema version ");
                push_decimal(&mut s, *found as u64);
                push_str(&mut s, "; supported version is ");
                push_decimal(&mut s, *supported as u64);
            },
            CoveragePersistenceError::InvalidFingerprint { value } => {
                push_str(&mut s, "invalid coverage definition fingerprint `");
                push_str(&mut s, value.as_str());
                push_str(&mut s, "`");
            },
            CoveragePersistenceError::FingerprintMismatch { instance_path, stored, computed } => {
                push_str(&mut s, "coverage fingerprint mismatch for instance `");
                push_str(&mut s, instance_path.as_str());
                push_str(&mut s, "`: stored ");
                let a = stored.to_text();
                push_str(&mut s, a.as_str());
                push_str(&mut s, ", computed ");
                let b = computed.to_text();
                push_str(&mut s, b.as_str());
            },
            CoveragePersistenceError::NumericOverflow { field } => {
                push_str(&mut s, "coverage artifact numeric overflow for `");
                push_str(&mut s, field.as_str());
                push_str(&mut s, "`");
            },
            CoveragePersistenceError::InvalidData { path, reason } => {
                push_str(&mut s, "invalid coverage artifact data at `");
                push_str(&mut s, path.as_str());
                push_str(&mut s, "`: ");
                push_str(&mut s, reason.as_str());
            },
            CoveragePersistenceError::DestinationExists { path } => {
                push_str(&mut s, "coverage artifact destination `");
                push_str(&mut s, path.as_str());
                push_str(&mut s, "` already exists");
            },
            CoveragePersistenceError::Io { operation, path, message } => {
                push_str(&mut s, "could not ");
                push_str(&mut s, operation.text());
                push_str(&mut s, " coverage artifact `");
                push_str(&mut s, path.as_str());
                push_str(&mut s, "`: ");
                push_str(&mut s, message.as_str());
            },
        }
        s
    }
}

} // verus!
