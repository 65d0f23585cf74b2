//! The ways a verification can fail.

use vstd::prelude::*;

verus! {

/// Why a download or one of its checks failed.
#[derive(Debug, Clone, Copy, PartialEq, Eq, Structural)]
pub enum Error {
    /// A malformed option, proxy address or public key.
    ConfigError,
    /// The connection or the body transfer failed.
    Transport,
    /// The server answered with a status outside 2xx.
    HttpStatus,
    /// A body grew beyond the limit set for it.
    SizeLimitExceeded,
    /// A URL lacks the file name or path that the operation needs.
    MalformedUrl,
    /// The transparency proof does not verify against the package.
    InvalidSignature,
    /// The transparency log does not hold the signature.
    LogNotFound,
    /// The signature could not be brought into the transparency log.
    LogUnavailable,
    /// The package archive or its metadata is unreadable or incomplete.
    MalformedPackage,
    /// Fewer rebuilders confirmed the package than required.
    QuorumShortfall { confirms: usize, required: usize },
    /// Reading or writing a local file failed.
    Io,
}

impl Error {
    /// A one-line description of the failure.
    pub fn message(&self) -> (r: String) {
        match self {
            Error::ConfigError => String::from_str("invalid configuration"),
            Error::Transport => String::from_str("failed to transfer data from the server"),
            Error::HttpStatus => String::from_str("server returned an http error"),
            Error::SizeLimitExceeded => String::from_str("exceeded size limit for download"),
            Error::MalformedUrl => String::from_str("url has no usable file name or path"),
            Error::InvalidSignature => String::from_str("transparency signature is invalid"),
            Error::LogNotFound => String::from_str("signature is not in the transparency log"),
            Error::LogUnavailable => String::from_str("failed to record signature in the transparency log"),
            Error::MalformedPackage => String::from_str("package metadata is missing or malformed"),
            Error::QuorumShortfall { .. } => String::from_str("not enough rebuild confirms"),
            Error::Io => String::from_str("failed to read or write a local file"),
        }
    }
}

} // verus!
