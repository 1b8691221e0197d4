use vstd::prelude::*;

use crate::envelope::Envelope;
use crate::text::{decimal, decimal_string};

verus! {

/// Everything that can go wrong while loading a plugin or delivering to it.
#[derive(Clone, Debug, PartialEq, Eq)]
pub enum LunaticError {
    /// The manifest is malformed or names an unknown schema version.
    InvalidManifest { reason: String },
    /// The shared library that the manifest declares is not on disk.
    FileNotFound { path: String },
    /// The shared library exists but could not be opened.
    PluginLoadFailed { path: String, reason: String },
    /// The plugin has no way to take the envelope, which is handed back.
    PluginFailedMessage { envelope: Envelope },
    /// The queue of a channel plugin has no consumer any more; the envelope
    /// is handed back.
    ChannelClosed { envelope: Envelope },
    /// The bus knows no endpoint under this name.
    UnresolvedName { name: String },
}

/// Outcome of handing an envelope (or another request) to an endpoint.
pub type NResult = Result<(), LunaticError>;

} // verus!

verus! {

/// `e` is an `InvalidManifest` error whose reason reads `why`.
pub open spec fn invalid_manifest(e: LunaticError, why: Seq<char>) -> bool {
    e matches LunaticError::InvalidManifest { reason } && reason@ == why
}

} // verus!

verus! {

impl LunaticError {
    /// The error in words.
    pub open spec fn spec_describe(&self) -> Seq<char> {
        match self {
            LunaticError::InvalidManifest { reason } => "invalid manifest: "@ + reason@,
            LunaticError::FileNotFound { path } => "file not found: "@ + path@,
            LunaticError::PluginLoadFailed { path, reason } => "failed to load plugin "@ + path@
                + ": "@ + reason@,
            LunaticError::PluginFailedMessage { envelope } =>
                "plugin could not take a message for address "@ + decimal(
                envelope.destination as nat),
            LunaticError::ChannelClosed { envelope } =>
                "queue closed before a message for address "@ + decimal(
                envelope.destination as nat),
            LunaticError::UnresolvedName { name } => "no endpoint is named "@ + name@,
        }
    }

    /// The error in words.
    pub fn describe(&self) -> (r: String)
        ensures
            r@ == self.spec_describe(),
    {
        match self {
            LunaticError::InvalidManifest { reason } => {
                String::from_str("invalid manifest: ").concat(reason.as_str())
            },
            LunaticError::FileNotFound { path } => {
                String::from_str("file not found: ").concat(path.as_str())
            },
            LunaticError::PluginLoadFailed { path, reason } => {
                String::from_str("failed to load plugin ").concat(path.as_str()).concat(
                    ": ",
                ).concat(reason.as_str())
            },
            LunaticError::PluginFailedMessage { envelope } => {
                let n = decimal_string(envelope.destination);
                String::from_str("plugin could not take a message for address ").concat(
                    n.as_str(),
                )
            },
            LunaticError::ChannelClosed { envelope } => {
                let n = decimal_string(envelope.destination);
                String::from_str("queue closed before a message for address ").concat(
                    n.as_str(),
                )
            },
            LunaticError::UnresolvedName { name } => {
                String::from_str("no endpoint is named ").concat(name.as_str())
            },
        }
    }
}

} // verus!
