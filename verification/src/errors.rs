//! The failures of the command-line operations.

use vstd::prelude::*;
use crate::client::errors::ClientError;
use crate::filesystem::errors::Error;

verus! {

/// Every way an operation of this crate can fail.
#[derive(Clone, Debug, PartialEq, Eq)]
pub enum Errors {
    InvalidConfigPath(String),
    FailedLoadConfiguration(String),
    NotFoundCurrentContext,
    ClientError(ClientError),
    FailedLoadManifest(String),
    NotFoundManifest(Error),
    FailedDeletePlaybook(String),
    FailedDeleteContext(String),
    NotFoundContext(String),
    FailedSaveConfiguration(String),
    TomlSerializeError(String),
    FailedSaveManifest(String),
    NotFoundContexts,
    /// The manifest was read and does not describe a character.
    InvalidManifest(String),
    /// The workspace could not be walked.
    WalkError(String),
    FailedCreateWatcher(String),
    FailedWatchDirectory(String),
    /// The user could not be asked.
    InquireError(String),
    FailedSelectContext(String),
    FailedAddContext(String),
    /// A path is not below the directory it was held against.
    FailedStripPrefix,
    /// The archive refused the entry of this name.
    FailedAppendPath(String),
    FailedFinishTar,
    FailedCreatePlaybook(ClientError),
    /// The playbook names no lead character.
    InvalidCharacter,
    /// The manifest at this path is a virtual one, where a command needs an
    /// actual character of the workspace.
    VirtualManifest(String),
}

impl Errors {
    /// The text the failure displays as.
    pub open spec fn display(self) -> Seq<char> {
        match self {
            Errors::InvalidConfigPath(_) => "Invalid configuration path"@,
            Errors::FailedLoadConfiguration(_) => "Failed to load configuration"@,
            Errors::NotFoundCurrentContext => "Not found current context"@,
            Errors::ClientError(error) => "Client error: "@ + error.display(),
            Errors::FailedLoadManifest(reason) => "Failed to load manifest: "@ + reason@,
            Errors::NotFoundManifest(_) => "Could not find `.amp.toml` in current directory or any parent directory"@,
            Errors::FailedDeletePlaybook(id) => "Failed to delete playbook: "@ + id@,
            Errors::FailedDeleteContext(reason) => "Failed to delete context: "@ + reason@,
            Errors::NotFoundContext(name) => "Not found context: "@ + name@,
            Errors::FailedSaveConfiguration(_) => "Failed to save configuration"@,
            Errors::TomlSerializeError(_) => "Failed to serialize toml"@,
            Errors::FailedSaveManifest(reason) => "Failed to save manifest: "@ + reason@,
            Errors::NotFoundContexts => "Not found available contexts"@,
            Errors::InvalidManifest(reason) => "Invalid manifest: "@ + reason@,
            Errors::WalkError(reason) => "Failed to walk the workspace: "@ + reason@,
            Errors::FailedCreateWatcher(reason) => "Failed to create watcher: "@ + reason@,
            Errors::FailedWatchDirectory(reason) => "Failed to watch directory: "@ + reason@,
            Errors::InquireError(reason) => "Failed to inquire: "@ + reason@,
            Errors::FailedSelectContext(reason) => "Failed to select context: "@ + reason@,
            Errors::FailedAddContext(reason) => "Failed to add context: "@ + reason@,
            Errors::FailedStripPrefix => "Failed to strip prefix"@,
            Errors::FailedAppendPath(name) => "Failed to append path: "@ + name@,
            Errors::FailedFinishTar => "Failed to finish tar"@,
            Errors::FailedCreatePlaybook(error) => "Failed to create playbook: "@ + error.display(),
            Errors::InvalidCharacter => "Invalid character"@,
            Errors::VirtualManifest(path) => "manifest path `"@ + path@
                + "` is a virtual manifest, but this command requires running against an actual character in this workspace"@,
        }
    }

    /// The text the failure displays as.
    pub fn to_string(&self) -> (text: String)
        ensures
            text@ == self.display(),
    {
        match self {
            Errors::InvalidConfigPath(_) => String::from_str("Invalid configuration path"),
            Errors::FailedLoadConfiguration(_) => String::from_str("Failed to load configuration"),
            Errors::NotFoundCurrentContext => String::from_str("Not found current context"),
            Errors::ClientError(error) => String::from_str("Client error: ").concat(error.to_string().as_str()),
            Errors::FailedLoadManifest(reason) => String::from_str("Failed to load manifest: ").concat(
                reason.as_str(),
            ),
            Errors::NotFoundManifest(_) => String::from_str(
                "Could not find `.amp.toml` in current directory or any parent directory",
            ),
            Errors::FailedDeletePlaybook(id) => String::from_str("Failed to delete playbook: ").concat(id.as_str()),
            Errors::FailedDeleteContext(reason) => String::from_str("Failed to delete context: ").concat(
                reason.as_str(),
            ),
            Errors::NotFoundContext(name) => String::from_str("Not found context: ").concat(name.as_str()),
            Errors::FailedSaveConfiguration(_) => String::from_str("Failed to save configuration"),
            Errors::TomlSerializeError(_) => String::from_str("Failed to serialize toml"),
            Errors::FailedSaveManifest(reason) => String::from_str("Failed to save manifest: ").concat(
                reason.as_str(),
            ),
            Errors::NotFoundContexts => String::from_str("Not found available contexts"),
            Errors::InvalidManifest(reason) => String::from_str("Invalid manifest: ").concat(reason.as_str()),
            Errors::WalkError(reason) => String::from_str("Failed to walk the workspace: ").concat(reason.as_str()),
            Errors::FailedCreateWatcher(reason) => String::from_str("Failed to create watcher: ").concat(
                reason.as_str(),
            ),
            Errors::FailedWatchDirectory(reason) => String::from_str("Failed to watch directory: ").concat(
                reason.as_str(),
            ),
            Errors::InquireError(reason) => String::from_str("Failed to inquire: ").concat(reason.as_str()),
            Errors::FailedSelectContext(reason) => String::from_str("Failed to select context: ").concat(
                reason.as_str(),
            ),
            Errors::FailedAddContext(reason) => String::from_str("Failed to add context: ").concat(reason.as_str()),
            Errors::FailedStripPrefix => String::from_str("Failed to strip prefix"),
            Errors::FailedAppendPath(name) => String::from_str("Failed to append path: ").concat(name.as_str()),
            Errors::FailedFinishTar => String::from_str("Failed to finish tar"),
            Errors::FailedCreatePlaybook(error) => String::from_str("Failed to create playbook: ").concat(
                error.to_string().as_str(),
            ),
            Errors::InvalidCharacter => String::from_str("Invalid character"),
            Errors::VirtualManifest(path) => String::from_str("manifest path `").concat(path.as_str()).concat(
                "` is a virtual manifest, but this command requires running against an actual character in this workspace",
            ),
        }
    }
}

} // verus!
