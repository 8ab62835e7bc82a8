//! Errors that the acquisition engine reports to its caller.

use vstd::prelude::*;
use vstd::string::StringExecFns;

verus! {

/// Errors that are intended to be displayed directly to the user.
///
/// Each variant corresponds to one failure class of the engine: no release
/// asset fits the platform, a download failed after its retries, an archive
/// could not be decoded, the expected file was missing from an archive, an
/// introspection command failed, the release API answered with an unexpected
/// shape, the platform is unsupported, the archive format is unsupported, or
/// no relative symlink path could be computed.
#[derive(Debug, Clone)]
pub enum UserError {
    AssetNotFound { name: String, os: String, arch: String },
    DownloadFailed { url: String },
    ArchiveExtractionFailed,
    BinaryNotFoundInArchive { binary_name: String },
    CommandFailed { command: String },
    GitHubApiError,
    UnsupportedPlatform { name: String, os: String },
    UnsupportedArchiveFormat { name: String },
    SymlinkFailed,
}

/// The mathematical model of a user-facing error.
pub enum ErrorModel {
    AssetNotFound { name: Seq<char>, os: Seq<char>, arch: Seq<char> },
    DownloadFailed { url: Seq<char> },
    ArchiveExtractionFailed,
    BinaryNotFoundInArchive { binary_name: Seq<char> },
    CommandFailed { command: Seq<char> },
    GitHubApiError,
    UnsupportedPlatform { name: Seq<char>, os: Seq<char> },
    UnsupportedArchiveFormat { name: Seq<char> },
    SymlinkFailed,
}

impl View for UserError {
    type V = ErrorModel;

    open spec fn view(&self) -> ErrorModel {
        match self {
            UserError::AssetNotFound { name, os, arch } => ErrorModel::AssetNotFound {
                name: name@,
                os: os@,
                arch: arch@,
            },
            UserError::DownloadFailed { url } => ErrorModel::DownloadFailed { url: url@ },
            UserError::ArchiveExtractionFailed => ErrorModel::ArchiveExtractionFailed,
            UserError::BinaryNotFoundInArchive { binary_name } =>
                ErrorModel::BinaryNotFoundInArchive { binary_name: binary_name@ },
            UserError::CommandFailed { command } => ErrorModel::CommandFailed {
                command: command@,
            },
            UserError::GitHubApiError => ErrorModel::GitHubApiError,
            UserError::UnsupportedPlatform { name, os } => ErrorModel::UnsupportedPlatform {
                name: name@,
                os: os@,
            },
            UserError::UnsupportedArchiveFormat { name } => ErrorModel::UnsupportedArchiveFormat {
                name: name@,
            },
            UserError::SymlinkFailed => ErrorModel::SymlinkFailed,
        }
    }
}

/// The user-facing line for an error model.
pub open spec fn spec_message(e: ErrorModel) -> Seq<char> {
    match e {
        ErrorModel::AssetNotFound { name, os, arch } =>
            "Could not find a compatible release asset for '"@ + name
                + "' on your platform ("@ + os + " "@ + arch + ")."@,
        ErrorModel::DownloadFailed { url } => "Failed to download from '"@ + url
            + "'. Please check your network connection."@,
        ErrorModel::ArchiveExtractionFailed =>
            "The downloaded archive is corrupted or in an unexpected format."@,
        ErrorModel::BinaryNotFoundInArchive { binary_name } => "Could not find the binary '"@
            + binary_name + "' inside the downloaded archive."@,
        ErrorModel::CommandFailed { command } => "The external command '"@ + command
            + "' failed to execute."@,
        ErrorModel::GitHubApiError =>
            "Failed to query the GitHub API. Please check your network connection."@,
        ErrorModel::UnsupportedPlatform { name, os } => "Your platform ("@ + os
            + ") is not supported for '"@ + name + "'."@,
        ErrorModel::UnsupportedArchiveFormat { name } => "Unsupported archive format for "@
            + name,
        ErrorModel::SymlinkFailed => "Failed to calculate relative path for symlink"@,
    }
}

impl UserError {
    /// The single clear cause line shown to the user.
    pub fn message(&self) -> (r: String)
        ensures
            r@ == spec_message(self@),
    {
        match self {
            UserError::AssetNotFound { name, os, arch } => {
                let mut s = "Could not find a compatible release asset for '".to_owned();
                s.append(name.as_str());
                s.append("' on your platform (");
                s.append(os.as_str());
                s.append(" ");
                s.append(arch.as_str());
                s.append(").");
                s
            },
            UserError::DownloadFailed { url } => {
                let mut s = "Failed to download from '".to_owned();
                s.append(url.as_str());
                s.append("'. Please check your network connection.");
                s
            },
            UserError::ArchiveExtractionFailed => {
                "The downloaded archive is corrupted or in an unexpected format.".to_owned()
            },
            UserError::BinaryNotFoundInArchive { binary_name } => {
                let mut s = "Could not find the binary '".to_owned();
                s.append(binary_name.as_str());
                s.append("' inside the downloaded archive.");
                s
            },
            UserError::CommandFailed { command } => {
                let mut s = "The external command '".to_owned();
                s.append(command.as_str());
                s.append("' failed to execute.");
                s
            },
            UserError::GitHubApiError => {
                "Failed to query the GitHub API. Please check your network connection.".to_owned()
            },
            UserError::UnsupportedPlatform { name, os } => {
                let mut s = "Your platform (".to_owned();
                s.append(os.as_str());
                s.append(") is not supported for '");
                s.append(name.as_str());
                s.append("'.");
                s
            },
            UserError::UnsupportedArchiveFormat { name } => {
                let mut s = "Unsupported archive format for ".to_owned();
                s.append(name.as_str());
                s
            },
            UserError::SymlinkFailed => {
                "Failed to calculate relative path for symlink".to_owned()
            },
        }
    }

    /// Copies an error, preserving its model.
    pub fn duplicate(&self) -> (r: UserError)
        ensures
            r@ == self@,
    {
        match self {
            UserError::AssetNotFound { name, os, arch } => UserError::AssetNotFound {
                name: name.clone(),
                os: os.clone(),
                arch: arch.clone(),
            },
            UserError::DownloadFailed { url } => UserError::DownloadFailed { url: url.clone() },
            UserError::ArchiveExtractionFailed => UserError::ArchiveExtractionFailed,
            UserError::BinaryNotFoundInArchive { binary_name } =>
                UserError::BinaryNotFoundInArchive { binary_name: binary_name.clone() },
            UserError::CommandFailed { command } => UserError::CommandFailed {
                command: command.clone(),
            },
            UserError::GitHubApiError => UserError::GitHubApiError,
            UserError::UnsupportedPlatform { name, os } => UserError::UnsupportedPlatform {
                name: name.clone(),
                os: os.clone(),
            },
            UserError::UnsupportedArchiveFormat { name } => UserError::UnsupportedArchiveFormat {
                name: name.clone(),
            },
            UserError::SymlinkFailed => UserError::SymlinkFailed,
        }
    }
}

} // verus!
