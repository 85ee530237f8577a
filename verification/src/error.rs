//! Why the server binary could not be provided.

use crate::platform::{Architecture, Os, Platform};
use vstd::prelude::*;
use vstd::string::*;

verus! {

/// The ways in which acquiring the server binary fails.
#[derive(Debug, PartialEq, Eq)]
pub enum AcquireError {
    /// No release archive is published for the host's platform.
    UnsupportedPlatform { platform: Platform },
    /// The host could not download or unpack the archive; `message` is its report.
    DownloadFailure { message: String },
    /// The host could not mark the binary executable; `message` is its report.
    PermissionFailure { message: String },
    /// The archive was unpacked, but the binary of `version` is not where it
    /// is expected.
    InstallVerificationFailure { version: String },
}

/// The mathematical value of an [`AcquireError`].
pub enum AcquireErrorView {
    UnsupportedPlatform { platform: Platform },
    DownloadFailure { message: Seq<char> },
    PermissionFailure { message: Seq<char> },
    InstallVerificationFailure { version: Seq<char> },
}

impl View for AcquireError {
    type V = AcquireErrorView;

    open spec fn view(&self) -> AcquireErrorView {
        match self {
            AcquireError::UnsupportedPlatform {
                platform,
            } => AcquireErrorView::UnsupportedPlatform { platform: *platform },
            AcquireError::DownloadFailure { message } => AcquireErrorView::DownloadFailure {
                message: message@,
            },
            AcquireError::PermissionFailure { message } => AcquireErrorView::PermissionFailure {
                message: message@,
            },
            AcquireError::InstallVerificationFailure {
                version,
            } => AcquireErrorView::InstallVerificationFailure { version: version@ },
        }
    }
}

/// How an operating system is written in messages.
pub open spec fn spec_os_label(os: Os) -> Seq<char> {
    match os {
        Os::Mac => "Os::Mac"@,
        Os::Linux => "Os::Linux"@,
        Os::Windows => "Os::Windows"@,
    }
}

/// How an architecture is written in messages.
pub open spec fn spec_arch_label(arch: Architecture) -> Seq<char> {
    match arch {
        Architecture::Aarch64 => "Architecture::Aarch64"@,
        Architecture::X8664 => "Architecture::X8664"@,
    }
}

/// The text shown to the user for an error.
pub open spec fn spec_message(error: AcquireErrorView) -> Seq<char> {
    match error {
        AcquireErrorView::UnsupportedPlatform { platform } => "Unsupported platform: "@
            + spec_os_label(platform.os) + " "@ + spec_arch_label(platform.arch),
        AcquireErrorView::DownloadFailure { message } => message,
        AcquireErrorView::PermissionFailure { message } => message,
        AcquireErrorView::InstallVerificationFailure {
            version,
        } => "Failed to install quickmark-server "@ + version
            + ": binary not found after extraction"@,
    }
}

/// Writes an operating system as messages show it.
pub fn os_label(os: Os) -> (label: &'static str)
    ensures
        label@ == spec_os_label(os),
{
    match os {
        Os::Mac => "Os::Mac",
        Os::Linux => "Os::Linux",
        Os::Windows => "Os::Windows",
    }
}

/// Writes an architecture as messages show it.
pub fn arch_label(arch: Architecture) -> (label: &'static str)
    ensures
        label@ == spec_arch_label(arch),
{
    match arch {
        Architecture::Aarch64 => "Architecture::Aarch64",
        Architecture::X8664 => "Architecture::X8664",
    }
}

impl AcquireError {
    /// The text shown to the user: the host's own report where the host
    /// failed, a sentence naming the platform or the version otherwise.
    pub fn message(&self) -> (text: String)
        ensures
            text@ == spec_message(self@),
    {
        match self {
            AcquireError::UnsupportedPlatform { platform } => {
                let mut text = String::from_str("Unsupported platform: ");
                text.append(os_label(platform.os));
                text.append(" ");
                text.append(arch_label(platform.arch));
                text
            },
            AcquireError::DownloadFailure { message } => message.clone(),
            AcquireError::PermissionFailure { message } => message.clone(),
            AcquireError::InstallVerificationFailure { version } => {
                let mut text = String::from_str("Failed to install quickmark-server ");
                text.append(version.as_str());
                text.append(": binary not found after extraction");
                text
            },
        }
    }
}

} // verus!
