//! The errors an installation can end with.

use vstd::prelude::*;

verus! {

#[derive(Debug, PartialEq, Eq)]
pub enum InstallError {
    /// The service answered with a status that is not a success;
    /// `status_text` is the status as HTTP writes it (`404 Not Found`).
    Network { status: u16, status_text: String },
    /// A request got no answer; `detail` says why.
    Request { detail: String },
    /// The answer did not have the expected shape: `detail` is `None` where
    /// the version field is missing, or the decoder's text where the body is
    /// not JSON.
    Parse { detail: Option<String> },
    /// Package bytes were not a readable archive.
    ArchiveCorrupt,
    /// A file could not be written.
    IoFailure,
    /// The client is running, so its files may not be replaced.
    Precondition,
    /// This binary type cannot be installed on this platform.
    Unsupported,
}

pub enum ErrorView {
    Network { status: u16, status_text: Seq<char> },
    Request { detail: Seq<char> },
    Parse { detail: Option<Seq<char>> },
    ArchiveCorrupt,
    IoFailure,
    Precondition,
    Unsupported,
}

impl View for InstallError {
    type V = ErrorView;

    open spec fn view(&self) -> ErrorView {
        match self {
            InstallError::Network { status, status_text } => ErrorView::Network {
                status: *status,
                status_text: status_text@,
            },
            InstallError::Request { detail } => ErrorView::Request { detail: detail@ },
            InstallError::Parse { detail } => ErrorView::Parse {
                detail: match detail {
                    Some(d) => Some(d@),
                    None => None,
                },
            },
            InstallError::ArchiveCorrupt => ErrorView::ArchiveCorrupt,
            InstallError::IoFailure => ErrorView::IoFailure,
            InstallError::Precondition => ErrorView::Precondition,
            InstallError::Unsupported => ErrorView::Unsupported,
        }
    }
}

/// The text shown to the user for an error.
pub open spec fn message_of(e: ErrorView) -> Seq<char> {
    match e {
        ErrorView::Network { status_text, .. } => "Failed to fetch version info: Status "@
            + status_text,
        ErrorView::Request { detail } => detail,
        ErrorView::Parse { detail } => match detail {
            Some(d) => d,
            None => "Invalid version response"@,
        },
        ErrorView::ArchiveCorrupt => "package is not a readable archive"@,
        ErrorView::IoFailure => "could not write installation files"@,
        ErrorView::Unsupported => "Studio not supported on macOS"@,
        ErrorView::Precondition =>
            "Roblox or Roblox Studio is currently running. Please close it before updating."@,
    }
}

impl InstallError {
    /// The description shown to the user.
    pub fn message(&self) -> (r: String)
        ensures
            r@ == message_of(self@),
    {
        match self {
            InstallError::Network { status_text, .. } => {
                let mut out = String::from_str("Failed to fetch version info: Status ");
                out.append(status_text.as_str());
                out
            },
            InstallError::Request { detail } => detail.clone(),
            InstallError::Parse { detail } => match detail {
                Some(d) => d.clone(),
                None => String::from_str("Invalid version response"),
            },
            InstallError::ArchiveCorrupt => String::from_str("package is not a readable archive"),
            InstallError::IoFailure => String::from_str("could not write installation files"),
            InstallError::Unsupported => String::from_str("Studio not supported on macOS"),
            InstallError::Precondition => String::from_str(
                "Roblox or Roblox Studio is currently running. Please close it before updating.",
            ),
        }
    }
}

} // verus!
