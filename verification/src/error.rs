//! The failures a run can end in.

use vstd::prelude::*;
use vstd::string::*;

verus! {

/// Why a run stopped. Every failure is final: nothing is retried and no
/// partial document is produced.
#[derive(Clone, Debug, PartialEq, Eq)]
pub enum DirectoryError {
    /// Neither the command line nor the environment supplied an API token.
    MissingCredential,
    /// The output format token is not one of the accepted ones; holds the token.
    InvalidOutputFormat(String),
    /// A request to the directory service failed; holds the cause.
    UpstreamRequestFailed(String),
    /// A member lacks its display name, its identifier or its profile.
    MalformedMemberRecord,
}

/// [`DirectoryError`] with its texts as character sequences.
pub enum ErrorView {
    MissingCredential,
    InvalidOutputFormat(Seq<char>),
    UpstreamRequestFailed(Seq<char>),
    MalformedMemberRecord,
}

impl View for DirectoryError {
    type V = ErrorView;

    open spec fn view(&self) -> ErrorView {
        match *self {
            DirectoryError::MissingCredential => ErrorView::MissingCredential,
            DirectoryError::InvalidOutputFormat(token) => ErrorView::InvalidOutputFormat(token@),
            DirectoryError::UpstreamRequestFailed(cause) => ErrorView::UpstreamRequestFailed(
                cause@,
            ),
            DirectoryError::MalformedMemberRecord => ErrorView::MalformedMemberRecord,
        }
    }
}

/// The text shown to the user for each failure.
pub open spec fn message_text(error: ErrorView) -> Seq<char> {
    match error {
        ErrorView::MissingCredential => "Missing API key: pass --key or set SLACK_API_KEY"@,
        ErrorView::InvalidOutputFormat(token) => "Invalid Output Type: "@ + token,
        ErrorView::UpstreamRequestFailed(cause) => "Directory request failed: "@ + cause,
        ErrorView::MalformedMemberRecord => "Member record lacks a name, a handle or a profile"@,
    }
}

impl DirectoryError {
    /// The human-readable message for this failure. An invalid output format
    /// is reported together with the offending token.
    pub fn message(&self) -> (text: String)
        ensures
            text@ == message_text(self@),
    {
        match self {
            DirectoryError::MissingCredential => String::from_str(
                "Missing API key: pass --key or set SLACK_API_KEY",
            ),
            DirectoryError::InvalidOutputFormat(token) => {
                let mut text = String::from_str("Invalid Output Type: ");
                text.append(token.as_str());
                text
            },
            DirectoryError::UpstreamRequestFailed(cause) => {
                let mut text = String::from_str("Directory request failed: ");
                text.append(cause.as_str());
                text
            },
            DirectoryError::MalformedMemberRecord => String::from_str(
                "Member record lacks a name, a handle or a profile",
            ),
        }
    }
}

} // verus!
