//! The normalized directory record.

use vstd::prelude::*;
use vstd::string::*;

verus! {

/// A member's presence. Normalization never asks the service for it and
/// records every member as `Offline`.
#[derive(Clone, Copy, Debug, PartialEq, Eq, Structural)]
pub enum PresenceStatus {
    Active,
    Away,
    DoNotDisturb,
    Offline,
}

/// One member of the directory, ready to be rendered.
///
/// `handle` is the service's short identifier for the member; the service
/// keeps it unique within one listing, which this crate does not check.
#[derive(Clone, Debug, PartialEq, Eq)]
pub struct DirectoryEntry {
    pub name: String,
    pub handle: String,
    pub email: Option<String>,
    pub phone_number: Option<String>,
    pub picture_url: Option<String>,
    pub presence_status: PresenceStatus,
}

/// [`DirectoryEntry`] with its texts as character sequences.
pub struct EntryView {
    pub name: Seq<char>,
    pub handle: Seq<char>,
    pub email: Option<Seq<char>>,
    pub phone_number: Option<Seq<char>>,
    pub picture_url: Option<Seq<char>>,
    pub presence_status: PresenceStatus,
}

impl View for DirectoryEntry {
    type V = EntryView;

    open spec fn view(&self) -> EntryView {
        EntryView {
            name: self.name@,
            handle: self.handle@,
            email: self.email.deep_view(),
            phone_number: self.phone_number.deep_view(),
            picture_url: self.picture_url.deep_view(),
            presence_status: self.presence_status,
        }
    }
}

impl DeepView for DirectoryEntry {
    type V = EntryView;

    open spec fn deep_view(&self) -> EntryView {
        self@
    }
}

/// The name under which a presence is written in JSON and CSV.
pub open spec fn presence_name(status: PresenceStatus) -> Seq<char> {
    match status {
        PresenceStatus::Active => "Active"@,
        PresenceStatus::Away => "Away"@,
        PresenceStatus::DoNotDisturb => "DoNotDisturb"@,
        PresenceStatus::Offline => "Offline"@,
    }
}

/// A copy of an optional text.
pub fn copy_optional(text: &Option<String>) -> (copy: Option<String>)
    ensures
        copy.deep_view() == text.deep_view(),
{
    match text {
        Some(value) => Some(value.clone()),
        None => None,
    }
}

impl PresenceStatus {
    /// The variant's name, as the encoders write it.
    pub fn name(&self) -> (text: String)
        ensures
            text@ == presence_name(*self),
    {
        match self {
            PresenceStatus::Active => String::from_str("Active"),
            PresenceStatus::Away => String::from_str("Away"),
            PresenceStatus::DoNotDisturb => String::from_str("DoNotDisturb"),
            PresenceStatus::Offline => String::from_str("Offline"),
        }
    }
}

} // verus!
