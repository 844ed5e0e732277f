//! What a run asks of the directory service.
//!
//! The requests themselves are made by the program around this crate; the
//! crate decides which ones, in which order and with which parameters.

use vstd::prelude::*;
use crate::config::{ConfigView, RunConfig};
use crate::error::{DirectoryError, ErrorView};

verus! {

/// One request to the directory service.
#[derive(Clone, Copy, Debug, PartialEq, Eq)]
pub enum UpstreamRequest {
    /// List the channels. Its answer is not used; a failure still ends the run.
    ChannelList { exclude_archived: bool, exclude_members: bool },
    /// List the members. `presence` asks the service to report presence.
    UserList { presence: Option<bool> },
}

/// The requests of a run, in order: a channel listing (archived channels
/// left out, member lists kept) if a channel scope is set, then always one
/// member listing without a presence filter.
pub open spec fn request_plan(config: ConfigView) -> Seq<UpstreamRequest> {
    let users = UpstreamRequest::UserList { presence: None };
    if config.channel_scope is Some {
        seq![
            UpstreamRequest::ChannelList { exclude_archived: true, exclude_members: false },
            users,
        ]
    } else {
        seq![users]
    }
}

/// The requests to make for `config`, in the order in which to make them.
/// The members are those that the last request returns.
pub fn upstream_requests(config: &RunConfig) -> (plan: Vec<UpstreamRequest>)
    ensures
        plan@ == request_plan(config@),
{
    let mut plan: Vec<UpstreamRequest> = Vec::new();
    if config.channel_scope.is_some() {
        plan.push(UpstreamRequest::ChannelList { exclude_archived: true, exclude_members: false });
    }
    plan.push(UpstreamRequest::UserList { presence: None });
    assert(plan@ =~= request_plan(config@));
    plan
}

/// What a run makes of the service's answer to one request: the answer
/// itself, or `UpstreamRequestFailed` with the cause where the request
/// failed in transport, was refused, or was answered with something
/// unreadable. A failed request ends the run; nothing is retried.
pub fn accept_answer<T>(answer: Result<T, String>) -> (accepted: Result<T, DirectoryError>)
    ensures
        match answer {
            Ok(value) => accepted == Ok::<T, DirectoryError>(value),
            Err(cause) => accepted is Err && accepted->Err_0@ == ErrorView::UpstreamRequestFailed(
                cause@,
            ),
        },
{
    match answer {
        Ok(value) => Ok(value),
        Err(cause) => Err(DirectoryError::UpstreamRequestFailed(cause)),
    }
}

} // verus!
