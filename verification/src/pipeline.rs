//! From the service's answer to the printed document.

use vstd::prelude::*;
use crate::config::{OutputFormat, RunConfig};
use crate::error::{DirectoryError, ErrorView};
use crate::normalize::{normalize_all, normalized, normalized_all, MemberView, RawMember};
use crate::render::{document, render};

verus! {

/// The outcome of a run for the members the service returned (`None` where
/// its answer held no member list):
/// - without a member list, the empty document;
/// - with an unusable member, `MalformedMemberRecord` and no text;
/// - otherwise the normalized members rendered in `format`.
pub open spec fn run_outcome(format: OutputFormat, members: Option<Seq<MemberView>>) -> Result<
    Seq<char>,
    ErrorView,
> {
    match members {
        None => Ok(Seq::empty()),
        Some(listing) => match normalized_all(listing) {
            None => Err(ErrorView::MalformedMemberRecord),
            Some(entries) => Ok(document(entries, format)),
        },
    }
}

/// A run's result with its texts as character sequences.
pub open spec fn outcome_view(outcome: Result<String, DirectoryError>) -> Result<
    Seq<char>,
    ErrorView,
> {
    match outcome {
        Ok(text) => Ok(text@),
        Err(error) => Err(error@),
    }
}

/// Produces the document to print from the members that the service
/// returned: normalizes every member, then renders the entries in the
/// configured format. It is all or nothing: the result is the whole document
/// or an error.
pub fn produce_document(config: &RunConfig, members: &Option<Vec<RawMember>>) -> (outcome: Result<
    String,
    DirectoryError,
>)
    ensures
        outcome_view(outcome) == run_outcome(config.output_format, members.deep_view()),
{
    match members {
        None => Ok(String::new()),
        Some(listing) => match normalize_all(listing) {
            Ok(entries) => Ok(render(&entries, config.output_format)),
            Err(error) => Err(error),
        },
    }
}

/// One member without a display name, without an identifier or without a
/// profile fails the whole run: the outcome is `MalformedMemberRecord`,
/// whatever the other members hold, and there is no document.
pub proof fn lemma_malformed_member_aborts(format: OutputFormat, listing: Seq<MemberView>, i: int)
    requires
        0 <= i < listing.len(),
        listing[i].display_name is None || listing[i].identifier is None
            || listing[i].profile is None,
    ensures
        run_outcome(format, Some(listing)) == Err::<Seq<char>, ErrorView>(
            ErrorView::MalformedMemberRecord,
        ),
{
    assert(normalized(listing[i]) is None);
}

/// A run is deterministic: two outcomes of runs over the same members in the
/// same format, each being what [`produce_document`] returns, are the same,
/// document or failure.
pub proof fn lemma_run_deterministic(
    format: OutputFormat,
    members: Option<Seq<MemberView>>,
    first: Result<Seq<char>, ErrorView>,
    second: Result<Seq<char>, ErrorView>,
)
    requires
        first == run_outcome(format, members),
        second == run_outcome(format, members),
    ensures
        first == second,
{
}

} // verus!
