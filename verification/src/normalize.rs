//! From the service's member records to directory entries.
//!
//! A member is usable only if it carries a display name, an identifier and a
//! profile. One unusable member fails the whole listing: there is no
//! per-record skip and no partial result.

use rayon::iter::{IntoParallelRefIterator, ParallelIterator};
use vstd::prelude::*;
use crate::entry::{copy_optional, DirectoryEntry, EntryView, PresenceStatus};
use crate::error::{DirectoryError, ErrorView};

verus! {

/// The optional contact fields of a member, as the service sent them.
#[derive(Clone, Debug, PartialEq, Eq)]
pub struct RawProfile {
    pub email: Option<String>,
    pub phone: Option<String>,
    pub picture: Option<String>,
}

/// A member as the service sent it. Any part may be missing.
#[derive(Clone, Debug, PartialEq, Eq)]
pub struct RawMember {
    pub display_name: Option<String>,
    pub identifier: Option<String>,
    pub profile: Option<RawProfile>,
}

/// [`RawProfile`] with its texts as character sequences.
pub struct ProfileView {
    pub email: Option<Seq<char>>,
    pub phone: Option<Seq<char>>,
    pub picture: Option<Seq<char>>,
}

/// [`RawMember`] with its texts as character sequences.
pub struct MemberView {
    pub display_name: Option<Seq<char>>,
    pub identifier: Option<Seq<char>>,
    pub profile: Option<ProfileView>,
}

impl View for RawProfile {
    type V = ProfileView;

    open spec fn view(&self) -> ProfileView {
        ProfileView {
            email: self.email.deep_view(),
            phone: self.phone.deep_view(),
            picture: self.picture.deep_view(),
        }
    }
}

impl DeepView for RawProfile {
    type V = ProfileView;

    open spec fn deep_view(&self) -> ProfileView {
        self@
    }
}

impl View for RawMember {
    type V = MemberView;

    open spec fn view(&self) -> MemberView {
        MemberView {
            display_name: self.display_name.deep_view(),
            identifier: self.identifier.deep_view(),
            profile: self.profile.deep_view(),
        }
    }
}

impl DeepView for RawMember {
    type V = MemberView;

    open spec fn deep_view(&self) -> MemberView {
        self@
    }
}

/// The entry a member normalizes to, or `None` if the member lacks its
/// display name, its identifier or its profile. Contact fields pass through
/// as they are; the presence is always `Offline`.
pub open spec fn normalized(member: MemberView) -> Option<EntryView> {
    match (member.display_name, member.identifier, member.profile) {
        (Some(name), Some(handle), Some(profile)) => Some(
            EntryView {
                name: name,
                handle: handle,
                email: profile.email,
                phone_number: profile.phone,
                picture_url: profile.picture,
                presence_status: PresenceStatus::Offline,
            },
        ),
        _ => None,
    }
}

/// Whether `outcome` is what normalizing `member` must give.
pub open spec fn is_normalization(
    outcome: Result<DirectoryEntry, DirectoryError>,
    member: MemberView,
) -> bool {
    match normalized(member) {
        Some(entry) => outcome is Ok && outcome->Ok_0@ == entry,
        None => outcome is Err && outcome->Err_0@ == ErrorView::MalformedMemberRecord,
    }
}

/// The entries that a whole listing normalizes to, in the listing's order,
/// or `None` if any member is unusable.
pub open spec fn normalized_all(members: Seq<MemberView>) -> Option<Seq<EntryView>> {
    if forall|i: int| 0 <= i < members.len() ==> (#[trigger] normalized(members[i])) is Some {
        Some(Seq::new(members.len(), |i: int| normalized(members[i])->Some_0))
    } else {
        None
    }
}

/// Normalizes one member.
pub fn normalize_member(member: &RawMember) -> (outcome: Result<DirectoryEntry, DirectoryError>)
    ensures
        is_normalization(outcome, member@),
{
    match (&member.display_name, &member.identifier, &member.profile) {
        (Some(name), Some(handle), Some(profile)) => Ok(
            DirectoryEntry {
                name: name.clone(),
                handle: handle.clone(),
                email: copy_optional(&profile.email),
                phone_number: copy_optional(&profile.phone),
                picture_url: copy_optional(&profile.picture),
                presence_status: PresenceStatus::Offline,
            },
        ),
        _ => Err(DirectoryError::MalformedMemberRecord),
    }
}

/// Whether no two members share an identifier.
pub open spec fn identifiers_distinct(members: Seq<MemberView>) -> bool {
    forall|i: int, j: int|
        #![trigger members[i], members[j]]
        0 <= i < j < members.len() ==> members[i].identifier != members[j].identifier
}

/// Whether no two entries share a handle.
pub open spec fn handles_distinct(entries: Seq<EntryView>) -> bool {
    forall|i: int, j: int|
        #![trigger entries[i], entries[j]]
        0 <= i < j < entries.len() ==> entries[i].handle != entries[j].handle
}

/// Normalization yields one entry per member, and handles are as unique as
/// the service's identifiers: a listing in which no two members share an
/// identifier normalizes to entries of which no two share a handle.
pub proof fn lemma_handles_stay_distinct(members: Seq<MemberView>)
    requires
        normalized_all(members) is Some,
        identifiers_distinct(members),
    ensures
        normalized_all(members)->Some_0.len() == members.len(),
        handles_distinct(normalized_all(members)->Some_0),
{
    let entries = normalized_all(members)->Some_0;
    assert forall|i: int, j: int| 0 <= i < j < entries.len() implies entries[i].handle
        != entries[j].handle by {
        assert(normalized(members[i]) is Some);
        assert(normalized(members[j]) is Some);
        assert(members[i].identifier != members[j].identifier);
    }
}

/// `rayon`'s `par_iter`, `map` and `collect` over the listing: every member
/// normalized on a worker pool, the outcomes gathered in a vector.
///
/// Trusted: `map` applies the closure once to every member and `collect`
/// puts the results into the vector in the members' order, so slot `i` holds
/// what [`normalize_member`] returned for member `i`.
#[verifier::external_body]
fn normalize_each(members: &Vec<RawMember>) -> (outcomes: Vec<
    Result<DirectoryEntry, DirectoryError>,
>)
    ensures
        outcomes@.len() == members@.len(),
        forall|i: int|
            0 <= i < members@.len() ==> is_normalization(#[trigger] outcomes@[i], members@[i]@),
{
    members.par_iter().map(|member| normalize_member(member)).collect()
}

/// Turns per-member outcomes into the outcome of the listing: every entry, in
/// order, if all members were usable; otherwise the first failure and no
/// entry at all.
pub fn collect_entries(outcomes: Vec<Result<DirectoryEntry, DirectoryError>>) -> (collected: Result<
    Vec<DirectoryEntry>,
    DirectoryError,
>)
    ensures
        match collected {
            Ok(entries) => {
                &&& entries@.len() == outcomes@.len()
                &&& forall|i: int|
                    0 <= i < outcomes@.len() ==> (#[trigger] outcomes@[i]) == Ok::<
                        DirectoryEntry,
                        DirectoryError,
                    >(entries@[i])
            },
            Err(error) => exists|i: int|
                {
                    &&& 0 <= i < outcomes@.len()
                    &&& (#[trigger] outcomes@[i]) == Err::<DirectoryEntry, DirectoryError>(error)
                    &&& forall|j: int| 0 <= j < i ==> (#[trigger] outcomes@[j]) is Ok
                },
        },
{
    let mut entries: Vec<DirectoryEntry> = Vec::new();
    for outcome in iter: outcomes.into_iter()
        invariant
            iter.seq() == outcomes@,
            entries@.len() == iter.index(),
            forall|i: int|
                0 <= i < iter.index() ==> (#[trigger] outcomes@[i]) == Ok::<
                    DirectoryEntry,
                    DirectoryError,
                >(entries@[i]),
    {
        match outcome {
            Ok(entry) => {
                entries.push(entry);
            },
            Err(error) => {
                return Err(error);
            },
        }
    }
    Ok(entries)
}

/// Normalizes a whole listing: one entry per member, in the listing's order,
/// or `MalformedMemberRecord` and nothing else if any member is unusable.
///
/// The members are handed to a worker pool; each is normalized on its own.
pub fn normalize_all(members: &Vec<RawMember>) -> (outcome: Result<
    Vec<DirectoryEntry>,
    DirectoryError,
>)
    ensures
        match normalized_all(members.deep_view()) {
            Some(entries) => outcome is Ok && outcome->Ok_0.deep_view() == entries,
            None => outcome is Err && outcome->Err_0@ == ErrorView::MalformedMemberRecord,
        },
{
    let outcomes = normalize_each(members);
    let collected = collect_entries(outcomes);
    proof {
        let views = members.deep_view();
        assert(forall|i: int| 0 <= i < views.len() ==> views[i] == members@[i]@);
        if collected is Ok {
            let entries = collected->Ok_0;
            assert forall|i: int| 0 <= i < views.len() implies (#[trigger] normalized(
                views[i],
            )) == Some(entries@[i]@) by {
                assert(is_normalization(outcomes@[i], members@[i]@));
            }
            assert(entries.deep_view() =~= normalized_all(views)->Some_0);
        } else {
            let error = collected->Err_0;
            let i = choose|i: int|
                0 <= i < outcomes@.len() && (#[trigger] outcomes@[i]) == Err::<
                    DirectoryEntry,
                    DirectoryError,
                >(error);
            assert(is_normalization(outcomes@[i], members@[i]@));
            assert(normalized(views[i]) is None);
        }
    }
    collected
}

} // verus!
