//! Reading membership and history-visibility records out of state entries.
//!
//! The JSON decoding is done by `serde_json` into the record types of
//! `ruma`; this module names what they yield and adds the defaults for
//! entries that were never set.

use crate::error::Error;
use crate::event::HistoryVisibility;
use crate::event::MembershipState;
use crate::event::PduEvent;
use ruma::events::room::history_visibility::RoomHistoryVisibilityEventContent;
use ruma::events::room::member::RoomMemberEventContent;
use std::sync::Arc;
use vstd::prelude::*;

verus! {

/// The membership that a room-member record holds, or `None` where the text
/// is not such a record.
pub uninterp spec fn membership_in(content: Seq<char>) -> Option<MembershipState>;

/// The policy that a history-visibility record holds, or `None` where the
/// text is not such a record.
pub uninterp spec fn history_visibility_in(content: Seq<char>) -> Option<HistoryVisibility>;

/// Calls `serde_json::from_str` for a `RoomMemberEventContent` and hands out
/// its `membership` field, or `None` where the decoder reports an error.
/// The contract only names the outcome: the same text always decodes to the
/// same membership, or always fails.
#[verifier::external_body]
fn decode_membership(content: &str) -> (decoded: Option<MembershipState>)
    ensures
        decoded == membership_in(content@),
{
    let record = serde_json::from_str::<RoomMemberEventContent>(content).ok()?;
    Some(
        match record.membership {
            ruma::events::room::member::MembershipState::Ban => MembershipState::Ban,
            ruma::events::room::member::MembershipState::Invite => MembershipState::Invite,
            ruma::events::room::member::MembershipState::Join => MembershipState::Join,
            ruma::events::room::member::MembershipState::Knock => MembershipState::Knock,
            ruma::events::room::member::MembershipState::Leave => MembershipState::Leave,
            other => MembershipState::Unrecognized(other.as_str().to_owned()),
        },
    )
}

/// Calls `serde_json::from_str` for a `RoomHistoryVisibilityEventContent`
/// and hands out its `history_visibility` field, or `None` where the
/// decoder reports an error. The contract only names the outcome: the same
/// text always decodes to the same policy, or always fails.
#[verifier::external_body]
fn decode_history_visibility(content: &str) -> (decoded: Option<HistoryVisibility>)
    ensures
        decoded == history_visibility_in(content@),
{
    let record = serde_json::from_str::<RoomHistoryVisibilityEventContent>(content).ok()?;
    Some(
        match record.history_visibility {
            ruma::events::room::history_visibility::HistoryVisibility::Invited => HistoryVisibility::Invited,
            ruma::events::room::history_visibility::HistoryVisibility::Joined => HistoryVisibility::Joined,
            ruma::events::room::history_visibility::HistoryVisibility::Shared => HistoryVisibility::Shared,
            ruma::events::room::history_visibility::HistoryVisibility::WorldReadable => HistoryVisibility::WorldReadable,
            other => HistoryVisibility::Unrecognized(other.as_str().to_owned()),
        },
    )
}

/// The membership that a room-member state entry stands for: `Leave` where
/// the snapshot has no entry, the decoded value where it has one, and a
/// corrupt-record error where the entry does not decode. A failure of the
/// store is passed on.
pub open spec fn membership_from(entry: Result<Option<Arc<PduEvent>>, Error>) -> Result<
    MembershipState,
    Error,
> {
    match entry {
        Err(e) => Err(e),
        Ok(None) => Ok(MembershipState::Leave),
        Ok(Some(pdu)) => match membership_in(pdu.content@) {
            Some(membership) => Ok(membership),
            None => Err(Error::BadDatabase("Invalid room membership event in database.")),
        },
    }
}

/// The policy that a history-visibility state entry stands for: `Shared`
/// where the snapshot has no entry, the decoded value where it has one, and
/// a corrupt-record error where the entry does not decode. A failure of the
/// store is passed on.
pub open spec fn history_visibility_from(entry: Result<Option<Arc<PduEvent>>, Error>) -> Result<
    HistoryVisibility,
    Error,
> {
    match entry {
        Err(e) => Err(e),
        Ok(None) => Ok(HistoryVisibility::Shared),
        Ok(Some(pdu)) => match history_visibility_in(pdu.content@) {
            Some(visibility) => Ok(visibility),
            None => Err(Error::BadDatabase("Invalid history visibility event in database.")),
        },
    }
}

/// Derives a membership from what the store answered for a room-member
/// slot.
pub fn resolve_membership(entry: Result<Option<Arc<PduEvent>>, Error>) -> (membership: Result<
    MembershipState,
    Error,
>)
    ensures
        membership == membership_from(entry),
{
    match entry {
        Err(e) => Err(e),
        Ok(None) => Ok(MembershipState::Leave),
        Ok(Some(pdu)) => match decode_membership(pdu.content.as_str()) {
            Some(membership) => Ok(membership),
            None => Err(Error::bad_database("Invalid room membership event in database.")),
        },
    }
}

/// Derives a policy from what the store answered for the history-visibility
/// slot.
pub fn resolve_history_visibility(entry: Result<Option<Arc<PduEvent>>, Error>) -> (visibility:
    Result<HistoryVisibility, Error>)
    ensures
        visibility == history_visibility_from(entry),
{
    match entry {
        Err(e) => Err(e),
        Ok(None) => Ok(HistoryVisibility::Shared),
        Ok(Some(pdu)) => match decode_history_visibility(pdu.content.as_str()) {
            Some(visibility) => Ok(visibility),
            None => Err(Error::bad_database("Invalid history visibility event in database.")),
        },
    }
}

} // verus!
