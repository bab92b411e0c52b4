//! The pieces of room state that visibility decisions read.

use vstd::prelude::*;

verus! {

/// The type of a state event: with the sub-key, it names one slot of a
/// state snapshot.
#[derive(Clone, Debug, PartialEq, Eq, Hash)]
pub enum StateEventType {
    /// The room's history-visibility setting. Its sub-key is empty.
    RoomHistoryVisibility,
    /// A user's membership in the room. Its sub-key is the user's identifier.
    RoomMember,
    /// Any other state event type, by its name.
    Other(String),
}

/// One immutable unit of room history.
#[derive(Clone, Debug, PartialEq, Eq)]
pub struct PduEvent {
    /// The event's identifier.
    pub event_id: String,
    /// The event's content, as JSON text.
    pub content: String,
}

/// A user's standing in a room.
#[derive(Clone, Debug, PartialEq, Eq)]
pub enum MembershipState {
    /// The user is banned.
    Ban,
    /// The user has been invited.
    Invite,
    /// The user has joined.
    Join,
    /// The user has asked to join.
    Knock,
    /// The user has left, or was never there.
    Leave,
    /// A value that this library does not know, as it was written.
    Unrecognized(String),
}

/// Who may see a room's history.
#[derive(Clone, Debug, PartialEq, Eq)]
pub enum HistoryVisibility {
    /// Members see events from the point they were invited onwards.
    Invited,
    /// Members see events from the point they joined onwards.
    Joined,
    /// Members see all events, also those from before they joined.
    Shared,
    /// Anyone may see the events, member or not.
    WorldReadable,
    /// A value that this library does not know, as it was written.
    Unrecognized(String),
}

impl MembershipState {
    /// The user is a joined member.
    pub open spec fn joined(self) -> bool {
        self is Join
    }

    /// The user is at least invited: invited or joined.
    pub open spec fn invited_or_joined(self) -> bool {
        self is Join || self is Invite
    }

    /// Whether the user is a joined member.
    pub fn is_joined(&self) -> (r: bool)
        ensures
            r == self.joined(),
    {
        matches!(self, MembershipState::Join)
    }

    /// Whether the user is invited or joined.
    pub fn is_invited_or_joined(&self) -> (r: bool)
        ensures
            r == self.invited_or_joined(),
    {
        matches!(self, MembershipState::Join | MembershipState::Invite)
    }
}

} // verus!
