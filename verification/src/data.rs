//! The collaborators that a [`Service`](crate::Service) reads from.
//!
//! Nothing is assumed of what they answer: a store may fail, a record may
//! have been repaired since it was last read, and the roster is the live
//! one. Contracts therefore speak of the answers that a collaborator *may*
//! give to a question, and laws of what follows where it gives one answer
//! only.

use crate::error::Error;
use crate::event::PduEvent;
use crate::event::StateEventType;
use std::sync::Arc;
use vstd::prelude::*;

verus! {

/// The snapshot store: which snapshot an event was accepted under, and what
/// a snapshot holds.
pub trait Data {
    /// Returns the snapshot identifier for this event, `None` for an event
    /// that the store does not know.
    fn pdu_shortstatehash(&self, event_id: &str) -> Result<Option<u64>, Error>;

    /// Returns the identifier of the event under (`event_type`, `state_key`)
    /// in a snapshot, `None` for a slot that was never set.
    fn state_get_id(
        &self,
        shortstatehash: u64,
        event_type: &StateEventType,
        state_key: &str,
    ) -> Result<Option<String>, Error>;

    /// Returns the event under (`event_type`, `state_key`) in a snapshot,
    /// `None` for a slot that was never set.
    fn state_get(&self, shortstatehash: u64, event_type: &StateEventType, state_key: &str) -> Result<
        Option<Arc<PduEvent>>,
        Error,
    >;

    /// Returns the identifier of the event under (`event_type`, `state_key`)
    /// in a room's current state.
    fn room_state_get_id(&self, room_id: &str, event_type: &StateEventType, state_key: &str) -> Result<
        Option<String>,
        Error,
    >;

    /// Returns the event under (`event_type`, `state_key`) in a room's
    /// current state.
    fn room_state_get(&self, room_id: &str, event_type: &StateEventType, state_key: &str) -> Result<
        Option<Arc<PduEvent>>,
        Error,
    >;
}

/// The live membership index: who is in a room now.
pub trait Roster {
    /// Returns the user identifiers of the room's current members. An entry
    /// that could not be read stands as an error in its place.
    fn room_members(&self, room_id: &str) -> Vec<Result<String, Error>>;
}

/// `answer` is something that the store may say when asked for the snapshot
/// of the event.
pub open spec fn answers_snapshot<D: Data>(
    db: &D,
    event_id: Seq<char>,
    answer: Result<Option<u64>, Error>,
) -> bool {
    exists|id: &str|
        id@ == event_id && #[trigger] call_ensures(D::pdu_shortstatehash, (db, id), answer)
}

/// `answer` is something that the store may say when asked for the event in
/// a slot of a snapshot.
pub open spec fn answers_state<D: Data>(
    db: &D,
    shortstatehash: u64,
    event_type: StateEventType,
    state_key: Seq<char>,
    answer: Result<Option<Arc<PduEvent>>, Error>,
) -> bool {
    exists|key: &str|
        key@ == state_key && #[trigger] call_ensures(
            D::state_get,
            (db, shortstatehash, &event_type, key),
            answer,
        )
}

/// `answer` is something that the store may say when asked for the
/// identifier of the event in a slot of a snapshot.
pub open spec fn answers_state_id<D: Data>(
    db: &D,
    shortstatehash: u64,
    event_type: StateEventType,
    state_key: Seq<char>,
    answer: Result<Option<String>, Error>,
) -> bool {
    exists|key: &str|
        key@ == state_key && #[trigger] call_ensures(
            D::state_get_id,
            (db, shortstatehash, &event_type, key),
            answer,
        )
}

/// `answer` is something that the store may say when asked for the event in
/// a slot of a room's current state.
pub open spec fn answers_room_state<D: Data>(
    db: &D,
    room_id: Seq<char>,
    event_type: StateEventType,
    state_key: Seq<char>,
    answer: Result<Option<Arc<PduEvent>>, Error>,
) -> bool {
    exists|room: &str, key: &str|
        room@ == room_id && key@ == state_key && #[trigger] call_ensures(
            D::room_state_get,
            (db, room, &event_type, key),
            answer,
        )
}

/// `answer` is something that the store may say when asked for the
/// identifier of the event in a slot of a room's current state.
pub open spec fn answers_room_state_id<D: Data>(
    db: &D,
    room_id: Seq<char>,
    event_type: StateEventType,
    state_key: Seq<char>,
    answer: Result<Option<String>, Error>,
) -> bool {
    exists|room: &str, key: &str|
        room@ == room_id && key@ == state_key && #[trigger] call_ensures(
            D::room_state_get_id,
            (db, room, &event_type, key),
            answer,
        )
}

/// `members` is something that the roster may list as the room's current
/// members.
pub open spec fn answers_members<R: Roster>(
    roster: &R,
    room_id: Seq<char>,
    members: Seq<Result<String, Error>>,
) -> bool {
    exists|room: &str, listing: Vec<Result<String, Error>>|
        room@ == room_id && listing@ == members && #[trigger] call_ensures(
            R::room_members,
            (roster, room),
            listing,
        )
}

/// The store knows one answer only to the question of the event's snapshot.
pub open spec fn snapshot_is<D: Data>(db: &D, event_id: Seq<char>, snapshot: Option<u64>) -> bool {
    forall|answer: Result<Option<u64>, Error>| #[trigger]
        answers_snapshot(db, event_id, answer) ==> answer == Ok::<Option<u64>, Error>(snapshot)
}

/// The store knows one answer only to the question of what a slot of a
/// snapshot holds.
pub open spec fn state_is<D: Data>(
    db: &D,
    shortstatehash: u64,
    event_type: StateEventType,
    state_key: Seq<char>,
    entry: Option<Arc<PduEvent>>,
) -> bool {
    forall|answer: Result<Option<Arc<PduEvent>>, Error>| #[trigger]
        answers_state(db, shortstatehash, event_type, state_key, answer) ==> answer == Ok::<
            Option<Arc<PduEvent>>,
            Error,
        >(entry)
}

/// The roster knows one listing only of the room's current members.
pub open spec fn members_are<R: Roster>(
    roster: &R,
    room_id: Seq<char>,
    members: Seq<Result<String, Error>>,
) -> bool {
    forall|listing: Seq<Result<String, Error>>| #[trigger]
        answers_members(roster, room_id, listing) ==> listing == members
}

} // verus!
