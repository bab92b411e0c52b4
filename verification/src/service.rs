//! The visibility decision and the accessors around it.

use crate::cache::inserted;
use crate::cache::lookup;
use crate::cache::refreshed;
use crate::cache::CacheEntry;
use crate::cache::VisibilityCache;
use crate::content::history_visibility_from;
use crate::content::membership_from;
use crate::content::resolve_history_visibility;
use crate::content::resolve_membership;
use crate::data::answers_members;
use crate::data::answers_room_state;
use crate::data::answers_room_state_id;
use crate::data::answers_snapshot;
use crate::data::answers_state;
use crate::data::answers_state_id;
use crate::data::Data;
use crate::data::Roster;
use crate::error::Error;
use crate::event::HistoryVisibility;
use crate::event::MembershipState;
use crate::event::PduEvent;
use crate::event::StateEventType;
use crate::identifiers::belongs_to;
use crate::identifiers::user_is_on_server;
use std::sync::Arc;
use vstd::prelude::*;

verus! {

/// The least standing that a member must have had for a policy to let the
/// member's server in.
pub enum Standing {
    /// Invited or joined.
    Invited,
    /// Joined.
    Joined,
}

/// `membership` is what resolving the user's membership at the snapshot may
/// yield: what [`membership_from`] makes of an answer of the store.
pub open spec fn membership_may_be<D: Data>(
    db: &D,
    shortstatehash: u64,
    user_id: Seq<char>,
    membership: Result<MembershipState, Error>,
) -> bool {
    exists|entry: Result<Option<Arc<PduEvent>>, Error>| #[trigger]
        answers_state(db, shortstatehash, StateEventType::RoomMember, user_id, entry)
            && membership == membership_from(entry)
}

/// `visibility` is what resolving the history-visibility policy at the
/// snapshot may yield: what [`history_visibility_from`] makes of an answer
/// of the store.
pub open spec fn history_visibility_may_be<D: Data>(
    db: &D,
    shortstatehash: u64,
    visibility: Result<HistoryVisibility, Error>,
) -> bool {
    exists|entry: Result<Option<Arc<PduEvent>>, Error>| #[trigger]
        answers_state(
            db,
            shortstatehash,
            StateEventType::RoomHistoryVisibility,
            Seq::<char>::empty(),
            entry,
        ) && visibility == history_visibility_from(entry)
}

/// The resolved membership gives the needed standing. One that could not be
/// resolved gives none.
pub open spec fn stood(membership: Result<MembershipState, Error>, needed: Standing) -> bool {
    membership matches Ok(state) && match needed {
        Standing::Invited => state.invited_or_joined(),
        Standing::Joined => state.joined(),
    }
}

/// `had` is what asking whether the user had the needed standing at the
/// snapshot may yield.
pub open spec fn standing_may_be<D: Data>(
    db: &D,
    shortstatehash: u64,
    user_id: Seq<char>,
    needed: Standing,
    had: bool,
) -> bool {
    exists|membership: Result<MembershipState, Error>| #[trigger]
        membership_may_be(db, shortstatehash, user_id, membership) && had == stood(
            membership,
            needed,
        )
}

/// The roster entry is a user of this server.
pub open spec fn is_user_of(member: Result<String, Error>, origin: Seq<char>) -> bool {
    member matches Ok(user) && belongs_to(user@, origin)
}

/// `found` is what the search for a member with standing may yield: `true`
/// only where the store granted the standing to a listed user of the
/// server, `false` only where it denied it to every one of them.
pub open spec fn search_may_find<D: Data>(
    db: &D,
    members: Seq<Result<String, Error>>,
    origin: Seq<char>,
    shortstatehash: u64,
    needed: Standing,
    found: bool,
) -> bool {
    if found {
        exists|i: int|
            0 <= i < members.len() && is_user_of(#[trigger] members[i], origin) && standing_may_be(
                db,
                shortstatehash,
                members[i]->Ok_0@,
                needed,
                true,
            )
    } else {
        forall|i: int|
            0 <= i < members.len() && is_user_of(#[trigger] members[i], origin)
                ==> standing_may_be(db, shortstatehash, members[i]->Ok_0@, needed, false)
    }
}

/// `verdict` is what a policy may say for a server: world-readable and
/// shared history is open to all; invited and joined history is open to a
/// server with a current member who had that standing at the snapshot; an
/// unknown policy is open to none.
pub open spec fn policy_may_allow<D: Data, R: Roster>(
    db: &D,
    roster: &R,
    visibility: HistoryVisibility,
    origin: Seq<char>,
    room_id: Seq<char>,
    shortstatehash: u64,
    verdict: bool,
) -> bool {
    match visibility {
        HistoryVisibility::WorldReadable | HistoryVisibility::Shared => verdict,
        HistoryVisibility::Invited => exists|members: Seq<Result<String, Error>>| #[trigger]
            answers_members(roster, room_id, members) && search_may_find(
                db,
                members,
                origin,
                shortstatehash,
                Standing::Invited,
                verdict,
            ),
        HistoryVisibility::Joined => exists|members: Seq<Result<String, Error>>| #[trigger]
            answers_members(roster, room_id, members) && search_may_find(
                db,
                members,
                origin,
                shortstatehash,
                Standing::Joined,
                verdict,
            ),
        HistoryVisibility::Unrecognized(_) => !verdict,
    }
}

/// The course that a request takes.
pub enum Course {
    /// The store could not answer; the request fails with its error.
    Unavailable(Error),
    /// The store does not know the event: denied.
    UnknownEvent,
    /// A record that the decision needs is corrupt: denied, and not
    /// remembered, so that a repaired record is read again.
    Corrupt(Error),
    /// The verdict for the snapshot was remembered.
    Remembered(u64, bool),
    /// The verdict for the snapshot was worked out from the policy.
    Evaluated(u64, bool),
}

impl Course {
    /// What the caller is told.
    pub open spec fn verdict(self) -> Result<bool, Error> {
        match self {
            Course::Unavailable(e) => Err(e),
            Course::UnknownEvent => Ok(false),
            Course::Corrupt(_) => Ok(false),
            Course::Remembered(_, verdict) => Ok(verdict),
            Course::Evaluated(_, verdict) => Ok(verdict),
        }
    }

    /// What the cache holds afterwards: a remembered verdict is marked as
    /// used, a worked-out verdict is stored, and nothing else touches it.
    pub open spec fn entries_after(self, entries: Seq<CacheEntry>, limit: nat, origin: Seq<char>) -> Seq<
        CacheEntry,
    > {
        match self {
            Course::Remembered(shortstatehash, _) => refreshed(entries, (origin, shortstatehash)),
            Course::Evaluated(shortstatehash, verdict) => inserted(
                entries,
                limit,
                (origin, shortstatehash),
                verdict,
            ),
            _ => entries,
        }
    }
}

/// The course after a failed read: a corrupt record denies, anything else
/// fails the request.
pub open spec fn course_of_failure(e: Error) -> Course {
    if e.is_corruption() {
        Course::Corrupt(e)
    } else {
        Course::Unavailable(e)
    }
}

/// `course` is one that the request may take once the event's snapshot is
/// known: a remembered verdict is returned as it is, and neither store nor
/// roster is asked; otherwise the policy is resolved and applied.
pub open spec fn may_take_at<D: Data, R: Roster>(
    db: &D,
    roster: &R,
    entries: Seq<CacheEntry>,
    origin: Seq<char>,
    room_id: Seq<char>,
    shortstatehash: u64,
    course: Course,
) -> bool {
    match lookup(entries, (origin, shortstatehash)) {
        Some(verdict) => course == Course::Remembered(shortstatehash, verdict),
        None => exists|visibility: Result<HistoryVisibility, Error>| #[trigger]
            history_visibility_may_be(db, shortstatehash, visibility) && match visibility {
                Err(e) => course == course_of_failure(e),
                Ok(policy) => course matches Course::Evaluated(at, verdict) && at == shortstatehash
                    && policy_may_allow(
                    db,
                    roster,
                    policy,
                    origin,
                    room_id,
                    shortstatehash,
                    verdict,
                ),
            },
    }
}

/// `course` is one that the request "may `origin` see `event_id` of
/// `room_id`" may take, given what the cache holds and what the store and
/// the roster may answer.
pub open spec fn may_take<D: Data, R: Roster>(
    db: &D,
    roster: &R,
    entries: Seq<CacheEntry>,
    origin: Seq<char>,
    room_id: Seq<char>,
    event_id: Seq<char>,
    course: Course,
) -> bool {
    exists|snapshot: Result<Option<u64>, Error>| #[trigger]
        answers_snapshot(db, event_id, snapshot) && match snapshot {
            Err(e) => course == course_of_failure(e),
            Ok(None) => course == Course::UnknownEvent,
            Ok(Some(shortstatehash)) => may_take_at(
                db,
                roster,
                entries,
                origin,
                room_id,
                shortstatehash,
                course,
            ),
        }
}

/// Read access to room state at a point in time, and the decision whether a
/// remote server may see an event.
pub struct Service<D: Data, R: Roster> {
    /// The snapshot store.
    pub db: D,
    /// The live membership index.
    pub roster: R,
    /// Verdicts by (server name, snapshot).
    pub server_visibility_cache: VisibilityCache,
}

impl<D: Data, R: Roster> Service<D, R> {
    /// `course` is one that [`Service::server_can_see_event`] may take from
    /// this state.
    pub open spec fn may_take(
        &self,
        origin: Seq<char>,
        room_id: Seq<char>,
        event_id: Seq<char>,
        course: Course,
    ) -> bool {
        may_take(
            &self.db,
            &self.roster,
            self.server_visibility_cache.entries(),
            origin,
            room_id,
            event_id,
            course,
        )
    }

    /// Returns the identifier of the event under (`event_type`, `state_key`)
    /// in a snapshot: the store's answer.
    pub fn state_get_id(&self, shortstatehash: u64, event_type: &StateEventType, state_key: &str) -> (id:
        Result<Option<String>, Error>)
        ensures
            answers_state_id(&self.db, shortstatehash, *event_type, state_key@, id),
    {
        self.db.state_get_id(shortstatehash, event_type, state_key)
    }

    /// Returns the event under (`event_type`, `state_key`) in a snapshot:
    /// the store's answer.
    pub fn state_get(&self, shortstatehash: u64, event_type: &StateEventType, state_key: &str) -> (entry:
        Result<Option<Arc<PduEvent>>, Error>)
        ensures
            answers_state(&self.db, shortstatehash, *event_type, state_key@, entry),
    {
        self.db.state_get(shortstatehash, event_type, state_key)
    }

    /// Returns the membership of a user at a snapshot: `Leave` where the
    /// snapshot has no record of the user.
    pub fn user_membership(&self, shortstatehash: u64, user_id: &str) -> (membership: Result<
        MembershipState,
        Error,
    >)
        ensures
            membership_may_be(&self.db, shortstatehash, user_id@, membership),
    {
        let entry = self.state_get(shortstatehash, &StateEventType::RoomMember, user_id);
        assert(answers_state(
            &self.db,
            shortstatehash,
            StateEventType::RoomMember,
            user_id@,
            entry,
        ));
        resolve_membership(entry)
    }

    /// The user was a joined member at this snapshot (potentially in the
    /// past). A membership that cannot be read yields `false`.
    pub fn user_was_joined(&self, shortstatehash: u64, user_id: &str) -> (joined: bool)
        ensures
            standing_may_be(&self.db, shortstatehash, user_id@, Standing::Joined, joined),
    {
        let membership = self.user_membership(shortstatehash, user_id);
        assert(membership_may_be(&self.db, shortstatehash, user_id@, membership));
        match membership {
            Ok(state) => state.is_joined(),
            Err(_) => false,
        }
    }

    /// The user was an invited or joined room member at this snapshot
    /// (potentially in the past). A membership that cannot be read yields
    /// `false`.
    pub fn user_was_invited(&self, shortstatehash: u64, user_id: &str) -> (invited: bool)
        ensures
            standing_may_be(&self.db, shortstatehash, user_id@, Standing::Invited, invited),
    {
        let membership = self.user_membership(shortstatehash, user_id);
        assert(membership_may_be(&self.db, shortstatehash, user_id@, membership));
        match membership {
            Ok(state) => state.is_invited_or_joined(),
            Err(_) => false,
        }
    }

    /// Returns the history-visibility policy at a snapshot: `Shared` where
    /// the snapshot has no such record.
    pub fn history_visibility(&self, shortstatehash: u64) -> (visibility: Result<
        HistoryVisibility,
        Error,
    >)
        ensures
            history_visibility_may_be(&self.db, shortstatehash, visibility),
    {
        let entry = self.state_get(shortstatehash, &StateEventType::RoomHistoryVisibility, "");
        proof {
            reveal_strlit("");
            assert(""@ =~= Seq::<char>::empty());
            assert(answers_state(
                &self.db,
                shortstatehash,
                StateEventType::RoomHistoryVisibility,
                Seq::<char>::empty(),
                entry,
            ));
        }
        resolve_history_visibility(entry)
    }

    /// Whether any of the listed members is a user of `origin` who had the
    /// needed standing at the snapshot. Stops at the first one found.
    fn any_member_had_standing(
        &self,
        members: &Vec<Result<String, Error>>,
        origin: &String,
        shortstatehash: u64,
        needed: &Standing,
    ) -> (found: bool)
        ensures
            search_may_find(&self.db, members@, origin@, shortstatehash, *needed, found),
    {
        let mut i: usize = 0;
        while i < members.len()
            invariant
                i <= members.len(),
                forall|j: int|
                    0 <= j < i && is_user_of(#[trigger] members@[j], origin@) ==> standing_may_be(
                        &self.db,
                        shortstatehash,
                        members@[j]->Ok_0@,
                        *needed,
                        false,
                    ),
            decreases members.len() - i,
        {
            match &members[i] {
                Ok(user) => {
                    if user_is_on_server(user.as_str(), origin) {
                        let had = match needed {
                            Standing::Invited => self.user_was_invited(shortstatehash, user.as_str()),
                            Standing::Joined => self.user_was_joined(shortstatehash, user.as_str()),
                        };
                        if had {
                            assert(is_user_of(members@[i as int], origin@));
                            return true;
                        }
                    }
                },
                Err(_) => {},
            }
            i += 1;
        }
        false
    }

    /// Whether a server is allowed to see an event through federation, based
    /// on the room's history visibility at that event's state.
    ///
    /// An unknown event is denied. A verdict that is remembered for the
    /// server and the event's snapshot is returned as it is. Otherwise the
    /// policy of the snapshot is applied to the room's current members of
    /// that server, and the verdict is remembered. A corrupt record denies
    /// without being remembered. Only a store that cannot answer makes the
    /// request fail.
    pub fn server_can_see_event(&mut self, origin: &str, room_id: &str, event_id: &str) -> (allowed:
        Result<bool, Error>)
        ensures
            final(self).db == old(self).db,
            final(self).roster == old(self).roster,
            final(self).server_visibility_cache.limit() == old(self).server_visibility_cache.limit(),
            exists|course: Course| #[trigger]
                old(self).may_take(origin@, room_id@, event_id@, course) && allowed
                    == course.verdict() && final(self).server_visibility_cache.entries()
                    == course.entries_after(
                    old(self).server_visibility_cache.entries(),
                    old(self).server_visibility_cache.limit(),
                    origin@,
                ),
    {
        let ghost before = *self;
        let snapshot = self.pdu_shortstatehash(event_id);
        let shortstatehash = match snapshot {
            Ok(Some(shortstatehash)) => shortstatehash,
            Ok(None) => {
                assert(before.may_take(origin@, room_id@, event_id@, Course::UnknownEvent));
                return Ok(false);
            },
            Err(e) => {
                assert(before.may_take(origin@, room_id@, event_id@, course_of_failure(e)));
                return deny_unless_unavailable(e);
            },
        };

        if let Some(visibility) = self.server_visibility_cache.get(origin, shortstatehash) {
            assert(before.may_take(
                origin@,
                room_id@,
                event_id@,
                Course::Remembered(shortstatehash, visibility),
            ));
            return Ok(visibility);
        }
        assert(self.server_visibility_cache.entries() == before.server_visibility_cache.entries());

        let history_visibility = match self.history_visibility(shortstatehash) {
            Ok(history_visibility) => history_visibility,
            Err(e) => {
                assert(history_visibility_may_be(
                    &before.db,
                    shortstatehash,
                    Err::<HistoryVisibility, Error>(e),
                ));
                assert(before.may_take(origin@, room_id@, event_id@, course_of_failure(e)));
                return deny_unless_unavailable(e);
            },
        };
        assert(history_visibility_may_be(
            &before.db,
            shortstatehash,
            Ok::<HistoryVisibility, Error>(history_visibility),
        ));

        let visibility = match history_visibility {
            HistoryVisibility::WorldReadable | HistoryVisibility::Shared => true,
            HistoryVisibility::Invited => {
                // Allow if any member on the requesting server was at least invited, else deny
                let members = self.roster.room_members(room_id);
                assert(answers_members(&before.roster, room_id@, members@));
                self.any_member_had_standing(
                    &members,
                    &origin.to_owned(),
                    shortstatehash,
                    &Standing::Invited,
                )
            },
            HistoryVisibility::Joined => {
                // Allow if any member on the requesting server was joined, else deny
                let members = self.roster.room_members(room_id);
                assert(answers_members(&before.roster, room_id@, members@));
                self.any_member_had_standing(
                    &members,
                    &origin.to_owned(),
                    shortstatehash,
                    &Standing::Joined,
                )
            },
            HistoryVisibility::Unrecognized(_) => false,
        };
        assert(policy_may_allow(
            &before.db,
            &before.roster,
            history_visibility,
            origin@,
            room_id@,
            shortstatehash,
            visibility,
        ));
        assert(before.may_take(
            origin@,
            room_id@,
            event_id@,
            Course::Evaluated(shortstatehash, visibility),
        ));

        self.server_visibility_cache.insert(origin, shortstatehash, visibility);

        Ok(visibility)
    }

    /// Returns the snapshot identifier for this event: the store's answer.
    pub fn pdu_shortstatehash(&self, event_id: &str) -> (shortstatehash: Result<Option<u64>, Error>)
        ensures
            answers_snapshot(&self.db, event_id@, shortstatehash),
    {
        self.db.pdu_shortstatehash(event_id)
    }

    /// Returns the identifier of the event under (`event_type`, `state_key`)
    /// in a room's current state: the store's answer.
    pub fn room_state_get_id(&self, room_id: &str, event_type: &StateEventType, state_key: &str) -> (id:
        Result<Option<String>, Error>)
        ensures
            answers_room_state_id(&self.db, room_id@, *event_type, state_key@, id),
    {
        self.db.room_state_get_id(room_id, event_type, state_key)
    }

    /// Returns the event under (`event_type`, `state_key`) in a room's
    /// current state: the store's answer.
    pub fn room_state_get(&self, room_id: &str, event_type: &StateEventType, state_key: &str) -> (entry:
        Result<Option<Arc<PduEvent>>, Error>)
        ensures
            answers_room_state(&self.db, room_id@, *event_type, state_key@, entry),
    {
        self.db.room_state_get(room_id, event_type, state_key)
    }
}

/// What a request is answered after a failed read: a corrupt record denies,
/// anything else is passed on as the failure it is.
pub fn deny_unless_unavailable(e: Error) -> (answer: Result<bool, Error>)
    ensures
        answer == course_of_failure(e).verdict(),
{
    match e {
        Error::BadDatabase(_) => Ok(false),
        Error::Unavailable(_) => Err(e),
    }
}

} // verus!
