//! What holds of the visibility decision across requests.
//!
//! Each statement is over [`may_take`], the relation by which
//! [`Service::server_can_see_event`](crate::Service::server_can_see_event)
//! is specified, so it holds of every request that the service answers.
//! Where a statement needs a collaborator to say one thing, it asks that
//! the collaborator knows no other answer.

use crate::cache::distinct_keys;
use crate::cache::lemma_inserted_is_found;
use crate::cache::lemma_inserted_keeps_shape;
use crate::cache::lemma_refreshed_keeps_shape;
use crate::cache::lemma_refreshed_keeps_verdicts;
use crate::cache::lookup;
use crate::cache::CacheEntry;
use crate::content::history_visibility_in;
use crate::data::members_are;
use crate::data::snapshot_is;
use crate::data::state_is;
use crate::data::Data;
use crate::data::Roster;
use crate::error::Error;
use crate::event::HistoryVisibility;
use crate::event::MembershipState;
use crate::event::PduEvent;
use crate::event::StateEventType;
use crate::service::history_visibility_may_be;
use crate::service::is_user_of;
use crate::service::may_take;
use crate::service::membership_may_be;
use crate::service::policy_may_allow;
use crate::service::search_may_find;
use crate::service::standing_may_be;
use crate::service::stood;
use crate::service::Course;
use crate::service::Standing;
use std::sync::Arc;
use vstd::prelude::*;

verus! {

/// Resolving the user's membership at the snapshot can yield this and
/// nothing else.
pub open spec fn membership_is<D: Data>(
    db: &D,
    shortstatehash: u64,
    user_id: Seq<char>,
    membership: Result<MembershipState, Error>,
) -> bool {
    forall|other: Result<MembershipState, Error>| #[trigger]
        membership_may_be(db, shortstatehash, user_id, other) ==> other == membership
}

/// Resolving the history-visibility policy at the snapshot can yield this
/// and nothing else.
pub open spec fn history_visibility_is<D: Data>(
    db: &D,
    shortstatehash: u64,
    visibility: Result<HistoryVisibility, Error>,
) -> bool {
    forall|other: Result<HistoryVisibility, Error>| #[trigger]
        history_visibility_may_be(db, shortstatehash, other) ==> other == visibility
}

/// A request leaves the cache in order, whatever course it takes: no key
/// twice, never more entries than the limit.
pub proof fn cache_stays_in_order(
    entries: Seq<CacheEntry>,
    limit: nat,
    origin: Seq<char>,
    course: Course,
)
    requires
        distinct_keys(entries),
        entries.len() <= limit,
    ensures
        distinct_keys(course.entries_after(entries, limit, origin)),
        course.entries_after(entries, limit, origin).len() <= limit,
{
    match course {
        Course::Remembered(shortstatehash, _) => {
            lemma_refreshed_keeps_shape(entries, (origin, shortstatehash));
        },
        Course::Evaluated(shortstatehash, verdict) => {
            lemma_inserted_keeps_shape(entries, limit, (origin, shortstatehash), verdict);
        },
        _ => {},
    }
}

/// A request that returns a remembered verdict found it in the cache.
pub proof fn remembered_was_in_cache<D: Data, R: Roster>(
    db: &D,
    roster: &R,
    entries: Seq<CacheEntry>,
    origin: Seq<char>,
    room_id: Seq<char>,
    event_id: Seq<char>,
    shortstatehash: u64,
    verdict: bool,
)
    requires
        may_take(
            db,
            roster,
            entries,
            origin,
            room_id,
            event_id,
            Course::Remembered(shortstatehash, verdict),
        ),
    ensures
        lookup(entries, (origin, shortstatehash)) == Some(verdict),
{
}

/// Memoization: once a request has reached a verdict for a server and a
/// snapshot, by working it out or by finding it, the next request of that
/// server for an event of the same snapshot is answered from the cache with
/// the same verdict. On that course neither store nor roster is asked
/// about the policy or the members, so what they would say has no part in
/// it.
///
/// The cache must keep at least one entry: one that keeps none forgets each
/// verdict at once.
pub proof fn verdict_is_remembered<D: Data, R: Roster>(
    db: &D,
    roster: &R,
    later_db: &D,
    later_roster: &R,
    entries: Seq<CacheEntry>,
    limit: nat,
    origin: Seq<char>,
    room_id: Seq<char>,
    event_id: Seq<char>,
    later_room_id: Seq<char>,
    later_event_id: Seq<char>,
    shortstatehash: u64,
    verdict: bool,
    first: Course,
    second: Course,
)
    requires
        distinct_keys(entries),
        entries.len() <= limit,
        limit >= 1,
        may_take(db, roster, entries, origin, room_id, event_id, first),
        first == Course::Evaluated(shortstatehash, verdict) || first == Course::Remembered(
            shortstatehash,
            verdict,
        ),
        snapshot_is(later_db, later_event_id, Some(shortstatehash)),
        may_take(
            later_db,
            later_roster,
            first.entries_after(entries, limit, origin),
            origin,
            later_room_id,
            later_event_id,
            second,
        ),
    ensures
        second == Course::Remembered(shortstatehash, verdict),
{
    let key = (origin, shortstatehash);
    if first == Course::Evaluated(shortstatehash, verdict) {
        lemma_inserted_is_found(entries, limit, key, verdict);
    } else {
        remembered_was_in_cache(
            db,
            roster,
            entries,
            origin,
            room_id,
            event_id,
            shortstatehash,
            verdict,
        );
        lemma_refreshed_keeps_verdicts(entries, key, key);
    }
}

/// The cache after a row of requests of one server that took these courses.
pub open spec fn entries_after_all(
    entries: Seq<CacheEntry>,
    limit: nat,
    origin: Seq<char>,
    courses: Seq<Course>,
) -> Seq<CacheEntry>
    decreases courses.len(),
{
    if courses.len() == 0 {
        entries
    } else {
        courses.last().entries_after(
            entries_after_all(entries, limit, origin, courses.drop_last()),
            limit,
            origin,
        )
    }
}

/// The courses are those of a row of requests, each for the same server,
/// room and event, each starting from the cache that the one before left.
pub open spec fn is_row_of_requests<D: Data, R: Roster>(
    db: &D,
    roster: &R,
    entries: Seq<CacheEntry>,
    limit: nat,
    origin: Seq<char>,
    room_id: Seq<char>,
    event_id: Seq<char>,
    courses: Seq<Course>,
) -> bool {
    forall|k: int|
        0 <= k < courses.len() ==> may_take(
            db,
            roster,
            entries_after_all(entries, limit, origin, courses.take(k)),
            origin,
            room_id,
            event_id,
            #[trigger] courses[k],
        )
}

/// Memoization, for any number of requests: after the request that worked a
/// verdict out, every repetition of it is answered from the cache with that
/// verdict, so the policy is read and the roster listed once only.
pub proof fn every_repetition_is_remembered<D: Data, R: Roster>(
    db: &D,
    roster: &R,
    entries: Seq<CacheEntry>,
    limit: nat,
    origin: Seq<char>,
    room_id: Seq<char>,
    event_id: Seq<char>,
    shortstatehash: u64,
    verdict: bool,
    courses: Seq<Course>,
    k: int,
)
    requires
        distinct_keys(entries),
        entries.len() <= limit,
        limit >= 1,
        snapshot_is(db, event_id, Some(shortstatehash)),
        is_row_of_requests(db, roster, entries, limit, origin, room_id, event_id, courses),
        courses.len() >= 1,
        courses[0] == Course::Evaluated(shortstatehash, verdict),
        1 <= k < courses.len(),
    ensures
        courses[k] == Course::Remembered(shortstatehash, verdict),
        distinct_keys(entries_after_all(entries, limit, origin, courses.take(k))),
        entries_after_all(entries, limit, origin, courses.take(k)).len() <= limit,
    decreases k,
{
    let before = courses.take(k - 1);
    let cache_before = entries_after_all(entries, limit, origin, before);
    assert(courses.take(k).drop_last() == before);
    assert(courses.take(k).last() == courses[k - 1]);
    assert(may_take(db, roster, cache_before, origin, room_id, event_id, courses[k - 1]));
    if k == 1 {
        assert(before.len() == 0);
    } else {
        every_repetition_is_remembered(
            db,
            roster,
            entries,
            limit,
            origin,
            room_id,
            event_id,
            shortstatehash,
            verdict,
            courses,
            k - 1,
        );
    }
    cache_stays_in_order(cache_before, limit, origin, courses[k - 1]);
    verdict_is_remembered(
        db,
        roster,
        db,
        roster,
        cache_before,
        limit,
        origin,
        room_id,
        event_id,
        room_id,
        event_id,
        shortstatehash,
        verdict,
        courses[k - 1],
        courses[k],
    );
}

/// Defaults: a user of whom a snapshot holds no membership record had left,
/// and a snapshot that holds no history-visibility record has shared
/// history.
pub proof fn absent_records_have_defaults<D: Data>(
    db: &D,
    shortstatehash: u64,
    user_id: Seq<char>,
    membership: Result<MembershipState, Error>,
    visibility: Result<HistoryVisibility, Error>,
)
    ensures
        state_is(db, shortstatehash, StateEventType::RoomMember, user_id, None)
            && membership_may_be(db, shortstatehash, user_id, membership) ==> membership == Ok::<
            MembershipState,
            Error,
        >(MembershipState::Leave),
        state_is(
            db,
            shortstatehash,
            StateEventType::RoomHistoryVisibility,
            Seq::<char>::empty(),
            None,
        ) && history_visibility_may_be(db, shortstatehash, visibility) ==> visibility == Ok::<
            HistoryVisibility,
            Error,
        >(HistoryVisibility::Shared),
{
}

/// The roster lists exactly one user of the server, at place `k`.
pub open spec fn sole_member_of_server(
    members: Seq<Result<String, Error>>,
    origin: Seq<char>,
    k: int,
) -> bool {
    &&& 0 <= k < members.len()
    &&& is_user_of(members[k], origin)
    &&& forall|i: int| 0 <= i < members.len() && i != k ==> !is_user_of(#[trigger] members[i], origin)
}

/// The policy matrix for a server with a single current member in the room:
/// invited history is open to the server exactly if that member was invited
/// or joined at the snapshot, joined history exactly if the member was
/// joined. So under invited history a member who was invited lets the
/// server in and one who had left does not; under joined history a member
/// who was joined lets it in and one who was only invited does not.
pub proof fn sole_member_decides<D: Data, R: Roster>(
    db: &D,
    roster: &R,
    members: Seq<Result<String, Error>>,
    origin: Seq<char>,
    room_id: Seq<char>,
    shortstatehash: u64,
    k: int,
    membership: Result<MembershipState, Error>,
    verdict: bool,
)
    requires
        members_are(roster, room_id, members),
        sole_member_of_server(members, origin, k),
        membership_is(db, shortstatehash, members[k]->Ok_0@, membership),
    ensures
        policy_may_allow(
            db,
            roster,
            HistoryVisibility::Invited,
            origin,
            room_id,
            shortstatehash,
            verdict,
        ) ==> verdict == stood(membership, Standing::Invited),
        policy_may_allow(
            db,
            roster,
            HistoryVisibility::Joined,
            origin,
            room_id,
            shortstatehash,
            verdict,
        ) ==> verdict == stood(membership, Standing::Joined),
        stood(Ok::<MembershipState, Error>(MembershipState::Invite), Standing::Invited),
        !stood(Ok::<MembershipState, Error>(MembershipState::Leave), Standing::Invited),
        stood(Ok::<MembershipState, Error>(MembershipState::Join), Standing::Joined),
        !stood(Ok::<MembershipState, Error>(MembershipState::Invite), Standing::Joined),
{
    if policy_may_allow(
        db,
        roster,
        HistoryVisibility::Invited,
        origin,
        room_id,
        shortstatehash,
        verdict,
    ) {
        sole_member_settles_search(
            db,
            members,
            origin,
            shortstatehash,
            k,
            membership,
            Standing::Invited,
            verdict,
        );
    }
    if policy_may_allow(
        db,
        roster,
        HistoryVisibility::Joined,
        origin,
        room_id,
        shortstatehash,
        verdict,
    ) {
        sole_member_settles_search(
            db,
            members,
            origin,
            shortstatehash,
            k,
            membership,
            Standing::Joined,
            verdict,
        );
    }
}

/// With a single user of the server in the listing, the search finds a
/// member with standing exactly if that user had it.
pub proof fn sole_member_settles_search<D: Data>(
    db: &D,
    members: Seq<Result<String, Error>>,
    origin: Seq<char>,
    shortstatehash: u64,
    k: int,
    membership: Result<MembershipState, Error>,
    needed: Standing,
    found: bool,
)
    requires
        sole_member_of_server(members, origin, k),
        membership_is(db, shortstatehash, members[k]->Ok_0@, membership),
        search_may_find(db, members, origin, shortstatehash, needed, found),
    ensures
        found == stood(membership, needed),
{
    if found {
        let i = choose|i: int|
            0 <= i < members.len() && is_user_of(#[trigger] members[i], origin) && standing_may_be(
                db,
                shortstatehash,
                members[i]->Ok_0@,
                needed,
                true,
            );
        assert(i == k);
    } else {
        assert(is_user_of(members[k], origin));
        assert(standing_may_be(db, shortstatehash, members[k]->Ok_0@, needed, false));
    }
}

/// World-readable and shared history is open to every server, whoever is in
/// the room now, even if nobody is: a request that has to work its verdict
/// out under such a policy is allowed.
pub proof fn open_history_is_visible_to_all<D: Data, R: Roster>(
    db: &D,
    roster: &R,
    entries: Seq<CacheEntry>,
    origin: Seq<char>,
    room_id: Seq<char>,
    event_id: Seq<char>,
    shortstatehash: u64,
    visibility: HistoryVisibility,
    course: Course,
)
    requires
        visibility is WorldReadable || visibility is Shared,
        snapshot_is(db, event_id, Some(shortstatehash)),
        lookup(entries, (origin, shortstatehash)) is None,
        history_visibility_is(db, shortstatehash, Ok(visibility)),
        may_take(db, roster, entries, origin, room_id, event_id, course),
    ensures
        course == Course::Evaluated(shortstatehash, true),
        course.verdict() == Ok::<bool, Error>(true),
{
}

/// An event that the store does not know is denied, and the cache is left
/// as it was.
pub proof fn unknown_event_is_denied<D: Data, R: Roster>(
    db: &D,
    roster: &R,
    entries: Seq<CacheEntry>,
    limit: nat,
    origin: Seq<char>,
    room_id: Seq<char>,
    event_id: Seq<char>,
    course: Course,
)
    requires
        snapshot_is(db, event_id, None),
        may_take(db, roster, entries, origin, room_id, event_id, course),
    ensures
        course == Course::UnknownEvent,
        course.verdict() == Ok::<bool, Error>(false),
        course.entries_after(entries, limit, origin) == entries,
{
}

/// Fail-closed on corruption: where the snapshot holds a history-visibility
/// record that does not decode, a request that has to work its verdict out
/// is denied and nothing is remembered. The next request therefore reads the
/// record again, and if the store then holds a valid one, is answered by
/// that policy.
pub proof fn corrupt_policy_is_denied_and_not_remembered<D: Data, R: Roster>(
    db: &D,
    roster: &R,
    later_db: &D,
    later_roster: &R,
    entries: Seq<CacheEntry>,
    limit: nat,
    origin: Seq<char>,
    room_id: Seq<char>,
    event_id: Seq<char>,
    shortstatehash: u64,
    record: Arc<PduEvent>,
    repaired: HistoryVisibility,
    first: Course,
    second: Course,
)
    requires
        snapshot_is(db, event_id, Some(shortstatehash)),
        lookup(entries, (origin, shortstatehash)) is None,
        state_is(
            db,
            shortstatehash,
            StateEventType::RoomHistoryVisibility,
            Seq::<char>::empty(),
            Some(record),
        ),
        history_visibility_in(record.content@) is None,
        may_take(db, roster, entries, origin, room_id, event_id, first),
    ensures
        first is Corrupt,
        first.verdict() == Ok::<bool, Error>(false),
        first.entries_after(entries, limit, origin) == entries,
        snapshot_is(later_db, event_id, Some(shortstatehash)) && history_visibility_is(
            later_db,
            shortstatehash,
            Ok(repaired),
        ) && may_take(
            later_db,
            later_roster,
            first.entries_after(entries, limit, origin),
            origin,
            room_id,
            event_id,
            second,
        ) ==> (second matches Course::Evaluated(at, verdict) && at == shortstatehash
            && policy_may_allow(
            later_db,
            later_roster,
            repaired,
            origin,
            room_id,
            shortstatehash,
            verdict,
        )),
{
}

/// A history-visibility value outside the known ones is denied, and the
/// denial is remembered: the next request for the snapshot is denied from
/// the cache, whatever the store and the roster would then say.
///
/// The cache must keep at least one entry.
pub proof fn unknown_policy_is_denied_and_remembered<D: Data, R: Roster>(
    db: &D,
    roster: &R,
    later_db: &D,
    later_roster: &R,
    entries: Seq<CacheEntry>,
    limit: nat,
    origin: Seq<char>,
    room_id: Seq<char>,
    event_id: Seq<char>,
    shortstatehash: u64,
    visibility: HistoryVisibility,
    first: Course,
    second: Course,
)
    requires
        distinct_keys(entries),
        entries.len() <= limit,
        limit >= 1,
        snapshot_is(db, event_id, Some(shortstatehash)),
        lookup(entries, (origin, shortstatehash)) is None,
        history_visibility_is(db, shortstatehash, Ok(visibility)),
        visibility is Unrecognized,
        may_take(db, roster, entries, origin, room_id, event_id, first),
        snapshot_is(later_db, event_id, Some(shortstatehash)),
        may_take(
            later_db,
            later_roster,
            first.entries_after(entries, limit, origin),
            origin,
            room_id,
            event_id,
            second,
        ),
    ensures
        first == Course::Evaluated(shortstatehash, false),
        first.verdict() == Ok::<bool, Error>(false),
        second == Course::Remembered(shortstatehash, false),
        second.verdict() == Ok::<bool, Error>(false),
{
    assert(first == Course::Evaluated(shortstatehash, false));
    verdict_is_remembered(
        db,
        roster,
        later_db,
        later_roster,
        entries,
        limit,
        origin,
        room_id,
        event_id,
        room_id,
        event_id,
        shortstatehash,
        false,
        first,
        second,
    );
}

} // verus!
