//! Looking a user up by id before adding them as a friend.
//!
//! The lookup asks the database up to three questions; `FriendInfoLookup`
//! decides, from each answer, the next question or the reply.

use vstd::prelude::*;
use crate::records::{UserRecord, flag_set, copy_text, read_flag};

verus! {

/// The query string of the lookup; a missing query looks up the empty id.
pub struct FetchFriendInfoByUserIdQuery {
    pub search_user_id: String,
}

impl Default for FetchFriendInfoByUserIdQuery {
    fn default() -> (q: Self)
        ensures
            q.search_user_id@ == Seq::<char>::empty(),
    {
        FetchFriendInfoByUserIdQuery { search_user_id: String::new() }
    }
}

/// The reply of the lookup.
pub struct FetchFriendInfoByUserIdResult {
    pub exist_user_id: bool,
    pub already_follow_requested: bool,
    pub friend_search_flag: bool,
    pub friend_use_id: Option<String>,
    pub friend_profile_image: Option<String>,
    pub friend_nickname: Option<String>,
}

/// Where the lookup stands.
pub enum FriendInfoStage {
    /// Waiting for the number of users with the id searched for.
    CountingUser,
    /// Waiting for the rows of that user.
    LoadingUser,
    /// Waiting for the number of follows from the asking user to `friend`.
    CountingFollow { friend: UserRecord },
    /// The reply has been given.
    Done,
}

/// The lookup of `search_user_id` on behalf of `user_id`.
pub struct FriendInfoLookup {
    pub user_id: String,
    pub search_user_id: String,
    pub stage: FriendInfoStage,
}

/// What the lookup asks of the database, or its reply.
pub enum FriendInfoAction {
    /// `SELECT count(*) FROM user WHERE id = ?`
    CountUsers { id: String },
    /// `SELECT * FROM user WHERE id = ?`
    FindUser { id: String },
    /// `SELECT count(*) FROM follow WHERE to_user_id = ? AND from_user_id = ?`
    CountFollows { to_user_id: String, from_user_id: String },
    Reply(FetchFriendInfoByUserIdResult),
}

/// The database's answer to the last question.
pub enum FriendInfoEvent {
    /// The count of a `count(*)` question.
    Counted(i64),
    /// The rows of a `SELECT *` question.
    Found(Vec<UserRecord>),
}

/// The reply when no user has the id searched for: nothing is revealed.
pub open spec fn user_not_found() -> FetchFriendInfoByUserIdResult {
    FetchFriendInfoByUserIdResult {
        exist_user_id: false,
        already_follow_requested: false,
        friend_search_flag: false,
        friend_use_id: None,
        friend_profile_image: None,
        friend_nickname: None,
    }
}

/// The reply about an existing user `friend`: its id, whether it may be
/// found by search, and whether the asking user follows it (the follow
/// count is one). Its image and nickname are shown to a follower, or when
/// the user may be found by search; otherwise they are withheld.
pub open spec fn user_found(friend: UserRecord, follow_count: i64) -> FetchFriendInfoByUserIdResult {
    let shown = follow_count == 1 || flag_set(friend.search_flag);
    FetchFriendInfoByUserIdResult {
        exist_user_id: true,
        already_follow_requested: follow_count == 1,
        friend_search_flag: flag_set(friend.search_flag),
        friend_use_id: Some(friend.id),
        friend_profile_image: if shown { friend.profile_image } else { None },
        friend_nickname: if shown { friend.nickname } else { None },
    }
}

impl FriendInfoLookup {
    /// Whether `event` answers the question that the lookup asked last.
    pub open spec fn expects(self, event: FriendInfoEvent) -> bool {
        match self.stage {
            FriendInfoStage::CountingUser => event is Counted,
            FriendInfoStage::LoadingUser => event matches FriendInfoEvent::Found(rows) && rows@.len() > 0,
            FriendInfoStage::CountingFollow { .. } => event is Counted,
            FriendInfoStage::Done => false,
        }
    }

    /// The lookup after `event`, and what it does next. A user exists when
    /// exactly one row has the id; the first row found is the user read.
    pub open spec fn next(self, event: FriendInfoEvent) -> (FriendInfoLookup, FriendInfoAction) {
        let user_id = self.user_id;
        let search_user_id = self.search_user_id;
        match (self.stage, event) {
            (FriendInfoStage::CountingUser, FriendInfoEvent::Counted(n)) => {
                if n == 1 {
                    (
                        FriendInfoLookup { user_id, search_user_id, stage: FriendInfoStage::LoadingUser },
                        FriendInfoAction::FindUser { id: search_user_id },
                    )
                } else {
                    (
                        FriendInfoLookup { user_id, search_user_id, stage: FriendInfoStage::Done },
                        FriendInfoAction::Reply(user_not_found()),
                    )
                }
            },
            (FriendInfoStage::LoadingUser, FriendInfoEvent::Found(rows)) => (
                FriendInfoLookup {
                    user_id,
                    search_user_id,
                    stage: FriendInfoStage::CountingFollow { friend: rows@[0] },
                },
                FriendInfoAction::CountFollows { to_user_id: search_user_id, from_user_id: user_id },
            ),
            (FriendInfoStage::CountingFollow { friend }, FriendInfoEvent::Counted(n)) => (
                FriendInfoLookup { user_id, search_user_id, stage: FriendInfoStage::Done },
                FriendInfoAction::Reply(user_found(friend, n)),
            ),
            (stage, _) => (FriendInfoLookup { user_id, search_user_id, stage }, FriendInfoAction::Reply(user_not_found())),
        }
    }

    /// How many more answers the lookup can take.
    pub open spec fn remaining(self) -> nat {
        match self.stage {
            FriendInfoStage::CountingUser => 3,
            FriendInfoStage::LoadingUser => 2,
            FriendInfoStage::CountingFollow { .. } => 1,
            FriendInfoStage::Done => 0,
        }
    }

    /// Starts the lookup of `search_user_id` for `user_id`: it first counts
    /// the users with that id.
    pub fn start(user_id: String, search_user_id: String) -> (r: (FriendInfoLookup, FriendInfoAction))
        ensures
            r.0 == (FriendInfoLookup { user_id, search_user_id, stage: FriendInfoStage::CountingUser }),
            r.1 == (FriendInfoAction::CountUsers { id: search_user_id }),
    {
        let id = search_user_id.clone();
        (FriendInfoLookup { user_id, search_user_id, stage: FriendInfoStage::CountingUser }, FriendInfoAction::CountUsers { id })
    }

    /// Whether `event` answers the question that the lookup asked last.
    pub fn accepts(&self, event: &FriendInfoEvent) -> (b: bool)
        ensures
            b == self.expects(*event),
    {
        match (&self.stage, event) {
            (FriendInfoStage::CountingUser, FriendInfoEvent::Counted(_)) => true,
            (FriendInfoStage::LoadingUser, FriendInfoEvent::Found(rows)) => rows.len() > 0,
            (FriendInfoStage::CountingFollow { .. }, FriendInfoEvent::Counted(_)) => true,
            _ => false,
        }
    }

    /// Takes the database's answer and decides what comes next.
    pub fn step(self, event: FriendInfoEvent) -> (r: (FriendInfoLookup, FriendInfoAction))
        requires
            self.expects(event),
        ensures
            r == self.next(event),
    {
        let FriendInfoLookup { user_id, search_user_id, stage } = self;
        match (stage, event) {
            (FriendInfoStage::CountingUser, FriendInfoEvent::Counted(n)) => {
                if n == 1 {
                    let id = search_user_id.clone();
                    (FriendInfoLookup { user_id, search_user_id, stage: FriendInfoStage::LoadingUser }, FriendInfoAction::FindUser { id })
                } else {
                    let reply = FetchFriendInfoByUserIdResult {
                        exist_user_id: false,
                        already_follow_requested: false,
                        friend_search_flag: false,
                        friend_use_id: None,
                        friend_profile_image: None,
                        friend_nickname: None,
                    };
                    (FriendInfoLookup { user_id, search_user_id, stage: FriendInfoStage::Done }, FriendInfoAction::Reply(reply))
                }
            },
            (FriendInfoStage::LoadingUser, FriendInfoEvent::Found(rows)) => {
                let mut rows = rows;
                let friend = rows.swap_remove(0);
                let to_user_id = search_user_id.clone();
                let from_user_id = user_id.clone();
                (
                    FriendInfoLookup { user_id, search_user_id, stage: FriendInfoStage::CountingFollow { friend } },
                    FriendInfoAction::CountFollows { to_user_id, from_user_id },
                )
            },
            (FriendInfoStage::CountingFollow { friend }, FriendInfoEvent::Counted(n)) => {
                let already = n == 1;
                let searchable = read_flag(friend.search_flag);
                let shown = already || searchable;
                let reply = FetchFriendInfoByUserIdResult {
                    exist_user_id: true,
                    already_follow_requested: already,
                    friend_search_flag: searchable,
                    friend_use_id: Some(friend.id.clone()),
                    friend_profile_image: if shown { copy_text(&friend.profile_image) } else { None },
                    friend_nickname: if shown { copy_text(&friend.nickname) } else { None },
                };
                (FriendInfoLookup { user_id, search_user_id, stage: FriendInfoStage::Done }, FriendInfoAction::Reply(reply))
            },
            (stage, _) => {
                proof { assert(false); }
                let reply = FetchFriendInfoByUserIdResult {
                    exist_user_id: false,
                    already_follow_requested: false,
                    friend_search_flag: false,
                    friend_use_id: None,
                    friend_profile_image: None,
                    friend_nickname: None,
                };
                (FriendInfoLookup { user_id, search_user_id, stage }, FriendInfoAction::Reply(reply))
            },
        }
    }
}

/// A reply about an id that no user has says only that: every other field
/// is false or empty.
pub proof fn lemma_missing_user_reveals_nothing(m: FriendInfoLookup, e: FriendInfoEvent)
    requires
        m.expects(e),
    ensures
        m.next(e).1 matches FriendInfoAction::Reply(r) ==> (r.exist_user_id || r == user_not_found()),
        m.next(e).1 matches FriendInfoAction::Reply(r) ==> (r.exist_user_id || (
            !r.already_follow_requested && !r.friend_search_flag && r.friend_use_id is None
                && r.friend_profile_image is None && r.friend_nickname is None)),
{
}

/// The first answer decides whether the user exists: a count of exactly
/// one asks for that user's rows; any other count replies that no such
/// user exists, revealing nothing else.
pub proof fn lemma_user_count_decides(m: FriendInfoLookup, n: i64)
    requires
        m.stage is CountingUser,
    ensures
        n == 1 ==> m.next(FriendInfoEvent::Counted(n)).1 == (FriendInfoAction::FindUser { id: m.search_user_id }),
        n != 1 ==> (m.next(FriendInfoEvent::Counted(n)).1 matches FriendInfoAction::Reply(r)
            && !r.exist_user_id && !r.already_follow_requested && !r.friend_search_flag
            && r.friend_use_id is None && r.friend_profile_image is None && r.friend_nickname is None),
{
}

/// Once the user's rows are read, the lookup counts the follows from the
/// asking user to the user looked up.
pub proof fn lemma_follow_is_counted(m: FriendInfoLookup, rows: Vec<UserRecord>)
    requires
        m.stage is LoadingUser,
        rows@.len() > 0,
    ensures
        m.next(FriendInfoEvent::Found(rows)).1
            == (FriendInfoAction::CountFollows { to_user_id: m.search_user_id, from_user_id: m.user_id }),
        m.next(FriendInfoEvent::Found(rows)).0.stage == (FriendInfoStage::CountingFollow { friend: rows@[0] }),
{
}

/// The reply about an existing user `friend`, whose follow count from the
/// asking user is `n`: it names the user, reports the follow (a count of
/// one) and the search flag (a column of one), and carries the user's image
/// and nickname unchanged to a follower or when the user may be found by
/// search, and neither otherwise.
pub proof fn lemma_reply_about_existing_user(m: FriendInfoLookup, friend: UserRecord, n: i64)
    requires
        m.stage == (FriendInfoStage::CountingFollow { friend }),
    ensures
        m.next(FriendInfoEvent::Counted(n)).1 matches FriendInfoAction::Reply(r)
            && r.exist_user_id
            && r.already_follow_requested == (n == 1)
            && r.friend_search_flag == (friend.search_flag == 1)
            && r.friend_use_id == Some(friend.id)
            && ((n == 1 || friend.search_flag == 1) ==> (r.friend_profile_image == friend.profile_image
                && r.friend_nickname == friend.nickname))
            && (!(n == 1 || friend.search_flag == 1) ==> (r.friend_profile_image is None
                && r.friend_nickname is None)),
{
}

/// A reply about an existing user names that user.
pub proof fn lemma_found_user_is_named(m: FriendInfoLookup, e: FriendInfoEvent)
    requires
        m.expects(e),
    ensures
        m.next(e).1 matches FriendInfoAction::Reply(r) ==> (r.exist_user_id ==> r.friend_use_id is Some),
{
}

/// The lookup replies exactly when it finishes, and every answer brings it
/// closer to the end: it replies after at most three answers, and a
/// finished lookup takes no more.
pub proof fn lemma_lookup_ends(m: FriendInfoLookup, e: FriendInfoEvent)
    requires
        m.expects(e),
    ensures
        m.next(e).0.remaining() < m.remaining(),
        m.remaining() <= 3,
        (m.next(e).1 is Reply) <==> (m.next(e).0.stage is Done),
        m.next(e).0.stage is Done ==> forall|e2: FriendInfoEvent| !m.next(e).0.expects(e2),
{
}

/// A user who may not be found by search keeps their image and nickname
/// from anyone who does not follow them.
pub proof fn lemma_hidden_user_keeps_profile(m: FriendInfoLookup, e: FriendInfoEvent)
    requires
        m.expects(e),
    ensures
        m.next(e).1 matches FriendInfoAction::Reply(r) ==> (
            (r.exist_user_id && !r.already_follow_requested && !r.friend_search_flag)
                ==> (r.friend_profile_image is None && r.friend_nickname is None)),
{
}

} // verus!
