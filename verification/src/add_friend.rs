//! Adding a friend.
//!
//! Two users who follow each other share one direct chat room. When the
//! user already follows the friend, the request is a repeat and nothing is
//! written: the reply names the room of that follow. Otherwise, when the
//! friend already follows the user, their room is reused and only the
//! user's follow is added; when neither follows the other, a new room is
//! created with both as members, and the user's follow points to it.
//! `AddFriend` decides, from each answer of the database, the next
//! statement or the reply.

use vstd::prelude::*;
use crate::decimal::{decimal, to_decimal_string};
use crate::models::Follow;
use crate::records::{UserRecord, copy_text};

verus! {

/// The reply to adding a friend: the room the two talk in, and the
/// friend's id, image and nickname.
pub struct AddFriendResult {
    pub direct_chat_room_id: String,
    pub friend_use_id: String,
    pub friend_profile_image: Option<String>,
    pub friend_nickname: Option<String>,
}

/// Where adding a friend stands; `direct_chat_room_id` is the room of the
/// two users, in decimal.
pub enum AddFriendStage {
    /// Waiting for the follows from the user to the friend.
    CheckingOwnFollow,
    /// Waiting for the follows from the friend to the user.
    CheckingReverseFollow,
    /// Waiting for the id of the new `direct_chat_room` row.
    CreatingRoom,
    /// Waiting for the insert of the user as a member of the room.
    AddingOwnMember { direct_chat_room_id: String },
    /// Waiting for the insert of the friend as a member of the room.
    AddingFriendMember { direct_chat_room_id: String },
    /// Waiting for the insert of the follow from the user to the friend.
    AddingFollow { direct_chat_room_id: String },
    /// Waiting for the rows of the friend.
    LoadingFriend { direct_chat_room_id: String },
    /// The reply has been given.
    Done,
}

/// `user_id` adding `friend_user_id` as a friend at time `now`.
pub struct AddFriend {
    pub user_id: String,
    pub friend_user_id: String,
    pub now: u64,
    pub stage: AddFriendStage,
}

/// What adding a friend asks of the database, or its reply.
pub enum AddFriendAction {
    /// `SELECT * FROM follow WHERE to_user_id = ? AND from_user_id = ?`
    FindFollows { to_user_id: String, from_user_id: String },
    /// `INSERT INTO direct_chat_room (created_at)`
    CreateDirectChatRoom { created_at: u64 },
    /// `INSERT INTO direct_member (direct_chat_room_id, user_id, entry_date, last_read_time)`
    AddDirectMember { direct_chat_room_id: String, user_id: String, entry_date: u64, last_read_time: u64 },
    /// `INSERT INTO follow (to_user_id, from_user_id, direct_chat_room_id, created_at)`
    AddFollow { to_user_id: String, from_user_id: String, direct_chat_room_id: String, created_at: u64 },
    /// `SELECT * FROM user WHERE id = ?`
    FindUser { id: String },
    Reply(AddFriendResult),
}

/// The database's answer to the last statement.
pub enum AddFriendEvent {
    /// The rows of a follow query.
    Follows(Vec<Follow>),
    /// The room was inserted with this id.
    RoomCreated { last_insert_id: u64 },
    /// A member or follow row was inserted.
    Inserted,
    /// The rows of a user query.
    Users(Vec<UserRecord>),
}

/// The room of a stage that has one.
pub open spec fn room_of(stage: AddFriendStage) -> String {
    match stage {
        AddFriendStage::AddingOwnMember { direct_chat_room_id } => direct_chat_room_id,
        AddFriendStage::AddingFriendMember { direct_chat_room_id } => direct_chat_room_id,
        AddFriendStage::AddingFollow { direct_chat_room_id } => direct_chat_room_id,
        AddFriendStage::LoadingFriend { direct_chat_room_id } => direct_chat_room_id,
        _ => arbitrary(),
    }
}

impl AddFriend {
    /// `self` with its stage replaced.
    pub open spec fn at(self, stage: AddFriendStage) -> AddFriend {
        AddFriend { stage, ..self }
    }

    /// The query of the follows from the user to the friend.
    pub open spec fn own_follow_query(self) -> AddFriendAction {
        AddFriendAction::FindFollows { to_user_id: self.friend_user_id, from_user_id: self.user_id }
    }

    /// The query of the follows from the friend to the user.
    pub open spec fn reverse_follow_query(self) -> AddFriendAction {
        AddFriendAction::FindFollows { to_user_id: self.user_id, from_user_id: self.friend_user_id }
    }

    /// The insert of `member` into room `room`, at the request's time.
    pub open spec fn member_insert(self, room: String, member: String) -> AddFriendAction {
        AddFriendAction::AddDirectMember {
            direct_chat_room_id: room,
            user_id: member,
            entry_date: self.now,
            last_read_time: self.now,
        }
    }

    /// The insert of the follow from the user to the friend, in room `room`.
    pub open spec fn follow_insert(self, room: String) -> AddFriendAction {
        AddFriendAction::AddFollow {
            to_user_id: self.friend_user_id,
            from_user_id: self.user_id,
            direct_chat_room_id: room,
            created_at: self.now,
        }
    }

    /// The query of the friend's rows.
    pub open spec fn friend_query(self) -> AddFriendAction {
        AddFriendAction::FindUser { id: self.friend_user_id }
    }

    /// The reply about room `room`, from the row `friend` of the friend.
    pub open spec fn reply(self, room: String, friend: UserRecord) -> AddFriendAction {
        AddFriendAction::Reply(AddFriendResult {
            direct_chat_room_id: room,
            friend_use_id: self.friend_user_id,
            friend_profile_image: friend.profile_image,
            friend_nickname: friend.nickname,
        })
    }

    /// Whether `event` answers the statement that was issued last.
    pub open spec fn expects(self, event: AddFriendEvent) -> bool {
        match self.stage {
            AddFriendStage::CheckingOwnFollow => event is Follows,
            AddFriendStage::CheckingReverseFollow => event is Follows,
            AddFriendStage::CreatingRoom => event is RoomCreated,
            AddFriendStage::AddingOwnMember { .. } => event is Inserted,
            AddFriendStage::AddingFriendMember { .. } => event is Inserted,
            AddFriendStage::AddingFollow { .. } => event is Inserted,
            AddFriendStage::LoadingFriend { .. } => event matches AddFriendEvent::Users(rows) && rows@.len() > 0,
            AddFriendStage::Done => false,
        }
    }

    /// After `event`, adding the friend becomes `post` and does `act`.
    pub open spec fn transition(self, event: AddFriendEvent, post: AddFriend, act: AddFriendAction) -> bool {
        match (self.stage, event) {
            (AddFriendStage::CheckingOwnFollow, AddFriendEvent::Follows(rows)) => {
                if rows@.len() == 0 {
                    &&& post == self.at(AddFriendStage::CheckingReverseFollow)
                    &&& act == self.reverse_follow_query()
                } else {
                    &&& post.stage is LoadingFriend
                    &&& post == self.at(post.stage)
                    &&& room_of(post.stage)@ == decimal(rows@[0].direct_chat_room_id as nat)
                    &&& act == self.friend_query()
                }
            },
            (AddFriendStage::CheckingReverseFollow, AddFriendEvent::Follows(rows)) => {
                if rows@.len() == 0 {
                    &&& post == self.at(AddFriendStage::CreatingRoom)
                    &&& act == (AddFriendAction::CreateDirectChatRoom { created_at: self.now })
                } else {
                    &&& post.stage is AddingFollow
                    &&& post == self.at(post.stage)
                    &&& room_of(post.stage)@ == decimal(rows@[0].direct_chat_room_id as nat)
                    &&& act == self.follow_insert(room_of(post.stage))
                }
            },
            (AddFriendStage::CreatingRoom, AddFriendEvent::RoomCreated { last_insert_id }) => {
                &&& post.stage is AddingOwnMember
                &&& post == self.at(post.stage)
                &&& room_of(post.stage)@ == decimal(last_insert_id as nat)
                &&& act == self.member_insert(room_of(post.stage), self.user_id)
            },
            (AddFriendStage::AddingOwnMember { direct_chat_room_id: room }, AddFriendEvent::Inserted) => {
                &&& post == self.at(AddFriendStage::AddingFriendMember { direct_chat_room_id: room })
                &&& act == self.member_insert(room, self.friend_user_id)
            },
            (AddFriendStage::AddingFriendMember { direct_chat_room_id: room }, AddFriendEvent::Inserted) => {
                &&& post == self.at(AddFriendStage::AddingFollow { direct_chat_room_id: room })
                &&& act == self.follow_insert(room)
            },
            (AddFriendStage::AddingFollow { direct_chat_room_id: room }, AddFriendEvent::Inserted) => {
                &&& post == self.at(AddFriendStage::LoadingFriend { direct_chat_room_id: room })
                &&& act == self.friend_query()
            },
            (AddFriendStage::LoadingFriend { direct_chat_room_id: room }, AddFriendEvent::Users(rows)) => {
                &&& post == self.at(AddFriendStage::Done)
                &&& act == self.reply(room, rows@[0])
            },
            _ => false,
        }
    }

    /// How many more answers adding the friend can take.
    pub open spec fn remaining(self) -> nat {
        match self.stage {
            AddFriendStage::CheckingOwnFollow => 7,
            AddFriendStage::CheckingReverseFollow => 6,
            AddFriendStage::CreatingRoom => 5,
            AddFriendStage::AddingOwnMember { .. } => 4,
            AddFriendStage::AddingFriendMember { .. } => 3,
            AddFriendStage::AddingFollow { .. } => 2,
            AddFriendStage::LoadingFriend { .. } => 1,
            AddFriendStage::Done => 0,
        }
    }

    /// Starts adding `friend_user_id` as a friend of `user_id` at time
    /// `now`: first it looks for the follows from the user to the friend.
    pub fn start(user_id: String, friend_user_id: String, now: u64) -> (r: (AddFriend, AddFriendAction))
        ensures
            r.0 == (AddFriend { user_id, friend_user_id, now, stage: AddFriendStage::CheckingOwnFollow }),
            r.1 == r.0.own_follow_query(),
            r.1 == (AddFriendAction::FindFollows { to_user_id: friend_user_id, from_user_id: user_id }),
    {
        let act = AddFriendAction::FindFollows { to_user_id: friend_user_id.clone(), from_user_id: user_id.clone() };
        (AddFriend { user_id, friend_user_id, now, stage: AddFriendStage::CheckingOwnFollow }, act)
    }

    /// Whether `event` answers the statement that was issued last.
    pub fn accepts(&self, event: &AddFriendEvent) -> (b: bool)
        ensures
            b == self.expects(*event),
    {
        match (&self.stage, event) {
            (AddFriendStage::CheckingOwnFollow, AddFriendEvent::Follows(_)) => true,
            (AddFriendStage::CheckingReverseFollow, AddFriendEvent::Follows(_)) => true,
            (AddFriendStage::CreatingRoom, AddFriendEvent::RoomCreated { .. }) => true,
            (AddFriendStage::AddingOwnMember { .. }, AddFriendEvent::Inserted) => true,
            (AddFriendStage::AddingFriendMember { .. }, AddFriendEvent::Inserted) => true,
            (AddFriendStage::AddingFollow { .. }, AddFriendEvent::Inserted) => true,
            (AddFriendStage::LoadingFriend { .. }, AddFriendEvent::Users(rows)) => rows.len() > 0,
            _ => false,
        }
    }

    fn add_member(&self, room: &String, member: &String) -> (act: AddFriendAction)
        ensures
            act == self.member_insert(*room, *member),
    {
        AddFriendAction::AddDirectMember {
            direct_chat_room_id: room.clone(),
            user_id: member.clone(),
            entry_date: self.now,
            last_read_time: self.now,
        }
    }

    fn add_follow(&self, room: &String) -> (act: AddFriendAction)
        ensures
            act == self.follow_insert(*room),
    {
        AddFriendAction::AddFollow {
            to_user_id: self.friend_user_id.clone(),
            from_user_id: self.user_id.clone(),
            direct_chat_room_id: room.clone(),
            created_at: self.now,
        }
    }

    fn find_friend(&self) -> (act: AddFriendAction)
        ensures
            act == self.friend_query(),
    {
        AddFriendAction::FindUser { id: self.friend_user_id.clone() }
    }

    /// Takes the database's answer and decides what comes next.
    pub fn step(self, event: AddFriendEvent) -> (r: (AddFriend, AddFriendAction))
        requires
            self.expects(event),
        ensures
            self.transition(event, r.0, r.1),
    {
        match (&self.stage, event) {
            (AddFriendStage::CheckingOwnFollow, AddFriendEvent::Follows(rows)) => {
                if rows.len() == 0 {
                    let act = AddFriendAction::FindFollows {
                        to_user_id: self.user_id.clone(),
                        from_user_id: self.friend_user_id.clone(),
                    };
                    (AddFriend { stage: AddFriendStage::CheckingReverseFollow, ..self }, act)
                } else {
                    let room = to_decimal_string(rows[0].direct_chat_room_id);
                    let act = self.find_friend();
                    (AddFriend { stage: AddFriendStage::LoadingFriend { direct_chat_room_id: room }, ..self }, act)
                }
            },
            (AddFriendStage::CheckingReverseFollow, AddFriendEvent::Follows(rows)) => {
                if rows.len() == 0 {
                    let act = AddFriendAction::CreateDirectChatRoom { created_at: self.now };
                    (AddFriend { stage: AddFriendStage::CreatingRoom, ..self }, act)
                } else {
                    let room = to_decimal_string(rows[0].direct_chat_room_id);
                    let act = self.add_follow(&room);
                    (AddFriend { stage: AddFriendStage::AddingFollow { direct_chat_room_id: room }, ..self }, act)
                }
            },
            (AddFriendStage::CreatingRoom, AddFriendEvent::RoomCreated { last_insert_id }) => {
                let room = to_decimal_string(last_insert_id);
                let act = self.add_member(&room, &self.user_id);
                (AddFriend { stage: AddFriendStage::AddingOwnMember { direct_chat_room_id: room }, ..self }, act)
            },
            (AddFriendStage::AddingOwnMember { direct_chat_room_id }, AddFriendEvent::Inserted) => {
                let room = direct_chat_room_id.clone();
                let act = self.add_member(&room, &self.friend_user_id);
                (AddFriend { stage: AddFriendStage::AddingFriendMember { direct_chat_room_id: room }, ..self }, act)
            },
            (AddFriendStage::AddingFriendMember { direct_chat_room_id }, AddFriendEvent::Inserted) => {
                let room = direct_chat_room_id.clone();
                let act = self.add_follow(&room);
                (AddFriend { stage: AddFriendStage::AddingFollow { direct_chat_room_id: room }, ..self }, act)
            },
            (AddFriendStage::AddingFollow { direct_chat_room_id }, AddFriendEvent::Inserted) => {
                let room = direct_chat_room_id.clone();
                let act = self.find_friend();
                (AddFriend { stage: AddFriendStage::LoadingFriend { direct_chat_room_id: room }, ..self }, act)
            },
            (AddFriendStage::LoadingFriend { direct_chat_room_id }, AddFriendEvent::Users(rows)) => {
                let friend = &rows[0];
                let act = AddFriendAction::Reply(AddFriendResult {
                    direct_chat_room_id: direct_chat_room_id.clone(),
                    friend_use_id: self.friend_user_id.clone(),
                    friend_profile_image: copy_text(&friend.profile_image),
                    friend_nickname: copy_text(&friend.nickname),
                });
                (AddFriend { stage: AddFriendStage::Done, ..self }, act)
            },
            _ => {
                proof { assert(false); }
                let act = self.find_friend();
                (self, act)
            },
        }
    }
}

/// `states` and `actions` record a run of `m` on `events`: `states[i]`
/// takes `events[i]`, becomes `states[i + 1]` and does `actions[i]`.
pub open spec fn is_add_friend_run(
    m: AddFriend,
    events: Seq<AddFriendEvent>,
    states: Seq<AddFriend>,
    actions: Seq<AddFriendAction>,
) -> bool {
    &&& states.len() == events.len() + 1
    &&& actions.len() == events.len()
    &&& states[0] == m
    &&& forall|i: int|
        #![trigger events[i]]
        0 <= i < events.len() ==> states[i].expects(events[i]) && states[i].transition(
            events[i],
            states[i + 1],
            actions[i],
        )
}

/// The follow rows of an answer.
pub open spec fn follows_of(e: AddFriendEvent) -> Seq<Follow> {
    match e {
        AddFriendEvent::Follows(rows) => rows@,
        _ => Seq::empty(),
    }
}

/// The first user row of an answer.
pub open spec fn user_of_answer(e: AddFriendEvent) -> UserRecord {
    match e {
        AddFriendEvent::Users(rows) => rows@[0],
        _ => arbitrary(),
    }
}

/// Whether `a` writes to the database.
pub open spec fn is_insert(a: AddFriendAction) -> bool {
    ||| a is CreateDirectChatRoom
    ||| a is AddDirectMember
    ||| a is AddFollow
}

/// A repeated request, where the user already follows the friend, writes
/// nothing, whatever else the database answers: it reads the friend and
/// replies with the room of the user's first follow of the friend.
pub proof fn lemma_repeat_writes_nothing(
    m: AddFriend,
    events: Seq<AddFriendEvent>,
    states: Seq<AddFriend>,
    actions: Seq<AddFriendAction>,
)
    requires
        m.stage is CheckingOwnFollow,
        is_add_friend_run(m, events, states, actions),
        events.len() >= 1,
        follows_of(events[0]).len() > 0,
    ensures
        events.len() <= 2,
        forall|j: int| 0 <= j < actions.len() ==> !is_insert(#[trigger] actions[j]),
        room_of(states[1].stage)@ == decimal(follows_of(events[0])[0].direct_chat_room_id as nat),
        actions[0] == m.friend_query(),
        events.len() == 2 ==> actions[1] == m.reply(room_of(states[1].stage), user_of_answer(events[1])),
{
    assert(states[0].expects(events[0]) && states[0].transition(events[0], states[1], actions[0]));
    if events.len() > 1 {
        assert(states[1].expects(events[1]) && states[1].transition(events[1], states[2], actions[1]));
    }
    if events.len() > 2 {
        assert(states[2].expects(events[2]));
    }
}

/// When neither user follows the other, a new room is created with the id
/// that the database gives it; the user and then the friend become its
/// members, the user's follow of the friend points to it, and the reply
/// names that room and the friend. No answer is taken after the reply.
pub proof fn lemma_new_friendship(
    m: AddFriend,
    events: Seq<AddFriendEvent>,
    states: Seq<AddFriend>,
    actions: Seq<AddFriendAction>,
    id: u64,
)
    requires
        m.stage is CheckingOwnFollow,
        is_add_friend_run(m, events, states, actions),
        events.len() >= 3,
        follows_of(events[0]).len() == 0,
        follows_of(events[1]).len() == 0,
        events[2] == (AddFriendEvent::RoomCreated { last_insert_id: id }),
    ensures
        events.len() <= 7,
        room_of(states[3].stage)@ == decimal(id as nat),
        actions[0] == m.reverse_follow_query(),
        actions[1] == (AddFriendAction::CreateDirectChatRoom { created_at: m.now }),
        actions[2] == m.member_insert(room_of(states[3].stage), m.user_id),
        events.len() > 3 ==> actions[3] == m.member_insert(room_of(states[3].stage), m.friend_user_id),
        events.len() > 4 ==> actions[4] == m.follow_insert(room_of(states[3].stage)),
        events.len() > 5 ==> actions[5] == m.friend_query(),
        events.len() > 6 ==> actions[6] == m.reply(room_of(states[3].stage), user_of_answer(events[6])),
{
    assert(states[0].expects(events[0]) && states[0].transition(events[0], states[1], actions[0]));
    assert(states[1].expects(events[1]) && states[1].transition(events[1], states[2], actions[1]));
    assert(states[2].expects(events[2]) && states[2].transition(events[2], states[3], actions[2]));
    if events.len() > 3 {
        assert(states[3].expects(events[3]) && states[3].transition(events[3], states[4], actions[3]));
    }
    if events.len() > 4 {
        assert(states[4].expects(events[4]) && states[4].transition(events[4], states[5], actions[4]));
    }
    if events.len() > 5 {
        assert(states[5].expects(events[5]) && states[5].transition(events[5], states[6], actions[5]));
    }
    if events.len() > 6 {
        assert(states[6].expects(events[6]) && states[6].transition(events[6], states[7], actions[6]));
    }
    if events.len() > 7 {
        assert(states[7].expects(events[7]));
    }
}

/// When the friend follows the user but not the other way round, their
/// room (the one the friend's first follow names) is reused: no room or
/// member is created, the user's follow of the friend is inserted into it,
/// and the reply names that room and the friend.
pub proof fn lemma_follow_back(
    m: AddFriend,
    events: Seq<AddFriendEvent>,
    states: Seq<AddFriend>,
    actions: Seq<AddFriendAction>,
)
    requires
        m.stage is CheckingOwnFollow,
        is_add_friend_run(m, events, states, actions),
        events.len() >= 2,
        follows_of(events[0]).len() == 0,
        follows_of(events[1]).len() > 0,
    ensures
        events.len() <= 4,
        room_of(states[2].stage)@ == decimal(follows_of(events[1])[0].direct_chat_room_id as nat),
        actions[0] == m.reverse_follow_query(),
        actions[1] == m.follow_insert(room_of(states[2].stage)),
        forall|j: int| 0 <= j < actions.len() ==> !(#[trigger] actions[j] is CreateDirectChatRoom) && !(actions[j] is AddDirectMember),
        events.len() > 2 ==> actions[2] == m.friend_query(),
        events.len() > 3 ==> actions[3] == m.reply(room_of(states[2].stage), user_of_answer(events[3])),
{
    assert(states[0].expects(events[0]) && states[0].transition(events[0], states[1], actions[0]));
    assert(states[1].expects(events[1]) && states[1].transition(events[1], states[2], actions[1]));
    if events.len() > 2 {
        assert(states[2].expects(events[2]) && states[2].transition(events[2], states[3], actions[2]));
    }
    if events.len() > 3 {
        assert(states[3].expects(events[3]) && states[3].transition(events[3], states[4], actions[3]));
    }
    if events.len() > 4 {
        assert(states[4].expects(events[4]));
    }
}

/// Every answer brings adding a friend closer to its reply, which it gives
/// exactly when it finishes; a finished request takes no more answers.
pub proof fn lemma_add_friend_ends(m: AddFriend, e: AddFriendEvent, post: AddFriend, act: AddFriendAction)
    requires
        m.expects(e),
        m.transition(e, post, act),
    ensures
        post.remaining() < m.remaining(),
        m.remaining() <= 7,
        (act is Reply) <==> (post.stage is Done),
        post.stage is Done ==> forall|e2: AddFriendEvent| !post.expects(e2),
{
}

/// Whether `a` inserts the follow from `m`'s user to `m`'s friend in room
/// `room`.
pub open spec fn inserts_follow(m: AddFriend, a: AddFriendAction, room: String) -> bool {
    a == m.follow_insert(room)
}

/// The room named by a reply.
pub open spec fn replied_room(a: AddFriendAction) -> String {
    match a {
        AddFriendAction::Reply(r) => r.direct_chat_room_id,
        _ => arbitrary(),
    }
}

/// By the time adding a friend replies, the user follows the friend in the
/// room the reply names: the follow was inserted into that room during the
/// run, or the run found the user's follow of the friend already there and
/// replied with its room.
pub proof fn lemma_friend_followed_on_reply(
    m: AddFriend,
    events: Seq<AddFriendEvent>,
    states: Seq<AddFriend>,
    actions: Seq<AddFriendAction>,
)
    requires
        m.stage is CheckingOwnFollow,
        is_add_friend_run(m, events, states, actions),
        events.len() > 0,
        actions[actions.len() - 1] is Reply,
    ensures
        (exists|j: int| 0 <= j < actions.len() && #[trigger] inserts_follow(m, actions[j], replied_room(actions[actions.len() - 1])))
            || (follows_of(events[0]).len() > 0
                && replied_room(actions[actions.len() - 1])@ == decimal(follows_of(events[0])[0].direct_chat_room_id as nat)),
{
    assert(states[0].expects(events[0]) && states[0].transition(events[0], states[1], actions[0]));
    if follows_of(events[0]).len() > 0 {
        lemma_repeat_writes_nothing(m, events, states, actions);
    } else {
        assert(events.len() > 1);
        assert(states[1].expects(events[1]));
        if follows_of(events[1]).len() == 0 {
            assert(events.len() > 2);
            assert(states[1].transition(events[1], states[2], actions[1]));
            assert(states[2].expects(events[2]));
            let id = match events[2] {
                AddFriendEvent::RoomCreated { last_insert_id } => last_insert_id,
                _ => 0,
            };
            lemma_new_friendship(m, events, states, actions, id);
            assert(inserts_follow(m, actions[4], replied_room(actions[actions.len() - 1])));
        } else {
            lemma_follow_back(m, events, states, actions);
            assert(inserts_follow(m, actions[1], replied_room(actions[actions.len() - 1])));
        }
    }
}

/// A repeated registration changes nothing: once a request has replied
/// with room `R`, a second request by the same user for the same friend
/// that finds the follow the first wrote (a follow of room `R` comes back
/// first) inserts no room, member or follow, and replies with the same
/// room and friend.
pub proof fn lemma_repeated_registration(
    m1: AddFriend,
    events1: Seq<AddFriendEvent>,
    states1: Seq<AddFriend>,
    actions1: Seq<AddFriendAction>,
    m2: AddFriend,
    events2: Seq<AddFriendEvent>,
    states2: Seq<AddFriend>,
    actions2: Seq<AddFriendAction>,
)
    requires
        m1.stage is CheckingOwnFollow,
        is_add_friend_run(m1, events1, states1, actions1),
        events1.len() > 0,
        actions1[actions1.len() - 1] is Reply,
        m2.stage is CheckingOwnFollow,
        m2.user_id == m1.user_id,
        m2.friend_user_id == m1.friend_user_id,
        is_add_friend_run(m2, events2, states2, actions2),
        events2.len() >= 1,
        follows_of(events2[0]).len() > 0,
        decimal(follows_of(events2[0])[0].direct_chat_room_id as nat) == replied_room(actions1[actions1.len() - 1])@,
    ensures
        forall|j: int| 0 <= j < actions2.len() ==> !is_insert(#[trigger] actions2[j]),
        events2.len() == 2 ==> (actions2[1] matches AddFriendAction::Reply(r2)
            && r2.direct_chat_room_id@ == replied_room(actions1[actions1.len() - 1])@
            && r2.friend_use_id == m1.friend_user_id),
{
    lemma_repeat_writes_nothing(m2, events2, states2, actions2);
}

/// One room per pair: when `a` has added `b` in a new room with id `id`,
/// and `b`, who does not follow `a` yet, then adds `a` while the database
/// returns `a`'s follow of that room first, `b`'s request creates no room
/// and no member, inserts its follow into that room, and replies with the
/// same room as `a`'s did.
pub proof fn lemma_follow_back_shares_room(
    m1: AddFriend,
    events1: Seq<AddFriendEvent>,
    states1: Seq<AddFriend>,
    actions1: Seq<AddFriendAction>,
    id: u64,
    m2: AddFriend,
    events2: Seq<AddFriendEvent>,
    states2: Seq<AddFriend>,
    actions2: Seq<AddFriendAction>,
)
    requires
        m1.stage is CheckingOwnFollow,
        is_add_friend_run(m1, events1, states1, actions1),
        events1.len() == 7,
        follows_of(events1[0]).len() == 0,
        follows_of(events1[1]).len() == 0,
        events1[2] == (AddFriendEvent::RoomCreated { last_insert_id: id }),
        m2.stage is CheckingOwnFollow,
        m2.user_id == m1.friend_user_id,
        m2.friend_user_id == m1.user_id,
        is_add_friend_run(m2, events2, states2, actions2),
        events2.len() >= 2,
        follows_of(events2[0]).len() == 0,
        follows_of(events2[1]).len() > 0,
        follows_of(events2[1])[0].direct_chat_room_id == id,
    ensures
        replied_room(actions1[6]) == room_of(states1[3].stage),
        room_of(states2[2].stage)@ == room_of(states1[3].stage)@,
        actions2[1] == m2.follow_insert(room_of(states2[2].stage)),
        forall|j: int| 0 <= j < actions2.len() ==> !(#[trigger] actions2[j] is CreateDirectChatRoom) && !(actions2[j] is AddDirectMember),
        events2.len() == 4 ==> replied_room(actions2[3])@ == replied_room(actions1[6])@,
{
    lemma_new_friendship(m1, events1, states1, actions1, id);
    lemma_follow_back(m2, events2, states2, actions2);
}

/// The reply of adding a friend carries the friend's id and exactly the
/// image and nickname of the first row read for the friend, whatever that
/// row's search flag, and names the room the request settled on.
pub proof fn lemma_reply_carries_friend_row(m: AddFriend, e: AddFriendEvent, post: AddFriend, act: AddFriendAction)
    requires
        m.expects(e),
        m.transition(e, post, act),
        act is Reply,
    ensures
        e matches AddFriendEvent::Users(rows) && act matches AddFriendAction::Reply(r)
            && r.friend_use_id == m.friend_user_id
            && r.friend_profile_image == rows@[0].profile_image
            && r.friend_nickname == rows@[0].nickname
            && r.direct_chat_room_id == room_of(m.stage),
{
}

/// What each statement of adding a friend writes or reads: follows go from
/// the user to the friend at the request's time; members join at the
/// request's time, the user before the friend; the new room is stamped with
/// the request's time; rows are read for the friend; the one follow query
/// after the start is the friend's follow of the user. Rows that name a
/// room name the room the request holds after the step.
pub proof fn lemma_statements_of_add_friend(m: AddFriend, e: AddFriendEvent, post: AddFriend, act: AddFriendAction)
    requires
        m.expects(e),
        m.transition(e, post, act),
    ensures
        act matches AddFriendAction::AddFollow { to_user_id, from_user_id, direct_chat_room_id, created_at }
            ==> (to_user_id == m.friend_user_id && from_user_id == m.user_id && created_at == m.now
                && direct_chat_room_id == room_of(post.stage)),
        act matches AddFriendAction::AddDirectMember { direct_chat_room_id, user_id, entry_date, last_read_time }
            ==> (entry_date == m.now && last_read_time == m.now && direct_chat_room_id == room_of(post.stage)
                && (post.stage is AddingOwnMember ==> user_id == m.user_id)
                && (post.stage is AddingFriendMember ==> user_id == m.friend_user_id)
                && (post.stage is AddingOwnMember || post.stage is AddingFriendMember)),
        act matches AddFriendAction::CreateDirectChatRoom { created_at } ==> created_at == m.now,
        act matches AddFriendAction::FindUser { id } ==> id == m.friend_user_id,
        act matches AddFriendAction::FindFollows { to_user_id, from_user_id }
            ==> (to_user_id == m.user_id && from_user_id == m.friend_user_id),
        post.user_id == m.user_id && post.friend_user_id == m.friend_user_id && post.now == m.now,
{
}

} // verus!
