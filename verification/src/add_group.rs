//! Creating a group chat: the room is inserted first, then one member row
//! per user, in the order given, each carrying the new room's id.

use vstd::prelude::*;
use crate::decimal::{decimal, to_decimal_string};
use crate::records::copy_text;

verus! {

/// The reply to a group creation.
pub struct AddGroupResult {
    pub group_image: Option<String>,
    pub group_name: String,
    pub group_chat_room_id: String,
}

/// Where the creation stands.
pub enum AddGroupStage {
    /// Waiting for the id of the inserted `group_chat_room` row.
    CreatingRoom,
    /// Waiting for the insert of member number `added`, counted from zero.
    AddingMembers { group_chat_room_id: u64, added: usize },
    /// The reply has been given.
    Done,
}

/// The creation of a group named `group_name` with the given members,
/// at time `now`.
pub struct AddGroup {
    pub group_image: Option<String>,
    pub group_name: String,
    pub group_member_user_ids: Vec<String>,
    pub now: u64,
    pub stage: AddGroupStage,
}

/// What the creation asks of the database, or its reply.
pub enum AddGroupAction {
    /// `INSERT INTO group_chat_room (group_name, group_image, created_at)`
    CreateGroupChatRoom { group_name: String, group_image: Option<String>, created_at: u64 },
    /// `INSERT INTO group_member (group_chat_room_id, user_id, entry_date)`
    AddGroupMember { group_chat_room_id: u64, user_id: String, entry_date: u64 },
    Reply(AddGroupResult),
}

/// The database's answer to the last statement.
pub enum AddGroupEvent {
    /// The room was inserted with this id.
    RoomCreated { last_insert_id: u64 },
    /// The member was inserted.
    MemberAdded,
}

impl AddGroup {
    /// The creation `self` with its stage replaced.
    pub open spec fn at(self, stage: AddGroupStage) -> AddGroup {
        AddGroup { stage, ..self }
    }

    /// `r` replies that the group was created in room `room`.
    pub open spec fn replies_with(self, room: u64, r: AddGroupResult) -> bool {
        &&& r.group_image == self.group_image
        &&& r.group_name == self.group_name
        &&& r.group_chat_room_id@ == decimal(room as nat)
    }

    /// The insert of member number `i` into room `room`.
    pub open spec fn member_insert(self, room: u64, i: int) -> AddGroupAction {
        AddGroupAction::AddGroupMember {
            group_chat_room_id: room,
            user_id: self.group_member_user_ids@[i],
            entry_date: self.now,
        }
    }

    /// Whether `event` answers the statement that the creation issued last.
    pub open spec fn expects(self, event: AddGroupEvent) -> bool {
        match self.stage {
            AddGroupStage::CreatingRoom => event is RoomCreated,
            AddGroupStage::AddingMembers { added, .. } =>
                event is MemberAdded && added < self.group_member_user_ids.len(),
            AddGroupStage::Done => false,
        }
    }

    /// After `event`, the creation becomes `post` and does `act`: after the
    /// room, and after each member, it inserts the next member, or replies
    /// when none is left.
    pub open spec fn transition(self, event: AddGroupEvent, post: AddGroup, act: AddGroupAction) -> bool {
        let n = self.group_member_user_ids.len();
        match (self.stage, event) {
            (AddGroupStage::CreatingRoom, AddGroupEvent::RoomCreated { last_insert_id: room }) => {
                if n == 0 {
                    &&& post == self.at(AddGroupStage::Done)
                    &&& act matches AddGroupAction::Reply(r) && self.replies_with(room, r)
                } else {
                    &&& post == self.at(AddGroupStage::AddingMembers { group_chat_room_id: room, added: 0 })
                    &&& act == self.member_insert(room, 0)
                }
            },
            (AddGroupStage::AddingMembers { group_chat_room_id: room, added }, AddGroupEvent::MemberAdded) => {
                if added + 1 < n {
                    &&& post == self.at(AddGroupStage::AddingMembers { group_chat_room_id: room, added: (added + 1) as usize })
                    &&& act == self.member_insert(room, added + 1)
                } else {
                    &&& post == self.at(AddGroupStage::Done)
                    &&& act matches AddGroupAction::Reply(r) && self.replies_with(room, r)
                }
            },
            _ => false,
        }
    }

    /// How many more answers the creation can take.
    pub open spec fn remaining(self) -> nat {
        match self.stage {
            AddGroupStage::CreatingRoom => (self.group_member_user_ids.len() + 1) as nat,
            AddGroupStage::AddingMembers { added, .. } =>
                if added < self.group_member_user_ids.len() {
                    (self.group_member_user_ids.len() - added) as nat
                } else {
                    0
                },
            AddGroupStage::Done => 0,
        }
    }

    /// Starts creating a group at time `now`: the room is inserted first.
    pub fn start(
        group_image: Option<String>,
        group_name: String,
        group_member_user_ids: Vec<String>,
        now: u64,
    ) -> (r: (AddGroup, AddGroupAction))
        ensures
            r.0 == (AddGroup { group_image, group_name, group_member_user_ids, now, stage: AddGroupStage::CreatingRoom }),
            r.1 == (AddGroupAction::CreateGroupChatRoom { group_name, group_image, created_at: now }),
    {
        let act = AddGroupAction::CreateGroupChatRoom {
            group_name: group_name.clone(),
            group_image: copy_text(&group_image),
            created_at: now,
        };
        (AddGroup { group_image, group_name, group_member_user_ids, now, stage: AddGroupStage::CreatingRoom }, act)
    }

    /// Whether `event` answers the statement that the creation issued last.
    pub fn accepts(&self, event: &AddGroupEvent) -> (b: bool)
        ensures
            b == self.expects(*event),
    {
        match (&self.stage, event) {
            (AddGroupStage::CreatingRoom, AddGroupEvent::RoomCreated { .. }) => true,
            (AddGroupStage::AddingMembers { added, .. }, AddGroupEvent::MemberAdded) =>
                *added < self.group_member_user_ids.len(),
            _ => false,
        }
    }

    fn reply(&self, room: u64) -> (act: AddGroupAction)
        ensures
            act matches AddGroupAction::Reply(r) && self.replies_with(room, r),
    {
        AddGroupAction::Reply(AddGroupResult {
            group_image: copy_text(&self.group_image),
            group_name: self.group_name.clone(),
            group_chat_room_id: to_decimal_string(room),
        })
    }

    fn insert_member(&self, room: u64, i: usize) -> (act: AddGroupAction)
        requires
            i < self.group_member_user_ids.len(),
        ensures
            act == self.member_insert(room, i as int),
    {
        AddGroupAction::AddGroupMember {
            group_chat_room_id: room,
            user_id: self.group_member_user_ids[i].clone(),
            entry_date: self.now,
        }
    }

    /// Takes the database's answer and decides what comes next.
    pub fn step(self, event: AddGroupEvent) -> (r: (AddGroup, AddGroupAction))
        requires
            self.expects(event),
        ensures
            self.transition(event, r.0, r.1),
    {
        let n = self.group_member_user_ids.len();
        match (&self.stage, event) {
            (AddGroupStage::CreatingRoom, AddGroupEvent::RoomCreated { last_insert_id: room }) => {
                if n == 0 {
                    let act = self.reply(room);
                    (AddGroup { stage: AddGroupStage::Done, ..self }, act)
                } else {
                    let act = self.insert_member(room, 0);
                    (AddGroup { stage: AddGroupStage::AddingMembers { group_chat_room_id: room, added: 0 }, ..self }, act)
                }
            },
            (AddGroupStage::AddingMembers { group_chat_room_id, added }, AddGroupEvent::MemberAdded) => {
                let room = *group_chat_room_id;
                let next = *added + 1;
                if next < n {
                    let act = self.insert_member(room, next);
                    (AddGroup { stage: AddGroupStage::AddingMembers { group_chat_room_id: room, added: next }, ..self }, act)
                } else {
                    let act = self.reply(room);
                    (AddGroup { stage: AddGroupStage::Done, ..self }, act)
                }
            },
            _ => {
                proof { assert(false); }
                let act = self.reply(0);
                (self, act)
            },
        }
    }
}

/// `states` and `actions` record a run of the creation `m` on `events`:
/// `states[i]` takes `events[i]`, becomes `states[i + 1]` and does
/// `actions[i]`.
pub open spec fn is_add_group_run(
    m: AddGroup,
    events: Seq<AddGroupEvent>,
    states: Seq<AddGroup>,
    actions: Seq<AddGroupAction>,
) -> bool {
    &&& states.len() == events.len() + 1
    &&& actions.len() == events.len()
    &&& states[0] == m
    &&& forall|i: int|
        #![trigger events[i]]
        0 <= i < events.len() ==> states[i].expects(events[i]) && states[i].transition(
            events[i],
            states[i + 1],
            actions[i],
        )
}

/// Where a creation stands after `i` answers, the first of which gave the
/// room id `room`.
pub open spec fn stage_after(m: AddGroup, room: u64, i: int) -> AddGroupStage {
    if i <= m.group_member_user_ids.len() {
        AddGroupStage::AddingMembers { group_chat_room_id: room, added: (i - 1) as usize }
    } else {
        AddGroupStage::Done
    }
}

proof fn lemma_add_group_run_prefix(
    m: AddGroup,
    events: Seq<AddGroupEvent>,
    states: Seq<AddGroup>,
    actions: Seq<AddGroupAction>,
    room: u64,
    i: int,
)
    requires
        m.stage is CreatingRoom,
        is_add_group_run(m, events, states, actions),
        events.len() > 0,
        events[0] == (AddGroupEvent::RoomCreated { last_insert_id: room }),
        1 <= i <= events.len(),
    ensures
        i <= m.group_member_user_ids.len() + 1,
        states[i] == m.at(stage_after(m, room, i)),
        forall|j: int| 0 <= j < i && j < m.group_member_user_ids.len() ==> actions[j] == m.member_insert(room, j),
        i == m.group_member_user_ids.len() + 1 ==> (actions[i - 1] matches AddGroupAction::Reply(r) && m.replies_with(room, r)),
    decreases i,
{
    assert(states[0].expects(events[0]) && states[0].transition(events[0], states[1], actions[0]));
    if i > 1 {
        lemma_add_group_run_prefix(m, events, states, actions, room, i - 1);
        let k = i - 1;
        assert(states[k].expects(events[k]) && states[k].transition(events[k], states[k + 1], actions[k]));
        assert(states[k].member_insert(room, k) == m.member_insert(room, k));
    }
}

/// Once the room of a new group is inserted with id `room`, the creation
/// inserts each member once, in the order given, into that room at the
/// creation's time, and then replies with that room's id, the group's name
/// and image; it takes no answer after that.
pub proof fn lemma_members_join_in_order(
    m: AddGroup,
    events: Seq<AddGroupEvent>,
    states: Seq<AddGroup>,
    actions: Seq<AddGroupAction>,
    room: u64,
)
    requires
        m.stage is CreatingRoom,
        is_add_group_run(m, events, states, actions),
        events.len() > 0,
        events[0] == (AddGroupEvent::RoomCreated { last_insert_id: room }),
    ensures
        events.len() <= m.group_member_user_ids.len() + 1,
        forall|j: int| 0 <= j < actions.len() && j < m.group_member_user_ids.len() ==> actions[j] == m.member_insert(room, j),
        actions.len() == m.group_member_user_ids.len() + 1 ==> (actions[actions.len() - 1] matches AddGroupAction::Reply(r) && m.replies_with(room, r)),
{
    lemma_add_group_run_prefix(m, events, states, actions, room, events.len() as int);
}

/// Every answer brings the creation closer to its reply, which comes after
/// at most one answer per member and one for the room.
pub proof fn lemma_add_group_ends(m: AddGroup, e: AddGroupEvent, post: AddGroup, act: AddGroupAction)
    requires
        m.expects(e),
        m.transition(e, post, act),
    ensures
        post.remaining() < m.remaining(),
        (act is Reply) <==> (post.stage is Done),
{
}

/// What each step of creating a group does, field by field: a member
/// insert names the room the database gave, the next member in the list
/// and the creation's time; the reply carries the group's name and image
/// unchanged and the room's id in decimal.
pub proof fn lemma_add_group_statements(m: AddGroup, e: AddGroupEvent, post: AddGroup, act: AddGroupAction)
    requires
        m.expects(e),
        m.transition(e, post, act),
    ensures
        post.group_name == m.group_name && post.group_image == m.group_image
            && post.group_member_user_ids == m.group_member_user_ids && post.now == m.now,
        act matches AddGroupAction::AddGroupMember { group_chat_room_id, user_id, entry_date }
            ==> (entry_date == m.now && (post.stage matches AddGroupStage::AddingMembers { group_chat_room_id: room, added }
                && room == group_chat_room_id && user_id == m.group_member_user_ids@[added as int]
                && added < m.group_member_user_ids.len())),
        act matches AddGroupAction::AddGroupMember { group_chat_room_id, .. } ==> (
            (e matches AddGroupEvent::RoomCreated { last_insert_id } ==> group_chat_room_id == last_insert_id)
            && (m.stage matches AddGroupStage::AddingMembers { group_chat_room_id: room, .. }
                ==> group_chat_room_id == room)),
        act matches AddGroupAction::Reply(r) ==> (r.group_name == m.group_name && r.group_image == m.group_image
            && (e matches AddGroupEvent::RoomCreated { last_insert_id }
                ==> r.group_chat_room_id@ == decimal(last_insert_id as nat))
            && (m.stage matches AddGroupStage::AddingMembers { group_chat_room_id: room, .. }
                ==> r.group_chat_room_id@ == decimal(room as nat))),
{
}

} // verus!
