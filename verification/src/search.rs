//! Friends and groups: the search on the home screen and the lists of a
//! user's friends and groups.

use vstd::prelude::*;
use crate::decimal::{decimal, to_decimal_string};
use crate::records::{FriendRecord, GroupRecord, copy_text};

verus! {

/// The query string of the name search; a missing query searches for the
/// empty name.
pub struct SearchNameQuery {
    pub search_text: String,
}

impl Default for SearchNameQuery {
    fn default() -> (q: Self)
        ensures
            q.search_text@ == Seq::<char>::empty(),
    {
        SearchNameQuery { search_text: String::new() }
    }
}

/// An entry of the friend half of the name search.
pub enum SearchNameFriendListResultEnum {
    /// The placeholder sent when no friend has the name.
    SearchNameFriendListNoneResult {
        direct_chat_room_id: Option<u64>,
        friend_use_id: Option<String>,
        friend_profile_image: Option<String>,
        friend_nickname: Option<String>,
    },
    SearchNameFriendListResult {
        direct_chat_room_id: u64,
        friend_use_id: String,
        friend_profile_image: Option<String>,
        friend_nickname: Option<String>,
    },
}

/// The placeholder entry, every field empty.
pub open spec fn no_friend_found() -> SearchNameFriendListResultEnum {
    SearchNameFriendListResultEnum::SearchNameFriendListNoneResult {
        direct_chat_room_id: None,
        friend_use_id: None,
        friend_profile_image: None,
        friend_nickname: None,
    }
}

/// The search entry of a matching friend row.
pub open spec fn search_friend_entry(f: FriendRecord) -> SearchNameFriendListResultEnum {
    SearchNameFriendListResultEnum::SearchNameFriendListResult {
        direct_chat_room_id: f.direct_chat_room_id,
        friend_use_id: f.friend_user_id,
        friend_profile_image: f.friend_profile_image,
        friend_nickname: f.friend_nickname,
    }
}

/// The friend half of the name search, from the rows of friends whose
/// nickname matched: the single placeholder entry when there is none, and
/// one entry per matching friend, in the order of the rows, otherwise.
pub fn search_name_friends_result(rows: &Vec<FriendRecord>) -> (r: Vec<SearchNameFriendListResultEnum>)
    ensures
        rows.len() == 0 ==> r@ == seq![no_friend_found()],
        rows.len() > 0 ==> r@ == rows@.map_values(|f: FriendRecord| search_friend_entry(f)),
        rows.len() == 0 ==> r.len() == 1 && (r[0] matches SearchNameFriendListResultEnum::SearchNameFriendListNoneResult {
            direct_chat_room_id, friend_use_id, friend_profile_image, friend_nickname }
            && direct_chat_room_id is None && friend_use_id is None
            && friend_profile_image is None && friend_nickname is None),
        rows.len() > 0 ==> r.len() == rows.len(),
        rows.len() > 0 ==> forall|i: int| 0 <= i < rows.len() ==> (#[trigger] r[i] matches
            SearchNameFriendListResultEnum::SearchNameFriendListResult {
                direct_chat_room_id, friend_use_id, friend_profile_image, friend_nickname }
            && direct_chat_room_id == rows[i].direct_chat_room_id
            && friend_use_id == rows[i].friend_user_id
            && friend_profile_image == rows[i].friend_profile_image
            && friend_nickname == rows[i].friend_nickname),
{
    let mut result: Vec<SearchNameFriendListResultEnum> = Vec::new();
    if rows.len() == 0 {
        result.push(SearchNameFriendListResultEnum::SearchNameFriendListNoneResult {
            direct_chat_room_id: None,
            friend_use_id: None,
            friend_profile_image: None,
            friend_nickname: None,
        });
    } else {
        for i in 0..rows.len()
            invariant
                result@ == rows@.subrange(0, i as int).map_values(|f: FriendRecord| search_friend_entry(f)),
        {
            let f = &rows[i];
            result.push(SearchNameFriendListResultEnum::SearchNameFriendListResult {
                direct_chat_room_id: f.direct_chat_room_id,
                friend_use_id: f.friend_user_id.clone(),
                friend_profile_image: copy_text(&f.friend_profile_image),
                friend_nickname: copy_text(&f.friend_nickname),
            });
            assert(rows@.subrange(0, i + 1) == rows@.subrange(0, i as int).push(rows@[i as int]));
        }
        assert(rows@.subrange(0, rows.len() as int) == rows@);
    }
    result
}

/// An entry of the group half of the name search.
pub struct SearchNameGroupListResult {
    pub group_chat_room_id: String,
    pub group_name: String,
    pub group_image: Option<String>,
}

/// An entry of a user's group list.
pub struct FetchGroupListResult {
    pub group_chat_room_id: String,
    pub group_name: String,
    pub group_image: Option<String>,
}

/// `r` is the search entry for the group row `g`: its room id in decimal.
pub open spec fn search_group_entry(g: GroupRecord, r: SearchNameGroupListResult) -> bool {
    &&& r.group_chat_room_id@ == decimal(g.group_chat_room_id as nat)
    &&& r.group_name == g.group_name
    &&& r.group_image == g.group_image
}

/// `r` is the list entry for the group row `g`: its room id in decimal.
pub open spec fn group_list_entry(g: GroupRecord, r: FetchGroupListResult) -> bool {
    &&& r.group_chat_room_id@ == decimal(g.group_chat_room_id as nat)
    &&& r.group_name == g.group_name
    &&& r.group_image == g.group_image
}

/// The group half of the name search: one entry per matching group, in
/// the order of the rows.
pub fn search_name_groups_result(rows: &Vec<GroupRecord>) -> (r: Vec<SearchNameGroupListResult>)
    ensures
        r.len() == rows.len(),
        forall|i: int| 0 <= i < rows.len() ==> #[trigger] search_group_entry(rows[i], r[i]),
        forall|i: int| 0 <= i < rows.len() ==> {
            &&& (#[trigger] r[i]).group_chat_room_id@ == decimal(rows[i].group_chat_room_id as nat)
            &&& r[i].group_name == rows[i].group_name
            &&& r[i].group_image == rows[i].group_image
        },
{
    let mut result: Vec<SearchNameGroupListResult> = Vec::new();
    for i in 0..rows.len()
        invariant
            result.len() == i,
            forall|j: int| 0 <= j < i ==> #[trigger] search_group_entry(rows[j], result[j]),
    {
        let g = &rows[i];
        result.push(SearchNameGroupListResult {
            group_chat_room_id: to_decimal_string(g.group_chat_room_id),
            group_name: g.group_name.clone(),
            group_image: copy_text(&g.group_image),
        });
    }
    assert forall|i: int| 0 <= i < rows.len() implies {
        &&& (#[trigger] result[i]).group_chat_room_id@ == decimal(rows[i].group_chat_room_id as nat)
        &&& result[i].group_name == rows[i].group_name
        &&& result[i].group_image == rows[i].group_image
    } by {
        assert(search_group_entry(rows[i], result[i]));
    }
    result
}

/// The groups that a user is a member of, in the order of the rows.
pub fn fetch_group_list_result(rows: &Vec<GroupRecord>) -> (r: Vec<FetchGroupListResult>)
    ensures
        r.len() == rows.len(),
        forall|i: int| 0 <= i < rows.len() ==> #[trigger] group_list_entry(rows[i], r[i]),
        forall|i: int| 0 <= i < rows.len() ==> {
            &&& (#[trigger] r[i]).group_chat_room_id@ == decimal(rows[i].group_chat_room_id as nat)
            &&& r[i].group_name == rows[i].group_name
            &&& r[i].group_image == rows[i].group_image
        },
{
    let mut result: Vec<FetchGroupListResult> = Vec::new();
    for i in 0..rows.len()
        invariant
            result.len() == i,
            forall|j: int| 0 <= j < i ==> #[trigger] group_list_entry(rows[j], result[j]),
    {
        let g = &rows[i];
        result.push(FetchGroupListResult {
            group_chat_room_id: to_decimal_string(g.group_chat_room_id),
            group_name: g.group_name.clone(),
            group_image: copy_text(&g.group_image),
        });
    }
    assert forall|i: int| 0 <= i < rows.len() implies {
        &&& (#[trigger] result[i]).group_chat_room_id@ == decimal(rows[i].group_chat_room_id as nat)
        &&& result[i].group_name == rows[i].group_name
        &&& result[i].group_image == rows[i].group_image
    } by {
        assert(group_list_entry(rows[i], result[i]));
    }
    result
}

/// An entry of a user's friend list.
pub struct FetchFriendListResult {
    pub direct_chat_room_id: u64,
    pub friend_use_id: String,
    pub friend_profile_image: Option<String>,
    pub friend_nickname: Option<String>,
}

/// The friend-list entry of a friend row.
pub open spec fn friend_list_entry(f: FriendRecord) -> FetchFriendListResult {
    FetchFriendListResult {
        direct_chat_room_id: f.direct_chat_room_id,
        friend_use_id: f.friend_user_id,
        friend_profile_image: f.friend_profile_image,
        friend_nickname: f.friend_nickname,
    }
}

/// The friends of a user, in the order of the rows.
pub fn fetch_friend_list_result(rows: &Vec<FriendRecord>) -> (r: Vec<FetchFriendListResult>)
    ensures
        r@ == rows@.map_values(|f: FriendRecord| friend_list_entry(f)),
        r.len() == rows.len(),
        forall|i: int| 0 <= i < rows.len() ==> {
            &&& (#[trigger] r[i]).direct_chat_room_id == rows[i].direct_chat_room_id
            &&& r[i].friend_use_id == rows[i].friend_user_id
            &&& r[i].friend_profile_image == rows[i].friend_profile_image
            &&& r[i].friend_nickname == rows[i].friend_nickname
        },
{
    let mut result: Vec<FetchFriendListResult> = Vec::new();
    for i in 0..rows.len()
        invariant
            result@ == rows@.subrange(0, i as int).map_values(|f: FriendRecord| friend_list_entry(f)),
    {
        let f = &rows[i];
        result.push(FetchFriendListResult {
            direct_chat_room_id: f.direct_chat_room_id,
            friend_use_id: f.friend_user_id.clone(),
            friend_profile_image: copy_text(&f.friend_profile_image),
            friend_nickname: copy_text(&f.friend_nickname),
        });
        assert(rows@.subrange(0, i + 1) == rows@.subrange(0, i as int).push(rows@[i as int]));
    }
    assert(rows@.subrange(0, rows.len() as int) == rows@);
    result
}

/// Each entry of the friend half of the name search is the matching row's
/// room, id, image and nickname, unchanged.
pub proof fn lemma_search_friend_entry_copies_row(f: FriendRecord)
    ensures
        search_friend_entry(f) matches SearchNameFriendListResultEnum::SearchNameFriendListResult {
            direct_chat_room_id, friend_use_id, friend_profile_image, friend_nickname }
            && direct_chat_room_id == f.direct_chat_room_id
            && friend_use_id == f.friend_user_id
            && friend_profile_image == f.friend_profile_image
            && friend_nickname == f.friend_nickname,
        no_friend_found() matches SearchNameFriendListResultEnum::SearchNameFriendListNoneResult {
            direct_chat_room_id, friend_use_id, friend_profile_image, friend_nickname }
            && direct_chat_room_id is None && friend_use_id is None
            && friend_profile_image is None && friend_nickname is None,
{
}

/// An entry of either group list is its row's name and image, unchanged,
/// with the room id written in decimal.
pub proof fn lemma_group_entries_copy_row(
    g: GroupRecord,
    s: SearchNameGroupListResult,
    l: FetchGroupListResult,
)
    ensures
        search_group_entry(g, s) ==> (s.group_name == g.group_name && s.group_image == g.group_image
            && s.group_chat_room_id@ == decimal(g.group_chat_room_id as nat)),
        group_list_entry(g, l) ==> (l.group_name == g.group_name && l.group_image == g.group_image
            && l.group_chat_room_id@ == decimal(g.group_chat_room_id as nat)),
{
}

/// Each entry of the friend list is its row's room, id, image and nickname,
/// unchanged.
pub proof fn lemma_friend_list_entry_copies_row(f: FriendRecord)
    ensures
        friend_list_entry(f).direct_chat_room_id == f.direct_chat_room_id,
        friend_list_entry(f).friend_use_id == f.friend_user_id,
        friend_list_entry(f).friend_profile_image == f.friend_profile_image,
        friend_list_entry(f).friend_nickname == f.friend_nickname,
{
}

} // verus!
