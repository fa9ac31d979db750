use a_chat_api::add_friend::{AddFriend, AddFriendAction, AddFriendEvent};
use a_chat_api::add_group::{AddGroup, AddGroupAction, AddGroupEvent};
use a_chat_api::friend_info::{
    FetchFriendInfoByUserIdQuery, FriendInfoAction, FriendInfoEvent, FriendInfoLookup,
};
use a_chat_api::models::Follow;
use a_chat_api::records::UserRecord;

fn user(id: &str, image: Option<&str>, nickname: Option<&str>, search_flag: i8) -> UserRecord {
    UserRecord {
        id: id.to_string(),
        nickname: nickname.map(|n| n.to_string()),
        mail: format!("{}@example.com", id),
        password: "pw".to_string(),
        profile_image: image.map(|i| i.to_string()),
        delete_flag: 0,
        search_flag,
        created_at: 0,
        updated_at: None,
    }
}

fn follow(to: &str, from: &str, room: u64) -> Follow {
    Follow { id: 1, to_user_id: to.to_string(), from_user_id: from.to_string(), direct_chat_room_id: room, created_at: 0 }
}

fn feed_add_friend(m: AddFriend, e: AddFriendEvent) -> (AddFriend, AddFriendAction) {
    assert!(m.accepts(&e));
    m.step(e)
}

#[test]
fn new_friend_gets_a_new_room() {
    let (m, a) = AddFriend::start("me".to_string(), "you".to_string(), 100);
    assert!(matches!(&a, AddFriendAction::FindFollows { to_user_id, from_user_id } if to_user_id == "you" && from_user_id == "me"));
    let (m, a) = feed_add_friend(m, AddFriendEvent::Follows(vec![]));
    assert!(matches!(&a, AddFriendAction::FindFollows { to_user_id, from_user_id } if to_user_id == "me" && from_user_id == "you"));
    let (m, a) = feed_add_friend(m, AddFriendEvent::Follows(vec![]));
    assert!(matches!(a, AddFriendAction::CreateDirectChatRoom { created_at: 100 }));
    let (m, a) = feed_add_friend(m, AddFriendEvent::RoomCreated { last_insert_id: 42 });
    assert!(matches!(&a, AddFriendAction::AddDirectMember { direct_chat_room_id, user_id, entry_date: 100, last_read_time: 100 } if direct_chat_room_id == "42" && user_id == "me"));
    let (m, a) = feed_add_friend(m, AddFriendEvent::Inserted);
    assert!(matches!(&a, AddFriendAction::AddDirectMember { direct_chat_room_id, user_id, .. } if direct_chat_room_id == "42" && user_id == "you"));
    let (m, a) = feed_add_friend(m, AddFriendEvent::Inserted);
    assert!(matches!(&a, AddFriendAction::AddFollow { to_user_id, from_user_id, direct_chat_room_id, created_at: 100 } if to_user_id == "you" && from_user_id == "me" && direct_chat_room_id == "42"));
    let (m, a) = feed_add_friend(m, AddFriendEvent::Inserted);
    assert!(matches!(&a, AddFriendAction::FindUser { id } if id == "you"));
    let (m, a) = feed_add_friend(m, AddFriendEvent::Users(vec![user("you", Some("y.png"), Some("You"), 1)]));
    match a {
        AddFriendAction::Reply(r) => {
            assert_eq!(r.direct_chat_room_id, "42");
            assert_eq!(r.friend_use_id, "you");
            assert_eq!(r.friend_profile_image.as_deref(), Some("y.png"));
            assert_eq!(r.friend_nickname.as_deref(), Some("You"));
        }
        _ => panic!("reply expected"),
    }
    assert!(!m.accepts(&AddFriendEvent::Inserted));
}

#[test]
fn follow_back_reuses_the_room() {
    let (m, _) = AddFriend::start("me".to_string(), "you".to_string(), 5);
    let (m, _) = feed_add_friend(m, AddFriendEvent::Follows(vec![]));
    let (m, a) = feed_add_friend(m, AddFriendEvent::Follows(vec![follow("me", "you", 8), follow("me", "you", 9)]));
    assert!(matches!(&a, AddFriendAction::AddFollow { to_user_id, from_user_id, direct_chat_room_id, created_at: 5 } if to_user_id == "you" && from_user_id == "me" && direct_chat_room_id == "8"));
    let (m, a) = feed_add_friend(m, AddFriendEvent::Inserted);
    assert!(matches!(a, AddFriendAction::FindUser { .. }));
    let (_, a) = feed_add_friend(m, AddFriendEvent::Users(vec![user("you", None, None, 0)]));
    assert!(matches!(&a, AddFriendAction::Reply(r) if r.direct_chat_room_id == "8" && r.friend_nickname.is_none()));
}

#[test]
fn repeated_request_writes_nothing() {
    // The first request: neither follows the other, room 42 is created.
    let (m, _) = AddFriend::start("me".to_string(), "you".to_string(), 100);
    let (m, _) = feed_add_friend(m, AddFriendEvent::Follows(vec![]));
    let (m, _) = feed_add_friend(m, AddFriendEvent::Follows(vec![]));
    let (m, _) = feed_add_friend(m, AddFriendEvent::RoomCreated { last_insert_id: 42 });
    let (m, _) = feed_add_friend(m, AddFriendEvent::Inserted);
    let (m, _) = feed_add_friend(m, AddFriendEvent::Inserted);
    let (m, _) = feed_add_friend(m, AddFriendEvent::Inserted);
    let (_, first) = feed_add_friend(m, AddFriendEvent::Users(vec![user("you", None, Some("You"), 1)]));
    // The same request again: the user's follow of room 42 is found.
    let (m, _) = AddFriend::start("me".to_string(), "you".to_string(), 200);
    let (m, a) = feed_add_friend(m, AddFriendEvent::Follows(vec![follow("you", "me", 42)]));
    assert!(matches!(&a, AddFriendAction::FindUser { id } if id == "you"));
    let (m, second) = feed_add_friend(m, AddFriendEvent::Users(vec![user("you", None, Some("You"), 1)]));
    match (first, second) {
        (AddFriendAction::Reply(r1), AddFriendAction::Reply(r2)) => {
            assert_eq!(r1.direct_chat_room_id, r2.direct_chat_room_id);
            assert_eq!(r1.friend_use_id, r2.friend_use_id);
            assert_eq!(r1.friend_nickname, r2.friend_nickname);
        }
        _ => panic!("replies expected"),
    }
    assert!(!m.accepts(&AddFriendEvent::Inserted));
}

#[test]
fn repeat_after_follow_back_writes_nothing() {
    let (m, _) = AddFriend::start("me".to_string(), "you".to_string(), 5);
    let (m, a) = feed_add_friend(m, AddFriendEvent::Follows(vec![follow("you", "me", 3)]));
    assert!(matches!(a, AddFriendAction::FindUser { .. }));
    let (_, a) = feed_add_friend(m, AddFriendEvent::Users(vec![user("you", None, Some("Y"), 0)]));
    assert!(matches!(&a, AddFriendAction::Reply(r) if r.direct_chat_room_id == "3"));
}

#[test]
fn add_friend_refuses_unexpected_answers() {
    let (m, _) = AddFriend::start("me".to_string(), "you".to_string(), 5);
    assert!(!m.accepts(&AddFriendEvent::Inserted));
    assert!(!m.accepts(&AddFriendEvent::Users(vec![])));
}

#[test]
fn group_members_join_in_order() {
    let ids = vec!["a".to_string(), "b".to_string(), "c".to_string()];
    let (m, a) = AddGroup::start(Some("g.png".to_string()), "Team".to_string(), ids, 9);
    assert!(matches!(&a, AddGroupAction::CreateGroupChatRoom { group_name, group_image, created_at: 9 } if group_name == "Team" && group_image.as_deref() == Some("g.png")));
    assert!(m.accepts(&AddGroupEvent::RoomCreated { last_insert_id: 77 }));
    let (mut m, mut a) = m.step(AddGroupEvent::RoomCreated { last_insert_id: 77 });
    for expected in ["a", "b", "c"] {
        assert!(matches!(&a, AddGroupAction::AddGroupMember { group_chat_room_id: 77, user_id, entry_date: 9 } if user_id == expected));
        assert!(m.accepts(&AddGroupEvent::MemberAdded));
        let next = m.step(AddGroupEvent::MemberAdded);
        m = next.0;
        a = next.1;
    }
    match a {
        AddGroupAction::Reply(r) => {
            assert_eq!(r.group_chat_room_id, "77");
            assert_eq!(r.group_name, "Team");
            assert_eq!(r.group_image.as_deref(), Some("g.png"));
        }
        _ => panic!("reply expected"),
    }
    assert!(!m.accepts(&AddGroupEvent::MemberAdded));
}

#[test]
fn group_without_members_replies_after_the_room() {
    let (m, _) = AddGroup::start(None, "Solo".to_string(), vec![], 1);
    let (m, a) = m.step(AddGroupEvent::RoomCreated { last_insert_id: 5 });
    assert!(matches!(&a, AddGroupAction::Reply(r) if r.group_chat_room_id == "5" && r.group_image.is_none()));
    assert!(!m.accepts(&AddGroupEvent::MemberAdded));
}

#[test]
fn missing_lookup_query_looks_up_empty_id() {
    assert_eq!(FetchFriendInfoByUserIdQuery::default().search_user_id, "");
}

#[test]
fn lookup_of_unknown_user_reveals_nothing() {
    let (m, a) = FriendInfoLookup::start("me".to_string(), "ghost".to_string());
    assert!(matches!(&a, FriendInfoAction::CountUsers { id } if id == "ghost"));
    assert!(m.accepts(&FriendInfoEvent::Counted(0)));
    let (m, a) = m.step(FriendInfoEvent::Counted(0));
    match a {
        FriendInfoAction::Reply(r) => {
            assert!(!r.exist_user_id);
            assert!(!r.already_follow_requested);
            assert!(!r.friend_search_flag);
            assert_eq!(r.friend_use_id, None);
            assert_eq!(r.friend_profile_image, None);
            assert_eq!(r.friend_nickname, None);
        }
        _ => panic!("reply expected"),
    }
    assert!(!m.accepts(&FriendInfoEvent::Counted(1)));
}

#[test]
fn lookup_of_hidden_user_withholds_profile() {
    let (m, _) = FriendInfoLookup::start("me".to_string(), "shy".to_string());
    let (m, a) = m.step(FriendInfoEvent::Counted(1));
    assert!(matches!(&a, FriendInfoAction::FindUser { id } if id == "shy"));
    assert!(!m.accepts(&FriendInfoEvent::Found(vec![])));
    let (m, a) = m.step(FriendInfoEvent::Found(vec![user("shy", Some("s.png"), Some("Shy"), 0)]));
    assert!(matches!(&a, FriendInfoAction::CountFollows { to_user_id, from_user_id } if to_user_id == "shy" && from_user_id == "me"));
    let (_, a) = m.step(FriendInfoEvent::Counted(0));
    match a {
        FriendInfoAction::Reply(r) => {
            assert!(r.exist_user_id);
            assert!(!r.already_follow_requested);
            assert!(!r.friend_search_flag);
            assert_eq!(r.friend_use_id.as_deref(), Some("shy"));
            assert_eq!(r.friend_profile_image, None);
            assert_eq!(r.friend_nickname, None);
        }
        _ => panic!("reply expected"),
    }
}

#[test]
fn lookup_of_searchable_user_shows_profile() {
    let (m, _) = FriendInfoLookup::start("me".to_string(), "open".to_string());
    let (m, _) = m.step(FriendInfoEvent::Counted(1));
    let (m, _) = m.step(FriendInfoEvent::Found(vec![user("open", Some("o.png"), Some("Open"), 1)]));
    let (_, a) = m.step(FriendInfoEvent::Counted(0));
    assert!(matches!(&a, FriendInfoAction::Reply(r) if r.friend_profile_image.as_deref() == Some("o.png") && r.friend_nickname.as_deref() == Some("Open") && r.friend_search_flag));
}

#[test]
fn lookup_of_followed_hidden_user_shows_profile() {
    let (m, _) = FriendInfoLookup::start("me".to_string(), "shy".to_string());
    let (m, _) = m.step(FriendInfoEvent::Counted(1));
    let (m, _) = m.step(FriendInfoEvent::Found(vec![user("shy", Some("s.png"), Some("Shy"), 0)]));
    let (_, a) = m.step(FriendInfoEvent::Counted(1));
    assert!(matches!(&a, FriendInfoAction::Reply(r) if r.already_follow_requested && !r.friend_search_flag && r.friend_nickname.as_deref() == Some("Shy")));
}

#[test]
fn follow_back_reuses_the_first_friends_room() {
    let (m, _) = AddFriend::start("a".to_string(), "b".to_string(), 1);
    let (m, _) = feed_add_friend(m, AddFriendEvent::Follows(vec![]));
    let (m, _) = feed_add_friend(m, AddFriendEvent::Follows(vec![]));
    let (m, _) = feed_add_friend(m, AddFriendEvent::RoomCreated { last_insert_id: 31 });
    let (m, _) = feed_add_friend(m, AddFriendEvent::Inserted);
    let (m, _) = feed_add_friend(m, AddFriendEvent::Inserted);
    let (m, _) = feed_add_friend(m, AddFriendEvent::Inserted);
    let (_, first) = feed_add_friend(m, AddFriendEvent::Users(vec![user("b", None, None, 1)]));
    let (m, a) = AddFriend::start("b".to_string(), "a".to_string(), 2);
    assert!(matches!(&a, AddFriendAction::FindFollows { to_user_id, from_user_id } if to_user_id == "a" && from_user_id == "b"));
    let (m, a) = feed_add_friend(m, AddFriendEvent::Follows(vec![]));
    assert!(matches!(&a, AddFriendAction::FindFollows { to_user_id, from_user_id } if to_user_id == "b" && from_user_id == "a"));
    let (m, a) = feed_add_friend(m, AddFriendEvent::Follows(vec![follow("b", "a", 31)]));
    assert!(matches!(&a, AddFriendAction::AddFollow { to_user_id, from_user_id, direct_chat_room_id, .. } if to_user_id == "a" && from_user_id == "b" && direct_chat_room_id == "31"));
    let (m, _) = feed_add_friend(m, AddFriendEvent::Inserted);
    let (_, second) = feed_add_friend(m, AddFriendEvent::Users(vec![user("a", None, None, 1)]));
    match (first, second) {
        (AddFriendAction::Reply(r1), AddFriendAction::Reply(r2)) => {
            assert_eq!(r1.direct_chat_room_id, "31");
            assert_eq!(r1.direct_chat_room_id, r2.direct_chat_room_id);
        }
        _ => panic!("replies expected"),
    }
}

#[test]
fn lookup_of_friend_reports_the_follow() {
    let (m, _) = FriendInfoLookup::start("me".to_string(), "pal".to_string());
    let (m, _) = m.step(FriendInfoEvent::Counted(1));
    let (m, _) = m.step(FriendInfoEvent::Found(vec![user("pal", None, None, 1)]));
    let (_, a) = m.step(FriendInfoEvent::Counted(1));
    assert!(matches!(&a, FriendInfoAction::Reply(r) if r.exist_user_id && r.already_follow_requested && r.friend_search_flag));
}

#[test]
fn lookup_counts_other_than_one_mean_missing() {
    let (m, _) = FriendInfoLookup::start("me".to_string(), "dup".to_string());
    let (_, a) = m.step(FriendInfoEvent::Counted(2));
    assert!(matches!(&a, FriendInfoAction::Reply(r) if !r.exist_user_id));
}
