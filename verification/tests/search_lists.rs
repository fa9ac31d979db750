use a_chat_api::records::{FriendRecord, GroupRecord};
use a_chat_api::search::{
    fetch_friend_list_result, fetch_group_list_result, search_name_friends_result,
    search_name_groups_result, SearchNameFriendListResultEnum, SearchNameQuery,
};

fn friend(room: u64, id: &str) -> FriendRecord {
    FriendRecord {
        direct_chat_room_id: room,
        friend_user_id: id.to_string(),
        friend_profile_image: None,
        friend_nickname: Some("Same Name".to_string()),
    }
}

fn group(room: u64, name: &str, image: Option<&str>) -> GroupRecord {
    GroupRecord {
        group_chat_room_id: room,
        group_name: name.to_string(),
        group_image: image.map(|i| i.to_string()),
    }
}

#[test]
fn missing_search_query_searches_empty_name() {
    let q = SearchNameQuery::default();
    assert_eq!(q.search_text, "");
}

#[test]
fn friend_search_without_match_sends_placeholder() {
    let r = search_name_friends_result(&vec![]);
    assert_eq!(r.len(), 1);
    match &r[0] {
        SearchNameFriendListResultEnum::SearchNameFriendListNoneResult {
            direct_chat_room_id,
            friend_use_id,
            friend_profile_image,
            friend_nickname,
        } => {
            assert_eq!(*direct_chat_room_id, None);
            assert_eq!(*friend_use_id, None);
            assert_eq!(*friend_profile_image, None);
            assert_eq!(*friend_nickname, None);
        }
        _ => panic!("placeholder expected"),
    }
}

#[test]
fn friend_search_lists_every_match_in_order() {
    let r = search_name_friends_result(&vec![friend(1, "asami111"), friend(2, "ken")]);
    assert_eq!(r.len(), 2);
    match &r[0] {
        SearchNameFriendListResultEnum::SearchNameFriendListResult {
            direct_chat_room_id,
            friend_use_id,
            friend_profile_image,
            friend_nickname,
        } => {
            assert_eq!(*direct_chat_room_id, 1);
            assert_eq!(friend_use_id, "asami111");
            assert_eq!(*friend_profile_image, None);
            assert_eq!(friend_nickname.as_deref(), Some("Same Name"));
        }
        _ => panic!("friend entry expected"),
    }
    assert!(matches!(&r[1], SearchNameFriendListResultEnum::SearchNameFriendListResult { direct_chat_room_id: 2, friend_use_id, .. } if friend_use_id == "ken"));
}

#[test]
fn group_search_writes_room_ids_in_decimal() {
    let r = search_name_groups_result(&vec![group(12, "Team", None), group(305, "Team", Some("t.png"))]);
    assert_eq!(r.len(), 2);
    assert_eq!(r[0].group_chat_room_id, "12");
    assert_eq!(r[0].group_name, "Team");
    assert_eq!(r[0].group_image, None);
    assert_eq!(r[1].group_chat_room_id, "305");
    assert_eq!(r[1].group_image.as_deref(), Some("t.png"));
}

#[test]
fn group_list_keeps_row_order() {
    let r = fetch_group_list_result(&vec![group(7, "B", None), group(3, "A", None)]);
    assert_eq!(r.len(), 2);
    assert_eq!(r[0].group_chat_room_id, "7");
    assert_eq!(r[0].group_name, "B");
    assert_eq!(r[1].group_chat_room_id, "3");
    assert!(fetch_group_list_result(&vec![]).is_empty());
}

#[test]
fn friend_list_copies_rows() {
    let r = fetch_friend_list_result(&vec![friend(9, "ken")]);
    assert_eq!(r.len(), 1);
    assert_eq!(r[0].direct_chat_room_id, 9);
    assert_eq!(r[0].friend_use_id, "ken");
    assert_eq!(r[0].friend_profile_image, None);
    assert_eq!(r[0].friend_nickname.as_deref(), Some("Same Name"));
}
