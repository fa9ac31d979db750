//! The rows of the service's tables: one struct for what is written when a
//! row is created, one for what is read back.

use vstd::prelude::*;

verus! {

/// A new row of `user`.
pub struct NewUser {
    pub id: String,
    pub nickname: Option<String>,
    pub mail: String,
    pub password: String,
    pub profile_image: Option<String>,
    pub delete_flag: bool,
    pub search_flag: bool,
    pub created_at: i32,
    pub updated_at: Option<i32>,
}

/// A row of `user`, its flags read as booleans.
#[derive(Debug)]
pub struct User {
    pub id: String,
    pub nickname: Option<String>,
    pub mail: String,
    pub password: String,
    pub profile_image: Option<String>,
    pub delete_flag: bool,
    pub search_flag: bool,
    pub created_at: i32,
    pub updated_at: Option<i32>,
}

/// A new row of `direct_chat_room`.
pub struct NewDirectChatRoom {
    pub id: u64,
    pub created_at: i32,
}

/// A row of `direct_chat_room`.
#[derive(Debug)]
pub struct DirectChatRoom {
    pub id: u64,
    pub created_at: i32,
}

/// A new row of `direct_member`.
pub struct NewDirectMember {
    pub id: u64,
    pub direct_chat_room_id: u64,
    pub user_id: String,
    pub delete_flag: bool,
    pub hidden_flag: bool,
    pub entry_date: i32,
    pub last_read_time: i32,
}

/// A row of `direct_member`.
#[derive(Debug)]
pub struct DirectMember {
    pub id: u64,
    pub direct_chat_room_id: u64,
    pub user_id: String,
    pub delete_flag: bool,
    pub hidden_flag: bool,
    pub entry_date: i32,
    pub last_read_time: i32,
}

/// A new row of `follow`.
pub struct NewFollow {
    pub id: u64,
    pub to_user_id: String,
    pub from_user_id: String,
    pub direct_chat_room_id: u64,
    pub created_at: i32,
}

/// A row of `follow`: `from_user_id` has added `to_user_id` as a friend,
/// and they talk in `direct_chat_room_id`.
#[derive(Debug)]
pub struct Follow {
    pub id: u64,
    pub to_user_id: String,
    pub from_user_id: String,
    pub direct_chat_room_id: u64,
    pub created_at: i32,
}

/// A new row of `group_chat_room`.
pub struct NewGroupChatRoom {
    pub id: u64,
    pub group_name: String,
    pub group_image: String,
    pub created_at: i32,
    pub delete_flag: bool,
}

/// A row of `group_chat_room`.
#[derive(Debug)]
pub struct GroupChatRoom {
    pub id: u64,
    pub group_name: String,
    pub group_image: String,
    pub created_at: i32,
    pub delete_flag: bool,
}

/// A new row of `group_member`.
pub struct NewGroupMember {
    pub id: u64,
    pub group_chat_room_id: u64,
    pub user_id: String,
    pub delete_flag: bool,
    pub hidden_flag: bool,
    pub entry_date: i32,
    pub last_read_time: i32,
}

/// A row of `group_member`.
#[derive(Debug)]
pub struct GroupMember {
    pub id: u64,
    pub group_chat_room_id: u64,
    pub user_id: String,
    pub delete_flag: bool,
    pub hidden_flag: bool,
    pub entry_date: i32,
    pub last_read_time: i32,
}

/// A new row of `message_content_type`.
pub struct NewMessageContentType {
    pub id: u64,
    pub content_type: String,
}

/// A row of `message_content_type`.
#[derive(Debug)]
pub struct MessageContentType {
    pub id: u64,
    pub content_type: String,
}

/// A new row of `message`.
pub struct NewMessage {
    pub id: u64,
    pub content_type_id: u64,
    pub sender_id: String,
    pub direct_chat_room_id: Option<u64>,
    pub group_chat_room_id: Option<u64>,
    pub content: String,
    pub created_at: i32,
}

/// A row of `message`.
#[derive(Debug)]
pub struct Message {
    pub id: u64,
    pub content_type_id: u64,
    pub sender_id: String,
    pub direct_chat_room_id: Option<u64>,
    pub group_chat_room_id: Option<u64>,
    pub content: String,
    pub created_at: i32,
}

} // verus!
