//! Rows as the database hands them back, before the service reads them:
//! MySQL returns its boolean columns as `TINYINT` values.

use vstd::prelude::*;

verus! {

/// A `TINYINT` flag column read as a boolean: only `1` counts as set.
pub open spec fn flag_set(v: i8) -> bool {
    v == 1
}

/// A row of `SELECT * FROM user`.
pub struct UserRecord {
    pub id: String,
    pub nickname: Option<String>,
    pub mail: String,
    pub password: String,
    pub profile_image: Option<String>,
    pub delete_flag: i8,
    pub search_flag: i8,
    pub created_at: i32,
    pub updated_at: Option<i32>,
}

/// A row of the profile query: the nickname, image and search flag of a user.
pub struct ProfileRecord {
    pub nickname: Option<String>,
    pub profile_image: Option<String>,
    pub search_flag: i8,
}

/// A row of the friend queries: a user that the asking user follows, and
/// the direct chat room of the two.
pub struct FriendRecord {
    pub direct_chat_room_id: u64,
    pub friend_user_id: String,
    pub friend_profile_image: Option<String>,
    pub friend_nickname: Option<String>,
}

/// A row of the group queries.
pub struct GroupRecord {
    pub group_chat_room_id: u64,
    pub group_name: String,
    pub group_image: Option<String>,
}

/// A copy of an optional text column.
pub fn copy_text(t: &Option<String>) -> (r: Option<String>)
    ensures
        r == *t,
{
    match t {
        Some(s) => Some(s.clone()),
        None => None,
    }
}

/// Reads a `TINYINT` flag column as a boolean.
pub fn read_flag(v: i8) -> (b: bool)
    ensures
        b == flag_set(v),
{
    v == 1
}

} // verus!
