//! Accounts: listing users, checking that a user id is free, logging in,
//! reading and updating a profile.

use vstd::prelude::*;
use crate::models::User;
use crate::records::{UserRecord, ProfileRecord, flag_set, copy_text, read_flag};

verus! {

/// The user that a row of `user` describes.
pub open spec fn user_of(r: UserRecord) -> User {
    User {
        id: r.id,
        nickname: r.nickname,
        mail: r.mail,
        password: r.password,
        profile_image: r.profile_image,
        delete_flag: flag_set(r.delete_flag),
        search_flag: flag_set(r.search_flag),
        created_at: r.created_at,
        updated_at: r.updated_at,
    }
}

/// Reads one row of `user`.
pub fn user_from_record(r: &UserRecord) -> (u: User)
    ensures
        u == user_of(*r),
        u.id == r.id && u.nickname == r.nickname && u.mail == r.mail && u.password == r.password,
        u.profile_image == r.profile_image,
        u.delete_flag == (r.delete_flag == 1),
        u.search_flag == (r.search_flag == 1),
        u.created_at == r.created_at && u.updated_at == r.updated_at,
{
    User {
        id: r.id.clone(),
        nickname: copy_text(&r.nickname),
        mail: r.mail.clone(),
        password: r.password.clone(),
        profile_image: copy_text(&r.profile_image),
        delete_flag: read_flag(r.delete_flag),
        search_flag: read_flag(r.search_flag),
        created_at: r.created_at,
        updated_at: r.updated_at,
    }
}

/// Every user of the table, in the order the rows came.
pub fn users_from_records(rows: &Vec<UserRecord>) -> (users: Vec<User>)
    ensures
        users@ == rows@.map_values(|r: UserRecord| user_of(r)),
        users.len() == rows.len(),
        forall|i: int| 0 <= i < rows.len() ==> {
            &&& (#[trigger] users[i]).id == rows[i].id
            &&& users[i].nickname == rows[i].nickname
            &&& users[i].mail == rows[i].mail
            &&& users[i].password == rows[i].password
            &&& users[i].profile_image == rows[i].profile_image
            &&& users[i].delete_flag == (rows[i].delete_flag == 1)
            &&& users[i].search_flag == (rows[i].search_flag == 1)
            &&& users[i].created_at == rows[i].created_at
            &&& users[i].updated_at == rows[i].updated_at
        },
{
    let mut users: Vec<User> = Vec::new();
    for i in 0..rows.len()
        invariant
            users@ == rows@.subrange(0, i as int).map_values(|r: UserRecord| user_of(r)),
    {
        users.push(user_from_record(&rows[i]));
        assert(rows@.subrange(0, i + 1) == rows@.subrange(0, i as int).push(rows@[i as int]));
    }
    assert(rows@.subrange(0, rows.len() as int) == rows@);
    proof {
        assert forall|i: int| 0 <= i < rows.len() implies (#[trigger] users[i]) == user_of(rows[i]) by {
            lemma_user_of_reads_row(rows[i]);
        }
    }
    users
}

/// A user id can be taken when no row of `user` has it: `rows` are the rows
/// with the id asked for.
pub fn user_id_is_available(rows: &Vec<UserRecord>) -> (available: bool)
    ensures
        available == (rows.len() == 0),
{
    rows.len() == 0
}

/// The answer to a log-in.
pub struct LoginResult {
    pub user_id: Option<String>,
    pub certification_result: bool,
}

/// Answers a log-in from the rows of `user` whose mail and password match:
/// the log-in succeeds when there is one, and names the first.
pub fn log_in_result(rows: &Vec<UserRecord>) -> (r: LoginResult)
    ensures
        r.certification_result == (rows.len() > 0),
        r.certification_result <==> r.user_id is Some,
        rows.len() > 0 ==> r.user_id == Some(rows[0].id),
{
    if rows.len() == 0 {
        LoginResult { user_id: None, certification_result: false }
    } else {
        LoginResult { user_id: Some(rows[0].id.clone()), certification_result: true }
    }
}

/// A user's profile as the client sees it.
pub struct FetchProfileByUserIdResult {
    pub user_id: String,
    pub nickname: Option<String>,
    pub profile_image: Option<String>,
    pub search_flag: bool,
}

/// The profile of `user_id` from the rows of the profile query, the first
/// of which is read.
pub fn profile_result(user_id: &String, rows: &Vec<ProfileRecord>) -> (r: FetchProfileByUserIdResult)
    requires
        rows.len() > 0,
    ensures
        r.user_id == *user_id,
        r.nickname == rows[0].nickname,
        r.profile_image == rows[0].profile_image,
        r.search_flag == flag_set(rows[0].search_flag),
        r.search_flag == (rows[0].search_flag == 1),
{
    let row = &rows[0];
    FetchProfileByUserIdResult {
        user_id: user_id.clone(),
        nickname: copy_text(&row.nickname),
        profile_image: copy_text(&row.profile_image),
        search_flag: read_flag(row.search_flag),
    }
}

/// One `UPDATE user` statement of a profile update.
pub enum ProfileUpdate {
    Nickname { nickname: String, updated_at: u64, user_id: String },
    ProfileImage { profile_image: String, updated_at: u64, user_id: String },
    SearchFlag { search_flag: bool, updated_at: u64, user_id: String },
}

/// The statements that a profile update runs, in order: the nickname, the
/// image, then the search flag, each only when the request gives it.
pub open spec fn profile_update_plan(
    user_id: String,
    nickname: Option<String>,
    profile_image: Option<String>,
    search_flag: Option<bool>,
    now: u64,
) -> Seq<ProfileUpdate> {
    let a = match nickname {
        Some(n) => seq![ProfileUpdate::Nickname { nickname: n, updated_at: now, user_id }],
        None => Seq::empty(),
    };
    let b = match profile_image {
        Some(p) => seq![ProfileUpdate::ProfileImage { profile_image: p, updated_at: now, user_id }],
        None => Seq::empty(),
    };
    let c = match search_flag {
        Some(f) => seq![ProfileUpdate::SearchFlag { search_flag: f, updated_at: now, user_id }],
        None => Seq::empty(),
    };
    a + b + c
}

/// Plans a profile update of `user_id` at time `now`; the statements are
/// run in the order given, and the first that fails ends the update.
pub fn profile_updates(
    user_id: &String,
    nickname: &Option<String>,
    profile_image: &Option<String>,
    search_flag: Option<bool>,
    now: u64,
) -> (plan: Vec<ProfileUpdate>)
    ensures
        plan@ == profile_update_plan(*user_id, *nickname, *profile_image, search_flag, now),
        plan.len() == (if *nickname is Some { 1int } else { 0int })
            + (if *profile_image is Some { 1int } else { 0int })
            + (if search_flag is Some { 1int } else { 0int }),
        *nickname matches Some(n) ==> plan@[0]
            == (ProfileUpdate::Nickname { nickname: n, updated_at: now, user_id: *user_id }),
        *profile_image matches Some(p) ==> plan@[if *nickname is Some { 1int } else { 0int }]
            == (ProfileUpdate::ProfileImage { profile_image: p, updated_at: now, user_id: *user_id }),
        search_flag matches Some(f) ==> plan@[plan.len() - 1]
            == (ProfileUpdate::SearchFlag { search_flag: f, updated_at: now, user_id: *user_id }),
{
    proof {
        lemma_profile_plan_per_field(*user_id, *nickname, *profile_image, search_flag, now);
    }
    let mut plan: Vec<ProfileUpdate> = Vec::new();
    if let Some(n) = nickname {
        plan.push(ProfileUpdate::Nickname { nickname: n.clone(), updated_at: now, user_id: user_id.clone() });
    }
    if let Some(p) = profile_image {
        plan.push(ProfileUpdate::ProfileImage { profile_image: p.clone(), updated_at: now, user_id: user_id.clone() });
    }
    if let Some(f) = search_flag {
        plan.push(ProfileUpdate::SearchFlag { search_flag: f, updated_at: now, user_id: user_id.clone() });
    }
    plan
}

/// A user read from a row keeps every column of it, and its flags are set
/// exactly when the columns hold 1.
pub proof fn lemma_user_of_reads_row(r: UserRecord)
    ensures
        user_of(r).id == r.id,
        user_of(r).nickname == r.nickname,
        user_of(r).mail == r.mail,
        user_of(r).password == r.password,
        user_of(r).profile_image == r.profile_image,
        user_of(r).delete_flag == (r.delete_flag == 1),
        user_of(r).search_flag == (r.search_flag == 1),
        user_of(r).created_at == r.created_at,
        user_of(r).updated_at == r.updated_at,
{
}

/// Each field of a profile update is planned on its own: the plan holds one
/// statement per field given, and none for a field left out; the nickname
/// comes first, the image next, the search flag last, each with the value
/// given, the update's time and the user.
pub proof fn lemma_profile_plan_per_field(
    user_id: String,
    nickname: Option<String>,
    profile_image: Option<String>,
    search_flag: Option<bool>,
    now: u64,
)
    ensures
        ({
            let plan = profile_update_plan(user_id, nickname, profile_image, search_flag, now);
            let cn: int = if nickname is Some { 1 } else { 0 };
            let ci: int = if profile_image is Some { 1 } else { 0 };
            let cf: int = if search_flag is Some { 1 } else { 0 };
            &&& plan.len() == cn + ci + cf
            &&& nickname matches Some(n) ==> plan[0]
                == (ProfileUpdate::Nickname { nickname: n, updated_at: now, user_id })
            &&& profile_image matches Some(p) ==> plan[cn]
                == (ProfileUpdate::ProfileImage { profile_image: p, updated_at: now, user_id })
            &&& search_flag matches Some(f) ==> plan[cn + ci]
                == (ProfileUpdate::SearchFlag { search_flag: f, updated_at: now, user_id })
        }),
{
}

} // verus!
