use a_chat_api::account::{
    log_in_result, profile_result, profile_updates, user_from_record, user_id_is_available,
    users_from_records, ProfileUpdate,
};
use a_chat_api::records::{ProfileRecord, UserRecord};

fn record(id: &str, nickname: Option<&str>, delete_flag: i8, search_flag: i8) -> UserRecord {
    UserRecord {
        id: id.to_string(),
        nickname: nickname.map(|n| n.to_string()),
        mail: format!("{}@example.com", id),
        password: "secret".to_string(),
        profile_image: None,
        delete_flag,
        search_flag,
        created_at: 1_650_000_000,
        updated_at: Some(1_650_000_100),
    }
}

#[test]
fn user_flags_are_set_only_by_one() {
    let u = user_from_record(&record("asami111", Some("Asami"), 1, 0));
    assert_eq!(u.id, "asami111");
    assert_eq!(u.nickname.as_deref(), Some("Asami"));
    assert_eq!(u.mail, "asami111@example.com");
    assert!(u.delete_flag);
    assert!(!u.search_flag);
    assert_eq!(u.created_at, 1_650_000_000);
    assert_eq!(u.updated_at, Some(1_650_000_100));
    let v = user_from_record(&record("ken", None, 2, 1));
    assert!(!v.delete_flag);
    assert!(v.search_flag);
}

#[test]
fn all_users_keep_row_order() {
    let rows = vec![record("b", None, 0, 1), record("a", Some("A"), 0, 0)];
    let users = users_from_records(&rows);
    assert_eq!(users.len(), 2);
    assert_eq!(users[0].id, "b");
    assert!(users[0].search_flag);
    assert_eq!(users[1].id, "a");
    assert!(users_from_records(&vec![]).is_empty());
}

#[test]
fn user_id_is_free_only_without_rows() {
    assert!(user_id_is_available(&vec![]));
    assert!(!user_id_is_available(&vec![record("taken", None, 0, 0)]));
}

#[test]
fn log_in_fails_without_matching_user() {
    let r = log_in_result(&vec![]);
    assert!(!r.certification_result);
    assert_eq!(r.user_id, None);
}

#[test]
fn log_in_names_the_first_matching_user() {
    let r = log_in_result(&vec![record("first", None, 0, 0), record("second", None, 0, 0)]);
    assert!(r.certification_result);
    assert_eq!(r.user_id.as_deref(), Some("first"));
}

#[test]
fn profile_reads_the_first_row() {
    let rows = vec![
        ProfileRecord { nickname: Some("Nick".to_string()), profile_image: Some("a.png".to_string()), search_flag: 1 },
        ProfileRecord { nickname: None, profile_image: None, search_flag: 0 },
    ];
    let p = profile_result(&"u1".to_string(), &rows);
    assert_eq!(p.user_id, "u1");
    assert_eq!(p.nickname.as_deref(), Some("Nick"));
    assert_eq!(p.profile_image.as_deref(), Some("a.png"));
    assert!(p.search_flag);
}

#[test]
fn profile_update_runs_given_fields_in_order() {
    let plan = profile_updates(&"u1".to_string(), &Some("New".to_string()), &Some("b.png".to_string()), Some(false), 77);
    assert_eq!(plan.len(), 3);
    match &plan[0] {
        ProfileUpdate::Nickname { nickname, updated_at, user_id } => {
            assert_eq!(nickname, "New");
            assert_eq!(*updated_at, 77);
            assert_eq!(user_id, "u1");
        }
        _ => panic!("nickname first"),
    }
    match &plan[1] {
        ProfileUpdate::ProfileImage { profile_image, .. } => assert_eq!(profile_image, "b.png"),
        _ => panic!("image second"),
    }
    match &plan[2] {
        ProfileUpdate::SearchFlag { search_flag, .. } => assert!(!*search_flag),
        _ => panic!("search flag last"),
    }
}

#[test]
fn profile_update_skips_missing_fields() {
    let plan = profile_updates(&"u1".to_string(), &None, &None, Some(true), 5);
    assert_eq!(plan.len(), 1);
    assert!(matches!(plan[0], ProfileUpdate::SearchFlag { search_flag: true, updated_at: 5, .. }));
    assert!(profile_updates(&"u1".to_string(), &None, &None, None, 5).is_empty());
}
