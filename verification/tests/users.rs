use record_store::errors::RepoError;
use record_store::ids::new_uuid;
use record_store::users::{UserKbn, Users, UsersBuilder, UsersTable};

fn version_nibble(id: u128) -> u128 {
    (id >> 76) & 0xf
}

fn variant_bits(id: u128) -> u128 {
    (id >> 62) & 0x3
}

#[test]
fn test_users_columns1() {
    let mut table = UsersTable::new();
    Users::insert_columns(
        &mut table,
        new_uuid(),
        "taro",
        "taro@example.com",
        &UserKbn::Normal,
    )
    .unwrap();
    let list = Users::select_all(&table).unwrap();
    assert_eq!(list.len(), 1);
}

#[test]
fn test_users_columns2() {
    let mut table = UsersTable::new();
    Users::insert_columns(
        &mut table,
        new_uuid(),
        "taro",
        "taro@example.com",
        &UserKbn::Normal,
    )
    .unwrap();
    Users::insert_columns(
        &mut table,
        new_uuid(),
        "jiro",
        "jiro@example.com",
        &UserKbn::Admin,
    )
    .unwrap();
    let list = Users::select_all(&table).unwrap();
    assert_eq!(list.len(), 2);
}

#[test]
fn test_users_default1() {
    let mut table = UsersTable::new();
    Users::insert(
        &mut table,
        &Users {
            user_name: "taro".to_string(),
            user_email: "taro@exeample.com".to_string(),
            ..Default::default()
        },
    )
    .unwrap();
    let list = Users::select_all(&table).unwrap();
    assert_eq!(list.len(), 1);
}

#[test]
fn test_users_default2() {
    let mut table = UsersTable::new();
    Users::insert(
        &mut table,
        &Users {
            user_name: "taro".to_string(),
            user_email: "taro@exeample.com".to_string(),
            user_kbn: UserKbn::Normal,
            ..Default::default()
        },
    )
    .unwrap();
    Users::insert(
        &mut table,
        &Users {
            user_name: "jiro".to_string(),
            user_email: "jiro@exeample.com".to_string(),
            user_kbn: UserKbn::Admin,
            ..Default::default()
        },
    )
    .unwrap();
    let list = Users::select_all(&table).unwrap();
    assert_eq!(list.len(), 2);
}

#[test]
fn test_users_builder1() {
    let mut table = UsersTable::new();
    let mut builder = UsersBuilder::default().user_name("taro".to_string());
    Users::make_normal(&mut table, &mut builder).unwrap();
    let list = Users::select_all(&table).unwrap();
    assert_eq!(list.len(), 1);
}

#[test]
fn test_users_builder2() {
    let mut table = UsersTable::new();
    let mut builder = UsersBuilder::default().user_name("taro".to_string());
    Users::make_normal(&mut table, &mut builder).unwrap();
    let mut builder = UsersBuilder::default().user_name("jiro".to_string());
    Users::make_admin(&mut table, &mut builder).unwrap();
    let list = Users::select_all(&table).unwrap();
    assert_eq!(list.len(), 2);
}

#[test]
fn empty_builder_defaults_every_field() {
    let mut table = UsersTable::new();
    let mut builder = UsersBuilder::default();
    Users::make(&mut table, &mut builder).unwrap();
    let list = Users::select_all(&table).unwrap();
    assert_eq!(list.len(), 1);
    assert_eq!(list[0].user_name, "太郎");
    assert_eq!(list[0].user_email, "太郎@example.com");
    assert_eq!(list[0].user_kbn, UserKbn::Normal);
    assert_eq!(version_nibble(list[0].uuid), 7);
    assert_eq!(variant_bits(list[0].uuid), 2);
}

#[test]
fn explicit_name_defaults_email_from_it() {
    let mut table = UsersTable::new();
    let mut builder = UsersBuilder::default().user_name("hanako".to_string());
    Users::make(&mut table, &mut builder).unwrap();
    let list = Users::select_all(&table).unwrap();
    assert_eq!(list.len(), 1);
    assert_eq!(list[0].user_name, "hanako");
    assert_eq!(list[0].user_email, "hanako@example.com");
}

#[test]
fn explicit_email_is_kept() {
    let mut table = UsersTable::new();
    let mut builder = UsersBuilder::default()
        .user_name("hanako".to_string())
        .user_email("other@example.org".to_string());
    Users::make(&mut table, &mut builder).unwrap();
    let list = Users::select_all(&table).unwrap();
    assert_eq!(list[0].user_email, "other@example.org");
}

#[test]
fn make_normal_then_make_admin_kinds() {
    let mut table = UsersTable::new();
    let mut builder = UsersBuilder::default().user_name("taro".to_string());
    Users::make_normal(&mut table, &mut builder).unwrap();
    let mut builder = UsersBuilder::default().user_name("jiro".to_string());
    Users::make_admin(&mut table, &mut builder).unwrap();
    let list = Users::select_all(&table).unwrap();
    assert_eq!(list.len(), 2);
    assert_eq!(list[0].user_kbn, UserKbn::Normal);
    assert_eq!(list[0].user_email, "taro@example.com");
    assert_eq!(list[1].user_kbn, UserKbn::Admin);
    assert_eq!(list[1].user_email, "jiro@example.com");
    assert_ne!(list[0].uuid, list[1].uuid);
}

#[test]
fn select_all_is_idempotent() {
    let mut table = UsersTable::new();
    let mut builder = UsersBuilder::default().user_name("taro".to_string());
    Users::make_normal(&mut table, &mut builder).unwrap();
    let first = Users::select_all(&table).unwrap();
    let second = Users::select_all(&table).unwrap();
    assert_eq!(first, second);
}

#[test]
fn delete_all_empties_the_table() {
    let mut table = UsersTable::new();
    let mut builder = UsersBuilder::default();
    Users::make(&mut table, &mut builder).unwrap();
    Users::delete_all(&mut table).unwrap();
    let list = Users::select_all(&table).unwrap();
    assert!(list.is_empty());
}

#[test]
fn build_without_defaults_is_incomplete() {
    let builder = UsersBuilder::default();
    assert_eq!(builder.build(), Err(RepoError::IncompleteBuilder));
    let builder = UsersBuilder::default().user_name("taro".to_string());
    assert_eq!(builder.build(), Err(RepoError::IncompleteBuilder));
}

#[test]
fn build_with_every_field_set_succeeds() {
    let id = new_uuid();
    let builder = UsersBuilder::default()
        .uuid(id)
        .user_name("taro".to_string())
        .user_email("taro@example.com".to_string())
        .user_kbn(UserKbn::Admin);
    let user = builder.build().unwrap();
    assert_eq!(user.uuid, id);
    assert_eq!(user.user_name, "taro");
    assert_eq!(user.user_email, "taro@example.com");
    assert_eq!(user.user_kbn, UserKbn::Admin);
}

#[test]
fn setters_overwrite_prior_values() {
    let builder = UsersBuilder::default()
        .user_name("first".to_string())
        .user_name("second".to_string());
    assert_eq!(builder.user_name, Some("second".to_string()));
}

#[test]
fn explicit_uuid_is_kept_by_defaulting() {
    let mut table = UsersTable::new();
    let mut builder = UsersBuilder::default().uuid(42);
    Users::make(&mut table, &mut builder).unwrap();
    let list = Users::select_all(&table).unwrap();
    assert_eq!(list[0].uuid, 42);
}

#[test]
fn default_record_is_fully_populated() {
    let user = Users::default();
    assert_eq!(user.user_name, "テスト太郎");
    assert_eq!(user.user_email, "test@example.com");
    assert_eq!(user.user_kbn, UserKbn::Normal);
    assert_eq!(version_nibble(user.uuid), 7);
    assert_eq!(variant_bits(user.uuid), 2);
}

#[test]
fn kbn_labels_round_trip() {
    assert_eq!(UserKbn::Admin.label(), "Admin");
    assert_eq!(UserKbn::Normal.label(), "Normal");
    assert_eq!(UserKbn::from_label("Admin"), Some(UserKbn::Admin));
    assert_eq!(UserKbn::from_label("Normal"), Some(UserKbn::Normal));
    assert_eq!(UserKbn::from_label("normal"), None);
    assert_eq!(UserKbn::from_label(""), None);
}
