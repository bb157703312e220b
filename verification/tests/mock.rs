use user_auth::user::errors::CustomError;
use user_auth::user::mock::MockUserDB;
use user_auth::user::models::{GetUserResponse, User, UserCredential};
use user_auth::user::repository::UserDbTrait;

fn sample(id: &str, email: &str) -> User {
    User {
        id: String::from(id),
        email: String::from(email),
        password: String::from("hash"),
        name: String::from("Name"),
    }
}

#[test]
fn mock_login_accepts_every_credential() {
    let db = MockUserDB {};
    let profile = db
        .login(UserCredential { email: String::from("ann"), password: String::from("whatever") })
        .unwrap();
    assert_eq!(
        profile.data,
        GetUserResponse {
            id: String::from("1234abcd"),
            name: String::from("s name"),
            email: String::from("ann@example.com"),
        }
    );
    assert_eq!(profile.token, "1234abcd");
}

#[test]
fn mock_get_all_is_empty() {
    let db = MockUserDB {};
    let list = db.get_all().unwrap();
    assert!(list.data.is_empty());
}

#[test]
fn mock_get_by_id_derives_the_record_from_the_id() {
    let db = MockUserDB {};
    assert_eq!(
        db.get_by_id("u42"),
        Ok(GetUserResponse {
            id: String::from("u42"),
            name: String::from("u42's name"),
            email: String::from("u42@example.com"),
        })
    );
    assert_eq!(db.get_by_id("u42"), db.get_by_id("u42"));
    assert_eq!(db.get_by_id("").unwrap().name, "'s name");
}

#[test]
fn mock_create_returns_the_fixed_id_and_keeps_nothing() {
    let mut db = MockUserDB {};
    assert_eq!(db.create(sample("a", "a@x")), Ok(String::from("1234abcd")));
    assert_eq!(db.create(sample("a", "a@x")), Ok(String::from("1234abcd")));
    assert!(db.get_all().unwrap().data.is_empty());
}

#[test]
fn mock_delete_always_succeeds() {
    let mut db = MockUserDB {};
    assert_eq!(db.delete("nobody"), Ok::<(), CustomError>(()));
}
