use user_auth::auth::token::{decode_jwt_at, TokenService};
use user_auth::user::errors::CustomError;
use user_auth::user::models::{GetUserResponse, User, UserCredential};
use user_auth::user::repository::UserDbTrait;
use user_auth::user::store::UserStore;

fn user(id: &str, email: &str, name: &str) -> User {
    User {
        id: String::from(id),
        email: String::from(email),
        password: bcrypt::hash(name, 4).unwrap(),
        name: String::from(name),
    }
}

fn empty_store() -> UserStore {
    UserStore::new(TokenService::new(String::from("store secret"), 60))
}

fn emails(store: &UserStore) -> Vec<String> {
    store.get_all().unwrap().data.into_iter().map(|s| s.email).collect()
}

#[test]
fn empty_repository_lists_nothing_as_a_success() {
    let store = empty_store();
    assert_eq!(store.get_all().unwrap().data, Vec::<GetUserResponse>::new());
}

#[test]
fn create_then_read_round_trip() {
    let mut store = empty_store();
    let id = store.create(user("id-1", "ann@example.com", "Ann")).unwrap();
    assert_eq!(id, "id-1");
    assert_eq!(
        store.get_by_id(&id),
        Ok(GetUserResponse {
            id: String::from("id-1"),
            name: String::from("Ann"),
            email: String::from("ann@example.com"),
        })
    );
}

#[test]
fn read_of_an_unknown_id_is_not_found() {
    let mut store = empty_store();
    assert_eq!(store.get_by_id("id-1"), Err(CustomError::UserNotFound));
    store.create(user("id-1", "ann@example.com", "Ann")).unwrap();
    assert_eq!(store.get_by_id("id-2"), Err(CustomError::UserNotFound));
    assert_eq!(store.get_by_id(""), Err(CustomError::UserNotFound));
}

#[test]
fn same_email_twice_fails_the_second_time() {
    let mut store = empty_store();
    assert!(store.create(user("id-1", "ann@example.com", "Ann")).is_ok());
    assert_eq!(
        store.create(user("id-2", "ann@example.com", "Another Ann")),
        Err(CustomError::EmailAlreadyExists)
    );
    assert_eq!(
        store.create(user("id-1", "ann@example.com", "Ann")),
        Err(CustomError::EmailAlreadyExists)
    );
    let listed = emails(&store);
    assert_eq!(listed.iter().filter(|e| e.as_str() == "ann@example.com").count(), 1);
    assert_eq!(listed.len(), 1);
    assert_eq!(store.get_by_id("id-1").unwrap().name, "Ann");
    assert_eq!(store.get_by_id("id-2"), Err(CustomError::UserNotFound));
}

#[test]
fn same_id_with_another_email_fails_as_existing_user() {
    let mut store = empty_store();
    store.create(user("id-1", "ann@example.com", "Ann")).unwrap();
    assert_eq!(
        store.create(user("id-1", "bob@example.com", "Bob")),
        Err(CustomError::UserAlreadyExists)
    );
    assert_eq!(emails(&store), vec![String::from("ann@example.com")]);
}

#[test]
fn listing_keeps_the_order_of_creation() {
    let mut store = empty_store();
    store.create(user("id-2", "b@example.com", "Bob")).unwrap();
    store.create(user("id-1", "a@example.com", "Ann")).unwrap();
    store.create(user("id-3", "c@example.com", "Cy")).unwrap();
    assert_eq!(
        emails(&store),
        vec![String::from("b@example.com"), String::from("a@example.com"), String::from("c@example.com")]
    );
}

#[test]
fn many_creates_with_one_email_succeed_once_in_any_order() {
    let candidates: Vec<User> =
        (0..6).map(|k| user(&format!("id-{}", k), "same@example.com", &format!("N{}", k))).collect();
    for first in 0..candidates.len() {
        let mut store = empty_store();
        store.create(user("taken", "other@example.com", "Other")).unwrap();
        let mut order: Vec<usize> = (0..candidates.len()).collect();
        order.rotate_left(first);
        let mut successes = 0;
        for k in order {
            match store.create(candidates[k].clone()) {
                Ok(id) => {
                    successes += 1;
                    assert_eq!(id, candidates[first].id);
                }
                Err(error) => assert_eq!(error, CustomError::EmailAlreadyExists),
            }
        }
        assert_eq!(successes, 1);
        assert_eq!(emails(&store).iter().filter(|e| e.as_str() == "same@example.com").count(), 1);
    }
}

#[test]
fn a_taken_id_does_not_use_up_the_email() {
    let mut store = empty_store();
    store.create(user("taken", "other@example.com", "Other")).unwrap();
    assert_eq!(
        store.create(user("taken", "same@example.com", "A")),
        Err(CustomError::UserAlreadyExists)
    );
    assert_eq!(store.create(user("free", "same@example.com", "B")), Ok(String::from("free")));
    assert_eq!(
        store.create(user("free-2", "same@example.com", "C")),
        Err(CustomError::EmailAlreadyExists)
    );
}

#[test]
fn delete_removes_the_record() {
    let mut store = empty_store();
    store.create(user("id-1", "a@example.com", "Ann")).unwrap();
    store.create(user("id-2", "b@example.com", "Bob")).unwrap();
    store.create(user("id-3", "c@example.com", "Cy")).unwrap();
    assert_eq!(store.delete("id-2"), Ok(()));
    assert_eq!(store.get_by_id("id-2"), Err(CustomError::UserNotFound));
    assert_eq!(emails(&store), vec![String::from("a@example.com"), String::from("c@example.com")]);
    assert_eq!(store.create(user("id-2", "b@example.com", "Bob again")), Ok(String::from("id-2")));
    assert_eq!(store.get_by_id("id-2").unwrap().name, "Bob again");
}

#[test]
fn delete_of_an_unknown_id_is_not_found_and_changes_nothing() {
    let mut store = empty_store();
    assert_eq!(store.delete("id-1"), Err(CustomError::UserNotFound));
    store.create(user("id-1", "a@example.com", "Ann")).unwrap();
    assert_eq!(store.delete("id-9"), Err(CustomError::UserNotFound));
    assert_eq!(store.delete("id-1"), Ok(()));
    assert_eq!(store.delete("id-1"), Err(CustomError::UserNotFound));
    assert!(emails(&store).is_empty());
}

#[test]
fn login_with_the_right_password_gives_a_token_for_the_user() {
    let svc = TokenService::new(String::from("store secret"), 60);
    let mut store = empty_store();
    store.create(user("id-1", "a@example.com", "Ann")).unwrap();
    store.create(user("id-2", "b@example.com", "Bob")).unwrap();
    let profile = store
        .login_at(UserCredential { email: String::from("b@example.com"), password: String::from("Bob") }, 1000)
        .unwrap();
    assert_eq!(
        profile.data,
        GetUserResponse {
            id: String::from("id-2"),
            name: String::from("Bob"),
            email: String::from("b@example.com"),
        }
    );
    let claims = decode_jwt_at(&profile.token, &svc, 1000).unwrap();
    assert_eq!(claims.subject_id, profile.data.id);
    assert_eq!(claims.exp, 1060);
}

#[test]
fn login_with_a_wrong_password_or_unknown_email_is_the_same_error() {
    let mut store = empty_store();
    store.create(user("id-1", "a@example.com", "Ann")).unwrap();
    let wrong = store
        .login_at(UserCredential { email: String::from("a@example.com"), password: String::from("Bob") }, 1000);
    let unknown = store
        .login_at(UserCredential { email: String::from("z@example.com"), password: String::from("Ann") }, 1000);
    assert_eq!(wrong, Err(CustomError::UserNotFound));
    assert_eq!(unknown, Err(CustomError::UserNotFound));
    assert_eq!(wrong, unknown);
}

#[test]
fn login_against_an_unreadable_hash_is_not_found() {
    let mut store = empty_store();
    store
        .create(User {
            id: String::from("id-1"),
            email: String::from("a@example.com"),
            password: String::from("plaintext"),
            name: String::from("Ann"),
        })
        .unwrap();
    let r = store.login_at(
        UserCredential { email: String::from("a@example.com"), password: String::from("plaintext") },
        1000,
    );
    assert_eq!(r, Err(CustomError::UserNotFound));
}

#[test]
fn login_by_the_wall_clock() {
    let svc = TokenService::new(String::from("store secret"), 60);
    let mut store = empty_store();
    store.create(user("id-1", "a@example.com", "Ann")).unwrap();
    let profile = store
        .login(UserCredential { email: String::from("a@example.com"), password: String::from("Ann") })
        .unwrap();
    let claims = user_auth::auth::token::decode_jwt(&profile.token, &svc).unwrap();
    assert_eq!(claims.subject_id, "id-1");
    assert_eq!(
        store.login(UserCredential { email: String::from("a@example.com"), password: String::from("x") }),
        Err(CustomError::UserNotFound)
    );
}
