use user_auth::user::errors::{join_fields, CustomError};

#[test]
fn messages_of_the_plain_errors() {
    assert_eq!(CustomError::UserNotFound.message(), "User not found");
    assert_eq!(CustomError::UserAlreadyExists.message(), "User already exists");
    assert_eq!(CustomError::EmailAlreadyExists.message(), "Email already exists");
}

#[test]
fn message_of_a_generic_error_keeps_the_detail() {
    assert_eq!(
        CustomError::GenericError(String::from("connection refused")).message(),
        "An error ocurred: connection refused"
    );
    assert_eq!(CustomError::GenericError(String::new()).message(), "An error ocurred: ");
}

#[test]
fn message_of_missing_fields_lists_them() {
    let error = CustomError::MissingFields(vec![String::from("email"), String::from("name")]);
    assert_eq!(error.message(), "The following fields are missing: email, name");
    let one = CustomError::MissingFields(vec![String::from("password")]);
    assert_eq!(one.message(), "The following fields are missing: password");
    assert_eq!(
        CustomError::MissingFields(Vec::new()).message(),
        "The following fields are missing: "
    );
}

#[test]
fn join_fields_separates_with_comma_and_space() {
    assert_eq!(join_fields(&Vec::new()), "");
    assert_eq!(join_fields(&vec![String::from("a")]), "a");
    assert_eq!(join_fields(&vec![String::from("a"), String::from("b"), String::from("c")]), "a, b, c");
    assert_eq!(join_fields(&vec![String::new(), String::new()]), ", ");
}

#[test]
fn errors_compare_by_value() {
    assert_eq!(CustomError::UserNotFound, CustomError::UserNotFound);
    assert_ne!(CustomError::UserNotFound, CustomError::UserAlreadyExists);
    assert_ne!(
        CustomError::GenericError(String::from("a")),
        CustomError::GenericError(String::from("b"))
    );
}
