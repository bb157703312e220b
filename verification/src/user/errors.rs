//! The failures a repository reports.

use vstd::prelude::*;

verus! {

/// Why a repository operation failed.
#[derive(Debug, Clone, PartialEq, Eq)]
pub enum CustomError {
    /// No record answers the request. Also the answer to a login with a
    /// wrong password, so that the two cannot be told apart.
    UserNotFound,
    /// A record with this identifier exists already.
    UserAlreadyExists,
    /// A record with this email exists already.
    EmailAlreadyExists,
    /// The request lacks the listed fields.
    MissingFields(Vec<String>),
    /// The backend failed; its message is kept as text.
    GenericError(String),
}

/// The texts of a list of strings.
pub open spec fn texts(fields: Seq<String>) -> Seq<Seq<char>> {
    Seq::new(fields.len(), |i: int| fields[i]@)
}

/// The items of `fields`, separated by a comma and a space.
pub open spec fn joined(fields: Seq<Seq<char>>) -> Seq<char>
    decreases fields.len(),
{
    if fields.len() == 0 {
        Seq::empty()
    } else if fields.len() == 1 {
        fields[0]
    } else {
        joined(fields.drop_last()) + ", "@ + fields.last()
    }
}

/// The text of an error.
pub open spec fn message_of(error: CustomError) -> Seq<char> {
    match error {
        CustomError::UserNotFound => "User not found"@,
        CustomError::UserAlreadyExists => "User already exists"@,
        CustomError::EmailAlreadyExists => "Email already exists"@,
        CustomError::MissingFields(fields) => "The following fields are missing: "@ + joined(
            texts(fields@),
        ),
        CustomError::GenericError(detail) => "An error ocurred: "@ + detail@,
    }
}

/// Joins `fields` with a comma and a space between them.
pub fn join_fields(fields: &Vec<String>) -> (text: String)
    ensures
        text@ == joined(texts(fields@)),
{
    let mut text = String::new();
    let mut i: usize = 0;
    while i < fields.len()
        invariant
            i <= fields.len(),
            text@ == joined(texts(fields@).take(i as int)),
        decreases fields.len() - i,
    {
        let ghost all = texts(fields@);
        if i > 0 {
            text.append(", ");
        }
        text.append(fields[i].as_str());
        proof {
            assert(all.take(i + 1).drop_last() =~= all.take(i as int));
        }
        i = i + 1;
    }
    assert(texts(fields@).take(i as int) =~= texts(fields@));
    text
}

impl CustomError {
    /// The error as text.
    pub fn message(&self) -> (text: String)
        ensures
            text@ == message_of(*self),
    {
        match self {
            CustomError::UserNotFound => "User not found".to_owned(),
            CustomError::UserAlreadyExists => "User already exists".to_owned(),
            CustomError::EmailAlreadyExists => "Email already exists".to_owned(),
            CustomError::MissingFields(fields) => {
                let list = join_fields(fields);
                "The following fields are missing: ".to_owned().concat(list.as_str())
            },
            CustomError::GenericError(detail) => "An error ocurred: ".to_owned().concat(
                detail.as_str(),
            ),
        }
    }
}

} // verus!
