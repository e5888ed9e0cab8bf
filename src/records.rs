//! User records, the response envelope, and the handlers that produce them.
use vstd::prelude::*;

verus! {

/// A user record as the UI layer sends and receives it.
#[derive(Debug, Clone, PartialEq, Eq)]
pub struct User {
    pub id: u32,
    pub name: String,
    pub email: String,
    pub age: u32,
}

/// The uniform envelope around a handler's result.
#[derive(Debug, Clone, PartialEq, Eq)]
pub struct ApiResponse<T> {
    pub success: bool,
    pub data: Option<T>,
    pub message: String,
}

impl<T> ApiResponse<T> {
    /// A successful response carrying `data`.
    pub fn ok(data: T, message: String) -> (r: ApiResponse<T>)
        ensures
            r.success,
            r.data == Some(data),
            r.message@ == message@,
    {
        ApiResponse { success: true, data: Some(data), message }
    }
}

/// What `str::to_uppercase` makes of a text.
pub uninterp spec fn upper_of(s: Seq<char>) -> Seq<char>;

/// What `str::to_lowercase` makes of a text.
pub uninterp spec fn lower_of(s: Seq<char>) -> Seq<char>;

/// Relies on str::to_uppercase: its result depends on the characters alone,
/// and the empty text stays empty.
#[verifier::external_body]
fn uppercase(s: &str) -> (r: String)
    ensures
        r@ == upper_of(s@),
        s@.len() == 0 ==> r@.len() == 0,
{
    s.to_uppercase()
}

/// Relies on str::to_lowercase: its result depends on the characters alone,
/// and the empty text stays empty.
#[verifier::external_body]
fn lowercase(s: &str) -> (r: String)
    ensures
        r@ == lower_of(s@),
        s@.len() == 0 ==> r@.len() == 0,
{
    s.to_lowercase()
}

/// The message of a processed user record.
pub open spec fn processed_message() -> Seq<char> {
    "User processed successfully"@
}

/// Wraps `user` with its name and email replaced by the given case-folded
/// forms; id and age are kept.
pub fn processed_user_response(user: User, upper_name: String, lower_email: String) -> (r:
    ApiResponse<User>)
    ensures
        r.success,
        r.data matches Some(u) && u.id == user.id && u.age == user.age && u.name@ == upper_name@
            && u.email@ == lower_email@,
        r.message@ == processed_message(),
{
    let processed = User { id: user.id, name: upper_name, email: lower_email, age: user.age };
    ApiResponse::ok(processed, String::from_str("User processed successfully"))
}

/// Returns `user` with its name upper-cased and its email lower-cased; id and
/// age are kept.
pub fn process_user(user: User) -> (r: ApiResponse<User>)
    ensures
        r.success,
        r.data matches Some(u) && u.id == user.id && u.age == user.age && u.name@ == upper_of(
            user.name@,
        ) && u.email@ == lower_of(user.email@),
        r.message@ == processed_message(),
{
    let upper_name = uppercase(user.name.as_str());
    let lower_email = lowercase(user.email.as_str());
    processed_user_response(user, upper_name, lower_email)
}

/// Whether `u` holds exactly the given field values.
pub open spec fn user_is(u: User, id: u32, name: Seq<char>, email: Seq<char>, age: u32) -> bool {
    u.id == id && u.name@ == name && u.email@ == email && u.age == age
}

/// The fixed list of users: Alice, Bob and Charlie, in that order.
pub fn get_users() -> (r: ApiResponse<Vec<User>>)
    ensures
        r.success,
        r.data matches Some(v) && v@.len() == 3 && user_is(
            v@[0],
            1,
            "Alice"@,
            "alice@example.com"@,
            25,
        ) && user_is(v@[1], 2, "Bob"@, "bob@example.com"@, 30) && user_is(
            v@[2],
            3,
            "Charlie"@,
            "charlie@example.com"@,
            35,
        ),
        r.message@ == "Users retrieved successfully"@,
{
    let users = vec![
        User {
            id: 1,
            name: String::from_str("Alice"),
            email: String::from_str("alice@example.com"),
            age: 25,
        },
        User {
            id: 2,
            name: String::from_str("Bob"),
            email: String::from_str("bob@example.com"),
            age: 30,
        },
        User {
            id: 3,
            name: String::from_str("Charlie"),
            email: String::from_str("charlie@example.com"),
            age: 35,
        },
    ];
    ApiResponse::ok(users, String::from_str("Users retrieved successfully"))
}

} // verus!
