use vstd::prelude::*;

verus! {

/// A user account that owns all of its data.
#[derive(Debug)]
pub struct User {
    pub active: bool,
    pub username: String,
    pub email: String,
    pub sign_in_count: u64,
}

/// Builds an account for the given addresses: a freshly built account is
/// active and has signed in exactly once.
pub fn _build_user(email: String, username: String) -> (user: User)
    ensures
        user.active,
        user.username == username,
        user.email == email,
        user.sign_in_count == 1,
{
    User { active: true, username: username, email: email, sign_in_count: 1 }
}

/// The same builder written with the field-init shorthand.
pub fn _build_user2(email: String, username: String) -> (user: User)
    ensures
        user.active,
        user.username == username,
        user.email == email,
        user.sign_in_count == 1,
{
    User { active: true, username, email, sign_in_count: 1 }
}

/// An account is built by giving every field a concrete value.
pub fn _main1() {
    let user1 = User {
        email: String::from_str("someone@example.com"),
        username: String::from_str("someusername123"),
        active: true,
        sign_in_count: 1,
    };
    assert(user1.active && user1.sign_in_count == 1);
}

/// A mutable account can have a single field overwritten in place.
pub fn _main2() {
    let mut user1 = User {
        email: String::from_str("someone@example.com"),
        username: String::from_str("someusername123"),
        active: true,
        sign_in_count: 1,
    };

    user1.email = String::from_str("anotheremail@example.com");
    assert(user1.email@ == "anotheremail@example.com"@);
}

/// A second account built field by field from the first keeps everything
/// but the address it replaces.
pub fn main3() {
    let user1 = _build_user(
        String::from_str("someone@example.com"),
        String::from_str("someusername123"),
    );

    let user2 = User {
        active: user1.active,
        username: user1.username,
        email: String::from_str("another@example.com"),
        sign_in_count: user1.sign_in_count,
    };

    assert(user2.active && user2.sign_in_count == 1);
    assert(user2.email@ == "another@example.com"@);
    assert(user2.username@ == "someusername123"@);
}

/// The struct-update syntax fills the remaining fields from `user1`.
pub fn main4() {
    let user1 = _build_user(
        String::from_str("someone@example.com"),
        String::from_str("someusername123"),
    );

    let user2 = User { email: String::from_str("another@example.com"), ..user1 };

    assert(user2.active && user2.sign_in_count == 1);
    assert(user2.email@ == "another@example.com"@);
    assert(user2.username@ == "someusername123"@);
}

/// An account that borrows its strings instead of owning them; the
/// lifetime ties the account to the borrowed data.
#[derive(Debug)]
pub struct User2<'a> {
    pub active: bool,
    pub username: &'a str,
    pub email: &'a str,
    pub sign_in_counter: u64,
}

/// A borrowing account built from string literals.
pub fn main7() {
    let user1 = User2 {
        active: true,
        username: "someusername123",
        email: "someone@example.com",
        sign_in_counter: 1,
    };
    assert(user1.active && user1.sign_in_counter == 1);
    assert(user1.username@ == "someusername123"@);
}

} // verus!
