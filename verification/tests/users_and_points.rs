use primer::points::Point;
use primer::tuples::{main5, main6, AlwaysEqual, Color};
use primer::users::{_build_user, _build_user2, _main1, _main2, main3, main4, main7, User, User2};

#[test]
fn build_user_fills_every_field() {
    let user = _build_user(
        String::from("someone@example.com"),
        String::from("someusername123"),
    );
    assert!(user.active);
    assert_eq!(user.email, "someone@example.com");
    assert_eq!(user.username, "someusername123");
    assert_eq!(user.sign_in_count, 1);
}

#[test]
fn build_user2_matches_build_user() {
    let a = _build_user(String::from("a@example.com"), String::from("a"));
    let b = _build_user2(String::from("a@example.com"), String::from("a"));
    assert_eq!(a.active, b.active);
    assert_eq!(a.email, b.email);
    assert_eq!(a.username, b.username);
    assert_eq!(a.sign_in_count, b.sign_in_count);
}

#[test]
fn owned_user_can_be_built_and_updated() {
    let mut user1 = User {
        email: String::from("someone@example.com"),
        username: String::from("someusername123"),
        active: true,
        sign_in_count: 1,
    };
    user1.email = String::from("anotheremail@example.com");
    assert_eq!(user1.email, "anotheremail@example.com");
    _main1();
    _main2();
    main3();
    main4();
}

#[test]
fn borrowing_user_reads_its_literals() {
    let user1 = User2 {
        active: true,
        username: "someusername123",
        email: "someone@example.com",
        sign_in_counter: 1,
    };
    assert!(user1.active);
    assert_eq!(user1.username, "someusername123");
    assert_eq!(user1.email, "someone@example.com");
    assert_eq!(user1.sign_in_counter, 1);
    main7();
}

#[test]
fn point_field_can_be_borrowed_mutably() {
    let mut p = Point { x: 0, y: 0 };
    let x = &mut p.x;
    *x += 1;
    assert_eq!(p.x, 1);
    assert_eq!(p.y, 0);
    primer::points::main8();
}

#[test]
fn tuple_structs_hold_their_components() {
    let black = Color(0, 0, 0);
    assert_eq!(black.0, 0);
    assert_eq!(black.1, 0);
    assert_eq!(black.2, 0);
    let origin = primer::tuples::Point(0, 0, 0);
    assert_eq!(origin.0, 0);
    assert_eq!(origin.1, 0);
    assert_eq!(origin.2, 0);
    main5();
}

#[test]
fn unit_struct_is_built_from_its_name() {
    let _subject = AlwaysEqual;
    main6();
}
