use primer::coins::{value_in_cents, Coin, UsState};
use primer::enums::{
    add_fancy_hat, main_example, move_player, plus_one, remove_fancy_hat, reroll, route,
    IpAddrKind, Message,
};

#[test]
fn penny_is_one_cent() {
    assert_eq!(value_in_cents(Coin::Penny), 1);
}

#[test]
fn nickel_is_five_cents() {
    assert_eq!(value_in_cents(Coin::Nickel), 5);
}

#[test]
fn dime_is_ten_cents() {
    assert_eq!(value_in_cents(Coin::Dime), 10);
}

#[test]
fn every_quarter_is_twenty_five_cents() {
    assert_eq!(value_in_cents(Coin::Quarter(UsState::Alabama)), 25);
    assert_eq!(value_in_cents(Coin::Quarter(UsState::Alaska)), 25);
}

#[test]
fn plus_one_adds_one_inside_some() {
    let five = Some(5);
    let six = plus_one(five);
    assert_eq!(six, Some(6));
}

#[test]
fn plus_one_keeps_none() {
    let none = plus_one(None);
    assert_eq!(none, None);
}

#[test]
fn route_accepts_both_kinds() {
    route(IpAddrKind::V4);
    route(IpAddrKind::V6);
    main_example();
}

#[test]
fn every_message_can_be_called() {
    Message::Quit.call();
    Message::Move { x: 1, y: 2 }.call();
    Message::Write(String::from("hello")).call();
    Message::ChangeColor(0, 160, 255).call();
}

#[test]
fn game_actions_run() {
    add_fancy_hat();
    remove_fancy_hat();
    move_player(9);
    reroll();
}
