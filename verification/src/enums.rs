use vstd::prelude::*;

verus! {

/// The two standards an IP address can follow.
#[derive(Clone, Copy, Debug, PartialEq, Eq, Structural)]
pub enum IpAddrKind {
    V4,
    V6,
}

/// Accepts an address of either kind; routing itself is out of scope here.
pub fn route(ip_kind: IpAddrKind) {
    let _ = ip_kind;
}

/// Both variants of `IpAddrKind` are acceptable arguments to `route`.
pub fn main_example() {
    route(IpAddrKind::V4);
    route(IpAddrKind::V6);
}

/// A message, each variant carrying a different shape of data.
#[derive(Debug)]
pub enum Message {
    Quit,
    Move { x: i32, y: i32 },
    Write(String),
    ChangeColor(i32, i32, i32),
}

impl Message {
    /// Receives the message; handling each variant is out of scope here.
    pub fn call(&self) {
        let _ = self;
    }
}

/// Maps `None` to `None` and `Some(i)` to `Some(i + 1)`.
pub fn plus_one(x: Option<i32>) -> (r: Option<i32>)
    requires
        x matches Some(i) ==> i < i32::MAX,
    ensures
        x is None <==> r is None,
        x matches Some(i) ==> r matches Some(j) && j == i + 1,
{
    match x {
        None => None,
        Some(i) => Some(i + 1),
    }
}

/// Hands the player a fancy hat; rewarded on a roll of 3.
pub fn add_fancy_hat() {
}

/// Takes a fancy hat away; the penalty on a roll of 7.
pub fn remove_fancy_hat() {
}

/// Moves the player the given number of spaces along the board.
pub fn move_player(num_spaces: u8) {
    let _ = num_spaces;
}

/// Asks for the die to be rolled again.
pub fn reroll() {
}

} // verus!
