use vstd::prelude::*;

verus! {

/// A state whose design may appear on the back of a quarter.
#[derive(Clone, Copy, Debug, PartialEq, Eq, Structural)]
pub enum UsState {
    Alabama,
    Alaska,
}

/// A US coin; quarters carry the state whose design they bear.
#[derive(Clone, Copy, Debug)]
pub enum Coin {
    Penny,
    Nickel,
    Dime,
    Quarter(UsState),
}

/// The face value of a coin, in cents.
pub open spec fn cents_of(coin: Coin) -> u8 {
    match coin {
        Coin::Penny => 1,
        Coin::Nickel => 5,
        Coin::Dime => 10,
        Coin::Quarter(_) => 25,
    }
}

/// Sorts a coin into its value in cents: every quarter is worth 25,
/// whatever state it shows.
pub fn value_in_cents(coin: Coin) -> (cents: u8)
    ensures
        cents == cents_of(coin),
{
    match coin {
        Coin::Penny => 1,
        Coin::Nickel => 5,
        Coin::Dime => 10,
        Coin::Quarter(_state) => 25,
    }
}

} // verus!
