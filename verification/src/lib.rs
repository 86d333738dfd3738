pub mod coins;
pub mod enums;
pub mod points;
pub mod rectangles;
pub mod tuples;
pub mod users;
