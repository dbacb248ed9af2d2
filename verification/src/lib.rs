//! A collection of small, verified lessons: each module takes one classic
//! beginner exercise (a rectangle, a guessing game, a miniature grep, a
//! memoizing cache, ...) and states exactly what its functions compute.

pub mod adder;
pub mod closures;
pub mod departments;
pub mod generics;
pub mod grep;
pub mod guessing;
pub mod lifetimes;
pub mod matching;
pub mod messages;
pub mod ownership;
pub mod pointers;
pub mod rectangle;
pub mod restaurant;
pub mod restaurant_package;
pub mod strings;
pub mod summary;
pub mod tracker;
pub mod users;
pub mod vectors;
