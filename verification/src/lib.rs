//! The verified core of a question-and-answer forum service: its data
//! model, the JSON Web Token claims that authenticate users, and the
//! decision logic of every endpoint, written as a step function that asks
//! the database for what it needs and decides what to answer.

pub mod claims;
pub mod db;
pub mod db_laws;
pub mod laws;
pub mod model;
pub mod models;
pub mod number;
pub mod plan;
pub mod reply;
pub mod session;
pub mod token;
