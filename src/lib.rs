//! Beer log: the decision logic of a small drink-logging web service.
//!
//! The service stores people, their verified phone identities, login
//! sessions, breweries, beers and drinks. Every request handler here is a
//! pure function (or a small state machine) from what was submitted and what
//! the database or the SMS provider answered, to the next command to run or
//! the response to send. The program around the library performs the I/O.
pub mod models;
pub mod reply;
pub mod text;
pub mod phone;
pub mod session;
pub mod auth;
pub mod drinks;
pub mod search;
