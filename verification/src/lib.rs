//! The core of a small to-do service: an ordered repository of to-do items
//! with unique identifiers, and the dispatcher that maps a request (method,
//! path, body) onto a repository operation and a response.
//!
//! Every function here carries a contract that Verus proves, but for what is
//! taken on trust from outside: the two calls into the `uuid` crate in
//! [`ident`], and the contract of `core::str::from_utf8` in [`form`]. Network
//! I/O, locking and page rendering belong to the program around this library;
//! [`route::Route::access`] tells it which lock a request needs.

pub mod error;
pub mod form;
pub mod handlers;
pub mod ident;
pub mod laws;
pub mod repository;
pub mod response;
pub mod route;
pub mod todo;
