//! Identity resolution for a terminal blogging platform.
//!
//! A connecting user is recognised from the signals of their session rather
//! than from a password. The modules follow the parts of that work:
//!
//! - `text`: the string primitives, on sequences of characters;
//! - `models`: accounts, posts and the instants they carry;
//! - `error`: the ways in which an attempt fails;
//! - `keys`: whether two public keys denote the same credential;
//! - `signals`: from a snapshot of the session to the key that the client
//!   presents and the name under which it connects;
//! - `registration`: the rules that a new identity must meet;
//! - `user`: the strategies of resolution, step by step;
//! - `store`: the account store, held in memory;
//! - `resolution`: an attempt from its first request to its outcome, and
//!   what holds of every attempt;
//! - `cli`: what the menu of a session decides.

pub mod cli;
pub mod error;
pub mod keys;
pub mod models;
pub mod registration;
pub mod resolution;
pub mod signals;
pub mod store;
pub mod text;
pub mod user;
