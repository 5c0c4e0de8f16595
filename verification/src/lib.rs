//! The rules of a portal's backend, verified: how tokens are sealed and
//! opened, who is authenticated and authorized, which invitations a batch
//! sends and how a worker delivers them at least once from a stream, and
//! how one-time codes confirm a change of password or address.
//!
//! The library decides; it does not talk to the persistence layer, the
//! stream or the mail transport, and it reads no encoding: a token is made
//! and read by the token library, and the claims in it are judged here.
//! Where an operation is one decision, it takes what its
//! surroundings have read and returns what they are to write. Where it is a
//! sequence of reads and writes, it is a machine: each step takes the
//! report of what the surroundings did and says what they are to do next.

pub mod auth;
pub mod confirmation;
pub mod dtos;
pub mod error;
pub mod guard;
pub mod handlers;
pub mod invitation;
pub mod outbox;
pub mod request;
pub mod role;
pub mod security;
pub mod smtp;
pub mod stream;
pub mod text;
pub mod token;
pub mod user;
pub mod verification;
pub mod worker;
