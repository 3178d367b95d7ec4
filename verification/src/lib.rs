//! Authentication and ownership core of a personal game-tracking backend.
//!
//! Users register and log in with an email and a password; passwords are
//! stored only as salted one-way digests.  A successful signup or login
//! mints a signed stateless token that carries the user's identifier and
//! an expiry.  Every game record belongs to one user, and every read,
//! update or delete of a record is scoped by record id and owner id
//! together, so a record of one user is invisible to every other user.

pub mod config;
pub mod game_service;
pub mod game_type;
pub mod ids;
pub mod password;
pub mod store;
pub mod token;
pub mod user_service;
pub mod user_type;
