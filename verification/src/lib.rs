//! Request handling for a personal vinyl catalog: artists, their vinyls and
//! the cover images that belong to them.
//!
//! The handlers ([`artists`], [`vinyls`]) decide; they neither hold a
//! connection nor touch a file. Each is asked, with the replies that the
//! store has given so far, for the next [`statement`] or the outcome of the
//! request ([`conversation`]). The [`catalog`] says what a store may answer
//! and what each answer leaves in its tables; the [`laws`] say what then
//! holds of every request, and [`lemmas`] holds what they rest on. The
//! [`memory`] store answers as the catalog permits. [`images`] decides which
//! names are names of images and how much of an upload is kept, [`routes`]
//! lists the requests that are served, [`storage`] reads the connection
//! string, and [`error`] gives each failure its status.

pub mod artists;
pub mod catalog;
pub mod conversation;
pub mod error;
pub mod images;
pub mod laws;
pub mod lemmas;
pub mod memory;
pub mod model;
pub mod routes;
pub mod statement;
pub mod storage;
pub mod text;
pub mod vinyls;
