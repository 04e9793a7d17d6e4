//! Verified core of the GURU open server: slugs, JSON payload handling,
//! submission review decisions, master-content edits, ETags and the
//! built-in mask templates.

pub mod auth;
pub mod db;
pub mod digest;
pub mod etag;
pub mod json;
pub mod masks;
pub mod master;
pub mod replies;
pub mod review;
pub mod slug;
pub mod text;
