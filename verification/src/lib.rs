//! A verified store for a video-annotation tool: users, projects, videos and
//! the temporal and bounding-box annotations attached to them.

pub mod annotations;
pub mod auth;
pub mod database;
pub mod double;
pub mod error;
pub mod guarantees;
pub mod invariants;
pub mod lookup;
pub mod models;
pub mod password;
pub mod projects;
pub mod schema;
pub mod validation;
pub mod videos;
