pub mod api;
pub mod app;
pub mod pipeline;
pub mod project;
pub mod auth;
pub mod release;
pub mod status;
pub mod testers;
pub mod text;
