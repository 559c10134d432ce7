pub mod text;
pub mod commit;
pub mod text_input;
pub mod sort;
pub mod order;
pub mod status;
pub mod settings;
pub mod domain;
pub mod search;
pub mod jobs;
pub mod state;
pub mod actions;
pub mod suggestions;
pub mod copilot;
pub mod auth;
pub mod git;
pub mod discovery;
pub mod controller;
pub mod mouse;
pub mod presentation;
