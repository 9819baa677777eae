//! Mail management: fetch, classify, remind.

pub mod agent;
pub mod api;
pub mod checker;
pub mod clock;
pub mod config;
pub mod db;
pub mod deadline;
pub mod encoding;
pub mod json;
pub mod json_text;
pub mod laws;
pub mod llm;
pub mod mail;
pub mod model;
pub mod notifier;
pub mod number;
pub mod pattern;
pub mod pipeline;
pub mod records;
pub mod scheduler;
pub mod text;
pub mod time;
