pub mod bot;
pub mod config;
pub mod isracard;
pub mod models;
pub mod text;
pub mod webhook;
