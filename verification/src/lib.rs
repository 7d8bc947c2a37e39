pub mod clock;
pub mod db;
pub mod detector;
pub mod engine;
pub mod migrations;
pub mod models;
pub mod parse;
pub mod recorder;
pub mod settings;
pub mod state;
pub mod trackloop;
