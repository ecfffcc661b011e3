//! Verified core of Sonar, a push-to-talk dictation application.

pub mod assets;
pub mod audio;
pub mod catalog;
pub mod chars;
pub mod clock;
pub mod history;
pub mod hotkeys;
pub mod input;
pub mod models;
pub mod pages;
pub mod pipeline;
pub mod service;
pub mod session;
pub mod settings;
pub mod stream;
pub mod text;
pub mod transaction;
pub mod transcription;
pub mod words;
