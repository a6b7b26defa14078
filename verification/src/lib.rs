//! Spiel: local-first dictation. The verified core of its text handling,
//! model registry, configuration rules and state machines.
pub mod text;
pub mod error;
pub mod modes;
pub mod clock;
pub mod cleanup;
pub mod cleanup_basic;
pub mod model;
pub mod config;
pub mod settings;
pub mod secrets;
pub mod workflow;
pub mod whisper;
pub mod stats;
pub mod state;
pub mod install_cache;
pub mod accessibility;
pub mod transcription;
pub mod transcription_whisper;
pub mod transcription_openai;
pub mod cleanup_openai;
pub mod memory;
pub mod app_state;
pub mod focus;
pub mod hotkey_update;
pub mod commands;
pub mod history;
pub mod insert;
pub mod dictation;
pub mod startup;
pub mod clipboard;
pub mod model_hash;
pub mod model_paths;
pub mod word_laws;
