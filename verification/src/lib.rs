//! Core logic of the Minutes recording backend: voice-activity gating,
//! chunking of captured audio, speech accumulation for the fast and slow
//! transcription paths, the decisions the capture pipeline takes, and the
//! records exchanged with the database, the audio-server and the frontend.

pub mod api;
pub mod audio;
pub mod client;
pub mod commands;
pub mod db;
pub mod events;
pub mod state;
pub mod text;
