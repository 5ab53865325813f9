//! Core logic of the realtime caption translator: session bookkeeping,
//! caption state, speech segmentation, provider request and reply handling,
//! settings defaults and validation, and secret redaction.
pub mod text;
pub mod session;
pub mod caption;
pub mod json;
pub mod redact;
pub mod settings;
pub mod translation;
pub mod asr;
pub mod pcm;
pub mod events;
pub mod services;
pub mod devices;
pub mod commands;
pub mod startup;
pub mod tts;
