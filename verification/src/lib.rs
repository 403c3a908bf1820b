//! The logic of a daemon that drives GoXLR audio mixers.

pub mod audio;
pub mod bytes;
pub mod cli;
pub mod command;
pub mod device;
pub mod events;
pub mod files;
pub mod firmware_file;
pub mod firmware_update;
pub mod http_server;
pub mod ipc_server;
pub mod json;
pub mod keys;
pub mod lighting;
pub mod mic_laws;
pub mod mic_profile;
pub mod packet;
pub mod plan;
pub mod platform;
pub mod profile;
pub mod profile_files;
pub mod registry;
pub mod settings;
pub mod single;
pub mod text;
pub mod tools;
pub mod tray;
pub mod tts;
pub mod types;
pub mod version;
pub mod websocket;
pub mod worker;
