//! Core logic of `quickbridge`: timestamps, prompt commands, media track
//! selection, session bookkeeping and the text the relay shows its user.

pub mod strings;
pub mod timecode;
pub mod command;
pub mod media;
pub mod session;
pub mod progress;
pub mod simulation;
pub mod paths;
pub mod server;
pub mod diagnostics;
pub mod playback;
pub mod text;
pub mod terminal;
pub mod editor;
pub mod ui;
pub mod player;
pub mod url;
pub mod source;
pub mod ffmpeg;
pub mod probe;
pub mod interaction;
pub mod labels;
pub mod telemetry;
pub mod serving;
pub mod prepare;
pub mod scripted;
