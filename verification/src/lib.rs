//! A voice companion's core: conversation memory, the rules that turn a
//! chunk of microphone input into a recording decision, the per-turn
//! decisions of the chat loop, mode configuration, and the text handling
//! that surrounds speech recognition, the chat model and speech synthesis.
pub mod audio;
pub mod config;
pub mod conversation;
pub mod memory;
pub mod ollama;
pub mod stt;
pub mod text;
pub mod tts;
