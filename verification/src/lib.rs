//! Decision logic of a command-line internet-radio client.
//!
//! The client opens an Icecast/SHOUTcast-style HTTP stream, buffers it in a
//! bounded in-memory window, plays it, and shows what is on air. Everything
//! that touches the network, the audio device or the terminal lives outside
//! this library; what is computed or decided in between lives here, each
//! function with a contract that Verus proves.

pub mod icy;
pub mod metadata;
pub mod now_playing;
pub mod prefetch;
pub mod progress;
pub mod session;
pub mod spinner;
