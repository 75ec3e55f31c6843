//! Decision logic of a live speech-to-text streaming client.
//!
//! Microphone audio is captured, encoded as 16-bit PCM, and streamed over one
//! long-lived duplex connection to a transcription service, whose replies are
//! relayed to a consumer as transcript events.  This crate holds every rule of
//! that pipeline that can be stated over plain values: the wire format of an
//! audio frame, the connection parameters, the lifecycle of the session, the
//! gate between capture and network, and the reading of server messages.
//! Devices, sockets and tasks belong to the program that drives it.

pub mod capture;
pub mod error;
pub mod history;
pub mod lifecycle;
pub mod pcm;
pub mod reader;
pub mod session;
pub mod transcript;
