//! Extraction of rider telemetry from captured UDP traffic of a multiplayer
//! cycling simulation.
//!
//! A captured frame is decapsulated to a UDP datagram, classified by its
//! source port as server- or client-originated, the embedded message is
//! located inside the payload (client-originated payloads carry it at a
//! variable offset), decoded against one of two fixed schemas, and each
//! decoded entry is normalized into a [`Player`] record.

pub mod player;
pub mod capture;
pub mod message;
pub mod wire;

pub use capture::{Datagram, FrameSource, RecordedSource, ZwiftCapture};
pub use message::ZwiftMessage;
pub use player::Player;
pub use player::PlayerState;
