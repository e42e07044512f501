//! Live video over WebRTC.
//!
//! A server captures video, shows it and offers it to every client that connects over a
//! WebSocket. A client takes the offer and shows what it receives.
//!
//! This library holds the rules of both sides, each with its contract:
//!
//! * [`signal`]: the messages by which the two sides agree, as text and as values;
//! * [`candidate`]: the candidates that the server announces;
//! * [`session`], [`server_session`], [`client_session`]: the two sides of a negotiation as state
//!   machines;
//! * [`negotiation`]: what holds of a negotiation as a whole;
//! * [`channel`], [`clients`]: the frames that go to every client of the server;
//! * [`texture`], [`capture`], [`viewer`]: what becomes of a frame on the server's and on the
//!   client's screen;
//! * [`media`]: the codecs that the two sides put forward;
//! * [`json`]: JSON values;
//! * [`config`]: fixed settings.
//!
//! Parsing and printing JSON, session descriptions, candidates and channels are left to
//! `serde_json`, `webrtc` and `crossbeam_channel`.

pub mod candidate;
pub mod capture;
pub mod channel;
pub mod client_session;
pub mod clients;
pub mod config;
pub mod json;
pub mod media;
pub mod negotiation;
pub mod server_session;
pub mod session;
pub mod signal;
pub mod texture;
pub mod viewer;
