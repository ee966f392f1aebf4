//! A client core that subscribes to a websocket publish/subscribe endpoint,
//! keeps the session alive with periodic keep-alive messages and forwards the
//! inbound JSON documents that a pluggable policy accepts.
//!
//! Every decision of a connection's life is made here, as verified state
//! machines; the caller performs the network and queue operations that each
//! step asks for and reports what happened.

mod consumer;
mod error;
mod heartbeat;
mod join;
mod json;
mod pipe;
mod receive;

pub use consumer::{Session, SessionPhase, WebsocketConsumer, DEFAULT_HEARTBEAT_INTERVAL};
pub use error::ConsumeError;
pub use heartbeat::{
    keepalives_within, lemma_keepalives_in_window, lemma_subscription_first_and_once, Heartbeat,
    HeartbeatAction, Wire,
};
pub use join::{other, Join, JoinAction, Task};
pub use json::{json_decode, json_has_key};
pub use pipe::{KeyPipe, Pipe};
pub use receive::{
    frame_output, lemma_routed_concat, lemma_routed_single, route, route_decoded, route_frame,
    routed, Inbound, ReceiveLoop, ReceivePhase, ReceiveStep,
};
