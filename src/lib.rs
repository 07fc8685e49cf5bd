//! A relay that turns a stream of pump-stretch readings into deflate, inflate
//! and overinflate levels.
//!
//! Every level is a fixed-point number counted in millionths: [`UNIT`] stands
//! for 1.0. The library holds the state and the decisions; reading and sending
//! datagrams is left to the caller.
pub mod engine;
pub mod message;
pub mod router;
pub mod state;

pub use engine::{pump_update, DEAD_ZONE, UNIT};
pub use message::{
    deflate_address, inflate_address, overinflate_address, pump_address, trigger_address, Arg,
    Incoming, Outgoing, Packet, Value,
};
pub use router::{handle_message_received, handle_packet, level_messages};
pub use state::SimulationState;
