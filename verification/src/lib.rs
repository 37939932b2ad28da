//! Host-local network outage notifier.
//!
//! The detector watches one network interface, keeps the timestamps of the
//! last transmitted and last received packet, and drives a small state
//! machine that publishes `Up` / `Down` transitions on a bounded event
//! stream whenever the RX/TX skew crosses a configured threshold.

pub mod ack_store;
mod clock;
pub mod config;
pub mod detect;
pub mod errors;
pub mod events;
pub mod frame;
pub mod icmp;
pub mod ip;
pub mod onl;
pub mod shared_data;
pub mod state;
pub mod tcp;

pub use ack_store::AckStore;
pub use config::Config;
pub use detect::Detector;
pub use errors::OnlError;
pub use events::EventQueue;
pub use frame::PacketDirection;
pub use onl::Onl;
pub use shared_data::SharedData;
pub use state::State;
