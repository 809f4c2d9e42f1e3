//! Data types and status handling for the ISIS TRXVU radio driver boundary.
//!
//! The crate describes the values that cross the boundary to the native
//! driver (status codes, telemetry buffers, received frames) and the rule
//! that turns a driver status into the error reported to callers.

pub mod error;
pub mod message;
pub mod status;
pub mod telemetry;
pub mod text;

pub use error::{radio_status_to_err, RadioError};
pub use message::{radio_rx_message, RX_MAX_SIZE};
pub use status::radio_status;
pub use telemetry::{radio_telem, radio_telem_type};
