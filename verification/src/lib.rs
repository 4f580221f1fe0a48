//! Wire-level models and codecs for BGP-4 path attributes and messages,
//! BMP v4 route monitoring, and the NetFlow v9 flow-export format.
//!
//! The crate is organised in three layers:
//! - a codec kernel: pure functions over byte buffers, each decoder paired
//!   with an encoder, both specified against byte-sequence models of the
//!   wire formats;
//! - a template cache required to interpret NetFlow v9 data sets;
//! - a BGP peer finite-state machine core: a pure transition function from
//!   state and event to action and next state.

pub mod addr;
pub mod bmp;
pub mod bytes;
pub mod community;
pub mod deserializer;
pub mod flow;
pub mod fsm;
pub mod iana;
pub mod message;
pub mod nlri;
pub mod path_attribute;
pub mod serializer;
