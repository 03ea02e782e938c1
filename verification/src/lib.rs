//! Client logic for the BitcoinDA data-availability layer of Syscoin.
pub mod text;
pub mod json;
pub mod error;
pub mod rpc;
pub mod poda;
pub mod hexcodec;
pub mod client;
pub mod request;
pub mod flow;
pub mod wallet;
pub mod blob;
pub mod availability;
pub mod finality;
pub mod fee;
pub mod mock;
pub mod api;
pub mod laws;
pub mod answers;
