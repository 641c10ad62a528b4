//! A client library for the REST interface of an Aptos node, written without
//! any I/O of its own: it builds the requests, reads the replies, tracks the
//! confirmation of submitted transactions, and leaves the transport to its caller.

pub mod address;
pub mod client;
pub mod codec;
pub mod coin;
pub mod crypto;
pub mod decimal;
pub mod error;
pub mod faucet;
pub mod json;
pub mod module;
pub mod token;
pub mod transaction;
pub mod transport;
pub mod types;
pub mod wire;

pub use crate::client::Client;
pub use crate::coin::CoinClient;
pub use crate::faucet::FaucetClient;
pub use crate::module::ModuleClient;
pub use crate::token::TokenClient;
