//! A read-through cache policy for token metadata and token prices.
//!
//! The library decides; its caller performs the database, ledger and HTTP
//! calls that the decisions ask for and reports what came back.

pub mod chain;
pub mod fetch;
pub mod laws;
pub mod model;
pub mod quote;
pub mod service;
pub mod types;

pub use service::TokenService;
pub use types::{Config, PriceRecord, PriceRecordView, TokenError, TokenMetadata, TokenMetadataView};
