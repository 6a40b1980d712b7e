pub mod api;
pub mod block_source;
pub mod cardano_validate;
pub mod chain;
pub mod cli;
pub mod chain_types;
pub mod config;
pub mod decrypt;
pub mod digest;
pub mod domain;
pub mod hacks;
pub mod indexer;
pub mod model;
pub mod pull;
pub mod store;
pub mod sync_loop;
pub mod text;
pub mod tx_parser;
pub mod work;
