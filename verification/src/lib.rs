//! A miniature Bitcoin-shaped value domain: transaction records with a
//! fluent builder, a deliberately simplified binary codec, a small
//! command-line argument parser, and a generic 2D point.

pub mod cli;
pub mod codec;
pub mod errors;
pub mod point;
pub mod transaction;

pub use cli::parse_cli_args;
pub use cli::CliCommand;
pub use codec::BitcoinSerialize;
pub use errors::BitcoinError;
pub use point::Point;
pub use transaction::LegacyTransaction;
pub use transaction::LegacyTransactionBuilder;
pub use transaction::OutPoint;
pub use transaction::TxInput;
pub use transaction::TxOutput;
