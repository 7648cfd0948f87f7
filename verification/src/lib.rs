//! An escrow-based auction over a single tokenized asset.
//!
//! An asset custodian authorizes a transfer of the asset into escrow, which
//! admits an auction; participants place monetary bids against a fixed floor
//! price; once the expiry passes, anyone may trigger settlement, which
//! approves the asset for the winning participant and fans out the payouts.
//!
//! Every operation is a pure state transition: it takes the ambient facts it
//! needs (current time, attached deposit, caller identity) as plain values
//! and returns the ordered list of outbound [`effect::Effect`]s it declares,
//! leaving the asynchronous execution of those effects to the host.

pub mod auction;
pub mod effect;
pub mod error;
pub mod ident;
pub mod registry;

pub use auction::Auction;
pub use auction::AuctionParams;
pub use auction::AuctionView;
pub use auction::Bid;
pub use effect::Effect;
pub use effect::EffectView;
pub use error::AuctionError;
pub use ident::NFTId;
pub use registry::Contract;
pub use ident::TokenId;
