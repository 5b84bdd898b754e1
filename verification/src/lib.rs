//! A marketplace for tokenized assets: fixed-price sales and English
//! auctions, settled through an external custody service.
//!
//! The marketplace keeps a registry of sales, one per custody service and
//! asset, with an index by seller and an index by custody service. A sale is
//! listed when its custody service reports the owner's approval, and leaves the
//! registry when it is cancelled, when its auction ends without a bid, or when
//! a purchase begins. A purchase is settled in two phases: the first takes the
//! sale out of the registry and says what to ask of the custody service; the
//! second takes the payout that came back and says whom to pay, or refunds the
//! buyer.
//!
//! Nothing here reads a clock, holds money or calls anyone. Every operation
//! takes the caller, the attached deposit and the time as arguments, and
//! returns the transfers to make. The amount by which bids must rise is set
//! when the marketplace is made.
//!
//! - [`types`]: sales, bids, transfers, errors, and their views.
//! - [`collections`], [`index`]: the sets, maps and indices that hold them.
//! - [`model`]: the state of the market as mathematics, and what it means for
//!   it to be well formed.
//! - [`market`]: the marketplace with its registry.
//! - [`intake`], [`trading`], [`settlement`], [`allowlist`]: the operations.
//! - [`machine`], [`laws`]: the marketplace as a state machine, and what holds
//!   of every state it can reach.

pub mod allowlist;
pub mod collections;
pub mod index;
pub mod intake;
pub mod laws;
pub mod machine;
pub mod market;
pub mod model;
pub mod settlement;
pub mod trading;
pub mod types;

pub use intake::SaleArgs;
pub use market::Contract;
pub use settlement::Settlement;
pub use trading::PendingSettlement;
pub use types::{Bid, MarketError, Sale, SaleKey, Transfer};
