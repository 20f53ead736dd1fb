//! A crowdfunding escrow ledger: campaigns pool donations until a deadline,
//! the administrator may withdraw once the target is met, and contributors
//! may reclaim their stake when a campaign expires short of its target.

pub mod campaign;
pub mod contribution;
pub mod error;
pub mod escrow;
pub mod funds;
pub mod identity;
pub mod laws;
pub mod ledger;

pub use campaign::{Campaign, DonationEvent, Status};
pub use contribution::Contribution;
pub use error::ErrorCode;
pub use escrow::{create, donate, refund, withdraw, Create, Donate, Refund, Withdraw};
pub use identity::Identity;
