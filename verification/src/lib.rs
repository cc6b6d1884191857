//! A token-recycling ledger: users dispose of dead tokens at a registered
//! station and are paid a reward token plus experience points.
//!
//! - [`reward`] computes reward and experience points.
//! - [`station`] creates stations and keeps their disposal count.
//! - [`token`] holds token balances and the primitives that burn and move them.
//! - [`dispose`] is the disposal itself: one all-or-nothing transaction.
//! - [`record`] holds the receipt and the event of a disposal.
//! - [`claim`] is the reserved entry point for claiming experience points.
//! - [`error`] is the error taxonomy, [`pubkey`] the identities.

pub mod claim;
pub mod dispose;
pub mod error;
pub mod pubkey;
pub mod record;
pub mod reward;
pub mod station;
pub mod token;

pub use claim::{claim_xp, ClaimXP};
pub use dispose::{dispose_dead_coin, DisposeDeadCoin};
pub use error::{ErrorCode, LedgerError};
pub use pubkey::Pubkey;
pub use record::{RecycleEvent, RecycleRecord};
pub use reward::{calculate_nom_reward, calculate_xp_points};
pub use station::{initialize_station, InitializeStation, RecyclingStation, StationAccount};
pub use token::{burn, transfer, TokenAccount};
