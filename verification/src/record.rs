//! Receipts and notifications: the write-once record of one disposal, and the
//! event that mirrors it for consumers outside the ledger.

use vstd::prelude::*;
use crate::pubkey::Pubkey;

verus! {

/// Proof of one disposal. A record is created once, together with the
/// disposal it describes, and never changed afterwards.
#[derive(Clone, Copy, Debug, PartialEq, Eq)]
pub struct RecycleRecord {
    /// Who disposed of the tokens.
    pub user: Pubkey,
    /// The station at which they were disposed of.
    pub station: Pubkey,
    /// The token type that was destroyed.
    pub dead_coin_mint: Pubkey,
    /// How much of it was destroyed.
    pub amount: u64,
    /// The death index given by the user, 1..=100.
    pub death_index: u8,
    /// The reward that was paid.
    pub nom_tokens_reward: u64,
    /// The experience points that were granted.
    pub xp_points: u64,
    /// When the disposal took place, in seconds.
    pub timestamp: i64,
}

/// Notification of one disposal. It repeats the record and is a hint only:
/// the record is the ground truth.
#[derive(Clone, Copy, Debug, PartialEq, Eq)]
pub struct RecycleEvent {
    pub user: Pubkey,
    pub station: Pubkey,
    pub dead_coin_mint: Pubkey,
    pub amount: u64,
    pub nom_tokens_reward: u64,
    pub xp_points: u64,
    pub timestamp: i64,
}

impl RecycleRecord {
    /// The event that mirrors this record: every field of the event is the
    /// field of the same name in the record.
    pub open spec fn event_spec(self) -> RecycleEvent {
        RecycleEvent {
            user: self.user,
            station: self.station,
            dead_coin_mint: self.dead_coin_mint,
            amount: self.amount,
            nom_tokens_reward: self.nom_tokens_reward,
            xp_points: self.xp_points,
            timestamp: self.timestamp,
        }
    }

    /// Builds the event that mirrors this record.
    pub fn event(&self) -> (event: RecycleEvent)
        ensures
            event == self.event_spec(),
    {
        RecycleEvent {
            user: self.user,
            station: self.station,
            dead_coin_mint: self.dead_coin_mint,
            amount: self.amount,
            nom_tokens_reward: self.nom_tokens_reward,
            xp_points: self.xp_points,
            timestamp: self.timestamp,
        }
    }
}

} // verus!
