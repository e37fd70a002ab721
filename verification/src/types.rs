use vstd::prelude::*;

verus! {

/// An account, contract or asset identity, as the hosting environment names
/// principals. The engine never interprets an identity: it only compares
/// identities and feeds them to the authorization codec.
pub type AccountId = u64;

/// Lifecycle state of a payment channel.
///
/// `Unopened` (never opened, or fully closed and reset) and `Closed` are both
/// available for re-open; `Open` settles payments; `PendingClose` is entered
/// when a settlement attempt finds the channel stale.
#[derive(Clone, Copy, Debug, PartialEq, Eq, Structural)]
pub enum ChannelState {
    Unopened,
    Open,
    PendingClose,
    Closed,
}

/// One escrow-backed payment channel between a client and a server,
/// identified by that pair and backed by a single fungible asset.
#[derive(Clone, Copy, Debug, PartialEq, Eq)]
pub struct Channel {
    /// Asset units held in custody for this channel; never negative.
    pub escrow_balance: i128,
    /// The asset backing the channel; immutable after open.
    pub token: AccountId,
    /// When the channel was opened.
    pub opened_at: u64,
    /// Last successful open or settlement; drives the staleness check.
    pub last_activity_at: u64,
    /// Inactivity budget: the channel is stale once
    /// `now > last_activity_at + ttl_seconds`.
    pub ttl_seconds: u64,
    pub state: ChannelState,
    /// Who initiated closure, for diagnostics only.
    pub closed_by: Option<AccountId>,
    /// Settlements currently mid-flight; must be zero before a client close.
    pub pending_settlements: u32,
}

impl Channel {
    /// The record-level invariant: custody never goes negative, and activity
    /// never predates the open (the clock is monotonic).
    pub open spec fn wf(self) -> bool {
        &&& self.escrow_balance >= 0
        &&& self.opened_at <= self.last_activity_at
    }

    /// A channel in `Open` or `PendingClose` holds a live escrow; only such
    /// a record blocks a re-open and only such a record can be closed.
    pub open spec fn is_active(self) -> bool {
        self.state == ChannelState::Open || self.state == ChannelState::PendingClose
    }
}

/// A payment authorization, signed off-channel by the client and carried as
/// call input; never persisted as a whole. It binds the settlement contract,
/// both parties, the asset, the amount, a strictly sequential nonce and an
/// absolute deadline.
#[derive(Clone, Copy, Debug)]
pub struct PaymentAuth {
    pub settlement_contract: AccountId,
    pub client: AccountId,
    pub server: AccountId,
    pub token: AccountId,
    /// Asset units to redeem; only authorizations with `amount > 0` are valid.
    pub amount: i128,
    /// Must equal the client's current counter; each value is redeemed at
    /// most once per (client, server) pair.
    pub nonce: u64,
    /// Latest timestamp at which the authorization may still be redeemed.
    pub deadline: u64,
}

/// One successful redemption, kept in the bounded per-channel history.
#[derive(Clone, Copy, Debug, PartialEq, Eq)]
pub struct Settlement {
    pub amount: i128,
    pub timestamp: u64,
    /// SHA-256 digest of the canonical bytes of the authorization that
    /// produced this settlement.
    pub auth_hash: [u8; 32],
}

/// An asset movement the engine instructs its host to perform. The engine
/// itself never moves value: each mutating operation returns the transfer it
/// committed to, and the host executes it before adopting the new state.
#[derive(Clone, Copy, Debug, PartialEq, Eq, Structural)]
pub struct TransferAction {
    pub token: AccountId,
    pub from: AccountId,
    pub to: AccountId,
    pub amount: i128,
}

/// Every way an operation can be refused. Each guard violation is terminal
/// for its call and leaves persisted state unchanged, except the staleness
/// trip in settlement, which records `PendingClose` before failing.
#[derive(Clone, Copy, Debug, PartialEq, Eq, Structural)]
pub enum X402Error {
    Unauthorized,
    ChannelNotOpen,
    InvalidSignature,
    NonceAlreadyUsed,
    PaymentExpired,
    InsufficientEscrow,
    InvalidAmount,
    ContractPaused,
    InvalidNonce,
    RateLimitExceeded,
    ChannelAlreadyExists,
    PendingSettlements,
}

} // verus!
