//! An escrow-backed bilateral payment channel: a client pre-funds an escrow
//! with a server counterparty, and the server redeems signed, off-channel
//! payment authorizations against that escrow. The engine owns the channel
//! state machine, the authorization codec and verifier, the anti-replay
//! nonce discipline, and the escrow bookkeeping. The hosting environment
//! supplies the clock (`now` arguments), the verified calling principal
//! (`caller` arguments) and the asset mover: every mutating operation
//! returns the `TransferAction` the host must perform, and a host that
//! follows the transfer-first rule executes it before adopting the new
//! engine state.

pub mod auth;
pub mod laws;
pub mod storage;
pub mod types;

use vstd::prelude::*;

use crate::auth::{auth_content_check, payment_digest, signature_valid, AuthValidator};
use crate::storage::{appended_history, Storage};
use crate::types::{AccountId, Channel, ChannelState, PaymentAuth, Settlement, TransferAction, X402Error};

verus! {

/// Whether a channel has outlived its inactivity budget.
pub open spec fn channel_stale(channel: Channel, now: u64) -> bool {
    now > channel.last_activity_at + channel.ttl_seconds
}

/// Whether a settlement now would violate the minimum one-time-unit spacing
/// after the previous settlement on the same channel.
pub open spec fn rate_limited(history: Seq<Settlement>, now: u64) -> bool {
    history.len() > 0 && now < history.last().timestamp + 1
}

/// The first guard an escrow open fails on, if any.
pub open spec fn open_gate_error(pre: X402FlashContract, caller: AccountId, client: AccountId, server: AccountId, amount: i128) -> Option<X402Error> {
    if caller != client {
        Some(X402Error::Unauthorized)
    } else if pre.storage.paused {
        Some(X402Error::ContractPaused)
    } else if amount <= 0 {
        Some(X402Error::InvalidAmount)
    } else {
        match pre.storage.channel_of(client, server) {
            Some(existing) => if existing.is_active() {
                Some(X402Error::ChannelAlreadyExists)
            } else {
                None
            },
            None => None,
        }
    }
}

/// The first guard a settlement fails on, if any, in the fixed gate order:
/// caller, pause, channel existence and state, staleness, authorization
/// content, signature, nonce counter, used-nonce set, minimum payment, rate
/// limit, escrow sufficiency.
pub open spec fn settle_gate_error(pre: X402FlashContract, caller: AccountId, client: AccountId, server: AccountId, auth: PaymentAuth, public_key: Seq<u8>, signature: Seq<u8>, now: u64) -> Option<X402Error> {
    if caller != server {
        Some(X402Error::Unauthorized)
    } else if pre.storage.paused {
        Some(X402Error::ContractPaused)
    } else {
        match pre.storage.channel_of(client, server) {
            None => Some(X402Error::ChannelNotOpen),
            Some(channel) => if channel.state != ChannelState::Open {
                Some(X402Error::ChannelNotOpen)
            } else if channel_stale(channel, now) {
                Some(X402Error::ChannelNotOpen)
            } else {
                match auth_content_check(auth, server, pre.contract_id, now) {
                    Err(e) => Some(e),
                    Ok(_) => if !signature_valid(auth, public_key, signature) {
                        Some(X402Error::InvalidSignature)
                    } else if auth.nonce != pre.storage.client_nonce_of(client) {
                        Some(X402Error::InvalidNonce)
                    } else if pre.storage.nonce_used(client, server, auth.nonce) {
                        Some(X402Error::NonceAlreadyUsed)
                    } else if auth.amount < pre.storage.minimum_payment_of(auth.token) {
                        Some(X402Error::InvalidAmount)
                    } else if rate_limited(pre.storage.history_of(client, server), now) {
                        Some(X402Error::RateLimitExceeded)
                    } else if channel.escrow_balance < auth.amount {
                        Some(X402Error::InsufficientEscrow)
                    } else {
                        None
                    },
                }
            },
        }
    }
}

/// Whether a settlement call finds an open but stale channel: the one
/// failing call that still mutates state, by recording `PendingClose`.
pub open spec fn settle_trips_ttl(pre: X402FlashContract, caller: AccountId, client: AccountId, server: AccountId, now: u64) -> bool {
    &&& caller == server
    &&& !pre.storage.paused
    &&& match pre.storage.channel_of(client, server) {
        Some(channel) => channel.state == ChannelState::Open && channel_stale(channel, now),
        None => false,
    }
}

/// The first guard a client close fails on, if any.
pub open spec fn close_gate_error(pre: X402FlashContract, caller: AccountId, client: AccountId, server: AccountId) -> Option<X402Error> {
    if caller != client {
        Some(X402Error::Unauthorized)
    } else if pre.storage.paused {
        Some(X402Error::ContractPaused)
    } else {
        match pre.storage.channel_of(client, server) {
            None => Some(X402Error::ChannelNotOpen),
            Some(channel) => if !channel.is_active() {
                Some(X402Error::ChannelNotOpen)
            } else if channel.pending_settlements > 0 {
                Some(X402Error::PendingSettlements)
            } else {
                None
            },
        }
    }
}

/// The first guard an emergency withdrawal fails on, if any: it is the
/// pause-time escape valve, so it demands a paused engine.
pub open spec fn withdraw_gate_error(pre: X402FlashContract, caller: AccountId, client: AccountId, server: AccountId) -> Option<X402Error> {
    if caller != client {
        Some(X402Error::Unauthorized)
    } else if !pre.storage.paused {
        Some(X402Error::Unauthorized)
    } else if pre.storage.channel_of(client, server) is None {
        Some(X402Error::ChannelNotOpen)
    } else {
        None
    }
}

/// The settlement engine: its own identity (authorizations must be bound to
/// it) and the durable store its host injected.
#[derive(Clone, Debug)]
pub struct X402FlashContract {
    pub contract_id: AccountId,
    pub storage: Storage,
}

impl X402FlashContract {
    /// Whether `caller` is the configured admin.
    pub open spec fn admin_authorized(self, caller: AccountId) -> bool {
        self.storage.admin == Some(caller)
    }

    /// An engine with the given identity over a host-injected store.
    pub fn new(contract_id: AccountId, storage: Storage) -> (r: X402FlashContract)
        ensures
            r.contract_id == contract_id,
            r.storage == storage,
    {
        X402FlashContract { contract_id, storage }
    }

    /// Sets the admin identity, exactly once; a second initialization is
    /// refused and changes nothing.
    pub fn initialize(&mut self, admin: AccountId) -> (r: Result<(), X402Error>)
        ensures
            old(self).storage.admin is None ==> {
                &&& r is Ok
                &&& final(self).storage.admin == Some(admin)
            },
            old(self).storage.admin is Some ==> {
                &&& r == Err::<(), X402Error>(X402Error::Unauthorized)
                &&& *final(self) == *old(self)
            },
            final(self).contract_id == old(self).contract_id,
            final(self).storage.channels@ == old(self).storage.channels@,
            final(self).storage.used_nonces@ == old(self).storage.used_nonces@,
            final(self).storage.client_nonces@ == old(self).storage.client_nonces@,
            final(self).storage.histories@ == old(self).storage.histories@,
            final(self).storage.minimum_payments@ == old(self).storage.minimum_payments@,
            final(self).storage.paused == old(self).storage.paused,
    {
        match self.storage.get_admin() {
            Some(_) => Err(X402Error::Unauthorized),
            None => {
                self.storage.set_admin(admin);
                Ok(())
            },
        }
    }

    /// Admin only: pauses the engine.
    pub fn pause(&mut self, caller: AccountId) -> (r: Result<(), X402Error>)
        ensures
            old(self).admin_authorized(caller) ==> {
                &&& r is Ok
                &&& final(self).storage.paused
            },
            !old(self).admin_authorized(caller) ==> {
                &&& r == Err::<(), X402Error>(X402Error::Unauthorized)
                &&& *final(self) == *old(self)
            },
            final(self).contract_id == old(self).contract_id,
            final(self).storage.channels@ == old(self).storage.channels@,
            final(self).storage.used_nonces@ == old(self).storage.used_nonces@,
            final(self).storage.client_nonces@ == old(self).storage.client_nonces@,
            final(self).storage.histories@ == old(self).storage.histories@,
            final(self).storage.minimum_payments@ == old(self).storage.minimum_payments@,
            final(self).storage.admin == old(self).storage.admin,
    {
        match self.storage.get_admin() {
            Some(admin) => if admin == caller {
                self.storage.set_paused(true);
                Ok(())
            } else {
                Err(X402Error::Unauthorized)
            },
            None => Err(X402Error::Unauthorized),
        }
    }

    /// Admin only: unpauses the engine.
    pub fn unpause(&mut self, caller: AccountId) -> (r: Result<(), X402Error>)
        ensures
            old(self).admin_authorized(caller) ==> {
                &&& r is Ok
                &&& !final(self).storage.paused
            },
            !old(self).admin_authorized(caller) ==> {
                &&& r == Err::<(), X402Error>(X402Error::Unauthorized)
                &&& *final(self) == *old(self)
            },
            final(self).contract_id == old(self).contract_id,
            final(self).storage.channels@ == old(self).storage.channels@,
            final(self).storage.used_nonces@ == old(self).storage.used_nonces@,
            final(self).storage.client_nonces@ == old(self).storage.client_nonces@,
            final(self).storage.histories@ == old(self).storage.histories@,
            final(self).storage.minimum_payments@ == old(self).storage.minimum_payments@,
            final(self).storage.admin == old(self).storage.admin,
    {
        match self.storage.get_admin() {
            Some(admin) => if admin == caller {
                self.storage.set_paused(false);
                Ok(())
            } else {
                Err(X402Error::Unauthorized)
            },
            None => Err(X402Error::Unauthorized),
        }
    }

    /// Admin only: configures the per-token minimum payment consulted by the
    /// settlement gates.
    pub fn set_minimum_payment(&mut self, caller: AccountId, token: AccountId, amount: i128) -> (r: Result<(), X402Error>)
        ensures
            old(self).admin_authorized(caller) ==> {
                &&& r is Ok
                &&& final(self).storage.minimum_payment_of(token) == amount
                &&& forall|t: AccountId| t != token
                    ==> #[trigger] final(self).storage.minimum_payment_of(t)
                        == old(self).storage.minimum_payment_of(t)
            },
            !old(self).admin_authorized(caller) ==> {
                &&& r == Err::<(), X402Error>(X402Error::Unauthorized)
                &&& *final(self) == *old(self)
            },
            final(self).contract_id == old(self).contract_id,
            final(self).storage.channels@ == old(self).storage.channels@,
            final(self).storage.used_nonces@ == old(self).storage.used_nonces@,
            final(self).storage.client_nonces@ == old(self).storage.client_nonces@,
            final(self).storage.histories@ == old(self).storage.histories@,
            final(self).storage.admin == old(self).storage.admin,
            final(self).storage.paused == old(self).storage.paused,
    {
        match self.storage.get_admin() {
            Some(admin) => if admin == caller {
                self.storage.set_minimum_payment(token, amount);
                Ok(())
            } else {
                Err(X402Error::Unauthorized)
            },
            None => Err(X402Error::Unauthorized),
        }
    }

    /// The escrow balance of a pair's channel, zero if none exists; never
    /// fails.
    pub fn current_escrow(&self, client: AccountId, server: AccountId) -> (r: i128)
        ensures
            r == match self.storage.channel_of(client, server) {
                Some(channel) => channel.escrow_balance,
                None => 0,
            },
    {
        match self.storage.get_channel(client, server) {
            Some(channel) => channel.escrow_balance,
            None => 0,
        }
    }

    /// The sequential-settlement counter of a client, zero before any
    /// settlement.
    pub fn get_nonce(&self, client: AccountId) -> (r: u64)
        ensures
            r == self.storage.client_nonce_of(client),
    {
        self.storage.get_client_nonce(client)
    }

    /// Opens (or re-opens) the channel of a pair with a fresh escrow. On
    /// success the returned action moves the deposit from the client into
    /// the engine's custody.
    pub fn open_escrow(&mut self, caller: AccountId, client: AccountId, server: AccountId, token: AccountId, amount: i128, ttl_seconds: u64, now: u64) -> (r: Result<TransferAction, X402Error>)
        ensures
            open_gate_error(*old(self), caller, client, server, amount) matches Some(e)
                ==> r == Err::<TransferAction, X402Error>(e) && *final(self) == *old(self),
            open_gate_error(*old(self), caller, client, server, amount) is None ==> {
                &&& r == Ok::<TransferAction, X402Error>((TransferAction {
                    token,
                    from: client,
                    to: old(self).contract_id,
                    amount,
                }))
                &&& final(self).storage.channel_of(client, server) == Some((Channel {
                    escrow_balance: amount,
                    token,
                    opened_at: now,
                    last_activity_at: now,
                    ttl_seconds,
                    state: ChannelState::Open,
                    closed_by: None,
                    pending_settlements: 0,
                }))
                &&& (final(self).storage.channel_of(client, server) matches Some(c) && c.wf())
                &&& forall|c: AccountId, s: AccountId| !(c == client && s == server)
                    ==> #[trigger] final(self).storage.channel_of(c, s)
                        == old(self).storage.channel_of(c, s)
                &&& final(self).storage.used_nonces@ == old(self).storage.used_nonces@
                &&& final(self).storage.client_nonces@ == old(self).storage.client_nonces@
                &&& final(self).storage.histories@ == old(self).storage.histories@
                &&& final(self).storage.minimum_payments@ == old(self).storage.minimum_payments@
                &&& final(self).storage.admin == old(self).storage.admin
                &&& final(self).storage.paused == old(self).storage.paused
            },
            final(self).contract_id == old(self).contract_id,
    {
        if caller != client {
            return Err(X402Error::Unauthorized);
        }
        if self.storage.is_paused() {
            return Err(X402Error::ContractPaused);
        }
        if amount <= 0 {
            return Err(X402Error::InvalidAmount);
        }
        if let Some(existing) = self.storage.get_channel(client, server) {
            if existing.state == ChannelState::Open || existing.state == ChannelState::PendingClose {
                return Err(X402Error::ChannelAlreadyExists);
            }
        }
        let channel = Channel {
            escrow_balance: amount,
            token,
            opened_at: now,
            last_activity_at: now,
            ttl_seconds,
            state: ChannelState::Open,
            closed_by: None,
            pending_settlements: 0,
        };
        self.storage.set_channel(client, server, &channel);
        Ok(TransferAction { token, from: client, to: self.contract_id, amount })
    }

    /// Redeems one signed payment authorization against the channel's
    /// escrow: runs the guard sequence and, only if no guard refuses, marks
    /// the nonce used, advances the client counter, decrements the escrow,
    /// bumps the activity timestamp, records the settlement in the bounded
    /// history, and returns the payout the host must transfer to the server.
    /// A call that finds the channel stale records `PendingClose` and fails;
    /// every other failure leaves all state unchanged.
    #[verifier::rlimit(100)]
    pub fn settle_payment(&mut self, caller: AccountId, client: AccountId, server: AccountId, auth: PaymentAuth, signature: [u8; 64], client_pubkey: [u8; 32], now: u64) -> (r: Result<TransferAction, X402Error>)
        requires
            old(self).storage.client_nonce_of(client) < u64::MAX,
        ensures
            settle_gate_error(*old(self), caller, client, server, auth, client_pubkey@, signature@, now)
                matches Some(e) ==> r == Err::<TransferAction, X402Error>(e),
            settle_gate_error(*old(self), caller, client, server, auth, client_pubkey@, signature@, now) is None
                ==> r is Ok,
            settle_gate_error(*old(self), caller, client, server, auth, client_pubkey@, signature@, now) is Some
                && !settle_trips_ttl(*old(self), caller, client, server, now)
                ==> *final(self) == *old(self),
            settle_trips_ttl(*old(self), caller, client, server, now) ==> {
                &&& r == Err::<TransferAction, X402Error>(X402Error::ChannelNotOpen)
                &&& final(self).storage.channel_of(client, server)
                    == match old(self).storage.channel_of(client, server) {
                        Some(channel) => Some((Channel { state: ChannelState::PendingClose, ..channel })),
                        None => None,
                    }
                &&& forall|c: AccountId, s: AccountId| !(c == client && s == server)
                    ==> #[trigger] final(self).storage.channel_of(c, s)
                        == old(self).storage.channel_of(c, s)
                &&& final(self).storage.used_nonces@ == old(self).storage.used_nonces@
                &&& final(self).storage.client_nonces@ == old(self).storage.client_nonces@
                &&& final(self).storage.histories@ == old(self).storage.histories@
                &&& final(self).storage.minimum_payments@ == old(self).storage.minimum_payments@
                &&& final(self).storage.admin == old(self).storage.admin
                &&& final(self).storage.paused == old(self).storage.paused
            },
            r is Ok ==> {
                &&& auth.nonce == old(self).storage.client_nonce_of(client)
                &&& final(self).storage.client_nonce_of(client)
                    == old(self).storage.client_nonce_of(client) + 1
                &&& final(self).storage.nonce_used(client, server, auth.nonce)
                &&& !old(self).storage.nonce_used(client, server, auth.nonce)
            },
            r is Ok ==> match old(self).storage.channel_of(client, server) {
                Some(channel) => {
                    &&& 0 < auth.amount <= channel.escrow_balance
                    &&& r == Ok::<TransferAction, X402Error>((TransferAction {
                        token: channel.token,
                        from: old(self).contract_id,
                        to: server,
                        amount: auth.amount,
                    }))
                    &&& final(self).storage.channel_of(client, server) == Some((Channel {
                        escrow_balance: (channel.escrow_balance - auth.amount) as i128,
                        last_activity_at: now,
                        ..channel
                    }))
                    &&& (channel.wf() && now >= channel.opened_at
                        ==> (match final(self).storage.channel_of(client, server) {
                            Some(updated) => updated.wf(),
                            None => false,
                        }))
                },
                None => false,
            },
            r is Ok ==> {
                let oh = old(self).storage.history_of(client, server);
                let nh = final(self).storage.history_of(client, server);
                &&& nh.len() > 0
                &&& nh.last().amount == auth.amount
                &&& nh.last().timestamp == now
                &&& nh.last().auth_hash@ == payment_digest(auth)
                &&& nh == appended_history(oh, nh.last())
            },
            r is Ok ==> {
                &&& forall|c: AccountId, s: AccountId| !(c == client && s == server)
                    ==> #[trigger] final(self).storage.channel_of(c, s)
                        == old(self).storage.channel_of(c, s)
                &&& forall|c: AccountId| c != client
                    ==> #[trigger] final(self).storage.client_nonce_of(c)
                        == old(self).storage.client_nonce_of(c)
                &&& forall|c: AccountId, s: AccountId, n: u64| !(c == client && s == server && n == auth.nonce)
                    ==> #[trigger] final(self).storage.nonce_used(c, s, n)
                        == old(self).storage.nonce_used(c, s, n)
                &&& forall|c: AccountId, s: AccountId| !(c == client && s == server)
                    ==> #[trigger] final(self).storage.history_of(c, s)
                        == old(self).storage.history_of(c, s)
                &&& final(self).storage.minimum_payments@ == old(self).storage.minimum_payments@
                &&& final(self).storage.admin == old(self).storage.admin
                &&& final(self).storage.paused == old(self).storage.paused
            },
            final(self).contract_id == old(self).contract_id,
    {
        if caller != server {
            return Err(X402Error::Unauthorized);
        }
        if self.storage.is_paused() {
            return Err(X402Error::ContractPaused);
        }
        let channel = match self.storage.get_channel(client, server) {
            Some(channel) => channel,
            None => {
                return Err(X402Error::ChannelNotOpen);
            },
        };
        if channel.state != ChannelState::Open {
            return Err(X402Error::ChannelNotOpen);
        }
        if (now as u128) > (channel.last_activity_at as u128) + (channel.ttl_seconds as u128) {
            let stale = Channel { state: ChannelState::PendingClose, ..channel };
            self.storage.set_channel(client, server, &stale);
            return Err(X402Error::ChannelNotOpen);
        }
        if let Err(e) = AuthValidator::validate_auth(&auth, server, self.contract_id, now) {
            return Err(e);
        }
        if let Err(e) = AuthValidator::verify_payment_signature(&auth, &signature, &client_pubkey) {
            return Err(e);
        }
        let expected_nonce = self.storage.get_client_nonce(client);
        if auth.nonce != expected_nonce {
            return Err(X402Error::InvalidNonce);
        }
        if self.storage.has_used_nonce(client, server, auth.nonce) {
            return Err(X402Error::NonceAlreadyUsed);
        }
        let minimum = self.storage.get_minimum_payment(auth.token);
        if auth.amount < minimum {
            return Err(X402Error::InvalidAmount);
        }
        let history = self.storage.get_settlement_history(client, server);
        if history.len() > 0 {
            let last = history[history.len() - 1];
            if now <= last.timestamp {
                return Err(X402Error::RateLimitExceeded);
            }
        }
        if channel.escrow_balance < auth.amount {
            return Err(X402Error::InsufficientEscrow);
        }
        self.commit_settlement(client, server, channel, auth, now);
        Ok(TransferAction {
            token: channel.token,
            from: self.contract_id,
            to: server,
            amount: auth.amount,
        })
    }

    /// The single atomic state transition of a settlement, entered only after
    /// every guard has let the call through: marks the nonce used, advances the
    /// counter, rewrites the channel record, and appends the history record.
    #[verifier::rlimit(100)]
    fn commit_settlement(&mut self, client: AccountId, server: AccountId, channel: Channel, auth: PaymentAuth, now: u64)
        requires
            old(self).storage.channel_of(client, server) == Some(channel),
            old(self).storage.client_nonce_of(client) < u64::MAX,
            auth.nonce == old(self).storage.client_nonce_of(client),
            0 < auth.amount <= channel.escrow_balance,
        ensures
            final(self).storage.channel_of(client, server) == Some((Channel {
                escrow_balance: (channel.escrow_balance - auth.amount) as i128,
                last_activity_at: now,
                ..channel
            })),
            final(self).storage.client_nonce_of(client)
                == old(self).storage.client_nonce_of(client) + 1,
            final(self).storage.nonce_used(client, server, auth.nonce),
            ({
                let oh = old(self).storage.history_of(client, server);
                let nh = final(self).storage.history_of(client, server);
                &&& nh.len() > 0
                &&& nh.last().amount == auth.amount
                &&& nh.last().timestamp == now
                &&& nh.last().auth_hash@ == payment_digest(auth)
                &&& nh == appended_history(oh, nh.last())
            }),
            forall|c: AccountId, s: AccountId| !(c == client && s == server)
                ==> #[trigger] final(self).storage.channel_of(c, s)
                    == old(self).storage.channel_of(c, s),
            forall|c: AccountId| c != client
                ==> #[trigger] final(self).storage.client_nonce_of(c)
                    == old(self).storage.client_nonce_of(c),
            forall|c: AccountId, s: AccountId, n: u64| !(c == client && s == server && n == auth.nonce)
                ==> #[trigger] final(self).storage.nonce_used(c, s, n)
                    == old(self).storage.nonce_used(c, s, n),
            forall|c: AccountId, s: AccountId| !(c == client && s == server)
                ==> #[trigger] final(self).storage.history_of(c, s)
                    == old(self).storage.history_of(c, s),
            final(self).storage.minimum_payments@ == old(self).storage.minimum_payments@,
            final(self).storage.admin == old(self).storage.admin,
            final(self).storage.paused == old(self).storage.paused,
            final(self).contract_id == old(self).contract_id,
    {
        let ghost s0 = self.storage;
        self.storage.mark_nonce_used(client, server, auth.nonce);
        let ghost s1 = self.storage;
        self.storage.increment_client_nonce(client);
        let ghost s2 = self.storage;
        let updated = Channel {
            escrow_balance: channel.escrow_balance - auth.amount,
            last_activity_at: now,
            ..channel
        };
        self.storage.set_channel(client, server, &updated);
        let ghost s3 = self.storage;
        let digest = AuthValidator::create_payment_message(&auth);
        let settlement = Settlement { amount: auth.amount, timestamp: now, auth_hash: digest };
        self.storage.add_settlement(client, server, settlement);
        proof {
            let s4 = self.storage;
            assert(s1.channels@ == s0.channels@ && s2.channels@ == s1.channels@
                && s4.channels@ == s3.channels@);
            assert(s1.client_nonces@ == s0.client_nonces@ && s3.client_nonces@ == s2.client_nonces@
                && s4.client_nonces@ == s3.client_nonces@);
            assert(s2.used_nonces@ == s1.used_nonces@ && s3.used_nonces@ == s2.used_nonces@
                && s4.used_nonces@ == s3.used_nonces@);
            assert(s1.histories@ == s0.histories@ && s2.histories@ == s1.histories@
                && s3.histories@ == s2.histories@);
            assert forall|c: AccountId, s: AccountId| !(c == client && s == server)
                implies #[trigger] s4.channel_of(c, s) == s0.channel_of(c, s) by {
                assert(s3.channel_of(c, s) == s2.channel_of(c, s));
            }
            assert(s4.channel_of(client, server) == Some(updated));
            assert forall|c: AccountId| c != client
                implies #[trigger] s4.client_nonce_of(c) == s0.client_nonce_of(c) by {
                assert(s2.client_nonce_of(c) == s1.client_nonce_of(c));
            }
            assert(s4.client_nonce_of(client) == s0.client_nonce_of(client) + 1);
            assert forall|c: AccountId, s: AccountId, n: u64| !(c == client && s == server && n == auth.nonce)
                implies #[trigger] s4.nonce_used(c, s, n) == s0.nonce_used(c, s, n) by {
                assert(s1.nonce_used(c, s, n) == s0.nonce_used(c, s, n));
            }
            assert(s4.nonce_used(client, server, auth.nonce));
            assert forall|c: AccountId, s: AccountId| !(c == client && s == server)
                implies #[trigger] s4.history_of(c, s) == s0.history_of(c, s) by {
                assert(s4.history_of(c, s) == s3.history_of(c, s));
            }
            assert(s4.history_of(client, server)
                == appended_history(s0.history_of(client, server), settlement));
            assert(s4.history_of(client, server).last() == settlement);
        }
    }

    /// Closes the channel of a pair and refunds the remaining escrow to the
    /// client. Never succeeds while settlements are pending; on success the
    /// returned action, if any, refunds the balance.
    pub fn client_close_escrow(&mut self, caller: AccountId, client: AccountId, server: AccountId) -> (r: Result<Option<TransferAction>, X402Error>)
        ensures
            close_gate_error(*old(self), caller, client, server) matches Some(e)
                ==> r == Err::<Option<TransferAction>, X402Error>(e) && *final(self) == *old(self),
            r is Ok ==> match old(self).storage.channel_of(client, server) {
                Some(channel) => {
                    &&& channel.pending_settlements == 0
                    &&& r == Ok::<Option<TransferAction>, X402Error>(if channel.escrow_balance > 0 {
                        Some((TransferAction {
                            token: channel.token,
                            from: old(self).contract_id,
                            to: client,
                            amount: channel.escrow_balance,
                        }))
                    } else {
                        None
                    })
                    &&& final(self).storage.channel_of(client, server) == Some((Channel {
                        escrow_balance: 0,
                        state: ChannelState::Closed,
                        closed_by: Some(client),
                        ..channel
                    }))
                },
                None => false,
            },
            close_gate_error(*old(self), caller, client, server) is None ==> {
                &&& r is Ok
                &&& forall|c: AccountId, s: AccountId| !(c == client && s == server)
                    ==> #[trigger] final(self).storage.channel_of(c, s)
                        == old(self).storage.channel_of(c, s)
                &&& final(self).storage.used_nonces@ == old(self).storage.used_nonces@
                &&& final(self).storage.client_nonces@ == old(self).storage.client_nonces@
                &&& final(self).storage.histories@ == old(self).storage.histories@
                &&& final(self).storage.minimum_payments@ == old(self).storage.minimum_payments@
                &&& final(self).storage.admin == old(self).storage.admin
                &&& final(self).storage.paused == old(self).storage.paused
            },
            final(self).contract_id == old(self).contract_id,
    {
        if caller != client {
            return Err(X402Error::Unauthorized);
        }
        if self.storage.is_paused() {
            return Err(X402Error::ContractPaused);
        }
        let channel = match self.storage.get_channel(client, server) {
            Some(channel) => channel,
            None => {
                return Err(X402Error::ChannelNotOpen);
            },
        };
        if channel.state != ChannelState::Open && channel.state != ChannelState::PendingClose {
            return Err(X402Error::ChannelNotOpen);
        }
        if channel.pending_settlements > 0 {
            return Err(X402Error::PendingSettlements);
        }
        let refund = if channel.escrow_balance > 0 {
            Some(TransferAction {
                token: channel.token,
                from: self.contract_id,
                to: client,
                amount: channel.escrow_balance,
            })
        } else {
            None
        };
        let closed = Channel {
            escrow_balance: 0,
            state: ChannelState::Closed,
            closed_by: Some(client),
            ..channel
        };
        self.storage.set_channel(client, server, &closed);
        Ok(refund)
    }

    /// The pause-time escape valve: while the engine is paused, refunds the
    /// remaining escrow to the client and closes the channel, bypassing the
    /// pending-settlements guard.
    pub fn emergency_withdraw(&mut self, caller: AccountId, client: AccountId, server: AccountId) -> (r: Result<Option<TransferAction>, X402Error>)
        ensures
            withdraw_gate_error(*old(self), caller, client, server) matches Some(e)
                ==> r == Err::<Option<TransferAction>, X402Error>(e) && *final(self) == *old(self),
            r is Ok ==> match old(self).storage.channel_of(client, server) {
                Some(channel) => {
                    &&& r == Ok::<Option<TransferAction>, X402Error>(if channel.escrow_balance > 0 {
                        Some((TransferAction {
                            token: channel.token,
                            from: old(self).contract_id,
                            to: client,
                            amount: channel.escrow_balance,
                        }))
                    } else {
                        None
                    })
                    &&& final(self).storage.channel_of(client, server) == Some((Channel {
                        escrow_balance: 0,
                        state: ChannelState::Closed,
                        closed_by: Some(client),
                        ..channel
                    }))
                },
                None => false,
            },
            withdraw_gate_error(*old(self), caller, client, server) is None ==> {
                &&& r is Ok
                &&& forall|c: AccountId, s: AccountId| !(c == client && s == server)
                    ==> #[trigger] final(self).storage.channel_of(c, s)
                        == old(self).storage.channel_of(c, s)
                &&& final(self).storage.used_nonces@ == old(self).storage.used_nonces@
                &&& final(self).storage.client_nonces@ == old(self).storage.client_nonces@
                &&& final(self).storage.histories@ == old(self).storage.histories@
                &&& final(self).storage.minimum_payments@ == old(self).storage.minimum_payments@
                &&& final(self).storage.admin == old(self).storage.admin
                &&& final(self).storage.paused == old(self).storage.paused
            },
            final(self).contract_id == old(self).contract_id,
    {
        if caller != client {
            return Err(X402Error::Unauthorized);
        }
        if !self.storage.is_paused() {
            return Err(X402Error::Unauthorized);
        }
        let channel = match self.storage.get_channel(client, server) {
            Some(channel) => channel,
            None => {
                return Err(X402Error::ChannelNotOpen);
            },
        };
        let refund = if channel.escrow_balance > 0 {
            Some(TransferAction {
                token: channel.token,
                from: self.contract_id,
                to: client,
                amount: channel.escrow_balance,
            })
        } else {
            None
        };
        let closed = Channel {
            escrow_balance: 0,
            state: ChannelState::Closed,
            closed_by: Some(client),
            ..channel
        };
        self.storage.set_channel(client, server, &closed);
        Ok(refund)
    }
}

} // verus!
