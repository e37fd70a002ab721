use vstd::prelude::*;

use crate::types::{AccountId, Channel, Settlement};

verus! {

/// The per-token minimum payment that applies while no explicit floor has
/// been configured.
pub const DEFAULT_MINIMUM_PAYMENT: i128 = 100;

/// Bound on the settlement history kept per channel; the oldest entry is
/// evicted first once the bound is exceeded.
pub const HISTORY_LIMIT: usize = 100;

/// A channel record keyed by its (client, server) pair.
#[derive(Clone, Copy, Debug)]
pub struct ChannelEntry {
    pub client: AccountId,
    pub server: AccountId,
    pub channel: Channel,
}

/// Membership of one nonce in the used set of a (client, server) pair.
#[derive(Clone, Copy, Debug)]
pub struct UsedNonceEntry {
    pub client: AccountId,
    pub server: AccountId,
    pub nonce: u64,
}

/// The sequential-settlement counter of one client.
#[derive(Clone, Copy, Debug)]
pub struct NonceEntry {
    pub client: AccountId,
    pub nonce: u64,
}

/// The bounded settlement history of a (client, server) pair.
#[derive(Clone, Debug)]
pub struct HistoryEntry {
    pub client: AccountId,
    pub server: AccountId,
    pub history: Vec<Settlement>,
}

/// The minimum-payment floor configured for one token.
#[derive(Clone, Copy, Debug)]
pub struct MinPaymentEntry {
    pub token: AccountId,
    pub amount: i128,
}

/// The channel record the journal holds for a pair: the newest entry wins.
pub open spec fn channel_in(entries: Seq<ChannelEntry>, client: AccountId, server: AccountId) -> Option<Channel>
    decreases entries.len(),
{
    if entries.len() == 0 {
        None
    } else if entries.last().client == client && entries.last().server == server {
        Some(entries.last().channel)
    } else {
        channel_in(entries.drop_last(), client, server)
    }
}

/// Whether the journal marks a nonce used for a pair.
pub open spec fn nonce_used_in(entries: Seq<UsedNonceEntry>, client: AccountId, server: AccountId, nonce: u64) -> bool
    decreases entries.len(),
{
    if entries.len() == 0 {
        false
    } else if entries.last().client == client && entries.last().server == server
        && entries.last().nonce == nonce {
        true
    } else {
        nonce_used_in(entries.drop_last(), client, server, nonce)
    }
}

/// The counter the journal holds for a client; zero before any settlement.
pub open spec fn counter_in(entries: Seq<NonceEntry>, client: AccountId) -> u64
    decreases entries.len(),
{
    if entries.len() == 0 {
        0
    } else if entries.last().client == client {
        entries.last().nonce
    } else {
        counter_in(entries.drop_last(), client)
    }
}

/// The settlement history the journal holds for a pair; empty if none.
pub open spec fn history_in(entries: Seq<HistoryEntry>, client: AccountId, server: AccountId) -> Seq<Settlement>
    decreases entries.len(),
{
    if entries.len() == 0 {
        Seq::empty()
    } else if entries.last().client == client && entries.last().server == server {
        entries.last().history@
    } else {
        history_in(entries.drop_last(), client, server)
    }
}

/// The minimum-payment floor the journal holds for a token.
pub open spec fn min_payment_in(entries: Seq<MinPaymentEntry>, token: AccountId) -> i128
    decreases entries.len(),
{
    if entries.len() == 0 {
        DEFAULT_MINIMUM_PAYMENT
    } else if entries.last().token == token {
        entries.last().amount
    } else {
        min_payment_in(entries.drop_last(), token)
    }
}

/// How one settlement extends a bounded history: it is appended, and the
/// oldest record is evicted once the bound is exceeded.
pub open spec fn appended_history(history: Seq<Settlement>, s: Settlement) -> Seq<Settlement> {
    let grown = history.push(s);
    if grown.len() > HISTORY_LIMIT {
        grown.drop_first()
    } else {
        grown
    }
}

/// The durable keyed store of the settlement engine, held as in-memory
/// journals: every write appends a full record and the newest record for a
/// key wins, so all writes are last-writer-wins on the whole record.
#[derive(Clone, Debug)]
pub struct Storage {
    pub channels: Vec<ChannelEntry>,
    pub used_nonces: Vec<UsedNonceEntry>,
    pub client_nonces: Vec<NonceEntry>,
    pub histories: Vec<HistoryEntry>,
    pub minimum_payments: Vec<MinPaymentEntry>,
    pub admin: Option<AccountId>,
    pub paused: bool,
}

impl Storage {
    /// The channel record stored for a (client, server) pair.
    pub open spec fn channel_of(self, client: AccountId, server: AccountId) -> Option<Channel> {
        channel_in(self.channels@, client, server)
    }

    /// Whether a nonce is marked used for a (client, server) pair.
    pub open spec fn nonce_used(self, client: AccountId, server: AccountId, nonce: u64) -> bool {
        nonce_used_in(self.used_nonces@, client, server, nonce)
    }

    /// The sequential-settlement counter of a client.
    pub open spec fn client_nonce_of(self, client: AccountId) -> u64 {
        counter_in(self.client_nonces@, client)
    }

    /// The settlement history of a (client, server) pair, oldest first.
    pub open spec fn history_of(self, client: AccountId, server: AccountId) -> Seq<Settlement> {
        history_in(self.histories@, client, server)
    }

    /// The minimum payment accepted for a token.
    pub open spec fn minimum_payment_of(self, token: AccountId) -> i128 {
        min_payment_in(self.minimum_payments@, token)
    }

    /// An empty store: no channels, no used nonces, all counters zero, no
    /// histories, default minimum payments, no admin, not paused.
    pub fn new() -> (r: Storage)
        ensures
            r.channels@ == Seq::<ChannelEntry>::empty(),
            r.used_nonces@ == Seq::<UsedNonceEntry>::empty(),
            r.client_nonces@ == Seq::<NonceEntry>::empty(),
            r.histories@ == Seq::<HistoryEntry>::empty(),
            r.minimum_payments@ == Seq::<MinPaymentEntry>::empty(),
            forall|c: AccountId, s: AccountId| #[trigger] r.channel_of(c, s) is None,
            forall|c: AccountId, s: AccountId, n: u64| !(#[trigger] r.nonce_used(c, s, n)),
            forall|c: AccountId| #[trigger] r.client_nonce_of(c) == 0,
            forall|c: AccountId, s: AccountId| #[trigger] r.history_of(c, s) == Seq::<Settlement>::empty(),
            forall|t: AccountId| #[trigger] r.minimum_payment_of(t) == DEFAULT_MINIMUM_PAYMENT,
            r.admin is None,
            !r.paused,
    {
        Storage {
            channels: Vec::new(),
            used_nonces: Vec::new(),
            client_nonces: Vec::new(),
            histories: Vec::new(),
            minimum_payments: Vec::new(),
            admin: None,
            paused: false,
        }
    }

    /// Looks the channel of a pair up, newest record first.
    pub fn get_channel(&self, client: AccountId, server: AccountId) -> (r: Option<Channel>)
        ensures
            r == self.channel_of(client, server),
    {
        let mut i: usize = self.channels.len();
        proof {
            assert(self.channels@.take(self.channels@.len() as int) =~= self.channels@);
        }
        while i > 0
            invariant
                i <= self.channels@.len(),
                channel_in(self.channels@, client, server)
                    == channel_in(self.channels@.take(i as int), client, server),
            decreases i,
        {
            i = i - 1;
            let e = self.channels[i];
            proof {
                assert(self.channels@.take(i as int + 1).last() == self.channels@[i as int]);
                assert(self.channels@.take(i as int + 1).drop_last() =~= self.channels@.take(i as int));
            }
            if e.client == client && e.server == server {
                return Some(e.channel);
            }
        }
        proof {
            assert(self.channels@.take(0) =~= Seq::<ChannelEntry>::empty());
        }
        None
    }

    /// Stores the full channel record of a pair, shadowing any older record.
    pub fn set_channel(&mut self, client: AccountId, server: AccountId, channel: &Channel)
        ensures
            final(self).channel_of(client, server) == Some(*channel),
            forall|c: AccountId, s: AccountId|
                !(c == client && s == server)
                    ==> #[trigger] final(self).channel_of(c, s) == old(self).channel_of(c, s),
            final(self).used_nonces@ == old(self).used_nonces@,
            final(self).client_nonces@ == old(self).client_nonces@,
            final(self).histories@ == old(self).histories@,
            final(self).minimum_payments@ == old(self).minimum_payments@,
            final(self).admin == old(self).admin,
            final(self).paused == old(self).paused,
    {
        let entry = ChannelEntry { client, server, channel: *channel };
        self.channels.push(entry);
        proof {
            lemma_channel_in_push(old(self).channels@, entry, client, server);
            assert forall|c: AccountId, s: AccountId|
                !(c == client && s == server)
                    implies #[trigger] self.channel_of(c, s) == old(self).channel_of(c, s) by {
                lemma_channel_in_push(old(self).channels@, entry, c, s);
            }
        }
    }

    /// Whether a nonce is already marked used for a pair.
    pub fn has_used_nonce(&self, client: AccountId, server: AccountId, nonce: u64) -> (r: bool)
        ensures
            r == self.nonce_used(client, server, nonce),
    {
        let mut i: usize = self.used_nonces.len();
        proof {
            assert(self.used_nonces@.take(self.used_nonces@.len() as int) =~= self.used_nonces@);
        }
        while i > 0
            invariant
                i <= self.used_nonces@.len(),
                nonce_used_in(self.used_nonces@, client, server, nonce)
                    == nonce_used_in(self.used_nonces@.take(i as int), client, server, nonce),
            decreases i,
        {
            i = i - 1;
            let e = self.used_nonces[i];
            proof {
                assert(self.used_nonces@.take(i as int + 1).last() == self.used_nonces@[i as int]);
                assert(self.used_nonces@.take(i as int + 1).drop_last() =~= self.used_nonces@.take(i as int));
            }
            if e.client == client && e.server == server && e.nonce == nonce {
                return true;
            }
        }
        proof {
            assert(self.used_nonces@.take(0) =~= Seq::<UsedNonceEntry>::empty());
        }
        false
    }

    /// Marks a nonce used for a pair; only membership ever matters.
    pub fn mark_nonce_used(&mut self, client: AccountId, server: AccountId, nonce: u64)
        ensures
            final(self).nonce_used(client, server, nonce),
            forall|c: AccountId, s: AccountId, n: u64|
                !(c == client && s == server && n == nonce)
                    ==> #[trigger] final(self).nonce_used(c, s, n) == old(self).nonce_used(c, s, n),
            final(self).channels@ == old(self).channels@,
            final(self).client_nonces@ == old(self).client_nonces@,
            final(self).histories@ == old(self).histories@,
            final(self).minimum_payments@ == old(self).minimum_payments@,
            final(self).admin == old(self).admin,
            final(self).paused == old(self).paused,
    {
        let entry = UsedNonceEntry { client, server, nonce };
        self.used_nonces.push(entry);
        proof {
            lemma_nonce_used_in_push(old(self).used_nonces@, entry, client, server, nonce);
            assert forall|c: AccountId, s: AccountId, n: u64|
                !(c == client && s == server && n == nonce)
                    implies #[trigger] self.nonce_used(c, s, n) == old(self).nonce_used(c, s, n) by {
                lemma_nonce_used_in_push(old(self).used_nonces@, entry, c, s, n);
            }
        }
    }

    /// The current counter of a client; zero before any settlement.
    pub fn get_client_nonce(&self, client: AccountId) -> (r: u64)
        ensures
            r == self.client_nonce_of(client),
    {
        let mut i: usize = self.client_nonces.len();
        proof {
            assert(self.client_nonces@.take(self.client_nonces@.len() as int) =~= self.client_nonces@);
        }
        while i > 0
            invariant
                i <= self.client_nonces@.len(),
                counter_in(self.client_nonces@, client)
                    == counter_in(self.client_nonces@.take(i as int), client),
            decreases i,
        {
            i = i - 1;
            let e = self.client_nonces[i];
            proof {
                assert(self.client_nonces@.take(i as int + 1).last() == self.client_nonces@[i as int]);
                assert(self.client_nonces@.take(i as int + 1).drop_last() =~= self.client_nonces@.take(i as int));
            }
            if e.client == client {
                return e.nonce;
            }
        }
        proof {
            assert(self.client_nonces@.take(0) =~= Seq::<NonceEntry>::empty());
        }
        0
    }

    /// Advances a client's counter by exactly one.
    pub fn increment_client_nonce(&mut self, client: AccountId)
        requires
            old(self).client_nonce_of(client) < u64::MAX,
        ensures
            final(self).client_nonce_of(client) == old(self).client_nonce_of(client) + 1,
            forall|c: AccountId|
                c != client
                    ==> #[trigger] final(self).client_nonce_of(c) == old(self).client_nonce_of(c),
            final(self).channels@ == old(self).channels@,
            final(self).used_nonces@ == old(self).used_nonces@,
            final(self).histories@ == old(self).histories@,
            final(self).minimum_payments@ == old(self).minimum_payments@,
            final(self).admin == old(self).admin,
            final(self).paused == old(self).paused,
    {
        let current = self.get_client_nonce(client);
        let entry = NonceEntry { client, nonce: current + 1 };
        self.client_nonces.push(entry);
        proof {
            lemma_counter_in_push(old(self).client_nonces@, entry, client);
            assert forall|c: AccountId|
                c != client
                    implies #[trigger] self.client_nonce_of(c) == old(self).client_nonce_of(c) by {
                lemma_counter_in_push(old(self).client_nonces@, entry, c);
            }
        }
    }

    /// The settlement history of a pair, oldest first; empty if none.
    pub fn get_settlement_history(&self, client: AccountId, server: AccountId) -> (r: Vec<Settlement>)
        ensures
            r@ == self.history_of(client, server),
    {
        let mut i: usize = self.histories.len();
        proof {
            assert(self.histories@.take(self.histories@.len() as int) =~= self.histories@);
        }
        while i > 0
            invariant
                i <= self.histories@.len(),
                history_in(self.histories@, client, server)
                    == history_in(self.histories@.take(i as int), client, server),
            decreases i,
        {
            i = i - 1;
            let e = &self.histories[i];
            proof {
                assert(self.histories@.take(i as int + 1).last() == self.histories@[i as int]);
                assert(self.histories@.take(i as int + 1).drop_last() =~= self.histories@.take(i as int));
            }
            if e.client == client && e.server == server {
                return copy_settlements(&e.history);
            }
        }
        proof {
            assert(self.histories@.take(0) =~= Seq::<HistoryEntry>::empty());
        }
        Vec::new()
    }

    /// Appends one settlement to a pair's history, evicting the oldest
    /// record once the bound is exceeded, and stores the result.
    pub fn add_settlement(&mut self, client: AccountId, server: AccountId, settlement: Settlement)
        ensures
            final(self).history_of(client, server)
                == appended_history(old(self).history_of(client, server), settlement),
            final(self).history_of(client, server).len() > 0,
            final(self).history_of(client, server).last() == settlement,
            forall|c: AccountId, s: AccountId|
                !(c == client && s == server)
                    ==> #[trigger] final(self).history_of(c, s) == old(self).history_of(c, s),
            final(self).channels@ == old(self).channels@,
            final(self).used_nonces@ == old(self).used_nonces@,
            final(self).client_nonces@ == old(self).client_nonces@,
            final(self).minimum_payments@ == old(self).minimum_payments@,
            final(self).admin == old(self).admin,
            final(self).paused == old(self).paused,
    {
        let mut history = self.get_settlement_history(client, server);
        history.push(settlement);
        if history.len() > HISTORY_LIMIT {
            history.remove(0);
            proof {
                assert(history@ =~= appended_history(
                    old(self).history_of(client, server), settlement));
            }
        }
        let entry = HistoryEntry { client, server, history };
        let ghost g_entry = entry;
        self.histories.push(entry);
        proof {
            lemma_history_in_push(old(self).histories@, g_entry, client, server);
            assert forall|c: AccountId, s: AccountId|
                !(c == client && s == server)
                    implies #[trigger] self.history_of(c, s) == old(self).history_of(c, s) by {
                lemma_history_in_push(old(self).histories@, g_entry, c, s);
            }
        }
    }

    /// The minimum payment accepted for a token.
    pub fn get_minimum_payment(&self, token: AccountId) -> (r: i128)
        ensures
            r == self.minimum_payment_of(token),
    {
        let mut i: usize = self.minimum_payments.len();
        proof {
            assert(self.minimum_payments@.take(self.minimum_payments@.len() as int) =~= self.minimum_payments@);
        }
        while i > 0
            invariant
                i <= self.minimum_payments@.len(),
                min_payment_in(self.minimum_payments@, token)
                    == min_payment_in(self.minimum_payments@.take(i as int), token),
            decreases i,
        {
            i = i - 1;
            let e = self.minimum_payments[i];
            proof {
                assert(self.minimum_payments@.take(i as int + 1).last()
                    == self.minimum_payments@[i as int]);
                assert(self.minimum_payments@.take(i as int + 1).drop_last()
                    =~= self.minimum_payments@.take(i as int));
            }
            if e.token == token {
                return e.amount;
            }
        }
        proof {
            assert(self.minimum_payments@.take(0) =~= Seq::<MinPaymentEntry>::empty());
        }
        DEFAULT_MINIMUM_PAYMENT
    }

    /// Configures the minimum-payment floor of a token.
    pub fn set_minimum_payment(&mut self, token: AccountId, amount: i128)
        ensures
            final(self).minimum_payment_of(token) == amount,
            forall|t: AccountId|
                t != token
                    ==> #[trigger] final(self).minimum_payment_of(t) == old(self).minimum_payment_of(t),
            final(self).channels@ == old(self).channels@,
            final(self).used_nonces@ == old(self).used_nonces@,
            final(self).client_nonces@ == old(self).client_nonces@,
            final(self).histories@ == old(self).histories@,
            final(self).admin == old(self).admin,
            final(self).paused == old(self).paused,
    {
        let entry = MinPaymentEntry { token, amount };
        self.minimum_payments.push(entry);
        proof {
            lemma_min_payment_in_push(old(self).minimum_payments@, entry, token);
            assert forall|t: AccountId|
                t != token
                    implies #[trigger] self.minimum_payment_of(t) == old(self).minimum_payment_of(t) by {
                lemma_min_payment_in_push(old(self).minimum_payments@, entry, t);
            }
        }
    }

    /// The admin identity, if one has been set.
    pub fn get_admin(&self) -> (r: Option<AccountId>)
        ensures
            r == self.admin,
    {
        self.admin
    }

    /// Records the admin identity.
    pub fn set_admin(&mut self, admin: AccountId)
        ensures
            final(self).admin == Some(admin),
            final(self).channels@ == old(self).channels@,
            final(self).used_nonces@ == old(self).used_nonces@,
            final(self).client_nonces@ == old(self).client_nonces@,
            final(self).histories@ == old(self).histories@,
            final(self).minimum_payments@ == old(self).minimum_payments@,
            final(self).paused == old(self).paused,
    {
        self.admin = Some(admin);
    }

    /// Whether the engine is paused.
    pub fn is_paused(&self) -> (r: bool)
        ensures
            r == self.paused,
    {
        self.paused
    }

    /// Sets the paused flag.
    pub fn set_paused(&mut self, paused: bool)
        ensures
            final(self).paused == paused,
            final(self).channels@ == old(self).channels@,
            final(self).used_nonces@ == old(self).used_nonces@,
            final(self).client_nonces@ == old(self).client_nonces@,
            final(self).histories@ == old(self).histories@,
            final(self).minimum_payments@ == old(self).minimum_payments@,
            final(self).admin == old(self).admin,
    {
        self.paused = paused;
    }
}

/// A by-value copy of a settlement history.
fn copy_settlements(history: &Vec<Settlement>) -> (r: Vec<Settlement>)
    ensures
        r@ == history@,
{
    let mut out: Vec<Settlement> = Vec::new();
    let mut j: usize = 0;
    proof {
        assert(history@.take(0) =~= out@);
    }
    while j < history.len()
        invariant
            j <= history@.len(),
            out@ == history@.take(j as int),
        decreases history@.len() - j,
    {
        out.push(history[j]);
        proof {
            assert(history@.take(j as int).push(history@[j as int])
                =~= history@.take(j as int + 1));
        }
        j = j + 1;
    }
    proof {
        assert(history@.take(history@.len() as int) =~= history@);
    }
    out
}

proof fn lemma_channel_in_push(entries: Seq<ChannelEntry>, e: ChannelEntry, client: AccountId, server: AccountId)
    ensures
        channel_in(entries.push(e), client, server) == (if e.client == client && e.server == server {
            Some(e.channel)
        } else {
            channel_in(entries, client, server)
        }),
{
    assert(entries.push(e).drop_last() =~= entries);
}

proof fn lemma_nonce_used_in_push(entries: Seq<UsedNonceEntry>, e: UsedNonceEntry, client: AccountId, server: AccountId, nonce: u64)
    ensures
        nonce_used_in(entries.push(e), client, server, nonce)
            == (if e.client == client && e.server == server && e.nonce == nonce {
            true
        } else {
            nonce_used_in(entries, client, server, nonce)
        }),
{
    assert(entries.push(e).drop_last() =~= entries);
}

proof fn lemma_counter_in_push(entries: Seq<NonceEntry>, e: NonceEntry, client: AccountId)
    ensures
        counter_in(entries.push(e), client) == (if e.client == client {
            e.nonce
        } else {
            counter_in(entries, client)
        }),
{
    assert(entries.push(e).drop_last() =~= entries);
}

proof fn lemma_history_in_push(entries: Seq<HistoryEntry>, e: HistoryEntry, client: AccountId, server: AccountId)
    ensures
        history_in(entries.push(e), client, server) == (if e.client == client && e.server == server {
            e.history@
        } else {
            history_in(entries, client, server)
        }),
{
    assert(entries.push(e).drop_last() =~= entries);
}

proof fn lemma_min_payment_in_push(entries: Seq<MinPaymentEntry>, e: MinPaymentEntry, token: AccountId)
    ensures
        min_payment_in(entries.push(e), token) == (if e.token == token {
            e.amount
        } else {
            min_payment_in(entries, token)
        }),
{
    assert(entries.push(e).drop_last() =~= entries);
}

} // verus!
