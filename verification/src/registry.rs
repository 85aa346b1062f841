use vstd::prelude::*;
use vstd::string::StrSliceExecFns;
use vstd::string::StringSliceAdditionalSpecFns;
use crate::errors::ClawWalletError;
use crate::events::{AgentTransfer, SolSent, TokenSent, WalletCreated, WalletEvent};
use crate::identity::{derive_wallet_address, derived_wallet_key, wallet_key_found, wallet_namespace};
use crate::policy::{
    fee_of, native_send_allowed, send_amount_of, sol_points_earned, sol_points_of, split_fee, token_points_earned,
    token_points_of, AGENT_RECEIVE_POINTS, MAX_AGENT_ID_BYTES, WELCOME_POINTS,
};
use crate::wallet::{bytes_eq, clone_bytes, id_bytes, AgentWallet, NativeAccount, TokenAccount};

verus! {

/// The outcome the transfer engine owes for a native-value send out of
/// `w`: the caller must control the wallet, and the balance must cover the
/// amount while keeping the retained-balance floor. On success the sender
/// accrues the tiered points for the amount.
pub open spec fn native_send_outcome(
    w: AgentWallet,
    signer: Seq<u8>,
    amount: u64,
    min_balance: u64,
) -> Result<(), ClawWalletError> {
    if w.owner@ != signer {
        Err(ClawWalletError::Unauthorized)
    } else if (w.balance as int) < amount + min_balance {
        Err(ClawWalletError::InsufficientFunds)
    } else {
        Ok(())
    }
}

/// The outcome owed for a token send: the caller must control the wallet,
/// the source token account must be held under the wallet's derived
/// authority, and it must cover the amount. The retained-balance floor
/// concerns native holdings only, so it does not apply here.
pub open spec fn token_send_outcome(
    w: AgentWallet,
    signer: Seq<u8>,
    source: TokenAccount,
    amount: u64,
) -> Result<(), ClawWalletError> {
    if w.owner@ != signer {
        Err(ClawWalletError::Unauthorized)
    } else if source.authority@ != w.address@ {
        Err(ClawWalletError::Unauthorized)
    } else if source.amount < amount {
        Err(ClawWalletError::InsufficientFunds)
    } else {
        Ok(())
    }
}

/// Wallet creation is not idempotent: once a wallet is registered under an
/// identifier, a further creation under the same identifier is owed
/// `DuplicateIdentity`, whatever derivation result or funding the caller
/// brings — and a refused creation leaves the registry untouched, by the
/// creation operations' own contracts.
pub proof fn lemma_create_not_idempotent(
    reg: Registry,
    agent_id: Seq<char>,
    derived: Option<(Vec<u8>, u8)>,
    payer_lamports: u64,
)
    requires
        reg.wf(),
        reg.has_agent(agent_id),
    ensures
        reg.create_outcome(agent_id, derived, payer_lamports) == Err::<
            (),
            ClawWalletError,
        >(ClawWalletError::DuplicateIdentity),
{
    let i = choose|i: int|
        0 <= i < reg.wallets@.len() && (#[trigger] reg.wallets@[i]).agent_id@ == agent_id;
    assert(reg.wallets@[i].wf());
}

/// The wallet registry and transfer engine: every wallet record, the
/// append-only event log, and the injected deployment configuration.
pub struct Registry {
    /// Identity of the hosting program, under which wallet addresses derive.
    pub program_id: Vec<u8>,
    /// The rent-exempt floor: the smallest native balance a wallet record
    /// must retain to stay validly stored; also the storage cost the
    /// funding party pays at creation.
    pub min_balance: u64,
    pub wallets: Vec<AgentWallet>,
    /// Append-only log of the records emitted by successful operations.
    pub events: Vec<WalletEvent>,
}

impl Registry {
    /// Registry invariant: a 32-byte program identity, well-formed wallet
    /// records, every balance at or above the retained-balance floor, and
    /// at most one wallet per agent identifier.
    pub open spec fn wf(self) -> bool {
        &&& self.program_id@.len() == 32
        &&& forall|i: int|
            0 <= i < self.wallets@.len() ==> (#[trigger] self.wallets@[i]).wf()
        &&& forall|i: int|
            0 <= i < self.wallets@.len() ==> (#[trigger] self.wallets@[i]).balance
                >= self.min_balance
        &&& forall|i: int, j: int|
            0 <= i < j < self.wallets@.len() ==> self.wallets@[i].agent_id@
                != self.wallets@[j].agent_id@
    }

    /// Whether some wallet is registered under this agent identifier.
    pub open spec fn has_agent(self, id: Seq<char>) -> bool {
        exists|i: int|
            0 <= i < self.wallets@.len() && (#[trigger] self.wallets@[i]).agent_id@ == id
    }

    /// The expected result of wallet creation, as a function of the state,
    /// the identifier, the derivation result and the funding balance.
    pub open spec fn create_outcome(
        self,
        agent_id: Seq<char>,
        derived: Option<(Vec<u8>, u8)>,
        payer_lamports: u64,
    ) -> Result<(), ClawWalletError> {
        if id_bytes(agent_id).len() > MAX_AGENT_ID_BYTES {
            Err(ClawWalletError::IdentifierTooLong)
        } else if self.has_agent(agent_id) {
            Err(ClawWalletError::DuplicateIdentity)
        } else if derived is None {
            Err(ClawWalletError::IdentifierTooLong)
        } else if payer_lamports < self.min_balance {
            Err(ClawWalletError::AllocationFailure)
        } else {
            Ok(())
        }
    }

    /// The exact result wallet creation owes, as a function of the state,
    /// the identifier and the funding balance alone: the derivation's
    /// outcome is itself a function of the identifier and the program
    /// identity, so success is owed whenever the identifier fits the bound
    /// and derives, no wallet exists for it, and the funder covers the
    /// storage cost.
    pub open spec fn create_expected(
        self,
        agent_id: Seq<char>,
        payer_lamports: u64,
    ) -> Result<(), ClawWalletError> {
        if id_bytes(agent_id).len() > MAX_AGENT_ID_BYTES {
            Err(ClawWalletError::IdentifierTooLong)
        } else if self.has_agent(agent_id) {
            Err(ClawWalletError::DuplicateIdentity)
        } else if !wallet_key_found(self.program_id@, wallet_namespace(), id_bytes(agent_id)) {
            Err(ClawWalletError::IdentifierTooLong)
        } else if payer_lamports < self.min_balance {
            Err(ClawWalletError::AllocationFailure)
        } else {
            Ok(())
        }
    }

    /// An empty registry for a deployment, configured with the hosting
    /// program's identity and the host's retained-balance floor.
    pub fn new(program_id: Vec<u8>, min_balance: u64) -> (r: Registry)
        requires
            program_id@.len() == 32,
        ensures
            r.wf(),
            r.program_id@ == program_id@,
            r.min_balance == min_balance,
            r.wallets@.len() == 0,
            r.events@.len() == 0,
    {
        Registry { program_id, min_balance, wallets: Vec::new(), events: Vec::new() }
    }

    /// Looks up the wallet registered under an agent identifier.
    pub fn find_wallet(&self, agent_id: &String) -> (r: Option<usize>)
        ensures
            match r {
                Some(i) => i < self.wallets@.len() && self.wallets@[i as int].agent_id@
                    == agent_id@,
                None => !self.has_agent(agent_id@),
            },
    {
        let n = self.wallets.len();
        let mut i: usize = 0;
        while i < n
            invariant
                n == self.wallets@.len(),
                i <= n,
                forall|j: int| 0 <= j < i ==> (#[trigger] self.wallets@[j]).agent_id@ != agent_id@,
            decreases n - i,
        {
            if self.wallets[i].agent_id.eq(agent_id) {
                return Some(i);
            }
            i += 1;
        }
        None
    }

    /// Creates the wallet record once the derivation result is in hand.
    /// This decides the whole outcome: the identifier must fit the bound,
    /// no wallet may exist for it yet, the derivation must have produced an
    /// address, and the funding party must cover the storage cost. On
    /// success the new record is seeded with the welcome bonus, a zero
    /// transaction count, and the floor balance paid by the funder, whose
    /// identity becomes the wallet's owner; one `WalletCreated` record is
    /// appended. On failure nothing changes.
    pub fn create_wallet_with_key(
        &mut self,
        agent_id: String,
        derived: Option<(Vec<u8>, u8)>,
        payer: &mut NativeAccount,
        now: i64,
    ) -> (r: Result<(), ClawWalletError>)
        requires
            old(self).wf(),
            old(payer).address@.len() == 32,
            (derived matches Some(k) ==> k.0@.len() == 32),
        ensures
            final(self).wf(),
            final(self).program_id@ == old(self).program_id@,
            final(self).min_balance == old(self).min_balance,
            r == old(self).create_outcome(agent_id@, derived, old(payer).lamports),
            r is Err ==> *final(self) == *old(self) && *final(payer) == *old(payer),
            r is Ok ==> ({
                let w = final(self).wallets@.last();
                &&& final(payer).address@ == old(payer).address@
                &&& final(payer).lamports == old(payer).lamports - old(self).min_balance
                &&& final(self).wallets@.len() == old(self).wallets@.len() + 1
                &&& (forall|i: int|
                    0 <= i < old(self).wallets@.len() ==> final(self).wallets@[i] == old(
                        self,
                    ).wallets@[i])
                &&& w.agent_id@ == agent_id@
                &&& w.owner@ == old(payer).address@
                &&& (derived matches Some(k) ==> w.address@ == k.0@ && w.bump == k.1)
                &&& w.points == WELCOME_POINTS
                &&& w.tx_count == 0
                &&& w.created_at == now
                &&& w.balance == old(self).min_balance
                &&& final(self).events@.len() == old(self).events@.len() + 1
                &&& (forall|i: int|
                    0 <= i < old(self).events@.len() ==> final(self).events@[i] == old(
                        self,
                    ).events@[i])
                &&& (final(self).events@.last() matches WalletEvent::Created(e)
                    && e.agent_id@ == agent_id@
                    && e.wallet@ == w.address@
                    && e.owner@ == old(payer).address@)
            }),
    {
        let idb = agent_id.as_str().as_bytes_vec();
        proof {
            assert(idb@ == id_bytes(agent_id@));
        }
        if idb.len() > MAX_AGENT_ID_BYTES {
            return Err(ClawWalletError::IdentifierTooLong);
        }
        match self.find_wallet(&agent_id) {
            Some(_) => {
                return Err(ClawWalletError::DuplicateIdentity);
            },
            None => {},
        }
        let (address, bump) = match derived {
            Some(k) => k,
            None => {
                return Err(ClawWalletError::IdentifierTooLong);
            },
        };
        if payer.lamports < self.min_balance {
            return Err(ClawWalletError::AllocationFailure);
        }
        payer.lamports = payer.lamports - self.min_balance;
        let event_id = agent_id.clone();
        let event_wallet = clone_bytes(&address);
        let event_owner = clone_bytes(&payer.address);
        let owner = clone_bytes(&payer.address);
        let w = AgentWallet {
            agent_id,
            owner,
            address,
            bump,
            points: WELCOME_POINTS,
            created_at: now,
            tx_count: 0,
            balance: self.min_balance,
        };
        self.wallets.push(w);
        self.events.push(
            WalletEvent::Created(
                WalletCreated { agent_id: event_id, wallet: event_wallet, owner: event_owner },
            ),
        );
        Ok(())
    }

    /// Creates a new agent wallet: derives its address and signing nonce
    /// from the identifier, charges the funding party the storage cost, and
    /// registers the record. The result is owed exactly: it fails when the
    /// identifier exceeds the bound or the derivation rejects it
    /// (`IdentifierTooLong`), when a wallet already exists for it
    /// (`DuplicateIdentity`), or when the funder cannot cover the storage
    /// cost (`AllocationFailure`), and succeeds on every other input; a
    /// failed call changes nothing.
    pub fn create_wallet(
        &mut self,
        agent_id: String,
        payer: &mut NativeAccount,
        now: i64,
    ) -> (r: Result<(), ClawWalletError>)
        requires
            old(self).wf(),
            old(payer).address@.len() == 32,
        ensures
            final(self).wf(),
            final(self).program_id@ == old(self).program_id@,
            final(self).min_balance == old(self).min_balance,
            r == old(self).create_expected(agent_id@, old(payer).lamports),
            r is Err ==> *final(self) == *old(self) && *final(payer) == *old(payer),
            r is Ok ==> ({
                let key = derived_wallet_key(
                    old(self).program_id@,
                    wallet_namespace(),
                    id_bytes(agent_id@),
                );
                let w = final(self).wallets@.last();
                &&& id_bytes(agent_id@).len() <= MAX_AGENT_ID_BYTES
                &&& !old(self).has_agent(agent_id@)
                &&& final(payer).address@ == old(payer).address@
                &&& final(payer).lamports == old(payer).lamports - old(self).min_balance
                &&& final(self).wallets@.len() == old(self).wallets@.len() + 1
                &&& (forall|i: int|
                    0 <= i < old(self).wallets@.len() ==> final(self).wallets@[i] == old(
                        self,
                    ).wallets@[i])
                &&& w.agent_id@ == agent_id@
                &&& w.owner@ == old(payer).address@
                &&& w.address@ == key.0
                &&& w.bump == key.1
                &&& w.points == WELCOME_POINTS
                &&& w.tx_count == 0
                &&& w.created_at == now
                &&& w.balance == old(self).min_balance
                &&& final(self).events@.len() == old(self).events@.len() + 1
                &&& (forall|i: int|
                    0 <= i < old(self).events@.len() ==> final(self).events@[i] == old(
                        self,
                    ).events@[i])
                &&& (final(self).events@.last() matches WalletEvent::Created(e)
                    && e.agent_id@ == agent_id@
                    && e.wallet@ == w.address@
                    && e.owner@ == old(payer).address@)
            }),
    {
        let derived = derive_wallet_address(&self.program_id, &agent_id);
        self.create_wallet_with_key(agent_id, derived, payer, now)
    }

    /// Sends native value from an agent wallet to an external address,
    /// skimming the protocol fee off to the treasury. The wallet's owner
    /// must sign, and the balance must cover the amount on top of the
    /// retained-balance floor; otherwise nothing changes. On success the
    /// recipient receives the amount less the fee, the treasury receives
    /// the fee, the wallet's transaction count rises by one, its points
    /// rise by the tiered accrual, and one `SolSent` record is appended.
    pub fn send_sol(
        &mut self,
        wallet: usize,
        signer: &Vec<u8>,
        recipient: &mut NativeAccount,
        treasury: &mut NativeAccount,
        amount: u64,
    ) -> (r: Result<(), ClawWalletError>)
        requires
            old(self).wf(),
            wallet < old(self).wallets@.len(),
            old(recipient).lamports + amount <= u64::MAX,
            old(treasury).lamports + amount <= u64::MAX,
            old(self).wallets@[wallet as int].points + 10 <= u64::MAX,
            old(self).wallets@[wallet as int].tx_count + 1 <= u64::MAX,
        ensures
            final(self).wf(),
            final(self).program_id@ == old(self).program_id@,
            final(self).min_balance == old(self).min_balance,
            r == native_send_outcome(
                old(self).wallets@[wallet as int],
                signer@,
                amount,
                old(self).min_balance,
            ),
            r is Err ==> *final(self) == *old(self) && *final(recipient) == *old(recipient)
                && *final(treasury) == *old(treasury),
            r is Ok ==> ({
                let w0 = old(self).wallets@[wallet as int];
                let w1 = final(self).wallets@[wallet as int];
                &&& final(self).wallets@.len() == old(self).wallets@.len()
                &&& (forall|i: int|
                    0 <= i < old(self).wallets@.len() && i != wallet ==> final(self).wallets@[i]
                        == old(self).wallets@[i])
                &&& w1.agent_id@ == w0.agent_id@
                &&& w1.owner@ == w0.owner@
                &&& w1.address@ == w0.address@
                &&& w1.bump == w0.bump
                &&& w1.created_at == w0.created_at
                &&& w1.balance == w0.balance - amount
                &&& w1.balance >= final(self).min_balance
                &&& w1.tx_count == w0.tx_count + 1
                &&& w1.points == w0.points + sol_points_of(amount)
                &&& final(recipient).address@ == old(recipient).address@
                &&& final(recipient).lamports == old(recipient).lamports + send_amount_of(amount)
                &&& final(treasury).address@ == old(treasury).address@
                &&& final(treasury).lamports == old(treasury).lamports + fee_of(amount)
                &&& w1.balance + final(recipient).lamports + final(treasury).lamports == w0.balance
                    + old(recipient).lamports + old(treasury).lamports
                &&& final(self).events@.len() == old(self).events@.len() + 1
                &&& (forall|i: int|
                    0 <= i < old(self).events@.len() ==> final(self).events@[i] == old(
                        self,
                    ).events@[i])
                &&& (final(self).events@.last() matches WalletEvent::Sol(e)
                    && e.agent_id@ == w0.agent_id@
                    && e.amount == send_amount_of(amount)
                    && e.fee == fee_of(amount)
                    && e.recipient@ == old(recipient).address@
                    && e.points_earned == sol_points_of(amount))
            }),
    {
        let (fee, send_amount) = split_fee(amount);
        if !bytes_eq(&self.wallets[wallet].owner, signer) {
            return Err(ClawWalletError::Unauthorized);
        }
        let bal = self.wallets[wallet].balance;
        if !native_send_allowed(bal, amount, self.min_balance) {
            return Err(ClawWalletError::InsufficientFunds);
        }
        let event_id = self.wallets[wallet].agent_id.clone();
        let event_recipient = clone_bytes(&recipient.address);
        recipient.lamports = recipient.lamports + send_amount;
        treasury.lamports = treasury.lamports + fee;
        let points = sol_points_earned(amount);
        let w = &mut self.wallets[wallet];
        w.balance = w.balance - amount;
        w.tx_count = w.tx_count + 1;
        w.points = w.points + points;
        self.events.push(
            WalletEvent::Sol(
                SolSent {
                    agent_id: event_id,
                    amount: send_amount,
                    fee,
                    recipient: event_recipient,
                    points_earned: points,
                },
            ),
        );
        Ok(())
    }

    /// Sends native value from one agent wallet to another registered
    /// wallet, with the same fee and floor rule as an external send. On
    /// success the destination wallet receives the amount less the fee and
    /// a flat bonus of points independent of the amount, the sender accrues
    /// the tiered points, and one `AgentTransfer` record is appended. A
    /// failed call changes nothing, on either wallet.
    pub fn send_to_agent(
        &mut self,
        from: usize,
        to: usize,
        signer: &Vec<u8>,
        treasury: &mut NativeAccount,
        amount: u64,
    ) -> (r: Result<(), ClawWalletError>)
        requires
            old(self).wf(),
            from < old(self).wallets@.len(),
            to < old(self).wallets@.len(),
            from != to,
            old(self).wallets@[to as int].balance + amount <= u64::MAX,
            old(treasury).lamports + amount <= u64::MAX,
            old(self).wallets@[from as int].points + 10 <= u64::MAX,
            old(self).wallets@[from as int].tx_count + 1 <= u64::MAX,
            old(self).wallets@[to as int].points + AGENT_RECEIVE_POINTS <= u64::MAX,
        ensures
            final(self).wf(),
            final(self).program_id@ == old(self).program_id@,
            final(self).min_balance == old(self).min_balance,
            r == native_send_outcome(
                old(self).wallets@[from as int],
                signer@,
                amount,
                old(self).min_balance,
            ),
            r is Err ==> *final(self) == *old(self) && *final(treasury) == *old(treasury),
            r is Ok ==> ({
                let f0 = old(self).wallets@[from as int];
                let f1 = final(self).wallets@[from as int];
                let t0 = old(self).wallets@[to as int];
                let t1 = final(self).wallets@[to as int];
                &&& final(self).wallets@.len() == old(self).wallets@.len()
                &&& (forall|i: int|
                    0 <= i < old(self).wallets@.len() && i != from && i != to
                        ==> final(self).wallets@[i] == old(self).wallets@[i])
                &&& f1.agent_id@ == f0.agent_id@
                &&& f1.owner@ == f0.owner@
                &&& f1.address@ == f0.address@
                &&& f1.bump == f0.bump
                &&& f1.created_at == f0.created_at
                &&& f1.balance == f0.balance - amount
                &&& f1.balance >= final(self).min_balance
                &&& f1.tx_count == f0.tx_count + 1
                &&& f1.points == f0.points + sol_points_of(amount)
                &&& t1.agent_id@ == t0.agent_id@
                &&& t1.owner@ == t0.owner@
                &&& t1.address@ == t0.address@
                &&& t1.bump == t0.bump
                &&& t1.created_at == t0.created_at
                &&& t1.balance == t0.balance + send_amount_of(amount)
                &&& t1.tx_count == t0.tx_count
                &&& t1.points == t0.points + AGENT_RECEIVE_POINTS
                &&& final(treasury).address@ == old(treasury).address@
                &&& final(treasury).lamports == old(treasury).lamports + fee_of(amount)
                &&& f1.balance + t1.balance + final(treasury).lamports == f0.balance + t0.balance
                    + old(treasury).lamports
                &&& final(self).events@.len() == old(self).events@.len() + 1
                &&& (forall|i: int|
                    0 <= i < old(self).events@.len() ==> final(self).events@[i] == old(
                        self,
                    ).events@[i])
                &&& (final(self).events@.last() matches WalletEvent::Agent(e)
                    && e.from_agent@ == f0.agent_id@
                    && e.to_agent@ == t0.agent_id@
                    && e.amount == send_amount_of(amount)
                    && e.fee == fee_of(amount)
                    && e.points_earned == sol_points_of(amount))
            }),
    {
        let (fee, send_amount) = split_fee(amount);
        if !bytes_eq(&self.wallets[from].owner, signer) {
            return Err(ClawWalletError::Unauthorized);
        }
        let bal = self.wallets[from].balance;
        if !native_send_allowed(bal, amount, self.min_balance) {
            return Err(ClawWalletError::InsufficientFunds);
        }
        let from_id = self.wallets[from].agent_id.clone();
        let to_id = self.wallets[to].agent_id.clone();
        treasury.lamports = treasury.lamports + fee;
        let points = sol_points_earned(amount);
        let f = &mut self.wallets[from];
        f.balance = f.balance - amount;
        f.tx_count = f.tx_count + 1;
        f.points = f.points + points;
        let t = &mut self.wallets[to];
        t.balance = t.balance + send_amount;
        t.points = t.points + AGENT_RECEIVE_POINTS;
        self.events.push(
            WalletEvent::Agent(
                AgentTransfer {
                    from_agent: from_id,
                    to_agent: to_id,
                    amount: send_amount,
                    fee,
                    points_earned: points,
                },
            ),
        );
        Ok(())
    }

    /// Sends tokens out of the wallet's token account, authorized by the
    /// wallet's derived signing authority, with the same fee split routed
    /// to the treasury's token account. The wallet's native balance is
    /// untouched; on success the wallet's transaction count rises by one,
    /// its points rise by the wider token tier, and one `TokenSent` record
    /// is appended. A failed call changes nothing.
    pub fn send_token(
        &mut self,
        wallet: usize,
        signer: &Vec<u8>,
        mint: &Vec<u8>,
        wallet_token: &mut TokenAccount,
        recipient_token: &mut TokenAccount,
        treasury_token: &mut TokenAccount,
        amount: u64,
    ) -> (r: Result<(), ClawWalletError>)
        requires
            old(self).wf(),
            wallet < old(self).wallets@.len(),
            old(recipient_token).amount + amount <= u64::MAX,
            old(treasury_token).amount + amount <= u64::MAX,
            old(self).wallets@[wallet as int].points + 20 <= u64::MAX,
            old(self).wallets@[wallet as int].tx_count + 1 <= u64::MAX,
        ensures
            final(self).wf(),
            final(self).program_id@ == old(self).program_id@,
            final(self).min_balance == old(self).min_balance,
            r == token_send_outcome(
                old(self).wallets@[wallet as int],
                signer@,
                *old(wallet_token),
                amount,
            ),
            r is Err ==> *final(self) == *old(self) && *final(wallet_token) == *old(wallet_token)
                && *final(recipient_token) == *old(recipient_token) && *final(treasury_token)
                == *old(treasury_token),
            r is Ok ==> ({
                let w0 = old(self).wallets@[wallet as int];
                let w1 = final(self).wallets@[wallet as int];
                &&& final(self).wallets@.len() == old(self).wallets@.len()
                &&& (forall|i: int|
                    0 <= i < old(self).wallets@.len() && i != wallet
                        ==> final(self).wallets@[i] == old(self).wallets@[i])
                &&& w1.agent_id@ == w0.agent_id@
                &&& w1.owner@ == w0.owner@
                &&& w1.address@ == w0.address@
                &&& w1.bump == w0.bump
                &&& w1.created_at == w0.created_at
                &&& w1.balance == w0.balance
                &&& w1.tx_count == w0.tx_count + 1
                &&& w1.points == w0.points + token_points_of(amount)
                &&& final(wallet_token).address@ == old(wallet_token).address@
                &&& final(wallet_token).authority@ == old(wallet_token).authority@
                &&& final(wallet_token).amount == old(wallet_token).amount - amount
                &&& final(recipient_token).address@ == old(recipient_token).address@
                &&& final(recipient_token).authority@ == old(recipient_token).authority@
                &&& final(recipient_token).amount == old(recipient_token).amount
                    + send_amount_of(amount)
                &&& final(treasury_token).address@ == old(treasury_token).address@
                &&& final(treasury_token).authority@ == old(treasury_token).authority@
                &&& final(treasury_token).amount == old(treasury_token).amount + fee_of(amount)
                &&& final(wallet_token).amount + final(recipient_token).amount
                    + final(treasury_token).amount == old(wallet_token).amount + old(
                    recipient_token,
                ).amount + old(treasury_token).amount
                &&& final(self).events@.len() == old(self).events@.len() + 1
                &&& (forall|i: int|
                    0 <= i < old(self).events@.len() ==> final(self).events@[i] == old(
                        self,
                    ).events@[i])
                &&& (final(self).events@.last() matches WalletEvent::Token(e)
                    && e.agent_id@ == w0.agent_id@
                    && e.mint@ == mint@
                    && e.amount == send_amount_of(amount)
                    && e.fee == fee_of(amount)
                    && e.recipient@ == old(recipient_token).address@
                    && e.points_earned == token_points_of(amount))
            }),
    {
        let (fee, send_amount) = split_fee(amount);
        if !bytes_eq(&self.wallets[wallet].owner, signer) {
            return Err(ClawWalletError::Unauthorized);
        }
        if !bytes_eq(&wallet_token.authority, &self.wallets[wallet].address) {
            return Err(ClawWalletError::Unauthorized);
        }
        if wallet_token.amount < amount {
            return Err(ClawWalletError::InsufficientFunds);
        }
        let event_id = self.wallets[wallet].agent_id.clone();
        let event_mint = clone_bytes(mint);
        let event_recipient = clone_bytes(&recipient_token.address);
        wallet_token.amount = wallet_token.amount - amount;
        recipient_token.amount = recipient_token.amount + send_amount;
        treasury_token.amount = treasury_token.amount + fee;
        let points = token_points_earned(amount);
        let w = &mut self.wallets[wallet];
        w.tx_count = w.tx_count + 1;
        w.points = w.points + points;
        self.events.push(
            WalletEvent::Token(
                TokenSent {
                    agent_id: event_id,
                    mint: event_mint,
                    amount: send_amount,
                    fee,
                    recipient: event_recipient,
                    points_earned: points,
                },
            ),
        );
        Ok(())
    }
}

} // verus!
