use vstd::prelude::*;

verus! {

/// Appended to the ledger's event log when a new agent wallet is created.
pub struct WalletCreated {
    pub agent_id: String,
    /// The derived address of the new wallet record.
    pub wallet: Vec<u8>,
    /// The identity of the funding signer that controls the wallet.
    pub owner: Vec<u8>,
}

/// Appended when native value leaves an agent wallet for an external address.
pub struct SolSent {
    pub agent_id: String,
    /// The amount that reached the recipient (the requested amount less fee).
    pub amount: u64,
    pub fee: u64,
    pub recipient: Vec<u8>,
    pub points_earned: u64,
}

/// Appended when native value moves from one agent wallet to another.
/// `points_earned` reflects only the sender's tiered accrual, not the
/// flat bonus credited to the receiving wallet.
pub struct AgentTransfer {
    pub from_agent: String,
    pub to_agent: String,
    /// The amount that reached the destination wallet (amount less fee).
    pub amount: u64,
    pub fee: u64,
    pub points_earned: u64,
}

/// Appended when tokens leave the wallet's token account.
pub struct TokenSent {
    pub agent_id: String,
    pub mint: Vec<u8>,
    /// The token amount that reached the recipient (amount less fee).
    pub amount: u64,
    pub fee: u64,
    /// The recipient's token account address.
    pub recipient: Vec<u8>,
    pub points_earned: u64,
}

/// One entry of the registry's append-only event log.
pub enum WalletEvent {
    Created(WalletCreated),
    Sol(SolSent),
    Agent(AgentTransfer),
    Token(TokenSent),
}

} // verus!
