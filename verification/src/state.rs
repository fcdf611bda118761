//! The durable records of the governance system and their mathematical
//! views.

use vstd::prelude::*;

use crate::pda::AccountId;

verus! {

/// One governance group: the owner of a treasury and of a voting-weight
/// token mint.
pub struct Dao {
    /// The wallet that created the DAO and administers membership.
    pub authority: AccountId,
    /// Human-readable name, at most 100 characters.
    pub dao_name: String,
    /// The voting-weight token mint, a derived identity.
    pub token_mint: AccountId,
    /// The supply minted into the treasury at creation.
    pub total_supply: u64,
    /// Monotonically increasing count of proposals ever created.
    pub proposal_count: u64,
    /// The derivation salt of the DAO's treasury authority, persisted at
    /// creation and replayed on every authorization.
    pub bump: u8,
}

/// The mathematical content of a `Dao` record.
#[verifier::ext_equal]
pub struct DaoView {
    pub authority: AccountId,
    pub dao_name: Seq<char>,
    pub token_mint: AccountId,
    pub total_supply: u64,
    pub proposal_count: u64,
    pub bump: u8,
}

impl View for Dao {
    type V = DaoView;

    open spec fn view(&self) -> DaoView {
        DaoView {
            authority: self.authority,
            dao_name: self.dao_name@,
            token_mint: self.token_mint,
            total_supply: self.total_supply,
            proposal_count: self.proposal_count,
            bump: self.bump,
        }
    }
}

/// Proof of registration: one per (DAO, wallet) pair.
#[derive(Clone, Copy, PartialEq, Eq, Structural, Debug)]
pub struct Member {
    /// The owning DAO record's identity.
    pub dao: AccountId,
    /// The registered wallet.
    pub wallet: AccountId,
}

impl View for Member {
    type V = Member;

    open spec fn view(&self) -> Member {
        *self
    }
}

/// One treasury disbursement proposal, child of a DAO.
pub struct Proposal {
    /// The owning DAO record's identity.
    pub dao: AccountId,
    /// 1-based sequence id, fixed at creation and never reused.
    pub proposal_id: u64,
    /// At most 100 characters.
    pub title: String,
    /// At most 500 characters.
    pub description: String,
    /// The requested transfer amount.
    pub amount: u64,
    /// The wallet whose holding account receives the transfer.
    pub recipient: AccountId,
    /// The wallet that created the proposal.
    pub creator: AccountId,
    /// Running tally of approving weight.
    pub votes_for: u64,
    /// Running tally of rejecting weight.
    pub votes_against: u64,
    /// Set exactly once, by a successful execution.
    pub executed: bool,
    /// The proposal record's own derivation salt.
    pub bump: u8,
    /// Voting deadline; `None` means open-ended voting.
    pub voting_deadline: Option<i64>,
}

/// The mathematical content of a `Proposal` record.
#[verifier::ext_equal]
pub struct ProposalView {
    pub dao: AccountId,
    pub proposal_id: u64,
    pub title: Seq<char>,
    pub description: Seq<char>,
    pub amount: u64,
    pub recipient: AccountId,
    pub creator: AccountId,
    pub votes_for: u64,
    pub votes_against: u64,
    pub executed: bool,
    pub bump: u8,
    pub voting_deadline: Option<i64>,
}

impl View for Proposal {
    type V = ProposalView;

    open spec fn view(&self) -> ProposalView {
        ProposalView {
            dao: self.dao,
            proposal_id: self.proposal_id,
            title: self.title@,
            description: self.description@,
            amount: self.amount,
            recipient: self.recipient,
            creator: self.creator,
            votes_for: self.votes_for,
            votes_against: self.votes_against,
            executed: self.executed,
            bump: self.bump,
            voting_deadline: self.voting_deadline,
        }
    }
}

/// A single-use ballot receipt; absence means the voter has not voted.
#[derive(Clone, Copy, PartialEq, Eq, Structural, Debug)]
pub struct VoterRecord {
    /// Once true, never resettable.
    pub voted: bool,
}

impl View for VoterRecord {
    type V = VoterRecord;

    open spec fn view(&self) -> VoterRecord {
        *self
    }
}

/// The ledger's description of one token mint.
#[derive(Clone, Copy, PartialEq, Eq, Structural, Debug)]
pub struct MintInfo {
    /// The only identity allowed to mint; a derived, keyless identity.
    pub mint_authority: AccountId,
    /// Units ever minted.
    pub supply: u64,
}

impl View for MintInfo {
    type V = MintInfo;

    open spec fn view(&self) -> MintInfo {
        *self
    }
}

/// The ledger's record of one token holding account.
#[derive(Clone, Copy, PartialEq, Eq, Structural, Debug)]
pub struct TokenAccount {
    /// The mint whose units the account holds.
    pub mint: AccountId,
    /// The identity whose authorization moves the balance.
    pub authority: AccountId,
    /// The current balance.
    pub amount: u64,
}

impl View for TokenAccount {
    type V = TokenAccount;

    open spec fn view(&self) -> TokenAccount {
        *self
    }
}

/// The identities allocated by DAO initialization, handed back to the
/// caller so later operations can name them.
#[derive(Clone, Copy, PartialEq, Eq, Structural, Debug)]
pub struct DaoAddresses {
    /// The DAO record.
    pub dao: AccountId,
    /// The voting-weight token mint.
    pub token_mint: AccountId,
    /// The keyless mint authority.
    pub mint_authority: AccountId,
    /// The treasury holding account.
    pub treasury: AccountId,
    /// The keyless treasury authority.
    pub dao_authority: AccountId,
    /// The treasury authority's derivation salt, also stored on the DAO.
    pub bump: u8,
}

} // verus!
