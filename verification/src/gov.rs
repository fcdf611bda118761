//! The governance state machine and the treasury authorization bridge.
//!
//! Every operation is one indivisible unit: either all of its record
//! creations and mutations land, or none do, and each failure is reported as
//! one of the deterministic error kinds.  The meaning of each operation is a
//! specification-level transition function over the store's mathematical
//! state; the executable methods are proved to realize those transitions
//! exactly.

use vstd::prelude::*;

use crate::error::CustomError;
use crate::pda::{derived_key, derived_key_at, derive_address, derive_at, AccountId, DerivationPath};
use crate::state::{
    Dao, DaoAddresses, DaoView, Member, MintInfo, Proposal, ProposalView, TokenAccount,
    VoterRecord,
};
use crate::table::Table;

verus! {

/// The mathematical state of the whole system: one map per record kind,
/// keyed by derived identities, plus the fixed namespace root and the
/// proposal-creation policy.
#[verifier::ext_equal]
pub struct GovState {
    /// The namespace root every identity is derived under.
    pub program_id: AccountId,
    /// Whether any wallet, rather than only the DAO authority, may open
    /// proposals.
    pub open_proposal_creation: bool,
    pub daos: Map<AccountId, DaoView>,
    pub members: Map<AccountId, Member>,
    pub proposals: Map<AccountId, ProposalView>,
    pub voter_records: Map<AccountId, VoterRecord>,
    pub mints: Map<AccountId, MintInfo>,
    pub token_accounts: Map<AccountId, TokenAccount>,
}

/// The empty system under a namespace root and a policy.
pub open spec fn init_state(program_id: AccountId, open_proposal_creation: bool) -> GovState {
    GovState {
        program_id,
        open_proposal_creation,
        daos: Map::empty(),
        members: Map::empty(),
        proposals: Map::empty(),
        voter_records: Map::empty(),
        mints: Map::empty(),
        token_accounts: Map::empty(),
    }
}

/// DAO initialization: validates the name, allocates the DAO record at its
/// derived identity, allocates the mint and the treasury under derived
/// keyless authorities, and mints the whole supply into the treasury.
pub open spec fn spec_initialize(
    s: GovState,
    authority: AccountId,
    dao_id: u64,
    dao_name: Seq<char>,
    total_supply: u64,
) -> (GovState, Result<DaoAddresses, CustomError>) {
    if dao_name.len() > 100 {
        (s, Err(CustomError::InvalidArgument))
    } else {
        match derived_key(DerivationPath::Dao { authority, dao_id }, s.program_id) {
            None => (s, Err(CustomError::InvalidArgument)),
            Some((dao_key, _dao_bump)) => {
                if s.daos.contains_key(dao_key) {
                    (s, Err(CustomError::AlreadyExists))
                } else {
                    match derived_key(DerivationPath::TokenMint { dao: dao_key }, s.program_id) {
                        None => (s, Err(CustomError::InvalidArgument)),
                        Some((mint_key, _)) => {
                            match derived_key(
                                DerivationPath::MintAuthority { dao: dao_key },
                                s.program_id,
                            ) {
                                None => (s, Err(CustomError::InvalidArgument)),
                                Some((mint_auth, _)) => {
                                    match derived_key(
                                        DerivationPath::Treasury { dao: dao_key },
                                        s.program_id,
                                    ) {
                                        None => (s, Err(CustomError::InvalidArgument)),
                                        Some((treasury_key, _)) => {
                                            match derived_key(
                                                DerivationPath::DaoAuthority { dao: dao_key },
                                                s.program_id,
                                            ) {
                                                None => (s, Err(CustomError::InvalidArgument)),
                                                Some((auth_key, auth_bump)) => {
                                                    if s.mints.contains_key(mint_key)
                                                        || s.token_accounts.contains_key(
                                                        treasury_key,
                                                    ) {
                                                        (s, Err(CustomError::AlreadyExists))
                                                    } else {
                                                        (
                                                            GovState {
                                                                daos: s.daos.insert(
                                                                    dao_key,
                                                                    DaoView {
                                                                        authority,
                                                                        dao_name,
                                                                        token_mint: mint_key,
                                                                        total_supply,
                                                                        proposal_count: 0,
                                                                        bump: auth_bump,
                                                                    },
                                                                ),
                                                                mints: s.mints.insert(
                                                                    mint_key,
                                                                    MintInfo {
                                                                        mint_authority: mint_auth,
                                                                        supply: total_supply,
                                                                    },
                                                                ),
                                                                token_accounts: s
                                                                    .token_accounts
                                                                    .insert(
                                                                    treasury_key,
                                                                    TokenAccount {
                                                                        mint: mint_key,
                                                                        authority: auth_key,
                                                                        amount: total_supply,
                                                                    },
                                                                ),
                                                                ..s
                                                            },
                                                            Ok(
                                                                DaoAddresses {
                                                                    dao: dao_key,
                                                                    token_mint: mint_key,
                                                                    mint_authority: mint_auth,
                                                                    treasury: treasury_key,
                                                                    dao_authority: auth_key,
                                                                    bump: auth_bump,
                                                                },
                                                            ),
                                                        )
                                                    }
                                                },
                                            }
                                        },
                                    }
                                },
                            }
                        },
                    }
                }
            },
        }
    }
}

/// Membership registration by the DAO authority.
pub open spec fn spec_add_member(
    s: GovState,
    dao_key: AccountId,
    caller: AccountId,
    wallet: AccountId,
) -> (GovState, Result<AccountId, CustomError>) {
    if !s.daos.contains_key(dao_key) {
        (s, Err(CustomError::NotFound))
    } else if caller != s.daos[dao_key].authority {
        (s, Err(CustomError::Unauthorized))
    } else {
        match derived_key(DerivationPath::Member { dao: dao_key, wallet }, s.program_id) {
            None => (s, Err(CustomError::InvalidArgument)),
            Some((member_key, _)) => {
                if s.members.contains_key(member_key) {
                    (s, Err(CustomError::AlreadyExists))
                } else {
                    (
                        GovState {
                            members: s.members.insert(member_key, Member { dao: dao_key, wallet }),
                            ..s
                        },
                        Ok(member_key),
                    )
                }
            },
        }
    }
}

/// Proposal creation: validates bounds, assigns the next 1-based sequence
/// id, and increments the DAO's counter, all or nothing.
pub open spec fn spec_create_proposal(
    s: GovState,
    dao_key: AccountId,
    caller: AccountId,
    title: Seq<char>,
    description: Seq<char>,
    amount: u64,
    recipient: AccountId,
    voting_deadline: Option<i64>,
) -> (GovState, Result<AccountId, CustomError>) {
    if !s.daos.contains_key(dao_key) {
        (s, Err(CustomError::NotFound))
    } else if !s.open_proposal_creation && caller != s.daos[dao_key].authority {
        (s, Err(CustomError::Unauthorized))
    } else if title.len() > 100 || description.len() > 500 {
        (s, Err(CustomError::InvalidArgument))
    } else if s.daos[dao_key].proposal_count == u64::MAX {
        (s, Err(CustomError::MathOverflow))
    } else {
        let next_id = (s.daos[dao_key].proposal_count + 1) as u64;
        match derived_key(
            DerivationPath::Proposal { dao: dao_key, proposal_id: next_id },
            s.program_id,
        ) {
            None => (s, Err(CustomError::InvalidArgument)),
            Some((proposal_key, proposal_bump)) => {
                if s.proposals.contains_key(proposal_key) {
                    (s, Err(CustomError::AlreadyExists))
                } else {
                    (
                        GovState {
                            proposals: s.proposals.insert(
                                proposal_key,
                                ProposalView {
                                    dao: dao_key,
                                    proposal_id: next_id,
                                    title,
                                    description,
                                    amount,
                                    recipient,
                                    creator: caller,
                                    votes_for: 0,
                                    votes_against: 0,
                                    executed: false,
                                    bump: proposal_bump,
                                    voting_deadline,
                                },
                            ),
                            daos: s.daos.insert(
                                dao_key,
                                DaoView { proposal_count: next_id, ..s.daos[dao_key] },
                            ),
                            ..s
                        },
                        Ok(proposal_key),
                    )
                }
            },
        }
    }
}

/// The ballot receipt's derived identity for a (proposal, voter) pair.
pub open spec fn ballot_key(s: GovState, proposal_key: AccountId, voter: AccountId) -> Option<
    (AccountId, u8),
> {
    derived_key(DerivationPath::VoterRecord { proposal: proposal_key, voter }, s.program_id)
}

/// A token-weighted ballot: one per (proposal, voter), weighted by the
/// voter's ledger balance, tallied atomically with the receipt update.
pub open spec fn spec_vote(
    s: GovState,
    proposal_key: AccountId,
    voter: AccountId,
    approve: bool,
    now: i64,
) -> (GovState, Result<(), CustomError>) {
    if !s.proposals.contains_key(proposal_key) {
        (s, Err(CustomError::NotFound))
    } else {
        let p = s.proposals[proposal_key];
        if p.executed {
            (s, Err(CustomError::AlreadyExecuted))
        } else if match p.voting_deadline {
            Some(d) => now > d,
            None => false,
        } {
            (s, Err(CustomError::VotingExpired))
        } else if !s.daos.contains_key(p.dao) {
            (s, Err(CustomError::NotFound))
        } else {
            match derived_key(DerivationPath::Member { dao: p.dao, wallet: voter }, s.program_id) {
                None => (s, Err(CustomError::InvalidArgument)),
                Some((member_key, _)) => {
                    if !s.members.contains_key(member_key) {
                        (s, Err(CustomError::NotFound))
                    } else {
                        match ballot_key(s, proposal_key, voter) {
                            None => (s, Err(CustomError::InvalidArgument)),
                            Some((record_key, _)) => {
                                if s.voter_records.contains_key(record_key)
                                    && s.voter_records[record_key].voted {
                                    (s, Err(CustomError::AlreadyVoted))
                                } else {
                                    match derived_key(
                                        DerivationPath::TokenHolding {
                                            mint: s.daos[p.dao].token_mint,
                                            owner: voter,
                                        },
                                        s.program_id,
                                    ) {
                                        None => (s, Err(CustomError::InvalidArgument)),
                                        Some((holding_key, _)) => if !s.token_accounts.contains_key(
                                            holding_key,
                                        ) {
                                            (s, Err(CustomError::NotFound))
                                        } else {
                                            let weight = s.token_accounts[holding_key].amount;
                                            if approve && p.votes_for + weight > u64::MAX {
                                                (s, Err(CustomError::MathOverflow))
                                            } else if !approve && p.votes_against + weight
                                                > u64::MAX {
                                                (s, Err(CustomError::MathOverflow))
                                            } else {
                                                (
                                                    GovState {
                                                        proposals: s.proposals.insert(
                                                            proposal_key,
                                                            ProposalView {
                                                                votes_for: if approve {
                                                                    (p.votes_for + weight) as u64
                                                                } else {
                                                                    p.votes_for
                                                                },
                                                                votes_against: if approve {
                                                                    p.votes_against
                                                                } else {
                                                                    (p.votes_against
                                                                        + weight) as u64
                                                                },
                                                                ..p
                                                            },
                                                        ),
                                                        voter_records: s.voter_records.insert(
                                                            record_key,
                                                            VoterRecord { voted: true },
                                                        ),
                                                        ..s
                                                    },
                                                    Ok(()),
                                                )
                                            }
                                        },
                                    }
                                }
                            },
                        }
                    }
                },
            }
        }
    }
}

/// A ledger transfer between two holding accounts of one mint, authorized
/// by the source account's configured authority.
pub open spec fn spec_transfer(
    s: GovState,
    from_key: AccountId,
    to_key: AccountId,
    amount: u64,
    authorized_by: AccountId,
) -> (GovState, Result<(), CustomError>) {
    if !s.token_accounts.contains_key(from_key) {
        (s, Err(CustomError::NotFound))
    } else if !s.token_accounts.contains_key(to_key) {
        (s, Err(CustomError::NotFound))
    } else if from_key == to_key {
        (s, Err(CustomError::InvalidArgument))
    } else {
        let f = s.token_accounts[from_key];
        let t = s.token_accounts[to_key];
        if authorized_by != f.authority {
            (s, Err(CustomError::Unauthorized))
        } else if f.mint != t.mint {
            (s, Err(CustomError::InvalidArgument))
        } else if f.amount < amount {
            (s, Err(CustomError::InvalidArgument))
        } else if t.amount + amount > u64::MAX {
            (s, Err(CustomError::MathOverflow))
        } else {
            (
                GovState {
                    token_accounts: s.token_accounts.insert(
                        from_key,
                        TokenAccount { amount: (f.amount - amount) as u64, ..f },
                    ).insert(to_key, TokenAccount { amount: (t.amount + amount) as u64, ..t }),
                    ..s
                },
                Ok(()),
            )
        }
    }
}

/// Proposal execution, the treasury authorization bridge: re-derives the
/// treasury authority under the salt persisted on the DAO record and moves
/// exactly the approved amount; the transfer and the flag update are one
/// atomic unit.
pub open spec fn spec_execute_proposal(s: GovState, proposal_key: AccountId) -> (
    GovState,
    Result<(), CustomError>,
) {
    if !s.proposals.contains_key(proposal_key) {
        (s, Err(CustomError::NotFound))
    } else {
        let p = s.proposals[proposal_key];
        if p.executed {
            (s, Err(CustomError::AlreadyExecuted))
        } else if p.votes_for <= p.votes_against {
            (s, Err(CustomError::NotApproved))
        } else if !s.daos.contains_key(p.dao) {
            (s, Err(CustomError::NotFound))
        } else {
            let dao = s.daos[p.dao];
            match derived_key_at(DerivationPath::DaoAuthority { dao: p.dao }, dao.bump, s.program_id) {
                None => (s, Err(CustomError::Unauthorized)),
                Some(auth_key) => {
                    match derived_key(DerivationPath::Treasury { dao: p.dao }, s.program_id) {
                        None => (s, Err(CustomError::InvalidArgument)),
                        Some((treasury_key, _)) => {
                            match derived_key(
                                DerivationPath::TokenHolding {
                                    mint: dao.token_mint,
                                    owner: p.recipient,
                                },
                                s.program_id,
                            ) {
                                None => (s, Err(CustomError::InvalidArgument)),
                                Some((recipient_key, _)) => {
                                    let (s1, tr) = spec_transfer(
                                        s,
                                        treasury_key,
                                        recipient_key,
                                        p.amount,
                                        auth_key,
                                    );
                                    match tr {
                                        Err(e) => (s1, Err(e)),
                                        Ok(_) => (
                                            GovState {
                                                proposals: s1.proposals.insert(
                                                    proposal_key,
                                                    ProposalView { executed: true, ..p },
                                                ),
                                                ..s1
                                            },
                                            Ok(()),
                                        ),
                                    }
                                },
                            }
                        },
                    }
                },
            }
        }
    }
}

/// Whether some not-yet-executed proposal still references a DAO.
pub open spec fn has_open_proposal_for(s: GovState, dao_key: AccountId) -> bool {
    exists|k: AccountId|
        s.proposals.contains_key(k) && (#[trigger] s.proposals[k]).dao == dao_key
            && !s.proposals[k].executed
}

/// DAO dissolution by its authority, denied while unexecuted proposals
/// still reference the record.
pub open spec fn spec_delete_dao(s: GovState, dao_key: AccountId, caller: AccountId) -> (
    GovState,
    Result<(), CustomError>,
) {
    if !s.daos.contains_key(dao_key) {
        (s, Err(CustomError::NotFound))
    } else if caller != s.daos[dao_key].authority {
        (s, Err(CustomError::Unauthorized))
    } else if has_open_proposal_for(s, dao_key) {
        (s, Err(CustomError::InvalidArgument))
    } else {
        (GovState { daos: s.daos.remove(dao_key), ..s }, Ok(()))
    }
}

/// Holding-account allocation for one wallet under one mint.
pub open spec fn spec_create_token_account(s: GovState, mint_key: AccountId, owner: AccountId) -> (
    GovState,
    Result<AccountId, CustomError>,
) {
    if !s.mints.contains_key(mint_key) {
        (s, Err(CustomError::NotFound))
    } else {
        match derived_key(DerivationPath::TokenHolding { mint: mint_key, owner }, s.program_id) {
            None => (s, Err(CustomError::InvalidArgument)),
            Some((holding_key, _)) => {
                if s.token_accounts.contains_key(holding_key) {
                    (s, Err(CustomError::AlreadyExists))
                } else {
                    (
                        GovState {
                            token_accounts: s.token_accounts.insert(
                                holding_key,
                                TokenAccount { mint: mint_key, authority: owner, amount: 0 },
                            ),
                            ..s
                        },
                        Ok(holding_key),
                    )
                }
            },
        }
    }
}

/// Ledger minting, allowed only to the mint's configured (derived)
/// authority.
pub open spec fn spec_mint_to(
    s: GovState,
    mint_key: AccountId,
    to_key: AccountId,
    amount: u64,
    authorized_by: AccountId,
) -> (GovState, Result<(), CustomError>) {
    if !s.mints.contains_key(mint_key) {
        (s, Err(CustomError::NotFound))
    } else if authorized_by != s.mints[mint_key].mint_authority {
        (s, Err(CustomError::Unauthorized))
    } else if !s.token_accounts.contains_key(to_key) {
        (s, Err(CustomError::NotFound))
    } else if s.token_accounts[to_key].mint != mint_key {
        (s, Err(CustomError::InvalidArgument))
    } else if s.mints[mint_key].supply + amount > u64::MAX || s.token_accounts[to_key].amount
        + amount > u64::MAX {
        (s, Err(CustomError::MathOverflow))
    } else {
        let m = s.mints[mint_key];
        let t = s.token_accounts[to_key];
        (
            GovState {
                mints: s.mints.insert(mint_key, MintInfo { supply: (m.supply + amount) as u64, ..m }),
                token_accounts: s.token_accounts.insert(
                    to_key,
                    TokenAccount { amount: (t.amount + amount) as u64, ..t },
                ),
                ..s
            },
            Ok(()),
        )
    }
}

/// The whole governance system: the entity store, the modeled token ledger,
/// and the namespace root they are derived under.
pub struct Governance {
    pub program_id: AccountId,
    pub open_proposal_creation: bool,
    pub daos: Table<Dao>,
    pub members: Table<Member>,
    pub proposals: Table<Proposal>,
    pub voter_records: Table<VoterRecord>,
    pub mints: Table<MintInfo>,
    pub token_accounts: Table<TokenAccount>,
}

impl View for Governance {
    type V = GovState;

    open spec fn view(&self) -> GovState {
        GovState {
            program_id: self.program_id,
            open_proposal_creation: self.open_proposal_creation,
            daos: self.daos@,
            members: self.members@,
            proposals: self.proposals@,
            voter_records: self.voter_records@,
            mints: self.mints@,
            token_accounts: self.token_accounts@,
        }
    }
}

impl Governance {
    /// All record tables keep their keys unique.
    pub open spec fn wf(&self) -> bool {
        &&& self.daos.wf()
        &&& self.members.wf()
        &&& self.proposals.wf()
        &&& self.voter_records.wf()
        &&& self.mints.wf()
        &&& self.token_accounts.wf()
    }

    /// An empty system under a namespace root and a proposal-creation
    /// policy.
    pub fn new(program_id: AccountId, open_proposal_creation: bool) -> (r: Self)
        ensures
            r.wf(),
            r@ == init_state(program_id, open_proposal_creation),
    {
        let r = Governance {
            program_id,
            open_proposal_creation,
            daos: Table::new(),
            members: Table::new(),
            proposals: Table::new(),
            voter_records: Table::new(),
            mints: Table::new(),
            token_accounts: Table::new(),
        };
        proof {
            assert(r@ =~= init_state(program_id, open_proposal_creation));
        }
        r
    }

    /// Creates a DAO: validates the name, allocates its record, mint and
    /// treasury at derived identities, and mints the supply into the
    /// treasury under the derived mint authority.
    pub fn initialize(
        &mut self,
        authority: AccountId,
        dao_id: u64,
        dao_name: String,
        total_supply: u64,
    ) -> (r: Result<DaoAddresses, CustomError>)
        requires
            old(self).wf(),
        ensures
            final(self).wf(),
            ({
                let (s2, res) = spec_initialize(
                    old(self)@,
                    authority,
                    dao_id,
                    dao_name@,
                    total_supply,
                );
                final(self)@ == s2 && r == res
            }),
    {
        if dao_name.as_str().unicode_len() > 100 {
            return Err(CustomError::InvalidArgument);
        }
        let dao_pair = derive_address(&DerivationPath::Dao { authority, dao_id }, &self.program_id);
        let (dao_key, _dao_bump) = match dao_pair {
            None => { return Err(CustomError::InvalidArgument); },
            Some(p) => p,
        };
        if self.daos.contains(&dao_key) {
            return Err(CustomError::AlreadyExists);
        }
        let mint_pair = derive_address(&DerivationPath::TokenMint { dao: dao_key }, &self.program_id);
        let (mint_key, _) = match mint_pair {
            None => { return Err(CustomError::InvalidArgument); },
            Some(p) => p,
        };
        let mint_auth_pair = derive_address(
            &DerivationPath::MintAuthority { dao: dao_key },
            &self.program_id,
        );
        let (mint_auth, _) = match mint_auth_pair {
            None => { return Err(CustomError::InvalidArgument); },
            Some(p) => p,
        };
        let treasury_pair = derive_address(&DerivationPath::Treasury { dao: dao_key }, &self.program_id);
        let (treasury_key, _) = match treasury_pair {
            None => { return Err(CustomError::InvalidArgument); },
            Some(p) => p,
        };
        let auth_pair = derive_address(&DerivationPath::DaoAuthority { dao: dao_key }, &self.program_id);
        let (auth_key, auth_bump) = match auth_pair {
            None => { return Err(CustomError::InvalidArgument); },
            Some(p) => p,
        };
        if self.mints.contains(&mint_key) || self.token_accounts.contains(&treasury_key) {
            return Err(CustomError::AlreadyExists);
        }
        self.daos.set(
            dao_key,
            Dao {
                authority,
                dao_name,
                token_mint: mint_key,
                total_supply,
                proposal_count: 0,
                bump: auth_bump,
            },
        );
        self.mints.set(mint_key, MintInfo { mint_authority: mint_auth, supply: total_supply });
        self.token_accounts.set(
            treasury_key,
            TokenAccount { mint: mint_key, authority: auth_key, amount: total_supply },
        );
        proof {
            let (s2, _res) = spec_initialize(old(self)@, authority, dao_id, dao_name@, total_supply);
            assert(self@ =~~= s2);
        }
        Ok(
            DaoAddresses {
                dao: dao_key,
                token_mint: mint_key,
                mint_authority: mint_auth,
                treasury: treasury_key,
                dao_authority: auth_key,
                bump: auth_bump,
            },
        )
    }

    /// Registers a wallet as a member of a DAO; only the DAO's authority
    /// may do so.
    pub fn add_member(&mut self, dao_key: AccountId, caller: AccountId, wallet: AccountId) -> (r:
        Result<AccountId, CustomError>)
        requires
            old(self).wf(),
        ensures
            final(self).wf(),
            ({
                let (s2, res) = spec_add_member(old(self)@, dao_key, caller, wallet);
                final(self)@ == s2 && r == res
            }),
    {
        let authority = match self.daos.get(&dao_key) {
            None => { return Err(CustomError::NotFound); },
            Some(d) => d.authority,
        };
        if caller != authority {
            return Err(CustomError::Unauthorized);
        }
        let member_pair = derive_address(&DerivationPath::Member { dao: dao_key, wallet }, &self.program_id);
        let (member_key, _) = match member_pair {
            None => { return Err(CustomError::InvalidArgument); },
            Some(p) => p,
        };
        if self.members.contains(&member_key) {
            return Err(CustomError::AlreadyExists);
        }
        self.members.set(member_key, Member { dao: dao_key, wallet });
        proof {
            let (s2, _res) = spec_add_member(old(self)@, dao_key, caller, wallet);
            assert(self@ =~~= s2);
        }
        Ok(member_key)
    }

    /// Opens a proposal under the DAO's next sequence id and increments the
    /// counter; policy decides whether only the DAO authority may call.
    pub fn create_proposal(
        &mut self,
        dao_key: AccountId,
        caller: AccountId,
        title: String,
        description: String,
        amount: u64,
        recipient: AccountId,
        voting_deadline: Option<i64>,
    ) -> (r: Result<AccountId, CustomError>)
        requires
            old(self).wf(),
        ensures
            final(self).wf(),
            ({
                let (s2, res) = spec_create_proposal(
                    old(self)@,
                    dao_key,
                    caller,
                    title@,
                    description@,
                    amount,
                    recipient,
                    voting_deadline,
                );
                final(self)@ == s2 && r == res
            }),
    {
        let (authority, count) = match self.daos.get(&dao_key) {
            None => { return Err(CustomError::NotFound); },
            Some(d) => (d.authority, d.proposal_count),
        };
        if !self.open_proposal_creation && caller != authority {
            return Err(CustomError::Unauthorized);
        }
        if title.as_str().unicode_len() > 100 || description.as_str().unicode_len() > 500 {
            return Err(CustomError::InvalidArgument);
        }
        if count == u64::MAX {
            return Err(CustomError::MathOverflow);
        }
        let next_id = count + 1;
        let proposal_pair = derive_address(
            &DerivationPath::Proposal { dao: dao_key, proposal_id: next_id },
            &self.program_id,
        );
        let (proposal_key, proposal_bump) = match proposal_pair {
            None => { return Err(CustomError::InvalidArgument); },
            Some(p) => p,
        };
        if self.proposals.contains(&proposal_key) {
            return Err(CustomError::AlreadyExists);
        }
        self.proposals.set(
            proposal_key,
            Proposal {
                dao: dao_key,
                proposal_id: next_id,
                title,
                description,
                amount,
                recipient,
                creator: caller,
                votes_for: 0,
                votes_against: 0,
                executed: false,
                bump: proposal_bump,
                voting_deadline,
            },
        );
        let mut dao = self.daos.remove(&dao_key).unwrap();
        dao.proposal_count = next_id;
        self.daos.set(dao_key, dao);
        proof {
            let (s2, _res) = spec_create_proposal(
                old(self)@,
                dao_key,
                caller,
                title@,
                description@,
                amount,
                recipient,
                voting_deadline,
            );
            assert(self@ =~~= s2);
        }
        Ok(proposal_key)
    }

    /// Casts a single-use, token-weighted ballot; the tally update and the
    /// receipt are one atomic unit.
    pub fn vote(&mut self, proposal_key: AccountId, voter: AccountId, approve: bool, now: i64) -> (
        r: Result<(), CustomError>)
        requires
            old(self).wf(),
        ensures
            final(self).wf(),
            ({
                let (s2, res) = spec_vote(old(self)@, proposal_key, voter, approve, now);
                final(self)@ == s2 && r == res
            }),
    {
        let (p_dao, p_executed, p_deadline, p_for, p_against) = match self.proposals.get(
            &proposal_key,
        ) {
            None => { return Err(CustomError::NotFound); },
            Some(p) => (p.dao, p.executed, p.voting_deadline, p.votes_for, p.votes_against),
        };
        if p_executed {
            return Err(CustomError::AlreadyExecuted);
        }
        let expired = match p_deadline {
            Some(d) => now > d,
            None => false,
        };
        if expired {
            return Err(CustomError::VotingExpired);
        }
        let token_mint = match self.daos.get(&p_dao) {
            None => { return Err(CustomError::NotFound); },
            Some(d) => d.token_mint,
        };
        let member_pair = derive_address(
            &DerivationPath::Member { dao: p_dao, wallet: voter },
            &self.program_id,
        );
        let (member_key, _) = match member_pair {
            None => { return Err(CustomError::InvalidArgument); },
            Some(p) => p,
        };
        if !self.members.contains(&member_key) {
            return Err(CustomError::NotFound);
        }
        let record_pair = derive_address(
            &DerivationPath::VoterRecord { proposal: proposal_key, voter },
            &self.program_id,
        );
        let (record_key, _) = match record_pair {
            None => { return Err(CustomError::InvalidArgument); },
            Some(p) => p,
        };
        let already = match self.voter_records.get(&record_key) {
            None => false,
            Some(rec) => rec.voted,
        };
        if already {
            return Err(CustomError::AlreadyVoted);
        }
        let holding_pair = derive_address(
            &DerivationPath::TokenHolding { mint: token_mint, owner: voter },
            &self.program_id,
        );
        let (holding_key, _) = match holding_pair {
            None => { return Err(CustomError::InvalidArgument); },
            Some(p) => p,
        };
        let weight = match self.token_accounts.get(&holding_key) {
            None => { return Err(CustomError::NotFound); },
            Some(a) => a.amount,
        };
        let (new_for, new_against): (u64, u64) = if approve {
            match p_for.checked_add(weight) {
                None => { return Err(CustomError::MathOverflow); },
                Some(n) => (n, p_against),
            }
        } else {
            match p_against.checked_add(weight) {
                None => { return Err(CustomError::MathOverflow); },
                Some(n) => (p_for, n),
            }
        };
        let mut p = self.proposals.remove(&proposal_key).unwrap();
        p.votes_for = new_for;
        p.votes_against = new_against;
        self.proposals.set(proposal_key, p);
        self.voter_records.set(record_key, VoterRecord { voted: true });
        proof {
            let (s2, _res) = spec_vote(old(self)@, proposal_key, voter, approve, now);
            assert(self@ =~~= s2);
        }
        Ok(())
    }

    /// Moves units between two holding accounts of one mint; only the
    /// source account's configured authority may move them.  Proof of
    /// control over `authorized_by` is the transport's concern and out of
    /// scope here.
    pub fn transfer(
        &mut self,
        from_key: AccountId,
        to_key: AccountId,
        amount: u64,
        authorized_by: AccountId,
    ) -> (r: Result<(), CustomError>)
        requires
            old(self).wf(),
        ensures
            final(self).wf(),
            ({
                let (s2, res) = spec_transfer(old(self)@, from_key, to_key, amount, authorized_by);
                final(self)@ == s2 && r == res
            }),
    {
        let f = match self.token_accounts.get(&from_key) {
            None => { return Err(CustomError::NotFound); },
            Some(a) => *a,
        };
        let t = match self.token_accounts.get(&to_key) {
            None => { return Err(CustomError::NotFound); },
            Some(a) => *a,
        };
        if from_key == to_key {
            return Err(CustomError::InvalidArgument);
        }
        if authorized_by != f.authority {
            return Err(CustomError::Unauthorized);
        }
        if f.mint != t.mint {
            return Err(CustomError::InvalidArgument);
        }
        if f.amount < amount {
            return Err(CustomError::InvalidArgument);
        }
        let new_to_amount = match t.amount.checked_add(amount) {
            None => { return Err(CustomError::MathOverflow); },
            Some(n) => n,
        };
        self.token_accounts.set(from_key, TokenAccount { amount: f.amount - amount, ..f });
        self.token_accounts.set(to_key, TokenAccount { amount: new_to_amount, ..t });
        proof {
            let (s2, _res) = spec_transfer(old(self)@, from_key, to_key, amount, authorized_by);
            assert(self@ =~~= s2);
        }
        Ok(())
    }

    /// Executes an approved proposal: re-derives the treasury authority
    /// under the persisted salt and transfers exactly the approved amount,
    /// then marks the proposal executed; if the transfer fails, the flag
    /// stays false and the proposal stays executable.
    pub fn execute_proposal(&mut self, proposal_key: AccountId) -> (r: Result<(), CustomError>)
        requires
            old(self).wf(),
        ensures
            final(self).wf(),
            ({
                let (s2, res) = spec_execute_proposal(old(self)@, proposal_key);
                final(self)@ == s2 && r == res
            }),
    {
        let (p_dao, p_amount, p_recipient, p_executed, p_for, p_against) = match self.proposals.get(
            &proposal_key,
        ) {
            None => { return Err(CustomError::NotFound); },
            Some(p) => (p.dao, p.amount, p.recipient, p.executed, p.votes_for, p.votes_against),
        };
        if p_executed {
            return Err(CustomError::AlreadyExecuted);
        }
        if p_for <= p_against {
            return Err(CustomError::NotApproved);
        }
        let (token_mint, bump) = match self.daos.get(&p_dao) {
            None => { return Err(CustomError::NotFound); },
            Some(d) => (d.token_mint, d.bump),
        };
        let auth_key = match derive_at(
            &DerivationPath::DaoAuthority { dao: p_dao },
            bump,
            &self.program_id,
        ) {
            None => { return Err(CustomError::Unauthorized); },
            Some(k) => k,
        };
        let treasury_pair = derive_address(&DerivationPath::Treasury { dao: p_dao }, &self.program_id);
        let (treasury_key, _) = match treasury_pair {
            None => { return Err(CustomError::InvalidArgument); },
            Some(p) => p,
        };
        let recipient_pair = derive_address(
            &DerivationPath::TokenHolding { mint: token_mint, owner: p_recipient },
            &self.program_id,
        );
        let (recipient_key, _) = match recipient_pair {
            None => { return Err(CustomError::InvalidArgument); },
            Some(p) => p,
        };
        match self.transfer(treasury_key, recipient_key, p_amount, auth_key) {
            Err(e) => {
                proof {
                    let (s2, res) = spec_execute_proposal(old(self)@, proposal_key);
                    assert(self@ =~~= s2);
                }
                Err(e)
            },
            Ok(_) => {
                let mut p = self.proposals.remove(&proposal_key).unwrap();
                p.executed = true;
                self.proposals.set(proposal_key, p);
                proof {
                    let (s2, _res) = spec_execute_proposal(old(self)@, proposal_key);
                    assert(self@ =~~= s2);
                }
                Ok(())
            },
        }
    }

    /// Dissolves a DAO; only its authority may, and only once no
    /// unexecuted proposal references it.
    pub fn delete_dao(&mut self, dao_key: AccountId, caller: AccountId) -> (r: Result<
        (),
        CustomError,
    >)
        requires
            old(self).wf(),
        ensures
            final(self).wf(),
            ({
                let (s2, res) = spec_delete_dao(old(self)@, dao_key, caller);
                final(self)@ == s2 && r == res
            }),
    {
        let authority = match self.daos.get(&dao_key) {
            None => { return Err(CustomError::NotFound); },
            Some(d) => d.authority,
        };
        if caller != authority {
            return Err(CustomError::Unauthorized);
        }
        if self.scan_open_proposal(&dao_key) {
            return Err(CustomError::InvalidArgument);
        }
        self.daos.remove(&dao_key);
        proof {
            let (s2, _res) = spec_delete_dao(old(self)@, dao_key, caller);
            assert(self@ =~~= s2);
        }
        Ok(())
    }

    /// Whether some not-yet-executed proposal references the DAO.
    fn scan_open_proposal(&self, dao_key: &AccountId) -> (r: bool)
        requires
            self.wf(),
        ensures
            r == has_open_proposal_for(self@, *dao_key),
    {
        proof {
            self.proposals.lemma_entries();
        }
        let n = self.proposals.len();
        let mut i: usize = 0;
        while i < n
            invariant
                n == self.proposals.entry_seq().len(),
                i <= n,
                self.wf(),
                forall|j: int|
                    0 <= j < i ==> !((#[trigger] self.proposals.entry_seq()[j]).1.dao == *dao_key
                        && !self.proposals.entry_seq()[j].1.executed),
            decreases n - i,
        {
            let (_k, p) = self.proposals.at(i);
            if p.dao == *dao_key && !p.executed {
                proof {
                    self.proposals.lemma_entries();
                    let k = self.proposals.entry_seq()[i as int].0;
                    assert(self.proposals@.contains_key(k) && self.proposals@[k].dao == *dao_key
                        && !self.proposals@[k].executed);
                }
                return true;
            }
            i = i + 1;
        }
        proof {
            self.proposals.lemma_entries();
            if has_open_proposal_for(self@, *dao_key) {
                let k = choose|k: AccountId|
                    self.proposals@.contains_key(k) && (#[trigger] self.proposals@[k]).dao
                        == *dao_key && !self.proposals@[k].executed;
                let j = choose|j: int|
                    0 <= j < self.proposals.entry_seq().len()
                        && #[trigger] self.proposals.entry_seq()[j].0 == k;
                assert(self.proposals.entry_seq()[j].1 == self.proposals@[k]);
            }
        }
        false
    }

    /// Allocates a holding account for `owner` under `mint_key`.
    pub fn create_token_account(&mut self, mint_key: AccountId, owner: AccountId) -> (r: Result<
        AccountId,
        CustomError,
    >)
        requires
            old(self).wf(),
        ensures
            final(self).wf(),
            ({
                let (s2, res) = spec_create_token_account(old(self)@, mint_key, owner);
                final(self)@ == s2 && r == res
            }),
    {
        if !self.mints.contains(&mint_key) {
            return Err(CustomError::NotFound);
        }
        let holding_pair = derive_address(
            &DerivationPath::TokenHolding { mint: mint_key, owner },
            &self.program_id,
        );
        let (holding_key, _) = match holding_pair {
            None => { return Err(CustomError::InvalidArgument); },
            Some(p) => p,
        };
        if self.token_accounts.contains(&holding_key) {
            return Err(CustomError::AlreadyExists);
        }
        self.token_accounts.set(
            holding_key,
            TokenAccount { mint: mint_key, authority: owner, amount: 0 },
        );
        proof {
            let (s2, _res) = spec_create_token_account(old(self)@, mint_key, owner);
            assert(self@ =~~= s2);
        }
        Ok(holding_key)
    }

    /// Mints new units to a holding account; only the mint's configured
    /// (derived) authority may.
    pub fn mint_to(
        &mut self,
        mint_key: AccountId,
        to_key: AccountId,
        amount: u64,
        authorized_by: AccountId,
    ) -> (r: Result<(), CustomError>)
        requires
            old(self).wf(),
        ensures
            final(self).wf(),
            ({
                let (s2, res) = spec_mint_to(old(self)@, mint_key, to_key, amount, authorized_by);
                final(self)@ == s2 && r == res
            }),
    {
        let m = match self.mints.get(&mint_key) {
            None => { return Err(CustomError::NotFound); },
            Some(m) => *m,
        };
        if authorized_by != m.mint_authority {
            return Err(CustomError::Unauthorized);
        }
        let t = match self.token_accounts.get(&to_key) {
            None => { return Err(CustomError::NotFound); },
            Some(a) => *a,
        };
        if t.mint != mint_key {
            return Err(CustomError::InvalidArgument);
        }
        let new_supply = match m.supply.checked_add(amount) {
            None => { return Err(CustomError::MathOverflow); },
            Some(n) => n,
        };
        let new_amount = match t.amount.checked_add(amount) {
            None => { return Err(CustomError::MathOverflow); },
            Some(n) => n,
        };
        self.mints.set(mint_key, MintInfo { supply: new_supply, ..m });
        self.token_accounts.set(to_key, TokenAccount { amount: new_amount, ..t });
        proof {
            let (s2, _res) = spec_mint_to(old(self)@, mint_key, to_key, amount, authorized_by);
            assert(self@ =~~= s2);
        }
        Ok(())
    }

    /// The balance of a holding account, if one exists.
    pub fn balance_of(&self, key: AccountId) -> (r: Option<u64>)
        requires
            self.wf(),
        ensures
            r == if self@.token_accounts.contains_key(key) {
                Some(self@.token_accounts[key].amount)
            } else {
                None::<u64>
            },
    {
        match self.token_accounts.get(&key) {
            None => None,
            Some(a) => Some(a.amount),
        }
    }

    /// The DAO record at `key`, if one exists.
    pub fn get_dao(&self, key: AccountId) -> (r: Option<&Dao>)
        requires
            self.wf(),
        ensures
            match r {
                Some(d) => self@.daos.contains_key(key) && d@ == self@.daos[key],
                None => !self@.daos.contains_key(key),
            },
    {
        self.daos.get(&key)
    }

    /// The proposal record at `key`, if one exists.
    pub fn get_proposal(&self, key: AccountId) -> (r: Option<&Proposal>)
        requires
            self.wf(),
        ensures
            match r {
                Some(p) => self@.proposals.contains_key(key) && p@ == self@.proposals[key],
                None => !self@.proposals.contains_key(key),
            },
    {
        self.proposals.get(&key)
    }

    /// The membership record at `key`, if one exists.
    pub fn get_member(&self, key: AccountId) -> (r: Option<&Member>)
        requires
            self.wf(),
        ensures
            match r {
                Some(m) => self@.members.contains_key(key) && *m == self@.members[key],
                None => !self@.members.contains_key(key),
            },
    {
        self.members.get(&key)
    }

    /// The ballot receipt at `key`, if one exists.
    pub fn get_voter_record(&self, key: AccountId) -> (r: Option<&VoterRecord>)
        requires
            self.wf(),
        ensures
            match r {
                Some(v) => self@.voter_records.contains_key(key) && *v == self@.voter_records[key],
                None => !self@.voter_records.contains_key(key),
            },
    {
        self.voter_records.get(&key)
    }

    /// The mint record at `key`, if one exists.
    pub fn get_mint(&self, key: AccountId) -> (r: Option<&MintInfo>)
        requires
            self.wf(),
        ensures
            match r {
                Some(m) => self@.mints.contains_key(key) && *m == self@.mints[key],
                None => !self@.mints.contains_key(key),
            },
    {
        self.mints.get(&key)
    }
}

} // verus!
