//! System-wide laws of the governance state machine, proved over the
//! specification-level transitions that every executable operation is held
//! to.

use vstd::prelude::*;

use crate::error::CustomError;
use crate::gov::{
    ballot_key, spec_add_member, spec_create_proposal, spec_create_token_account,
    spec_delete_dao, spec_execute_proposal, spec_initialize, spec_mint_to, spec_transfer,
    spec_vote, GovState,
};
use crate::pda::{derived_key, derived_key_at, AccountId, DerivationPath};

verus! {

/// One operation of the system, with the arguments a caller supplies.
pub enum GovOp {
    Initialize { authority: AccountId, dao_id: u64, dao_name: Seq<char>, total_supply: u64 },
    AddMember { dao: AccountId, caller: AccountId, wallet: AccountId },
    CreateProposal {
        dao: AccountId,
        caller: AccountId,
        title: Seq<char>,
        description: Seq<char>,
        amount: u64,
        recipient: AccountId,
        voting_deadline: Option<i64>,
    },
    CastVote { proposal: AccountId, voter: AccountId, approve: bool, now: i64 },
    ExecuteProposal { proposal: AccountId },
    DeleteDao { dao: AccountId, caller: AccountId },
    CreateTokenAccount { mint: AccountId, owner: AccountId },
    MintTo { mint: AccountId, to: AccountId, amount: u64, authorized_by: AccountId },
    Transfer { from: AccountId, to: AccountId, amount: u64, authorized_by: AccountId },
}

/// The state an operation leads to.
pub open spec fn apply_op(s: GovState, op: GovOp) -> GovState {
    match op {
        GovOp::Initialize { authority, dao_id, dao_name, total_supply } => spec_initialize(
            s,
            authority,
            dao_id,
            dao_name,
            total_supply,
        ).0,
        GovOp::AddMember { dao, caller, wallet } => spec_add_member(s, dao, caller, wallet).0,
        GovOp::CreateProposal {
            dao,
            caller,
            title,
            description,
            amount,
            recipient,
            voting_deadline,
        } => spec_create_proposal(
            s,
            dao,
            caller,
            title,
            description,
            amount,
            recipient,
            voting_deadline,
        ).0,
        GovOp::CastVote { proposal, voter, approve, now } => spec_vote(
            s,
            proposal,
            voter,
            approve,
            now,
        ).0,
        GovOp::ExecuteProposal { proposal } => spec_execute_proposal(s, proposal).0,
        GovOp::DeleteDao { dao, caller } => spec_delete_dao(s, dao, caller).0,
        GovOp::CreateTokenAccount { mint, owner } => spec_create_token_account(s, mint, owner).0,
        GovOp::MintTo { mint, to, amount, authorized_by } => spec_mint_to(
            s,
            mint,
            to,
            amount,
            authorized_by,
        ).0,
        GovOp::Transfer { from, to, amount, authorized_by } => spec_transfer(
            s,
            from,
            to,
            amount,
            authorized_by,
        ).0,
    }
}

/// Whether an operation succeeds in a state.
pub open spec fn op_ok(s: GovState, op: GovOp) -> bool {
    match op {
        GovOp::Initialize { authority, dao_id, dao_name, total_supply } => spec_initialize(
            s,
            authority,
            dao_id,
            dao_name,
            total_supply,
        ).1 is Ok,
        GovOp::AddMember { dao, caller, wallet } => spec_add_member(s, dao, caller, wallet).1 is Ok,
        GovOp::CreateProposal {
            dao,
            caller,
            title,
            description,
            amount,
            recipient,
            voting_deadline,
        } => spec_create_proposal(
            s,
            dao,
            caller,
            title,
            description,
            amount,
            recipient,
            voting_deadline,
        ).1 is Ok,
        GovOp::CastVote { proposal, voter, approve, now } => spec_vote(
            s,
            proposal,
            voter,
            approve,
            now,
        ).1 is Ok,
        GovOp::ExecuteProposal { proposal } => spec_execute_proposal(s, proposal).1 is Ok,
        GovOp::DeleteDao { dao, caller } => spec_delete_dao(s, dao, caller).1 is Ok,
        GovOp::CreateTokenAccount { mint, owner } => spec_create_token_account(s, mint, owner).1
            is Ok,
        GovOp::MintTo { mint, to, amount, authorized_by } => spec_mint_to(
            s,
            mint,
            to,
            amount,
            authorized_by,
        ).1 is Ok,
        GovOp::Transfer { from, to, amount, authorized_by } => spec_transfer(
            s,
            from,
            to,
            amount,
            authorized_by,
        ).1 is Ok,
    }
}

/// The state a whole sequence of operations leads to.
pub open spec fn apply_ops(s: GovState, ops: Seq<GovOp>) -> GovState
    decreases ops.len(),
{
    if ops.len() == 0 {
        s
    } else {
        apply_ops(apply_op(s, ops[0]), ops.subrange(1, ops.len() as int))
    }
}

/// No operation moves the namespace root or the proposal-creation policy.
pub proof fn lemma_step_fixed_config(s: GovState, op: GovOp)
    ensures
        apply_op(s, op).program_id == s.program_id,
        apply_op(s, op).open_proposal_creation == s.open_proposal_creation,
{
}

/// `lemma_step_fixed_config`, over a whole sequence.
pub proof fn lemma_ops_fixed_config(s: GovState, ops: Seq<GovOp>)
    ensures
        apply_ops(s, ops).program_id == s.program_id,
        apply_ops(s, ops).open_proposal_creation == s.open_proposal_creation,
    decreases ops.len(),
{
    if ops.len() > 0 {
        lemma_step_fixed_config(s, ops[0]);
        lemma_ops_fixed_config(apply_op(s, ops[0]), ops.subrange(1, ops.len() as int));
    }
}

/// One step keeps an executed proposal executed.
pub proof fn lemma_step_preserves_executed(s: GovState, op: GovOp, k: AccountId)
    requires
        s.proposals.contains_key(k),
        s.proposals[k].executed,
    ensures
        apply_op(s, op).proposals.contains_key(k),
        apply_op(s, op).proposals[k].executed,
{
}

/// Once a proposal is marked executed, it stays executed across any
/// sequence of further operations.
pub proof fn lemma_executed_monotone(s: GovState, ops: Seq<GovOp>, k: AccountId)
    requires
        s.proposals.contains_key(k),
        s.proposals[k].executed,
    ensures
        apply_ops(s, ops).proposals.contains_key(k),
        apply_ops(s, ops).proposals[k].executed,
    decreases ops.len(),
{
    if ops.len() > 0 {
        lemma_step_preserves_executed(s, ops[0], k);
        lemma_executed_monotone(apply_op(s, ops[0]), ops.subrange(1, ops.len() as int), k);
    }
}

/// One step keeps a cast ballot receipt cast.
pub proof fn lemma_step_preserves_voted(s: GovState, op: GovOp, k: AccountId)
    requires
        s.voter_records.contains_key(k),
        s.voter_records[k].voted,
    ensures
        apply_op(s, op).voter_records.contains_key(k),
        apply_op(s, op).voter_records[k].voted,
{
}

/// Once a ballot receipt records a cast vote, it records it forever.
pub proof fn lemma_voted_monotone(s: GovState, ops: Seq<GovOp>, k: AccountId)
    requires
        s.voter_records.contains_key(k),
        s.voter_records[k].voted,
    ensures
        apply_ops(s, ops).voter_records.contains_key(k),
        apply_ops(s, ops).voter_records[k].voted,
    decreases ops.len(),
{
    if ops.len() > 0 {
        lemma_step_preserves_voted(s, ops[0], k);
        lemma_voted_monotone(apply_op(s, ops[0]), ops.subrange(1, ops.len() as int), k);
    }
}

/// For each (proposal, voter) pair at most one vote ever succeeds: after a
/// successful vote, no later vote by the same voter on the same proposal
/// succeeds, whatever operations come between.
pub proof fn lemma_vote_at_most_once(
    s: GovState,
    proposal_key: AccountId,
    voter: AccountId,
    approve: bool,
    now: i64,
    ops: Seq<GovOp>,
    approve2: bool,
    now2: i64,
)
    requires
        spec_vote(s, proposal_key, voter, approve, now).1 is Ok,
    ensures
        !(spec_vote(
            apply_ops(spec_vote(s, proposal_key, voter, approve, now).0, ops),
            proposal_key,
            voter,
            approve2,
            now2,
        ).1 is Ok),
{
    let s1 = spec_vote(s, proposal_key, voter, approve, now).0;
    let s2 = apply_ops(s1, ops);
    let record_key = match ballot_key(s, proposal_key, voter) {
        Some((rk, _)) => rk,
        None => arbitrary(),
    };
    assert(ballot_key(s, proposal_key, voter) is Some);
    assert(s1.voter_records.contains_key(record_key) && s1.voter_records[record_key].voted);
    lemma_voted_monotone(s1, ops, record_key);
    lemma_ops_fixed_config(s1, ops);
    assert(s2.program_id == s.program_id);
    assert(ballot_key(s2, proposal_key, voter) == ballot_key(s, proposal_key, voter));
}

/// `lemma_step_preserves_proposal`, for one DAO initialization operation.
#[verifier::rlimit(100)]
#[verifier::spinoff_prover]
proof fn lemma_prop_shape_initialize(s: GovState, authority: AccountId, dao_id: u64, dao_name: Seq<char>, total_supply: u64, k: AccountId)
    requires
        s.proposals.contains_key(k),
    ensures
        ({
            let s2 = spec_initialize(s, authority, dao_id, dao_name, total_supply).0;
            &&& s2.proposals.contains_key(k)
            &&& s2.proposals[k].dao == s.proposals[k].dao
            &&& s2.proposals[k].voting_deadline == s.proposals[k].voting_deadline
        }),
{
}

/// `lemma_step_preserves_proposal`, for one membership registration operation.
#[verifier::rlimit(100)]
#[verifier::spinoff_prover]
proof fn lemma_prop_shape_add_member(s: GovState, dao: AccountId, caller: AccountId, wallet: AccountId, k: AccountId)
    requires
        s.proposals.contains_key(k),
    ensures
        ({
            let s2 = spec_add_member(s, dao, caller, wallet).0;
            &&& s2.proposals.contains_key(k)
            &&& s2.proposals[k].dao == s.proposals[k].dao
            &&& s2.proposals[k].voting_deadline == s.proposals[k].voting_deadline
        }),
{
}

/// `lemma_step_preserves_proposal`, for one proposal creation operation.
#[verifier::rlimit(100)]
#[verifier::spinoff_prover]
proof fn lemma_prop_shape_create_proposal(s: GovState, dao: AccountId, caller: AccountId, title: Seq<char>, description: Seq<char>, amount: u64, recipient: AccountId, voting_deadline: Option<i64>, k: AccountId)
    requires
        s.proposals.contains_key(k),
    ensures
        ({
            let s2 = spec_create_proposal(s, dao, caller, title, description, amount, recipient, voting_deadline).0;
            &&& s2.proposals.contains_key(k)
            &&& s2.proposals[k].dao == s.proposals[k].dao
            &&& s2.proposals[k].voting_deadline == s.proposals[k].voting_deadline
        }),
{
}

/// `lemma_step_preserves_proposal`, for one ballot operation.
#[verifier::rlimit(100)]
#[verifier::spinoff_prover]
proof fn lemma_prop_shape_vote(s: GovState, proposal: AccountId, voter: AccountId, approve: bool, now: i64, k: AccountId)
    requires
        s.proposals.contains_key(k),
    ensures
        ({
            let s2 = spec_vote(s, proposal, voter, approve, now).0;
            &&& s2.proposals.contains_key(k)
            &&& s2.proposals[k].dao == s.proposals[k].dao
            &&& s2.proposals[k].voting_deadline == s.proposals[k].voting_deadline
        }),
{
}

/// `lemma_step_preserves_proposal`, for one execution operation.
#[verifier::rlimit(100)]
#[verifier::spinoff_prover]
proof fn lemma_prop_shape_execute(s: GovState, proposal: AccountId, k: AccountId)
    requires
        s.proposals.contains_key(k),
    ensures
        ({
            let s2 = spec_execute_proposal(s, proposal).0;
            &&& s2.proposals.contains_key(k)
            &&& s2.proposals[k].dao == s.proposals[k].dao
            &&& s2.proposals[k].voting_deadline == s.proposals[k].voting_deadline
        }),
{
}

/// `lemma_step_preserves_proposal`, for one dissolution operation.
#[verifier::rlimit(100)]
#[verifier::spinoff_prover]
proof fn lemma_prop_shape_delete_dao(s: GovState, dao: AccountId, caller: AccountId, k: AccountId)
    requires
        s.proposals.contains_key(k),
    ensures
        ({
            let s2 = spec_delete_dao(s, dao, caller).0;
            &&& s2.proposals.contains_key(k)
            &&& s2.proposals[k].dao == s.proposals[k].dao
            &&& s2.proposals[k].voting_deadline == s.proposals[k].voting_deadline
        }),
{
}

/// `lemma_step_preserves_proposal`, for one holding-account allocation operation.
#[verifier::rlimit(100)]
#[verifier::spinoff_prover]
proof fn lemma_prop_shape_create_token_account(s: GovState, mint: AccountId, owner: AccountId, k: AccountId)
    requires
        s.proposals.contains_key(k),
    ensures
        ({
            let s2 = spec_create_token_account(s, mint, owner).0;
            &&& s2.proposals.contains_key(k)
            &&& s2.proposals[k].dao == s.proposals[k].dao
            &&& s2.proposals[k].voting_deadline == s.proposals[k].voting_deadline
        }),
{
}

/// `lemma_step_preserves_proposal`, for one minting operation.
#[verifier::rlimit(100)]
#[verifier::spinoff_prover]
proof fn lemma_prop_shape_mint_to(s: GovState, mint: AccountId, to: AccountId, amount: u64, authorized_by: AccountId, k: AccountId)
    requires
        s.proposals.contains_key(k),
    ensures
        ({
            let s2 = spec_mint_to(s, mint, to, amount, authorized_by).0;
            &&& s2.proposals.contains_key(k)
            &&& s2.proposals[k].dao == s.proposals[k].dao
            &&& s2.proposals[k].voting_deadline == s.proposals[k].voting_deadline
        }),
{
}

/// `lemma_step_preserves_proposal`, for one ledger transfer operation.
#[verifier::rlimit(100)]
#[verifier::spinoff_prover]
proof fn lemma_prop_shape_transfer(s: GovState, from: AccountId, to: AccountId, amount: u64, authorized_by: AccountId, k: AccountId)
    requires
        s.proposals.contains_key(k),
    ensures
        ({
            let s2 = spec_transfer(s, from, to, amount, authorized_by).0;
            &&& s2.proposals.contains_key(k)
            &&& s2.proposals[k].dao == s.proposals[k].dao
            &&& s2.proposals[k].voting_deadline == s.proposals[k].voting_deadline
        }),
{
}

/// One step keeps an existing proposal record present, owned by the same
/// DAO, under the same deadline.
pub proof fn lemma_step_preserves_proposal(s: GovState, op: GovOp, k: AccountId)
    requires
        s.proposals.contains_key(k),
    ensures
        apply_op(s, op).proposals.contains_key(k),
        apply_op(s, op).proposals[k].dao == s.proposals[k].dao,
        apply_op(s, op).proposals[k].voting_deadline == s.proposals[k].voting_deadline,
{
    match op {
        GovOp::Initialize { authority, dao_id, dao_name, total_supply } => {
            lemma_prop_shape_initialize(s, authority, dao_id, dao_name, total_supply, k);
        },
        GovOp::AddMember { dao, caller, wallet } => {
            lemma_prop_shape_add_member(s, dao, caller, wallet, k);
        },
        GovOp::CreateProposal {
            dao,
            caller,
            title,
            description,
            amount,
            recipient,
            voting_deadline,
        } => {
            lemma_prop_shape_create_proposal(
                s,
                dao,
                caller,
                title,
                description,
                amount,
                recipient,
                voting_deadline,
                k,
            );
        },
        GovOp::CastVote { proposal, voter, approve, now } => {
            lemma_prop_shape_vote(s, proposal, voter, approve, now, k);
        },
        GovOp::ExecuteProposal { proposal } => {
            lemma_prop_shape_execute(s, proposal, k);
        },
        GovOp::DeleteDao { dao, caller } => {
            lemma_prop_shape_delete_dao(s, dao, caller, k);
        },
        GovOp::CreateTokenAccount { mint, owner } => {
            lemma_prop_shape_create_token_account(s, mint, owner, k);
        },
        GovOp::MintTo { mint, to, amount, authorized_by } => {
            lemma_prop_shape_mint_to(s, mint, to, amount, authorized_by, k);
        },
        GovOp::Transfer { from, to, amount, authorized_by } => {
            lemma_prop_shape_transfer(s, from, to, amount, authorized_by, k);
        },
    }
}

/// A proposal record, its owner and its deadline survive any sequence of
/// operations.
pub proof fn lemma_proposal_monotone(s: GovState, ops: Seq<GovOp>, k: AccountId)
    requires
        s.proposals.contains_key(k),
    ensures
        apply_ops(s, ops).proposals.contains_key(k),
        apply_ops(s, ops).proposals[k].dao == s.proposals[k].dao,
        apply_ops(s, ops).proposals[k].voting_deadline == s.proposals[k].voting_deadline,
    decreases ops.len(),
{
    if ops.len() > 0 {
        lemma_step_preserves_proposal(s, ops[0], k);
        lemma_proposal_monotone(apply_op(s, ops[0]), ops.subrange(1, ops.len() as int), k);
    }
}

/// One step keeps a membership record present.
pub proof fn lemma_step_preserves_member(s: GovState, op: GovOp, k: AccountId)
    requires
        s.members.contains_key(k),
    ensures
        apply_op(s, op).members.contains_key(k),
{
}

/// A membership record survives any sequence of operations.
pub proof fn lemma_member_monotone(s: GovState, ops: Seq<GovOp>, k: AccountId)
    requires
        s.members.contains_key(k),
    ensures
        apply_ops(s, ops).members.contains_key(k),
    decreases ops.len(),
{
    if ops.len() > 0 {
        lemma_step_preserves_member(s, ops[0], k);
        lemma_member_monotone(apply_op(s, ops[0]), ops.subrange(1, ops.len() as int), k);
    }
}

/// After one successful vote, a later ballot by the same voter on the same
/// proposal fails with exactly `AlreadyVoted` and changes nothing, as long
/// as the later call reaches the ballot check: the proposal is still
/// unexecuted, its deadline has not passed, and its DAO still exists.
#[verifier::rlimit(100)]
#[verifier::spinoff_prover]
pub proof fn lemma_second_vote_already_voted(
    s: GovState,
    proposal_key: AccountId,
    voter: AccountId,
    approve: bool,
    now: i64,
    ops: Seq<GovOp>,
    approve2: bool,
    now2: i64,
)
    requires
        spec_vote(s, proposal_key, voter, approve, now).1 is Ok,
        ({
            let s2 = apply_ops(spec_vote(s, proposal_key, voter, approve, now).0, ops);
            &&& !s2.proposals[proposal_key].executed
            &&& (s2.proposals[proposal_key].voting_deadline matches Some(d) ==> now2 <= d)
            &&& s2.daos.contains_key(s2.proposals[proposal_key].dao)
        }),
    ensures
        ({
            let s2 = apply_ops(spec_vote(s, proposal_key, voter, approve, now).0, ops);
            &&& spec_vote(s2, proposal_key, voter, approve2, now2).1 == Err::<(), CustomError>(
                CustomError::AlreadyVoted,
            )
            &&& spec_vote(s2, proposal_key, voter, approve2, now2).0 == s2
        }),
{
    let s1 = spec_vote(s, proposal_key, voter, approve, now).0;
    let s2 = apply_ops(s1, ops);
    let record_key = match ballot_key(s, proposal_key, voter) {
        Some((rk, _)) => rk,
        None => arbitrary(),
    };
    let member_key = match derived_key(
        DerivationPath::Member { dao: s.proposals[proposal_key].dao, wallet: voter },
        s.program_id,
    ) {
        Some((mk, _)) => mk,
        None => arbitrary(),
    };
    assert(s1.voter_records.contains_key(record_key) && s1.voter_records[record_key].voted);
    assert(s1.members.contains_key(member_key));
    assert(s1.proposals.contains_key(proposal_key));
    assert(s1.proposals[proposal_key].dao == s.proposals[proposal_key].dao);
    lemma_voted_monotone(s1, ops, record_key);
    lemma_member_monotone(s1, ops, member_key);
    lemma_proposal_monotone(s1, ops, proposal_key);
    lemma_ops_fixed_config(s1, ops);
    assert(s2.program_id == s.program_id);
    assert(ballot_key(s2, proposal_key, voter) == ballot_key(s, proposal_key, voter));
}

/// The approve/reject weight one operation adds to a proposal's tallies: a
/// successful vote adds the voter's ledger balance to the chosen side, and
/// every other operation adds nothing.
pub open spec fn tally_delta(s: GovState, op: GovOp, k: AccountId) -> (int, int) {
    match op {
        GovOp::CastVote { proposal, voter, approve, now } => {
            if proposal == k && spec_vote(s, proposal, voter, approve, now).1 is Ok {
                let w = vote_weight_of(s, proposal, voter);
                if approve {
                    (w as int, 0int)
                } else {
                    (0int, w as int)
                }
            } else {
                (0int, 0int)
            }
        },
        _ => (0int, 0int),
    }
}

/// The ledger balance behind a voter's ballot on a proposal, at the moment
/// of casting.
pub open spec fn vote_weight_of(s: GovState, proposal_key: AccountId, voter: AccountId) -> u64 {
    let p = s.proposals[proposal_key];
    match derived_key(
        DerivationPath::TokenHolding { mint: s.daos[p.dao].token_mint, owner: voter },
        s.program_id,
    ) {
        None => 0,
        Some((holding_key, _)) => if s.token_accounts.contains_key(holding_key) {
            s.token_accounts[holding_key].amount
        } else {
            0
        },
    }
}

/// The summed approve/reject weights of the successful votes on one
/// proposal over a sequence of operations, each weighed at its own moment.
pub open spec fn vote_sums(s: GovState, ops: Seq<GovOp>, k: AccountId) -> (int, int)
    decreases ops.len(),
{
    if ops.len() == 0 {
        (0int, 0int)
    } else {
        let here = tally_delta(s, ops[0], k);
        let rest = vote_sums(apply_op(s, ops[0]), ops.subrange(1, ops.len() as int), k);
        (here.0 + rest.0, here.1 + rest.1)
    }
}

/// One step moves a proposal's tallies by exactly its tally delta.
#[verifier::rlimit(100)]
pub proof fn lemma_step_tallies(s: GovState, op: GovOp, k: AccountId)
    requires
        s.proposals.contains_key(k),
    ensures
        apply_op(s, op).proposals.contains_key(k),
        apply_op(s, op).proposals[k].votes_for == s.proposals[k].votes_for + tally_delta(
            s,
            op,
            k,
        ).0,
        apply_op(s, op).proposals[k].votes_against == s.proposals[k].votes_against + tally_delta(
            s,
            op,
            k,
        ).1,
{
}

/// A proposal's tallies equal its earlier tallies plus the weights of the
/// successful votes cast on it since, partitioned by approval: no
/// successful vote's weight is dropped or double-counted.
pub proof fn lemma_tally_partition(s: GovState, ops: Seq<GovOp>, k: AccountId)
    requires
        s.proposals.contains_key(k),
    ensures
        apply_ops(s, ops).proposals.contains_key(k),
        apply_ops(s, ops).proposals[k].votes_for == s.proposals[k].votes_for + vote_sums(
            s,
            ops,
            k,
        ).0,
        apply_ops(s, ops).proposals[k].votes_against == s.proposals[k].votes_against + vote_sums(
            s,
            ops,
            k,
        ).1,
    decreases ops.len(),
{
    if ops.len() > 0 {
        lemma_step_tallies(s, ops[0], k);
        lemma_tally_partition(apply_op(s, ops[0]), ops.subrange(1, ops.len() as int), k);
    }
}

/// The key of a filled derivation slot.
pub open spec fn slot_key(o: Option<(AccountId, u8)>) -> AccountId {
    match o {
        Some((k, _)) => k,
        None => arbitrary(),
    }
}

/// The derived identity a proposal of one DAO with one sequence id must
/// live at.
pub open spec fn proposal_slot(s: GovState, dao_key: AccountId, i: u64) -> Option<AccountId> {
    match derived_key(DerivationPath::Proposal { dao: dao_key, proposal_id: i }, s.program_id) {
        None => None,
        Some((k, _)) => Some(k),
    }
}

/// Whether some proposal of one DAO carries one sequence id.
pub open spec fn id_taken(s: GovState, dao_key: AccountId, i: u64) -> bool {
    exists|k: AccountId|
        s.proposals.contains_key(k) && (#[trigger] s.proposals[k]).dao == dao_key
            && s.proposals[k].proposal_id == i
}

/// The id bookkeeping of one DAO: every proposal of the DAO carries an id
/// in 1..=proposal_count and sits at that id's derived slot, and every id
/// in 1..=proposal_count is carried by some proposal of the DAO.
pub open spec fn ids_consistent(s: GovState, dao_key: AccountId) -> bool {
    s.daos.contains_key(dao_key) ==> {
        let n = s.daos[dao_key].proposal_count;
        &&& forall|k: AccountId|
            s.proposals.contains_key(k) && (#[trigger] s.proposals[k]).dao == dao_key ==> 1
                <= s.proposals[k].proposal_id <= n && proposal_slot(
                s,
                dao_key,
                s.proposals[k].proposal_id,
            ) == Some(k)
        &&& forall|i: u64| 1 <= i <= n ==> #[trigger] id_taken(s, dao_key, i)
    }
}

/// Whether an operation dissolves one particular DAO.
pub open spec fn deletes_dao(op: GovOp, dao_key: AccountId) -> bool {
    op matches GovOp::DeleteDao { dao, .. } && dao == dao_key
}

/// The number of successful proposal creations on one DAO over a sequence
/// of operations.
pub open spec fn create_successes(s: GovState, ops: Seq<GovOp>, dao_key: AccountId) -> int
    decreases ops.len(),
{
    if ops.len() == 0 {
        0int
    } else {
        let here: int = match ops[0] {
            GovOp::CreateProposal { dao, .. } => if dao == dao_key && op_ok(s, ops[0]) {
                1int
            } else {
                0int
            },
            _ => 0int,
        };
        here + create_successes(apply_op(s, ops[0]), ops.subrange(1, ops.len() as int), dao_key)
    }
}

/// Re-establishes the id bookkeeping when the proposals map and the DAO
/// record are untouched up to tally or flag updates that keep each
/// record's owner and id.
#[verifier::rlimit(100)]
#[verifier::spinoff_prover]
proof fn lemma_ids_same_shape(s: GovState, s2: GovState, dao_key: AccountId)
    requires
        s.daos.contains_key(dao_key),
        ids_consistent(s, dao_key),
        s2.program_id == s.program_id,
        s2.daos.contains_key(dao_key),
        s2.daos[dao_key].proposal_count == s.daos[dao_key].proposal_count,
        forall|k: AccountId|
            s2.proposals.contains_key(k) <==> s.proposals.contains_key(k),
        forall|k: AccountId|
            s.proposals.contains_key(k) ==> (#[trigger] s2.proposals[k]).dao == s.proposals[k].dao
                && s2.proposals[k].proposal_id == s.proposals[k].proposal_id,
    ensures
        ids_consistent(s2, dao_key),
{
    let n = s.daos[dao_key].proposal_count;
    assert forall|k: AccountId|
        s2.proposals.contains_key(k) && (#[trigger] s2.proposals[k]).dao == dao_key implies 1
        <= s2.proposals[k].proposal_id <= n && proposal_slot(
        s2,
        dao_key,
        s2.proposals[k].proposal_id,
    ) == Some(k) by {
        assert(s.proposals.contains_key(k) && s.proposals[k].dao == dao_key);
        assert(proposal_slot(s, dao_key, s.proposals[k].proposal_id) == Some(k));
    }
    assert forall|i: u64| 1 <= i <= n implies #[trigger] id_taken(s2, dao_key, i) by {
        assert(id_taken(s, dao_key, i));
        let k = choose|k: AccountId|
            s.proposals.contains_key(k) && (#[trigger] s.proposals[k]).dao == dao_key
                && s.proposals[k].proposal_id == i;
        assert(s2.proposals.contains_key(k) && s2.proposals[k].dao == dao_key
            && s2.proposals[k].proposal_id == i);
    }
}

/// The id bookkeeping across one successful proposal creation.
#[verifier::rlimit(100)]
#[verifier::spinoff_prover]
proof fn lemma_ids_create_success(
    s: GovState,
    dao_key: AccountId,
    caller: AccountId,
    title: Seq<char>,
    description: Seq<char>,
    amount: u64,
    recipient: AccountId,
    voting_deadline: Option<i64>,
)
    requires
        s.daos.contains_key(dao_key),
        ids_consistent(s, dao_key),
        spec_create_proposal(
            s,
            dao_key,
            caller,
            title,
            description,
            amount,
            recipient,
            voting_deadline,
        ).1 is Ok,
    ensures
        ({
            let s2 = spec_create_proposal(
                s,
                dao_key,
                caller,
                title,
                description,
                amount,
                recipient,
                voting_deadline,
            ).0;
            &&& s2.daos.contains_key(dao_key)
            &&& ids_consistent(s2, dao_key)
            &&& s2.daos[dao_key].proposal_count == s.daos[dao_key].proposal_count + 1
        }),
{
    let s2 = spec_create_proposal(
        s,
        dao_key,
        caller,
        title,
        description,
        amount,
        recipient,
        voting_deadline,
    ).0;
    let n = s.daos[dao_key].proposal_count;
    let next: u64 = (n + 1) as u64;
    let pk = slot_key(
        derived_key(DerivationPath::Proposal { dao: dao_key, proposal_id: next }, s.program_id),
    );
    assert forall|k: AccountId|
        s2.proposals.contains_key(k) && (#[trigger] s2.proposals[k]).dao == dao_key implies 1
        <= s2.proposals[k].proposal_id <= s2.daos[dao_key].proposal_count && proposal_slot(
        s2,
        dao_key,
        s2.proposals[k].proposal_id,
    ) == Some(k) by {
        if k != pk {
            assert(s.proposals.contains_key(k) && s.proposals[k].dao == dao_key);
        }
    }
    assert forall|i: u64|
        1 <= i <= s2.daos[dao_key].proposal_count implies #[trigger] id_taken(s2, dao_key, i) by {
        if i <= n {
            assert(id_taken(s, dao_key, i));
            let k = choose|k: AccountId|
                s.proposals.contains_key(k) && (#[trigger] s.proposals[k]).dao == dao_key
                    && s.proposals[k].proposal_id == i;
            assert(s2.proposals.contains_key(k) && s2.proposals[k].dao == dao_key
                && s2.proposals[k].proposal_id == i);
        } else {
            assert(s2.proposals.contains_key(pk) && s2.proposals[pk].dao == dao_key
                && s2.proposals[pk].proposal_id == i);
        }
    }
}

/// The id bookkeeping across one DAO initialization operation.
#[verifier::rlimit(100)]
#[verifier::spinoff_prover]
proof fn lemma_ids_initialize(s: GovState, authority: AccountId, dao_id: u64, dao_name: Seq<char>, total_supply: u64, dao_key: AccountId)
    requires
        s.daos.contains_key(dao_key),
        ids_consistent(s, dao_key),
    ensures
        ({
            let s2 = spec_initialize(s, authority, dao_id, dao_name, total_supply).0;
            &&& s2.daos.contains_key(dao_key)
            &&& ids_consistent(s2, dao_key)
            &&& s2.daos[dao_key].proposal_count == s.daos[dao_key].proposal_count
        }),
{
    let s2 = spec_initialize(s, authority, dao_id, dao_name, total_supply).0;
    lemma_ids_same_shape(s, s2, dao_key);
}

/// The id bookkeeping across one membership registration operation.
#[verifier::rlimit(100)]
#[verifier::spinoff_prover]
proof fn lemma_ids_add_member(s: GovState, dao: AccountId, caller: AccountId, wallet: AccountId, dao_key: AccountId)
    requires
        s.daos.contains_key(dao_key),
        ids_consistent(s, dao_key),
    ensures
        ({
            let s2 = spec_add_member(s, dao, caller, wallet).0;
            &&& s2.daos.contains_key(dao_key)
            &&& ids_consistent(s2, dao_key)
            &&& s2.daos[dao_key].proposal_count == s.daos[dao_key].proposal_count
        }),
{
    let s2 = spec_add_member(s, dao, caller, wallet).0;
    lemma_ids_same_shape(s, s2, dao_key);
}

/// The id bookkeeping across one ballot operation.
#[verifier::rlimit(100)]
#[verifier::spinoff_prover]
proof fn lemma_ids_vote(s: GovState, proposal: AccountId, voter: AccountId, approve: bool, now: i64, dao_key: AccountId)
    requires
        s.daos.contains_key(dao_key),
        ids_consistent(s, dao_key),
    ensures
        ({
            let s2 = spec_vote(s, proposal, voter, approve, now).0;
            &&& s2.daos.contains_key(dao_key)
            &&& ids_consistent(s2, dao_key)
            &&& s2.daos[dao_key].proposal_count == s.daos[dao_key].proposal_count
        }),
{
    let s2 = spec_vote(s, proposal, voter, approve, now).0;
    lemma_ids_same_shape(s, s2, dao_key);
}

/// The id bookkeeping across one execution operation.
#[verifier::rlimit(100)]
#[verifier::spinoff_prover]
proof fn lemma_ids_execute(s: GovState, proposal: AccountId, dao_key: AccountId)
    requires
        s.daos.contains_key(dao_key),
        ids_consistent(s, dao_key),
    ensures
        ({
            let s2 = spec_execute_proposal(s, proposal).0;
            &&& s2.daos.contains_key(dao_key)
            &&& ids_consistent(s2, dao_key)
            &&& s2.daos[dao_key].proposal_count == s.daos[dao_key].proposal_count
        }),
{
    let s2 = spec_execute_proposal(s, proposal).0;
    lemma_ids_same_shape(s, s2, dao_key);
}

/// The id bookkeeping across one dissolution of another DAO operation.
#[verifier::rlimit(100)]
#[verifier::spinoff_prover]
proof fn lemma_ids_delete_other(s: GovState, dao: AccountId, caller: AccountId, dao_key: AccountId)
    requires
        s.daos.contains_key(dao_key),
        ids_consistent(s, dao_key),
        dao != dao_key,
    ensures
        ({
            let s2 = spec_delete_dao(s, dao, caller).0;
            &&& s2.daos.contains_key(dao_key)
            &&& ids_consistent(s2, dao_key)
            &&& s2.daos[dao_key].proposal_count == s.daos[dao_key].proposal_count
        }),
{
    let s2 = spec_delete_dao(s, dao, caller).0;
    lemma_ids_same_shape(s, s2, dao_key);
}

/// The id bookkeeping across one holding-account allocation operation.
#[verifier::rlimit(100)]
#[verifier::spinoff_prover]
proof fn lemma_ids_create_token_account(s: GovState, mint: AccountId, owner: AccountId, dao_key: AccountId)
    requires
        s.daos.contains_key(dao_key),
        ids_consistent(s, dao_key),
    ensures
        ({
            let s2 = spec_create_token_account(s, mint, owner).0;
            &&& s2.daos.contains_key(dao_key)
            &&& ids_consistent(s2, dao_key)
            &&& s2.daos[dao_key].proposal_count == s.daos[dao_key].proposal_count
        }),
{
    let s2 = spec_create_token_account(s, mint, owner).0;
    lemma_ids_same_shape(s, s2, dao_key);
}

/// The id bookkeeping across one minting operation.
#[verifier::rlimit(100)]
#[verifier::spinoff_prover]
proof fn lemma_ids_mint_to(s: GovState, mint: AccountId, to: AccountId, amount: u64, authorized_by: AccountId, dao_key: AccountId)
    requires
        s.daos.contains_key(dao_key),
        ids_consistent(s, dao_key),
    ensures
        ({
            let s2 = spec_mint_to(s, mint, to, amount, authorized_by).0;
            &&& s2.daos.contains_key(dao_key)
            &&& ids_consistent(s2, dao_key)
            &&& s2.daos[dao_key].proposal_count == s.daos[dao_key].proposal_count
        }),
{
    let s2 = spec_mint_to(s, mint, to, amount, authorized_by).0;
    lemma_ids_same_shape(s, s2, dao_key);
}

/// The id bookkeeping across one ledger transfer operation.
#[verifier::rlimit(100)]
#[verifier::spinoff_prover]
proof fn lemma_ids_transfer(s: GovState, from: AccountId, to: AccountId, amount: u64, authorized_by: AccountId, dao_key: AccountId)
    requires
        s.daos.contains_key(dao_key),
        ids_consistent(s, dao_key),
    ensures
        ({
            let s2 = spec_transfer(s, from, to, amount, authorized_by).0;
            &&& s2.daos.contains_key(dao_key)
            &&& ids_consistent(s2, dao_key)
            &&& s2.daos[dao_key].proposal_count == s.daos[dao_key].proposal_count
        }),
{
    let s2 = spec_transfer(s, from, to, amount, authorized_by).0;
    lemma_ids_same_shape(s, s2, dao_key);
}

/// The id bookkeeping across a proposal creation that does not add to
/// this DAO's sequence: a failed creation, or one on another DAO.
#[verifier::rlimit(100)]
#[verifier::spinoff_prover]
proof fn lemma_ids_create_other(
    s: GovState,
    dao: AccountId,
    caller: AccountId,
    title: Seq<char>,
    description: Seq<char>,
    amount: u64,
    recipient: AccountId,
    voting_deadline: Option<i64>,
    dao_key: AccountId,
)
    requires
        s.daos.contains_key(dao_key),
        ids_consistent(s, dao_key),
        !(dao == dao_key && spec_create_proposal(
            s,
            dao,
            caller,
            title,
            description,
            amount,
            recipient,
            voting_deadline,
        ).1 is Ok),
    ensures
        ({
            let s2 = spec_create_proposal(
                s,
                dao,
                caller,
                title,
                description,
                amount,
                recipient,
                voting_deadline,
            ).0;
            &&& s2.daos.contains_key(dao_key)
            &&& ids_consistent(s2, dao_key)
            &&& s2.daos[dao_key].proposal_count == s.daos[dao_key].proposal_count
        }),
{
    let s2 = spec_create_proposal(
        s,
        dao,
        caller,
        title,
        description,
        amount,
        recipient,
        voting_deadline,
    ).0;
    let n = s.daos[dao_key].proposal_count;
    assert forall|k: AccountId|
        s2.proposals.contains_key(k) && (#[trigger] s2.proposals[k]).dao == dao_key implies 1
        <= s2.proposals[k].proposal_id <= n && proposal_slot(
        s2,
        dao_key,
        s2.proposals[k].proposal_id,
    ) == Some(k) by {
        assert(s.proposals.contains_key(k) && s.proposals[k].dao == dao_key);
    }
    assert forall|i: u64| 1 <= i <= n implies #[trigger] id_taken(s2, dao_key, i) by {
        assert(id_taken(s, dao_key, i));
        let k = choose|k: AccountId|
            s.proposals.contains_key(k) && (#[trigger] s.proposals[k]).dao == dao_key
                && s.proposals[k].proposal_id == i;
        assert(s2.proposals.contains_key(k) && s2.proposals[k].dao == dao_key
            && s2.proposals[k].proposal_id == i);
    }
}

/// One step of the id bookkeeping: while the DAO is not dissolved, its
/// record survives, its counter moves up by one exactly on a successful
/// creation, and the id bookkeeping is preserved.
#[verifier::rlimit(100)]
#[verifier::spinoff_prover]
pub proof fn lemma_step_ids(s: GovState, op: GovOp, dao_key: AccountId)
    requires
        s.daos.contains_key(dao_key),
        ids_consistent(s, dao_key),
        !deletes_dao(op, dao_key),
    ensures
        apply_op(s, op).daos.contains_key(dao_key),
        ids_consistent(apply_op(s, op), dao_key),
        apply_op(s, op).daos[dao_key].proposal_count == s.daos[dao_key].proposal_count + (
        match op {
            GovOp::CreateProposal { dao, .. } => if dao == dao_key && op_ok(s, op) {
                1int
            } else {
                0int
            },
            _ => 0int,
        }),
{
    match op {
        GovOp::Initialize { authority, dao_id, dao_name, total_supply } => {
            lemma_ids_initialize(s, authority, dao_id, dao_name, total_supply, dao_key);
        },
        GovOp::AddMember { dao, caller, wallet } => {
            lemma_ids_add_member(s, dao, caller, wallet, dao_key);
        },
        GovOp::CreateProposal {
            dao,
            caller,
            title,
            description,
            amount,
            recipient,
            voting_deadline,
        } => {
            if dao == dao_key && op_ok(s, op) {
                lemma_ids_create_success(
                    s,
                    dao_key,
                    caller,
                    title,
                    description,
                    amount,
                    recipient,
                    voting_deadline,
                );
            } else {
                lemma_ids_create_other(
                    s,
                    dao,
                    caller,
                    title,
                    description,
                    amount,
                    recipient,
                    voting_deadline,
                    dao_key,
                );
            }
        },
        GovOp::CastVote { proposal, voter, approve, now } => {
            lemma_ids_vote(s, proposal, voter, approve, now, dao_key);
        },
        GovOp::ExecuteProposal { proposal } => {
            lemma_ids_execute(s, proposal, dao_key);
        },
        GovOp::DeleteDao { dao, caller } => {
            lemma_ids_delete_other(s, dao, caller, dao_key);
        },
        GovOp::CreateTokenAccount { mint, owner } => {
            lemma_ids_create_token_account(s, mint, owner, dao_key);
        },
        GovOp::MintTo { mint, to, amount, authorized_by } => {
            lemma_ids_mint_to(s, mint, to, amount, authorized_by, dao_key);
        },
        GovOp::Transfer { from, to, amount, authorized_by } => {
            lemma_ids_transfer(s, from, to, amount, authorized_by, dao_key);
        },
    }
}

/// For one DAO, proposal ids are exactly the sequence `1..=N`, with no
/// gaps and no repeats: across any operations that do not dissolve the
/// DAO, every proposal of the DAO keeps an id between 1 and the counter,
/// each id points at exactly one record, and the counter grows by exactly
/// the number of successful creations.
pub proof fn lemma_proposal_ids(s: GovState, ops: Seq<GovOp>, dao_key: AccountId)
    requires
        s.daos.contains_key(dao_key),
        ids_consistent(s, dao_key),
        forall|i: int| 0 <= i < ops.len() ==> !deletes_dao(#[trigger] ops[i], dao_key),
    ensures
        apply_ops(s, ops).daos.contains_key(dao_key),
        ids_consistent(apply_ops(s, ops), dao_key),
        apply_ops(s, ops).daos[dao_key].proposal_count == s.daos[dao_key].proposal_count
            + create_successes(s, ops, dao_key),
    decreases ops.len(),
{
    if ops.len() > 0 {
        assert(!deletes_dao(ops[0], dao_key));
        lemma_step_ids(s, ops[0], dao_key);
        lemma_proposal_ids(apply_op(s, ops[0]), ops.subrange(1, ops.len() as int), dao_key);
    }
}

/// A freshly created DAO starts with consistent id bookkeeping, provided
/// no stale proposal already references its derived identity.
pub proof fn lemma_initialize_ids(
    s: GovState,
    authority: AccountId,
    dao_id: u64,
    dao_name: Seq<char>,
    total_supply: u64,
)
    requires
        spec_initialize(s, authority, dao_id, dao_name, total_supply).1 is Ok,
        forall|k: AccountId| !(s.proposals.contains_key(k) && (#[trigger] s.proposals[k]).dao
            == slot_key(derived_key(DerivationPath::Dao { authority, dao_id }, s.program_id))),
    ensures
        ids_consistent(
            spec_initialize(s, authority, dao_id, dao_name, total_supply).0,
            slot_key(derived_key(DerivationPath::Dao { authority, dao_id }, s.program_id)),
        ),
{
}

/// The surroundings a proposal needs for its execution to be decided by
/// the governance conditions alone: its DAO, treasury and recipient
/// accounts exist and line up, the treasury can fund the amount, and the
/// recipient's balance has room for it.
pub open spec fn execution_environment(s: GovState, proposal_key: AccountId) -> bool {
    let p = s.proposals[proposal_key];
    let dao = s.daos[p.dao];
    let auth = derived_key_at(DerivationPath::DaoAuthority { dao: p.dao }, dao.bump, s.program_id);
    let treasury = derived_key(DerivationPath::Treasury { dao: p.dao }, s.program_id);
    let recipient = derived_key(
        DerivationPath::TokenHolding { mint: dao.token_mint, owner: p.recipient },
        s.program_id,
    );
    &&& s.proposals.contains_key(proposal_key)
    &&& s.daos.contains_key(p.dao)
    &&& auth is Some
    &&& treasury is Some
    &&& recipient is Some
    &&& {
        let tk = slot_key(treasury);
        let rk = slot_key(recipient);
        &&& s.token_accounts.contains_key(tk)
        &&& s.token_accounts.contains_key(rk)
        &&& tk != rk
        &&& s.token_accounts[tk].authority == match auth {
            Some(a) => a,
            None => arbitrary(),
        }
        &&& s.token_accounts[tk].mint == s.token_accounts[rk].mint
        &&& s.token_accounts[tk].amount >= p.amount
        &&& s.token_accounts[rk].amount + p.amount <= u64::MAX
    }
}

/// In a state whose treasury can fund it, execution succeeds exactly when
/// the proposal has more votes for than against and is not yet executed;
/// success moves exactly the requested amount from the treasury to the
/// recipient's holding account, marks the proposal executed, and a second
/// execution fails with `AlreadyExecuted`, changing nothing.
pub proof fn lemma_execute_exact(s: GovState, proposal_key: AccountId)
    requires
        execution_environment(s, proposal_key),
    ensures
        spec_execute_proposal(s, proposal_key).1 is Ok <==> !s.proposals[proposal_key].executed
            && s.proposals[proposal_key].votes_for > s.proposals[proposal_key].votes_against,
        spec_execute_proposal(s, proposal_key).1 is Ok ==> {
            let p = s.proposals[proposal_key];
            let dao = s.daos[p.dao];
            let s2 = spec_execute_proposal(s, proposal_key).0;
            let tk = slot_key(derived_key(DerivationPath::Treasury { dao: p.dao }, s.program_id));
            let rk = slot_key(
                derived_key(
                    DerivationPath::TokenHolding { mint: dao.token_mint, owner: p.recipient },
                    s.program_id,
                ),
            );
            &&& s2.token_accounts[tk].amount == s.token_accounts[tk].amount - p.amount
            &&& s2.token_accounts[rk].amount == s.token_accounts[rk].amount + p.amount
            &&& s2.proposals[proposal_key].executed
            &&& s2.proposals[proposal_key].votes_for == p.votes_for
            &&& s2.proposals[proposal_key].votes_against == p.votes_against
            &&& spec_execute_proposal(s2, proposal_key).1 == Err::<(), CustomError>(
                CustomError::AlreadyExecuted,
            )
            &&& spec_execute_proposal(s2, proposal_key).0 == s2
        },
{
}

} // verus!
