//! The derived authority scheme: deterministic, keyless identities.
//!
//! Every entity record and every signing authority of the library lives at an
//! identity derived from a namespace tag plus the identities of its parents.
//! The derivation itself is the program-derived-address search of the Solana
//! SDK; its results are named, not restated, and everything built on top of
//! the names is verified.

use vstd::prelude::*;

verus! {

/// A fixed-width, public-key-like identity: 32 bytes held as four
/// little-endian 64-bit words.
#[derive(Clone, Copy, PartialEq, Eq, Structural, Debug)]
pub struct AccountId {
    pub w0: u64,
    pub w1: u64,
    pub w2: u64,
    pub w3: u64,
}

/// The little-endian byte sequence of one 64-bit word.
pub open spec fn u64_le_bytes(x: u64) -> Seq<u8> {
    seq![
        (x & 0xff) as u8,
        ((x >> 8) & 0xff) as u8,
        ((x >> 16) & 0xff) as u8,
        ((x >> 24) & 0xff) as u8,
        ((x >> 32) & 0xff) as u8,
        ((x >> 40) & 0xff) as u8,
        ((x >> 48) & 0xff) as u8,
        ((x >> 56) & 0xff) as u8,
    ]
}

/// The 32-byte representation of an identity, word by word.
pub open spec fn id_bytes(a: AccountId) -> Seq<u8> {
    u64_le_bytes(a.w0) + u64_le_bytes(a.w1) + u64_le_bytes(a.w2) + u64_le_bytes(a.w3)
}

/// Appends the little-endian bytes of `x` to `out`.
fn push_u64_le(out: &mut Vec<u8>, x: u64)
    ensures
        final(out)@ == old(out)@ + u64_le_bytes(x),
{
    out.push((x & 0xff) as u8);
    out.push(((x >> 8) & 0xff) as u8);
    out.push(((x >> 16) & 0xff) as u8);
    out.push(((x >> 24) & 0xff) as u8);
    out.push(((x >> 32) & 0xff) as u8);
    out.push(((x >> 40) & 0xff) as u8);
    out.push(((x >> 48) & 0xff) as u8);
    out.push(((x >> 56) & 0xff) as u8);
    assert(out@ =~= old(out)@ + u64_le_bytes(x));
}

/// The 64-bit little-endian bytes of `x` as an owned vector.
pub fn u64_to_le_vec(x: u64) -> (r: Vec<u8>)
    ensures
        r@ == u64_le_bytes(x),
{
    let mut out: Vec<u8> = Vec::new();
    push_u64_le(&mut out, x);
    assert(out@ =~= u64_le_bytes(x));
    out
}

/// The 32 bytes of an identity as an owned vector.
pub fn id_to_bytes(a: &AccountId) -> (r: Vec<u8>)
    ensures
        r@ == id_bytes(*a),
{
    let mut out: Vec<u8> = Vec::new();
    push_u64_le(&mut out, a.w0);
    push_u64_le(&mut out, a.w1);
    push_u64_le(&mut out, a.w2);
    push_u64_le(&mut out, a.w3);
    assert(out@ =~= id_bytes(*a));
    out
}

/// Reads one little-endian 64-bit word from `b` at offset `off`.
fn read_u64_le(b: &[u8], off: usize) -> (r: u64)
    requires
        off + 8 <= b@.len(),
{
    let mut x: u64 = 0;
    x = x | (b[off] as u64);
    x = x | ((b[off + 1] as u64) << 8);
    x = x | ((b[off + 2] as u64) << 16);
    x = x | ((b[off + 3] as u64) << 24);
    x = x | ((b[off + 4] as u64) << 32);
    x = x | ((b[off + 5] as u64) << 40);
    x = x | ((b[off + 6] as u64) << 48);
    x = x | ((b[off + 7] as u64) << 56);
    x
}

/// Packs 32 bytes into an identity, word by word, little-endian.
pub fn id_from_bytes(b: &[u8]) -> (r: AccountId)
    requires
        b@.len() == 32,
{
    AccountId {
        w0: read_u64_le(b, 0),
        w1: read_u64_le(b, 8),
        w2: read_u64_le(b, 16),
        w3: read_u64_le(b, 24),
    }
}

/// The derivation input of every entity and authority of the library: a
/// namespace tag plus the parent identities (and, where the parent can have
/// several children of one kind, a sequence number or a sibling identity).
#[derive(Clone, Copy, PartialEq, Eq, Structural, Debug)]
pub enum DerivationPath {
    /// A DAO record, child of its creating authority and a caller-chosen id.
    Dao { authority: AccountId, dao_id: u64 },
    /// The DAO's voting-weight token mint.
    TokenMint { dao: AccountId },
    /// The keyless identity allowed to mint the voting-weight token.
    MintAuthority { dao: AccountId },
    /// The DAO's treasury token account.
    Treasury { dao: AccountId },
    /// The keyless identity that authorizes treasury transfers.
    DaoAuthority { dao: AccountId },
    /// A membership record, child of a DAO and a wallet.
    Member { dao: AccountId, wallet: AccountId },
    /// A proposal record, child of a DAO and a 1-based sequence id.
    Proposal { dao: AccountId, proposal_id: u64 },
    /// A single-use ballot receipt, child of a proposal and a voter.
    VoterRecord { proposal: AccountId, voter: AccountId },
    /// A wallet's holding account for one token mint.
    TokenHolding { mint: AccountId, owner: AccountId },
}

/// The namespace tag of a derivation path, as ASCII bytes.
pub open spec fn path_tag(p: DerivationPath) -> Seq<u8> {
    match p {
        DerivationPath::Dao { .. } => seq!['d' as u8, 'a' as u8, 'o' as u8],
        DerivationPath::TokenMint { .. } => seq![
            't' as u8, 'o' as u8, 'k' as u8, 'e' as u8, 'n' as u8, '_' as u8, 'm' as u8, 'i' as u8, 'n' as u8, 't' as u8,
        ],
        DerivationPath::MintAuthority { .. } => seq![
            'm' as u8, 'i' as u8, 'n' as u8, 't' as u8, '_' as u8, 'a' as u8, 'u' as u8, 't' as u8, 'h' as u8,
        ],
        DerivationPath::Treasury { .. } => seq![
            't' as u8, 'r' as u8, 'e' as u8, 'a' as u8, 's' as u8, 'u' as u8, 'r' as u8, 'y' as u8,
        ],
        DerivationPath::DaoAuthority { .. } => seq![
            'd' as u8, 'a' as u8, 'o' as u8, '_' as u8, 'a' as u8, 'u' as u8, 't' as u8, 'h' as u8, 'o' as u8, 'r' as u8, 'i' as u8, 't' as u8, 'y' as u8,
        ],
        DerivationPath::Member { .. } => seq!['m' as u8, 'e' as u8, 'm' as u8, 'b' as u8, 'e' as u8, 'r' as u8],
        DerivationPath::Proposal { .. } => seq![
            'p' as u8, 'r' as u8, 'o' as u8, 'p' as u8, 'o' as u8, 's' as u8, 'a' as u8, 'l' as u8,
        ],
        DerivationPath::VoterRecord { .. } => seq![
            'v' as u8, 'o' as u8, 't' as u8, 'e' as u8, 'r' as u8, '_' as u8, 'r' as u8, 'e' as u8, 'c' as u8, 'o' as u8, 'r' as u8, 'd' as u8,
        ],
        DerivationPath::TokenHolding { .. } => seq![
            't' as u8, 'o' as u8, 'k' as u8, 'e' as u8, 'n' as u8, '_' as u8, 'h' as u8, 'o' as u8, 'l' as u8, 'd' as u8, 'i' as u8, 'n' as u8, 'g' as u8,
        ],
    }
}

/// The seed sequences of a derivation path: the namespace tag, then the
/// parents in a fixed order.
pub open spec fn path_seeds(p: DerivationPath) -> Seq<Seq<u8>> {
    match p {
        DerivationPath::Dao { authority, dao_id } => seq![
            path_tag(p),
            id_bytes(authority),
            u64_le_bytes(dao_id),
        ],
        DerivationPath::TokenMint { dao } => seq![path_tag(p), id_bytes(dao)],
        DerivationPath::MintAuthority { dao } => seq![path_tag(p), id_bytes(dao)],
        DerivationPath::Treasury { dao } => seq![path_tag(p), id_bytes(dao)],
        DerivationPath::DaoAuthority { dao } => seq![path_tag(p), id_bytes(dao)],
        DerivationPath::Member { dao, wallet } => seq![
            path_tag(p),
            id_bytes(dao),
            id_bytes(wallet),
        ],
        DerivationPath::Proposal { dao, proposal_id } => seq![
            path_tag(p),
            id_bytes(dao),
            u64_le_bytes(proposal_id),
        ],
        DerivationPath::VoterRecord { proposal, voter } => seq![
            path_tag(p),
            id_bytes(proposal),
            id_bytes(voter),
        ],
        DerivationPath::TokenHolding { mint, owner } => seq![
            path_tag(p),
            id_bytes(mint),
            id_bytes(owner),
        ],
    }
}

/// The ASCII tag of a derivation path as an owned vector.
fn tag_to_vec(p: &DerivationPath) -> (r: Vec<u8>)
    ensures
        r@ == path_tag(*p),
{
    let r: Vec<u8> = match p {
        DerivationPath::Dao { .. } => vec!['d' as u8, 'a' as u8, 'o' as u8],
        DerivationPath::TokenMint { .. } => vec![
            't' as u8, 'o' as u8, 'k' as u8, 'e' as u8, 'n' as u8, '_' as u8, 'm' as u8, 'i' as u8, 'n' as u8, 't' as u8,
        ],
        DerivationPath::MintAuthority { .. } => vec![
            'm' as u8, 'i' as u8, 'n' as u8, 't' as u8, '_' as u8, 'a' as u8, 'u' as u8, 't' as u8, 'h' as u8,
        ],
        DerivationPath::Treasury { .. } => vec![
            't' as u8, 'r' as u8, 'e' as u8, 'a' as u8, 's' as u8, 'u' as u8, 'r' as u8, 'y' as u8,
        ],
        DerivationPath::DaoAuthority { .. } => vec![
            'd' as u8, 'a' as u8, 'o' as u8, '_' as u8, 'a' as u8, 'u' as u8, 't' as u8, 'h' as u8, 'o' as u8, 'r' as u8, 'i' as u8, 't' as u8, 'y' as u8,
        ],
        DerivationPath::Member { .. } => vec!['m' as u8, 'e' as u8, 'm' as u8, 'b' as u8, 'e' as u8, 'r' as u8],
        DerivationPath::Proposal { .. } => vec![
            'p' as u8, 'r' as u8, 'o' as u8, 'p' as u8, 'o' as u8, 's' as u8, 'a' as u8, 'l' as u8,
        ],
        DerivationPath::VoterRecord { .. } => vec![
            'v' as u8, 'o' as u8, 't' as u8, 'e' as u8, 'r' as u8, '_' as u8, 'r' as u8, 'e' as u8, 'c' as u8, 'o' as u8, 'r' as u8, 'd' as u8,
        ],
        DerivationPath::TokenHolding { .. } => vec![
            't' as u8, 'o' as u8, 'k' as u8, 'e' as u8, 'n' as u8, '_' as u8, 'h' as u8, 'o' as u8, 'l' as u8, 'd' as u8, 'i' as u8, 'n' as u8, 'g' as u8,
        ],
    };
    proof {
        assert(r@ =~= path_tag(*p));
    }
    r
}

/// Builds the executable seed vectors of a derivation path.
pub fn build_seeds(p: &DerivationPath) -> (r: Vec<Vec<u8>>)
    ensures
        r.deep_view() == path_seeds(*p),
{
    let mut r: Vec<Vec<u8>> = Vec::new();
    r.push(tag_to_vec(p));
    match p {
        DerivationPath::Dao { authority, dao_id } => {
            r.push(id_to_bytes(authority));
            r.push(u64_to_le_vec(*dao_id));
        }
        DerivationPath::TokenMint { dao } => { r.push(id_to_bytes(dao)); }
        DerivationPath::MintAuthority { dao } => { r.push(id_to_bytes(dao)); }
        DerivationPath::Treasury { dao } => { r.push(id_to_bytes(dao)); }
        DerivationPath::DaoAuthority { dao } => { r.push(id_to_bytes(dao)); }
        DerivationPath::Member { dao, wallet } => {
            r.push(id_to_bytes(dao));
            r.push(id_to_bytes(wallet));
        }
        DerivationPath::Proposal { dao, proposal_id } => {
            r.push(id_to_bytes(dao));
            r.push(u64_to_le_vec(*proposal_id));
        }
        DerivationPath::VoterRecord { proposal, voter } => {
            r.push(id_to_bytes(proposal));
            r.push(id_to_bytes(voter));
        }
        DerivationPath::TokenHolding { mint, owner } => {
            r.push(id_to_bytes(mint));
            r.push(id_to_bytes(owner));
        }
    }
    proof {
        assert(r.deep_view() =~~= path_seeds(*p));
    }
    r
}

/// What the program-derived-address search returns for given seeds and
/// program id: the found identity and its salt, or nothing when the search
/// is exhausted.  The result depends on the arguments alone.
pub uninterp spec fn spec_find_program_address(seeds: Seq<Seq<u8>>, program: AccountId) -> Option<
    (AccountId, u8),
>;

/// What the single-salt derivation returns for given seeds (salt included as
/// the final one-byte seed) and program id.  The result depends on the
/// arguments alone.
pub uninterp spec fn spec_create_program_address(seeds: Seq<Seq<u8>>, program: AccountId) -> Option<
    AccountId,
>;

/// Relies on `solana_program::pubkey::Pubkey::try_find_program_address`: a
/// pure search over salts, whose result is a function of the seeds and the
/// program id alone; the pair it returns is, by its own construction, the
/// one that `create_program_address` yields for the returned salt.
#[verifier::external_body]
fn find_program_address_raw(seeds: &Vec<Vec<u8>>, program: &AccountId) -> (r: Option<
    (AccountId, u8),
>)
    ensures
        r == spec_find_program_address(seeds.deep_view(), *program),
        r matches Some(p) ==> spec_create_program_address(
            seeds.deep_view().push(seq![p.1]),
            *program,
        ) == Some(p.0),
{
    let refs: Vec<&[u8]> = seeds.iter().map(|s| s.as_slice()).collect();
    let pid = solana_program::pubkey::Pubkey::try_from(id_to_bytes(program).as_slice()).unwrap();
    match solana_program::pubkey::Pubkey::try_find_program_address(&refs, &pid) {
        None => None,
        Some((pk, bump)) => Some((id_from_bytes(&pk.to_bytes()), bump)),
    }
}

/// Relies on `solana_program::pubkey::Pubkey::create_program_address`: a pure
/// function of the seeds and the program id, failing when the derived hash
/// lands on the elliptic curve or a seed exceeds the ledger's seed limits.
#[verifier::external_body]
fn create_program_address_raw(seeds: &Vec<Vec<u8>>, program: &AccountId) -> (r: Option<AccountId>)
    ensures
        r == spec_create_program_address(seeds.deep_view(), *program),
{
    let refs: Vec<&[u8]> = seeds.iter().map(|s| s.as_slice()).collect();
    let pid = solana_program::pubkey::Pubkey::try_from(id_to_bytes(program).as_slice()).unwrap();
    match solana_program::pubkey::Pubkey::create_program_address(&refs, &pid) {
        Err(_) => None,
        Ok(pk) => Some(id_from_bytes(&pk.to_bytes())),
    }
}

/// The derived identity and salt of a path under a program id.
pub open spec fn derived_key(p: DerivationPath, program: AccountId) -> Option<(AccountId, u8)> {
    spec_find_program_address(path_seeds(p), program)
}

/// The identity a path derives to under one given salt.
pub open spec fn derived_key_at(p: DerivationPath, bump: u8, program: AccountId) -> Option<
    AccountId,
> {
    spec_create_program_address(path_seeds(p).push(seq![bump]), program)
}

/// Derives the identity and salt of a path; fails deterministically when the
/// salt search is exhausted.  A found salt must be persisted by the caller
/// and replayed through `derive_at` on every later authorization.
pub fn derive_address(p: &DerivationPath, program: &AccountId) -> (r: Option<(AccountId, u8)>)
    ensures
        r == derived_key(*p, *program),
        r matches Some(pair) ==> derived_key_at(*p, pair.1, *program) == Some(pair.0),
{
    let seeds = build_seeds(p);
    find_program_address_raw(&seeds, program)
}

/// Replays a derivation under a persisted salt.
pub fn derive_at(p: &DerivationPath, bump: u8, program: &AccountId) -> (r: Option<AccountId>)
    ensures
        r == derived_key_at(*p, bump, *program),
{
    let mut seeds = build_seeds(p);
    let mut last: Vec<u8> = Vec::new();
    last.push(bump);
    seeds.push(last);
    proof {
        assert(last@ =~= seq![bump]);
        assert(seeds.deep_view() =~~= path_seeds(*p).push(seq![bump]));
    }
    create_program_address_raw(&seeds, program)
}

} // verus!
