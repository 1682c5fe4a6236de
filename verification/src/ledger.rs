//! What the core sees of the ledger, and what it asks of it.
//!
//! A handler reads accounts as snapshots ([`AccountInfo`]), derives the
//! addresses that the pool's accounts must have, and answers with a list of
//! [`Effect`]s. It changes no balance itself: the caller hands the effects to
//! the ledger, which applies all of them or none.

use vstd::prelude::*;
use crate::bytes::{Pubkey, le_u64, read_pubkey, read_u64_le};
use crate::error::ProgramError;

verus! {

/// One account as the ledger shows it at the start of an operation.
#[derive(Debug, Clone, PartialEq, Eq)]
pub struct AccountInfo {
    /// The account's address.
    pub key: Pubkey,
    /// The program that owns the account.
    pub owner: Pubkey,
    /// Whether the account signed the operation.
    pub is_signer: bool,
    /// The account's data.
    pub data: Vec<u8>,
}

impl AccountInfo {
    /// The account's address.
    pub fn key(&self) -> (key: &Pubkey)
        ensures
            *key == self.key,
    {
        &self.key
    }

    /// The program that owns the account.
    pub fn owner(&self) -> (owner: &Pubkey)
        ensures
            *owner == self.owner,
    {
        &self.owner
    }

    /// Whether the account signed the operation.
    pub fn is_signer(&self) -> (signed: bool)
        ensures
            signed == self.is_signer,
    {
        self.is_signer
    }

    /// The length of the account's data.
    pub fn data_len(&self) -> (len: usize)
        ensures
            len == self.data@.len(),
    {
        self.data.len()
    }

    /// Whether `program` owns the account.
    pub fn is_owned_by(&self, program: &Pubkey) -> (owned: bool)
        ensures
            owned == (self.owner@ == program@),
    {
        crate::bytes::pubkey_eq(&self.owner, program)
    }
}

/// The address that an outside derivation makes of a complete list of seeds
/// under a program, without a search, or `None` where the seeds make none.
/// It is a function of the seeds and the program alone.
pub uninterp spec fn created_program_address(seeds: Seq<Seq<u8>>, program_id: Seq<u8>) -> Option<Seq<u8>>;

/// The address and bump seed that an outside derivation finds for a list of
/// seeds under a program, or `None` where it finds none. It is a function
/// of the seeds and the program alone.
pub uninterp spec fn found_program_address(seeds: Seq<Seq<u8>>, program_id: Seq<u8>) -> Option<(Seq<u8>, u8)>;

/// A list of seeds as the sequences of bytes that they hold.
pub open spec fn seeds_view(seeds: Seq<Vec<u8>>) -> Seq<Seq<u8>> {
    Seq::new(seeds.len(), |i: int| seeds[i]@)
}

/// `pinocchio::Address::create_program_address`: the program-derived
/// address that `seeds` make under `program_id`. The call hashes the seeds
/// and the program and refuses a hash that is a curve point, more than 16
/// seeds and a seed of over 32 bytes; a refusal comes back as `None`. The
/// contract claims only that the answer depends on nothing but the two
/// arguments, and gives it the name [`created_program_address`].
#[verifier::external_body]
pub(crate) fn create_program_address(seeds: &Vec<Vec<u8>>, program_id: &Pubkey) -> (made: Option<
    Pubkey,
>)
    ensures
        match made {
            Some(address) => created_program_address(seeds_view(seeds@), program_id@) == Some(
                address@,
            ),
            None => created_program_address(seeds_view(seeds@), program_id@).is_none(),
        },
{
    let parts: Vec<&[u8]> = seeds.iter().map(|seed| seed.as_slice()).collect();
    let program = pinocchio::Address::new_from_array(*program_id);
    match pinocchio::Address::create_program_address(&parts, &program) {
        Ok(address) => Some(address.to_bytes()),
        Err(_) => None,
    }
}

/// `pinocchio::Address::try_find_program_address`: the program-derived
/// address for `seeds` under `program_id`, with the bump seed that was
/// appended to reach it. The call tries the bumps from 255 down and returns
/// the first address that `create_program_address` makes of the seeds with
/// the bump as one more seed; it returns `None` for 16 seeds or more, for a
/// seed of over 32 bytes, and where no bump fits. The contract claims that
/// the answer depends on nothing but the two arguments, names it
/// [`found_program_address`], and says that the seeds with the bump make the
/// address found.
#[verifier::external_body]
pub(crate) fn try_find_program_address(seeds: &Vec<Vec<u8>>, program_id: &Pubkey) -> (found: Option<
    (Pubkey, u8),
>)
    ensures
        match found {
            Some((address, bump)) => {
                &&& found_program_address(seeds_view(seeds@), program_id@) == Some((address@, bump))
                &&& created_program_address(seeds_view(seeds@).push(seq![bump]), program_id@)
                    == Some(address@)
            },
            None => found_program_address(seeds_view(seeds@), program_id@).is_none(),
        },
{
    let parts: Vec<&[u8]> = seeds.iter().map(|seed| seed.as_slice()).collect();
    let program = pinocchio::Address::new_from_array(*program_id);
    match pinocchio::Address::try_find_program_address(&parts, &program) {
        Some((address, bump)) => Some((address.to_bytes(), bump)),
        None => None,
    }
}

/// The address of the token program.
pub open spec fn token_program_address() -> Pubkey {
    [
        6u8, 221, 246, 225, 215, 101, 161, 147, 217, 203, 225, 70, 206, 235, 121, 172, 28, 180, 133,
        237, 95, 91, 55, 145, 58, 140, 245, 133, 126, 255, 0, 169,
    ]
}

/// The address of the program that creates associated token accounts.
pub open spec fn associated_token_program_address() -> Pubkey {
    [
        140u8, 151, 37, 143, 78, 36, 137, 241, 187, 61, 16, 41, 20, 142, 13, 131, 11, 90, 19, 153,
        218, 255, 16, 132, 4, 142, 123, 216, 219, 233, 248, 89,
    ]
}

/// The bytes of the token program's address.
pub open spec fn token_program_key() -> Seq<u8> {
    token_program_address()@
}

/// The bytes of the associated-token-account program's address.
pub open spec fn associated_token_program_key() -> Seq<u8> {
    associated_token_program_address()@
}

/// `pinocchio_token::ID`: the address of the token program. The contract
/// gives its 32 bytes.
#[verifier::external_body]
pub(crate) fn token_program_id() -> (id: Pubkey)
    ensures
        id == token_program_address(),
{
    pinocchio_token::ID.to_bytes()
}

/// `pinocchio_associated_token_account::ID`: the address of the program that
/// creates associated token accounts. The contract gives its 32 bytes.
#[verifier::external_body]
pub(crate) fn associated_token_program_id() -> (id: Pubkey)
    ensures
        id == associated_token_program_address(),
{
    pinocchio_associated_token_account::ID.to_bytes()
}

/// `pinocchio_token::state::Mint::LEN`: the size of an asset-type record,
/// 82 bytes.
#[verifier::external_body]
pub(crate) fn mint_record_len() -> (len: usize)
    ensures
        len == 82,
{
    pinocchio_token::state::Mint::LEN
}

/// `pinocchio_token::state::Account::LEN`: the size of a token-holding
/// record, 165 bytes.
#[verifier::external_body]
pub(crate) fn token_record_len() -> (len: usize)
    ensures
        len == 165,
{
    pinocchio_token::state::Account::LEN
}

/// The bytes of the word `config`, the first seed of a pool's own address.
pub open spec fn config_seed() -> Seq<u8> {
    seq![99u8, 111, 110, 102, 105, 103]
}

/// The bytes of the word `lp_mint`, the first seed of a share asset's
/// address.
pub open spec fn lp_mint_seed() -> Seq<u8> {
    seq![108u8, 112, 95, 109, 105, 110, 116]
}

/// A complete seed sequence that makes one of the pool's addresses, and
/// which the pool presents in place of a signature.
#[derive(Debug, Clone, Copy, PartialEq, Eq)]
pub enum Seeds {
    /// The word `config` and the pool's salt: the pool's own address.
    Config { bump: u8 },
    /// The word `lp_mint`, the pool's address and the bump seed that was
    /// found for the two: the share asset.
    LpMint { config: Pubkey, bump: u8 },
}

impl Seeds {
    /// The seeds as byte sequences, in order.
    pub open spec fn spec_parts(self) -> Seq<Seq<u8>> {
        match self {
            Seeds::Config { bump } => seq![config_seed(), seq![bump]],
            Seeds::LpMint { config, bump } => seq![lp_mint_seed(), config@, seq![bump]],
        }
    }

    /// The seeds as byte sequences, in order.
    pub fn parts(&self) -> (parts: Vec<Vec<u8>>)
        ensures
            seeds_view(parts@) == self.spec_parts(),
    {
        let mut parts: Vec<Vec<u8>> = Vec::new();
        match self {
            Seeds::Config { bump } => {
                parts.push(config_word());
                parts.push(one_byte(*bump));
            },
            Seeds::LpMint { config, bump } => {
                parts.push(lp_mint_word());
                parts.push(key_bytes(config));
                parts.push(one_byte(*bump));
            },
        }
        assert(seeds_view(parts@) =~= self.spec_parts());
        parts
    }
}

/// The word `config` as bytes.
fn config_word() -> (word: Vec<u8>)
    ensures
        word@ == config_seed(),
{
    let word: Vec<u8> = vec![99u8, 111, 110, 102, 105, 103];
    assert(word@ =~= config_seed());
    word
}

/// The word `lp_mint` as bytes.
fn lp_mint_word() -> (word: Vec<u8>)
    ensures
        word@ == lp_mint_seed(),
{
    let word: Vec<u8> = vec![108u8, 112, 95, 109, 105, 110, 116];
    assert(word@ =~= lp_mint_seed());
    word
}

/// A seed of one byte.
fn one_byte(byte: u8) -> (seed: Vec<u8>)
    ensures
        seed@ == seq![byte],
{
    let seed: Vec<u8> = vec![byte];
    assert(seed@ =~= seq![byte]);
    seed
}

/// The 32 bytes of an address, as a vector.
pub fn key_bytes(key: &Pubkey) -> (bytes: Vec<u8>)
    ensures
        bytes@ == key@,
{
    let mut bytes: Vec<u8> = Vec::new();
    let mut i: usize = 0;
    while i < 32
        invariant
            i <= 32,
            bytes@.len() == i,
            forall|j: int| 0 <= j < i ==> bytes@[j] == key@[j],
        decreases 32 - i,
    {
        bytes.push(key[i]);
        i += 1;
    }
    assert(bytes@ =~= key@);
    bytes
}

/// The address at which a pool with the salt `salt` stores its record: the
/// one that the word `config` and the salt make, without a search.
pub open spec fn expected_address(salt: u8, program_id: Seq<u8>) -> Option<Seq<u8>> {
    created_program_address(Seeds::Config { bump: salt }.spec_parts(), program_id)
}

/// The address of the share asset of the pool at `pool_address`, with its
/// bump seed: the one found for the word `lp_mint` and the pool's address.
pub open spec fn expected_share_asset(pool_address: Seq<u8>, program_id: Seq<u8>) -> Option<
    (Seq<u8>, u8),
> {
    found_program_address(seq![lp_mint_seed(), pool_address], program_id)
}

/// Derives the address of the pool with the salt `salt`, without a search.
/// `None` where the salt makes no address.
pub fn derive_expected_address(salt: u8, program_id: &Pubkey) -> (address: Option<Pubkey>)
    ensures
        match address {
            Some(key) => expected_address(salt, program_id@) == Some(key@),
            None => expected_address(salt, program_id@).is_none(),
        },
{
    let parts: Vec<Vec<u8>> = Seeds::Config { bump: salt }.parts();
    create_program_address(&parts, program_id)
}

/// Derives the address of the share asset of the pool at `pool_address`,
/// with the bump seed that completes its seeds. `None` where no bump fits.
pub fn derive_expected_share_asset(pool_address: &Pubkey, program_id: &Pubkey) -> (found: Option<
    (Pubkey, u8),
>)
    ensures
        match found {
            Some((key, bump)) => {
                &&& expected_share_asset(pool_address@, program_id@) == Some((key@, bump))
                &&& created_program_address(
                    Seeds::LpMint { config: *pool_address, bump }.spec_parts(),
                    program_id@,
                ) == Some(key@)
            },
            None => expected_share_asset(pool_address@, program_id@).is_none(),
        },
{
    let mut parts: Vec<Vec<u8>> = Vec::new();
    parts.push(lp_mint_word());
    parts.push(key_bytes(pool_address));
    assert(seeds_view(parts@) =~= seq![lp_mint_seed(), pool_address@]);
    let found = try_find_program_address(&parts, program_id);
    proof {
        if let Some((key, bump)) = found {
            assert(seeds_view(parts@).push(seq![bump]) =~= (Seeds::LpMint {
                config: *pool_address,
                bump,
            }).spec_parts());
        }
    }
    found
}

/// What the address of an associated token account is derived from: the
/// holder, the token program and the asset, under the program that creates
/// such accounts.
pub open spec fn associated_token_address(wallet: Seq<u8>, mint: Seq<u8>) -> Option<(Seq<u8>, u8)> {
    found_program_address(
        seq![wallet, token_program_key(), mint],
        associated_token_program_key(),
    )
}

/// The address of the account in which `wallet` holds the asset `mint`,
/// with its bump seed, or `None` where there is none.
pub fn find_associated_token_address(wallet: &Pubkey, mint: &Pubkey) -> (found: Option<
    (Pubkey, u8),
>)
    ensures
        match found {
            Some((address, bump)) => associated_token_address(wallet@, mint@) == Some(
                (address@, bump),
            ),
            None => associated_token_address(wallet@, mint@).is_none(),
        },
{
    let mut parts: Vec<Vec<u8>> = Vec::new();
    let token_program: Pubkey = token_program_id();
    parts.push(key_bytes(wallet));
    parts.push(key_bytes(&token_program));
    parts.push(key_bytes(mint));
    assert(seeds_view(parts@) =~= seq![wallet@, token_program_key(), mint@]);
    let program: Pubkey = associated_token_program_id();
    try_find_program_address(&parts, &program)
}

/// Who authorizes a change of balance.
#[derive(Debug, Clone, Copy, PartialEq, Eq)]
pub enum Authority {
    /// An account that signed the operation.
    Signer { key: Pubkey },
    /// An address of the pool, which signs by presenting the seeds that
    /// derive it.
    Derived { key: Pubkey, seeds: Seeds },
}

impl Authority {
    /// Whether the authority can sign under `program_id`: an address of the
    /// pool can where its seeds make that address.
    pub open spec fn signs_under(self, program_id: Seq<u8>) -> bool {
        match self {
            Authority::Signer { key } => true,
            Authority::Derived { key, seeds } => created_program_address(
                seeds.spec_parts(),
                program_id,
            ) == Some(key@),
        }
    }
}

/// One change that a handler asks the ledger to make.
#[derive(Debug, Clone, Copy, PartialEq, Eq)]
pub enum Effect {
    /// Create `account` with `space` bytes of data, paid by `payer`, owned
    /// by `owner`, at the address that `seeds` derive.
    CreateAccount { payer: Pubkey, account: Pubkey, space: u64, owner: Pubkey, seeds: Seeds },
    /// Create `account` as the account in which `wallet` holds the asset
    /// `mint`, paid by `funder`.
    CreateAssociatedAccount { funder: Pubkey, account: Pubkey, wallet: Pubkey, mint: Pubkey },
    /// Move `amount` from one token account to another.
    Transfer { from: Pubkey, to: Pubkey, amount: u64, authority: Authority },
    /// Mint `amount` of the asset `mint` to `account`.
    MintTo { mint: Pubkey, account: Pubkey, amount: u64, authority: Authority },
    /// Burn `amount` of the asset `mint` from `account`.
    Burn { mint: Pubkey, account: Pubkey, amount: u64, authority: Authority },
}

impl Effect {
    /// Whether the ledger will find the effect signed for under
    /// `program_id`, as far as the program's own addresses go: the seeds
    /// that an effect presents make the address that they stand for.
    pub open spec fn signed_under(self, program_id: Seq<u8>) -> bool {
        match self {
            Effect::CreateAccount { account, seeds, .. } => created_program_address(
                seeds.spec_parts(),
                program_id,
            ) == Some(account@),
            Effect::CreateAssociatedAccount { .. } => true,
            Effect::Transfer { authority, .. } => authority.signs_under(program_id),
            Effect::MintTo { authority, .. } => authority.signs_under(program_id),
            Effect::Burn { authority, .. } => authority.signs_under(program_id),
        }
    }
}

/// The asset that a token-holding record names: its first 32 bytes.
pub open spec fn token_mint(data: Seq<u8>) -> Seq<u8> {
    data.subrange(0, 32)
}

/// The holder that a token-holding record names: its bytes 32 to 64.
pub open spec fn token_owner(data: Seq<u8>) -> Seq<u8> {
    data.subrange(32, 64)
}

/// The balance of a token-holding record: its bytes 64 to 72, low byte
/// first.
pub open spec fn token_amount(data: Seq<u8>) -> int {
    le_u64(data.subrange(64, 72))
}

/// The supply of an asset-type record: its bytes 36 to 44, low byte first.
pub open spec fn mint_supply(data: Seq<u8>) -> int {
    le_u64(data.subrange(36, 44))
}

/// What a token-holding record says: the asset, the holder, the balance.
#[derive(Debug, Clone, Copy, PartialEq, Eq)]
pub struct TokenBalance {
    pub mint: Pubkey,
    pub owner: Pubkey,
    pub amount: u64,
}

/// Reads a token-holding record. Fails with `InvalidAccountData` unless the
/// data have the size of such a record.
pub fn read_token_balance(account: &AccountInfo) -> (outcome: Result<TokenBalance, ProgramError>)
    ensures
        match outcome {
            Ok(balance) => {
                &&& account.data@.len() == 165
                &&& balance.mint@ == token_mint(account.data@)
                &&& balance.owner@ == token_owner(account.data@)
                &&& balance.amount == token_amount(account.data@)
            },
            Err(e) => e == ProgramError::InvalidAccountData && account.data@.len() != 165,
        },
{
    if account.data_len() != token_record_len() {
        return Err(ProgramError::InvalidAccountData);
    }
    let data: &[u8] = account.data.as_slice();
    Ok(
        TokenBalance {
            mint: read_pubkey(data, 0),
            owner: read_pubkey(data, 32),
            amount: read_u64_le(data, 64),
        },
    )
}

/// Reads the supply of an asset-type record. Fails with `InvalidAccountData`
/// unless the data have the size of such a record.
pub fn read_mint_supply(account: &AccountInfo) -> (outcome: Result<u64, ProgramError>)
    ensures
        match outcome {
            Ok(supply) => account.data@.len() == 82 && supply == mint_supply(account.data@),
            Err(e) => e == ProgramError::InvalidAccountData && account.data@.len() != 82,
        },
{
    if account.data_len() != mint_record_len() {
        return Err(ProgramError::InvalidAccountData);
    }
    Ok(read_u64_le(account.data.as_slice(), 36))
}

} // verus!
