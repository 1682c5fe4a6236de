//! The checks that every handler runs on the accounts it is given, and the
//! requests with which accounts are created.

use vstd::prelude::*;
use crate::bytes::{Pubkey, pubkey_eq};
use crate::error::{PinocchioError, ProgramError, pool_failure};
use crate::ledger::{
    AccountInfo, Effect, Seeds, associated_token_address, created_program_address,
    derive_expected_address, derive_expected_share_asset, expected_address,
    expected_share_asset, find_associated_token_address, mint_record_len, token_program_id,
    token_program_key, token_record_len,
};

verus! {

/// A check on one account.
pub trait AccountCheck {
    /// What the check answers for `account`.
    spec fn checked(account: &AccountInfo) -> Result<(), ProgramError>;

    /// Runs the check.
    fn check(account: &AccountInfo) -> (outcome: Result<(), ProgramError>)
        ensures
            outcome == Self::checked(account),
    ;
}

/// The check that an account signed the operation.
pub struct SignerAccount;

impl AccountCheck for SignerAccount {
    open spec fn checked(account: &AccountInfo) -> Result<(), ProgramError> {
        if !account.is_signer {
            Err(ProgramError::MissingRequiredSignature)
        } else {
            Ok(())
        }
    }

    fn check(account: &AccountInfo) -> (outcome: Result<(), ProgramError>) {
        if !account.is_signer() {
            return Err(ProgramError::MissingRequiredSignature);
        }
        Ok(())
    }
}

/// The check that an account has the size of an asset-type record.
pub struct MintInterface;

impl AccountCheck for MintInterface {
    open spec fn checked(account: &AccountInfo) -> Result<(), ProgramError> {
        if account.data@.len() != 82 {
            Err(ProgramError::InvalidAccountData)
        } else {
            Ok(())
        }
    }

    fn check(account: &AccountInfo) -> (outcome: Result<(), ProgramError>) {
        if account.data_len() != mint_record_len() {
            return Err(ProgramError::InvalidAccountData);
        }
        Ok(())
    }
}

/// The check that an account is a token-holding record: the token program
/// owns it, and it has the size of such a record.
pub struct TokenAccount;

impl AccountCheck for TokenAccount {
    open spec fn checked(account: &AccountInfo) -> Result<(), ProgramError> {
        if account.owner@ != token_program_key() {
            Err(ProgramError::IllegalOwner)
        } else if account.data@.len() != 165 {
            Err(ProgramError::InvalidAccountData)
        } else {
            Ok(())
        }
    }

    fn check(account: &AccountInfo) -> (outcome: Result<(), ProgramError>) {
        let token_program: Pubkey = token_program_id();
        if !account.is_owned_by(&token_program) {
            return Err(ProgramError::IllegalOwner);
        }
        if account.data_len() != token_record_len() {
            return Err(ProgramError::InvalidAccountData);
        }
        Ok(())
    }
}

/// The request to create an account at an address of the program.
pub trait ProgramAccountInit {
    /// The request to create `account` with `space` bytes for a record of
    /// the kind `T`, paid by `payer`, owned by `owner` and signed with
    /// `seeds`.
    fn init<T: Sized>(
        payer: &AccountInfo,
        account: &AccountInfo,
        seeds: Seeds,
        space: usize,
        owner: &Pubkey,
    ) -> (effect: Effect)
        ensures
            effect == (Effect::CreateAccount {
                payer: payer.key,
                account: account.key,
                space: space as u64,
                owner: *owner,
                seeds,
            }),
    ;
}

/// The accounts that the program creates at its own addresses.
pub struct ProgramAccount;

impl ProgramAccountInit for ProgramAccount {
    fn init<T: Sized>(
        payer: &AccountInfo,
        account: &AccountInfo,
        seeds: Seeds,
        space: usize,
        owner: &Pubkey,
    ) -> (effect: Effect) {
        Effect::CreateAccount {
            payer: payer.key,
            account: account.key,
            space: space as u64,
            owner: *owner,
            seeds,
        }
    }
}

/// A check on the account in which a holder keeps an asset.
pub trait AssociatedTokenAccountCheck {
    /// What the check answers.
    spec fn checked(account: &AccountInfo, authority: &AccountInfo, mint: &AccountInfo) -> Result<
        (),
        ProgramError,
    >;

    /// Runs the check.
    fn check(account: &AccountInfo, authority: &AccountInfo, mint: &AccountInfo) -> (outcome: Result<
        (),
        ProgramError,
    >)
        ensures
            outcome == Self::checked(account, authority, mint),
    ;
}

/// The requests that create the account in which a holder keeps an asset.
pub trait AssociatedTokenAccountInit {
    /// What [`AssociatedTokenAccountInit::init_if_needed`] answers.
    spec fn needed(
        ata: &AccountInfo,
        mint: &AccountInfo,
        authority: &AccountInfo,
        owner: &AccountInfo,
    ) -> Option<Effect>;

    /// The request to create `ata` as the account in which `owner` holds
    /// the asset `mint`, paid by `authority`.
    fn init(
        ata: &AccountInfo,
        mint: &AccountInfo,
        authority: &AccountInfo,
        owner: &AccountInfo,
        system_program: &AccountInfo,
        token_program: &AccountInfo,
    ) -> (effect: Effect)
        ensures
            effect == (Effect::CreateAssociatedAccount {
                funder: authority.key,
                account: ata.key,
                wallet: owner.key,
                mint: mint.key,
            }),
    ;

    /// The request of [`AssociatedTokenAccountInit::init`] where `ata` is
    /// not yet such an account, and no request where it is.
    fn init_if_needed(
        ata: &AccountInfo,
        mint: &AccountInfo,
        authority: &AccountInfo,
        owner: &AccountInfo,
        system_program: &AccountInfo,
        token_program: &AccountInfo,
    ) -> (effect: Option<Effect>)
        ensures
            effect == Self::needed(ata, mint, authority, owner),
    ;
}

/// The account in which a holder keeps an asset, at the address derived
/// from the holder and the asset.
pub struct AssociatedTokenAccount;

impl AssociatedTokenAccount {
    /// What [`AssociatedTokenAccount::check_address`] answers: whether the
    /// account's address is the one derived from the holder and the asset.
    pub open spec fn address_checked(
        account: &AccountInfo,
        authority: &AccountInfo,
        mint: &AccountInfo,
    ) -> Result<(), ProgramError> {
        without_bump(
            found_matched(
                associated_token_address(authority.key@, mint.key@),
                account.key@,
                ProgramError::InvalidAccountData,
            ),
        )
    }

    /// Checks that `account` lies at the address derived from the holder
    /// `authority` and the asset `mint`, whether or not it exists yet.
    ///
    /// Fails with `InvalidSeeds` where no address can be derived, and with
    /// `InvalidAccountData` where the account lies elsewhere.
    pub fn check_address(account: &AccountInfo, authority: &AccountInfo, mint: &AccountInfo) -> (outcome:
        Result<(), ProgramError>)
        ensures
            outcome == Self::address_checked(account, authority, mint),
    {
        let found = find_associated_token_address(authority.key(), mint.key());
        match match_found_address(found, account.key(), ProgramError::InvalidAccountData) {
            Ok(_) => Ok(()),
            Err(e) => Err(e),
        }
    }
}

impl AssociatedTokenAccountCheck for AssociatedTokenAccount {
    /// The account is a token-holding record, and lies at the address
    /// derived from the holder and the asset.
    open spec fn checked(account: &AccountInfo, authority: &AccountInfo, mint: &AccountInfo) -> Result<
        (),
        ProgramError,
    > {
        if TokenAccount::checked(account) is Err {
            TokenAccount::checked(account)
        } else {
            AssociatedTokenAccount::address_checked(account, authority, mint)
        }
    }

    fn check(account: &AccountInfo, authority: &AccountInfo, mint: &AccountInfo) -> (outcome: Result<
        (),
        ProgramError,
    >) {
        TokenAccount::check(account)?;
        AssociatedTokenAccount::check_address(account, authority, mint)
    }
}

impl AssociatedTokenAccountInit for AssociatedTokenAccount {
    open spec fn needed(
        ata: &AccountInfo,
        mint: &AccountInfo,
        authority: &AccountInfo,
        owner: &AccountInfo,
    ) -> Option<Effect> {
        if <AssociatedTokenAccount as AssociatedTokenAccountCheck>::checked(ata, authority, mint)
            is Ok {
            None
        } else {
            Some(
                Effect::CreateAssociatedAccount {
                    funder: authority.key,
                    account: ata.key,
                    wallet: owner.key,
                    mint: mint.key,
                },
            )
        }
    }

    fn init(
        ata: &AccountInfo,
        mint: &AccountInfo,
        authority: &AccountInfo,
        owner: &AccountInfo,
        system_program: &AccountInfo,
        token_program: &AccountInfo,
    ) -> (effect: Effect) {
        Effect::CreateAssociatedAccount {
            funder: authority.key,
            account: ata.key,
            wallet: owner.key,
            mint: mint.key,
        }
    }

    fn init_if_needed(
        ata: &AccountInfo,
        mint: &AccountInfo,
        authority: &AccountInfo,
        owner: &AccountInfo,
        system_program: &AccountInfo,
        token_program: &AccountInfo,
    ) -> (effect: Option<Effect>) {
        match <AssociatedTokenAccount as AssociatedTokenAccountCheck>::check(ata, authority, mint) {
            Ok(_) => None,
            Err(_) => Some(Self::init(ata, mint, authority, owner, system_program, token_program)),
        }
    }
}

/// What the ledger holds at `before`'s address once it has created the
/// associated token account there: a record of the token program, of the
/// size of a token-holding record.
pub open spec fn created_as_token_account(before: &AccountInfo, after: &AccountInfo) -> bool {
    &&& after.key == before.key
    &&& after.owner@ == token_program_key()
    &&& after.data@.len() == 165
}

/// Lazy creation is idempotent. Let `ata` lie at the address derived from
/// the holder and the asset, and let `after` be the account once the ledger
/// has applied what a first call asked for: unchanged where nothing was
/// asked, created where creation was. A second call asks for nothing, so
/// the account stays as the first call left it.
pub proof fn lemma_init_if_needed_idempotent(
    ata: AccountInfo,
    after: AccountInfo,
    mint: AccountInfo,
    authority: AccountInfo,
    owner: AccountInfo,
)
    requires
        AssociatedTokenAccount::address_checked(&ata, &authority, &mint) is Ok,
        match AssociatedTokenAccount::needed(&ata, &mint, &authority, &owner) {
            None => after == ata,
            Some(_) => created_as_token_account(&ata, &after),
        },
    ensures
        AssociatedTokenAccount::needed(&after, &mint, &authority, &owner) is None,
{
}

/// The first of two checks that fails, if any.
pub open spec fn both(first: Result<(), ProgramError>, second: Result<(), ProgramError>) -> Result<
    (),
    ProgramError,
> {
    if first is Err {
        first
    } else {
        second
    }
}

/// A derived address as the bytes it holds.
pub open spec fn made_view(made: Option<Pubkey>) -> Option<Seq<u8>> {
    match made {
        Some(address) => Some(address@),
        None => None,
    }
}

/// A found address and its bump seed, the address as the bytes it holds.
pub open spec fn found_view(found: Option<(Pubkey, u8)>) -> Option<(Seq<u8>, u8)> {
    match found {
        Some((address, bump)) => Some((address@, bump)),
        None => None,
    }
}

/// What the comparison of a derived address with a claimed one answers:
/// `InvalidSeeds` where nothing was derived, `failure` where the address
/// derived is another than the one claimed.
pub open spec fn address_matched(made: Option<Seq<u8>>, claimed: Seq<u8>, failure: ProgramError) -> Result<
    (),
    ProgramError,
> {
    match made {
        None => Err(ProgramError::InvalidSeeds),
        Some(address) => if address != claimed {
            Err(failure)
        } else {
            Ok(())
        },
    }
}

/// What the comparison of a found address with a claimed one answers: as
/// [`address_matched`], and on success the bump seed that was found with
/// the address.
pub open spec fn found_matched(
    found: Option<(Seq<u8>, u8)>,
    claimed: Seq<u8>,
    failure: ProgramError,
) -> Result<u8, ProgramError> {
    match found {
        None => Err(ProgramError::InvalidSeeds),
        Some((address, bump)) => if address != claimed {
            Err(failure)
        } else {
            Ok(bump)
        },
    }
}

/// The answer of a comparison without the bump seed.
pub open spec fn without_bump(matched: Result<u8, ProgramError>) -> Result<(), ProgramError> {
    match matched {
        Ok(_) => Ok(()),
        Err(e) => Err(e),
    }
}

/// Compares an address that was derived without a search with the address
/// that the caller claims.
pub fn match_derived_address(made: Option<Pubkey>, claimed: &Pubkey, failure: ProgramError) -> (outcome:
    Result<(), ProgramError>)
    ensures
        outcome == address_matched(made_view(made), claimed@, failure),
{
    match made {
        None => Err(ProgramError::InvalidSeeds),
        Some(address) => {
            if !pubkey_eq(&address, claimed) {
                Err(failure)
            } else {
                Ok(())
            }
        },
    }
}

/// Compares an address that a search found with the address that the
/// caller claims, and hands on the bump seed of the search.
pub fn match_found_address(found: Option<(Pubkey, u8)>, claimed: &Pubkey, failure: ProgramError) -> (outcome:
    Result<u8, ProgramError>)
    ensures
        outcome == found_matched(found_view(found), claimed@, failure),
{
    match found {
        None => Err(ProgramError::InvalidSeeds),
        Some((address, bump)) => {
            if !pubkey_eq(&address, claimed) {
                Err(failure)
            } else {
                Ok(bump)
            }
        },
    }
}

/// Whether `claimed` is the address of the pool with the salt `salt`:
/// `InvalidSeeds` where the salt makes no address, `InvalidConfig` where it
/// makes another.
pub open spec fn pool_address_checked(salt: u8, program_id: Seq<u8>, claimed: Seq<u8>) -> Result<
    (),
    ProgramError,
> {
    address_matched(
        expected_address(salt, program_id),
        claimed,
        pool_failure(PinocchioError::InvalidConfig),
    )
}

/// Derives the pool's address from its salt again, without a search, and
/// compares it with the address that the caller claims.
pub fn check_pool_address(salt: u8, program_id: &Pubkey, claimed: &Pubkey) -> (outcome: Result<
    (),
    ProgramError,
>)
    ensures
        outcome == pool_address_checked(salt, program_id@, claimed@),
{
    let made = derive_expected_address(salt, program_id);
    match_derived_address(made, claimed, ProgramError::from(PinocchioError::InvalidConfig))
}

/// Whether `claimed` is the address of the share asset of the pool at
/// `pool_address`, and with which bump seed: `InvalidSeeds` where none is
/// found, `failure` where the one found is another.
pub open spec fn share_asset_matched(
    pool_address: Seq<u8>,
    program_id: Seq<u8>,
    claimed: Seq<u8>,
    failure: ProgramError,
) -> Result<u8, ProgramError> {
    found_matched(expected_share_asset(pool_address, program_id), claimed, failure)
}

/// Whether `claimed` is the address of the share asset of the pool at
/// `pool_address`: [`share_asset_matched`] without the bump seed.
pub open spec fn share_asset_checked(
    pool_address: Seq<u8>,
    program_id: Seq<u8>,
    claimed: Seq<u8>,
    failure: ProgramError,
) -> Result<(), ProgramError> {
    without_bump(share_asset_matched(pool_address, program_id, claimed, failure))
}

/// Derives the share asset's address from the pool's again and compares it
/// with the address that the caller claims. On success the answer is the
/// bump seed that completes the share asset's seeds.
pub fn check_share_asset(
    pool_address: &Pubkey,
    program_id: &Pubkey,
    claimed: &Pubkey,
    failure: ProgramError,
) -> (outcome: Result<u8, ProgramError>)
    ensures
        outcome == share_asset_matched(pool_address@, program_id@, claimed@, failure),
        outcome matches Ok(bump) ==> created_program_address(
            (Seeds::LpMint { config: *pool_address, bump }).spec_parts(),
            program_id@,
        ) == Some(claimed@),
{
    let found = derive_expected_share_asset(pool_address, program_id);
    match_found_address(found, claimed, failure)
}

/// Whether `account` lies at the address derived for the holder `holder`
/// and the asset `mint`.
pub open spec fn lies_at_derived_address(
    account: &AccountInfo,
    holder: &AccountInfo,
    mint: &AccountInfo,
) -> bool {
    associated_token_address(holder.key@, mint.key@) matches Some((address, _)) && address
        == account.key@
}

} // verus!
