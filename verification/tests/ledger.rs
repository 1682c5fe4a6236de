use amm_core::bytes::Pubkey;
use amm_core::error::ProgramError;
use amm_core::instructions::helper::{
    check_pool_address, check_share_asset, match_derived_address, match_found_address,
    AccountCheck, AssociatedTokenAccount, AssociatedTokenAccountCheck,
    AssociatedTokenAccountInit, MintInterface, ProgramAccount, ProgramAccountInit, SignerAccount,
    TokenAccount,
};
use amm_core::ledger::{
    derive_expected_address, derive_expected_share_asset, find_associated_token_address,
    key_bytes, read_mint_supply, read_token_balance, AccountInfo, Effect, Seeds, TokenBalance,
};
use pinocchio::Address;

const PROGRAM: Pubkey = [7u8; 32];
const WALLET: Pubkey = [21u8; 32];
const ASSET: Pubkey = [22u8; 32];

fn token_program() -> Pubkey {
    pinocchio_token::ID.to_bytes()
}

fn plain(key: Pubkey, owner: Pubkey, data: Vec<u8>) -> AccountInfo {
    AccountInfo { key, owner, is_signer: false, data }
}

fn holding(key: Pubkey, mint: Pubkey, holder: Pubkey, amount: u64) -> AccountInfo {
    let mut data = vec![0u8; pinocchio_token::state::Account::LEN];
    data[0..32].copy_from_slice(&mint);
    data[32..64].copy_from_slice(&holder);
    data[64..72].copy_from_slice(&amount.to_le_bytes());
    plain(key, token_program(), data)
}

fn derived_for(wallet: &Pubkey, mint: &Pubkey) -> Pubkey {
    let program = pinocchio_associated_token_account::ID;
    let token = token_program();
    let (address, _) = Address::find_program_address(&[&wallet[..], &token[..], &mint[..]], &program);
    address.to_bytes()
}

#[test]
fn seeds_spell_their_words() {
    assert_eq!(Seeds::Config { bump: 250 }.parts(), vec![b"config".to_vec(), vec![250u8]]);
    assert_eq!(
        Seeds::LpMint { config: WALLET, bump: 3 }.parts(),
        vec![b"lp_mint".to_vec(), WALLET.to_vec(), vec![3u8]]
    );
    assert_eq!(key_bytes(&ASSET), ASSET.to_vec());
}

#[test]
fn pool_address_is_made_of_its_salt_without_a_search() {
    let program = Address::new_from_array(PROGRAM);
    let mut made = 0;
    let mut refused = 0;
    for salt in 0..=255u8 {
        let outside = Address::create_program_address(&[b"config", &[salt]], &program).ok();
        assert_eq!(derive_expected_address(salt, &PROGRAM), outside.map(|a| a.to_bytes()));
        match outside {
            Some(address) => {
                made += 1;
                assert_ne!(address.to_bytes(), PROGRAM);
            }
            None => refused += 1,
        }
    }
    // About half of all hashes are curve points.
    assert!(made > 64 && refused > 64);
}

#[test]
fn pool_address_depends_on_salt_and_program() {
    let program = Address::new_from_array(PROGRAM);
    // The salt that a search from the word alone finds makes an address.
    let (found, salt) = Address::find_program_address(&[b"config"], &program);
    assert_eq!(derive_expected_address(salt, &PROGRAM), Some(found.to_bytes()));
    let elsewhere = derive_expected_address(salt, &[8u8; 32]);
    assert_ne!(elsewhere, Some(found.to_bytes()));
    for other in 0..=255u8 {
        if other != salt {
            assert_ne!(derive_expected_address(other, &PROGRAM), Some(found.to_bytes()));
        }
    }
}

#[test]
fn share_asset_address_is_found_from_the_pool_address() {
    let program = Address::new_from_array(PROGRAM);
    let (address, bump) = Address::find_program_address(&[b"lp_mint", &WALLET], &program);
    assert_eq!(
        derive_expected_share_asset(&WALLET, &PROGRAM),
        Some((address.to_bytes(), bump))
    );
    // The seeds with the bump make the same address without a search.
    let seeds = Seeds::LpMint { config: WALLET, bump }.parts();
    let parts: Vec<&[u8]> = seeds.iter().map(|s| s.as_slice()).collect();
    assert_eq!(Address::create_program_address(&parts, &program).ok(), Some(address));
    assert_ne!(
        derive_expected_share_asset(&ASSET, &PROGRAM).map(|f| f.0),
        Some(address.to_bytes())
    );
}

#[test]
fn associated_address_is_derived_from_holder_token_program_and_asset() {
    let program = pinocchio_associated_token_account::ID;
    let token = pinocchio_token::ID.to_bytes();
    let (address, bump) =
        Address::find_program_address(&[&WALLET[..], &token[..], &ASSET[..]], &program);
    assert_eq!(find_associated_token_address(&WALLET, &ASSET), Some((address.to_bytes(), bump)));
    // Holder and asset do not stand for each other.
    assert_ne!(
        find_associated_token_address(&ASSET, &WALLET),
        find_associated_token_address(&WALLET, &ASSET)
    );
}

#[test]
fn program_addresses_are_the_known_ones() {
    assert_eq!(
        pinocchio_token::ID.to_bytes(),
        [
            6, 221, 246, 225, 215, 101, 161, 147, 217, 203, 225, 70, 206, 235, 121, 172, 28, 180,
            133, 237, 95, 91, 55, 145, 58, 140, 245, 133, 126, 255, 0, 169
        ]
    );
    assert_eq!(
        pinocchio_associated_token_account::ID.to_bytes(),
        [
            140, 151, 37, 143, 78, 36, 137, 241, 187, 61, 16, 41, 20, 142, 13, 131, 11, 90, 19,
            153, 218, 255, 16, 132, 4, 142, 123, 216, 219, 233, 248, 89
        ]
    );
    assert_eq!(pinocchio_token::state::Mint::LEN, 82);
    assert_eq!(pinocchio_token::state::Account::LEN, 165);
}

#[test]
fn signer_check() {
    let mut account = plain(WALLET, PROGRAM, vec![]);
    assert_eq!(SignerAccount::check(&account), Err(ProgramError::MissingRequiredSignature));
    account.is_signer = true;
    assert_eq!(SignerAccount::check(&account), Ok(()));
}

#[test]
fn mint_check_is_by_size() {
    assert_eq!(MintInterface::check(&plain(ASSET, PROGRAM, vec![0; 82])), Ok(()));
    assert_eq!(
        MintInterface::check(&plain(ASSET, PROGRAM, vec![0; pinocchio_token::state::Mint::LEN])),
        Ok(())
    );
    for len in [0usize, 81, 83, 165] {
        assert_eq!(
            MintInterface::check(&plain(ASSET, PROGRAM, vec![0; len])),
            Err(ProgramError::InvalidAccountData)
        );
    }
}

#[test]
fn token_account_check_is_by_owner_first() {
    assert_eq!(TokenAccount::check(&plain(WALLET, token_program(), vec![0; 165])), Ok(()));
    assert_eq!(
        TokenAccount::check(&plain(WALLET, token_program(), vec![0; 164])),
        Err(ProgramError::InvalidAccountData)
    );
    assert_eq!(
        TokenAccount::check(&plain(WALLET, token_program(), vec![0; 82])),
        Err(ProgramError::InvalidAccountData)
    );
    assert_eq!(
        TokenAccount::check(&plain(WALLET, PROGRAM, vec![0; 165])),
        Err(ProgramError::IllegalOwner)
    );
    assert_eq!(
        TokenAccount::check(&plain(WALLET, PROGRAM, vec![0; 3])),
        Err(ProgramError::IllegalOwner)
    );
    let mut near = token_program();
    near[0] ^= 1;
    assert_eq!(
        TokenAccount::check(&plain(WALLET, near, vec![0; 165])),
        Err(ProgramError::IllegalOwner)
    );
}

#[test]
fn associated_account_check() {
    let holder = plain(WALLET, PROGRAM, vec![]);
    let mint = plain(ASSET, token_program(), vec![0; 82]);
    let address = derived_for(&WALLET, &ASSET);

    let good = holding(address, ASSET, WALLET, 5);
    assert_eq!(AssociatedTokenAccount::check(&good, &holder, &mint), Ok(()));
    assert_eq!(AssociatedTokenAccount::check_address(&good, &holder, &mint), Ok(()));

    let absent = plain(address, [0u8; 32], vec![]);
    assert_eq!(
        AssociatedTokenAccount::check(&absent, &holder, &mint),
        Err(ProgramError::IllegalOwner)
    );
    assert_eq!(AssociatedTokenAccount::check_address(&absent, &holder, &mint), Ok(()));

    let mut forged_key = address;
    forged_key[7] ^= 0x10;
    let forged = holding(forged_key, ASSET, WALLET, 5);
    assert_eq!(
        AssociatedTokenAccount::check(&forged, &holder, &mint),
        Err(ProgramError::InvalidAccountData)
    );
    assert_eq!(
        AssociatedTokenAccount::check_address(&forged, &holder, &mint),
        Err(ProgramError::InvalidAccountData)
    );
    // The address of another holder's account for the same asset.
    let others = holding(derived_for(&ASSET, &ASSET), ASSET, WALLET, 5);
    assert_eq!(
        AssociatedTokenAccount::check(&others, &holder, &mint),
        Err(ProgramError::InvalidAccountData)
    );
}

#[test]
fn program_account_creation_names_payer_owner_and_seeds() {
    let payer = plain(WALLET, [0u8; 32], vec![]);
    let account = plain(ASSET, PROGRAM, vec![]);
    assert_eq!(
        ProgramAccount::init::<()>(&payer, &account, Seeds::Config { bump: 3 }, 196, &[5u8; 32]),
        Effect::CreateAccount {
            payer: WALLET,
            account: ASSET,
            space: 196,
            owner: [5u8; 32],
            seeds: Seeds::Config { bump: 3 },
        }
    );
}

#[test]
fn associated_account_creation_names_funder_holder_and_asset() {
    let funder = plain([1u8; 32], [0u8; 32], vec![]);
    let holder = plain(WALLET, PROGRAM, vec![]);
    let mint = plain(ASSET, token_program(), vec![0; 82]);
    let programs = plain([0u8; 32], [0u8; 32], vec![]);
    let ata = plain(derived_for(&WALLET, &ASSET), [0u8; 32], vec![]);
    assert_eq!(
        AssociatedTokenAccount::init(&ata, &mint, &funder, &holder, &programs, &programs),
        Effect::CreateAssociatedAccount {
            funder: [1u8; 32],
            account: ata.key,
            wallet: WALLET,
            mint: ASSET,
        }
    );
}

#[test]
fn lazy_creation_asks_once() {
    let holder = plain(WALLET, PROGRAM, vec![]);
    let mint = plain(ASSET, token_program(), vec![0; 82]);
    let programs = plain([0u8; 32], [0u8; 32], vec![]);
    let address = derived_for(&WALLET, &ASSET);

    // First call: the account does not exist yet.
    let absent = plain(address, [0u8; 32], vec![]);
    let first =
        AssociatedTokenAccount::init_if_needed(&absent, &mint, &holder, &holder, &programs, &programs);
    assert_eq!(
        first,
        Some(Effect::CreateAssociatedAccount {
            funder: WALLET,
            account: address,
            wallet: WALLET,
            mint: ASSET,
        })
    );
    // The ledger creates it; the second call asks for nothing, and so does a third.
    let created = holding(address, ASSET, WALLET, 0);
    for _ in 0..2 {
        assert_eq!(
            AssociatedTokenAccount::init_if_needed(
                &created, &mint, &holder, &holder, &programs, &programs
            ),
            None
        );
    }
}

#[test]
fn token_records_are_read_by_their_layout() {
    let account = holding(WALLET, ASSET, PROGRAM, 0x0102_0304_0506_0708);
    assert_eq!(
        read_token_balance(&account),
        Ok(TokenBalance { mint: ASSET, owner: PROGRAM, amount: 0x0102_0304_0506_0708 })
    );
    assert_eq!(
        read_token_balance(&holding(WALLET, ASSET, PROGRAM, u64::MAX)).map(|b| b.amount),
        Ok(u64::MAX)
    );
    assert_eq!(
        read_token_balance(&plain(WALLET, token_program(), vec![0; 164])),
        Err(ProgramError::InvalidAccountData)
    );

    let mut mint = vec![0u8; 82];
    mint[36..44].copy_from_slice(&123_456_789_012u64.to_le_bytes());
    assert_eq!(read_mint_supply(&plain(ASSET, token_program(), mint)), Ok(123_456_789_012));
    assert_eq!(
        read_mint_supply(&plain(ASSET, token_program(), vec![0; 165])),
        Err(ProgramError::InvalidAccountData)
    );
}

#[test]
fn account_accessors() {
    let account = AccountInfo { key: WALLET, owner: PROGRAM, is_signer: true, data: vec![1, 2, 3] };
    assert_eq!(account.key(), &WALLET);
    assert_eq!(account.owner(), &PROGRAM);
    assert!(account.is_signer());
    assert_eq!(account.data_len(), 3);
    assert!(account.is_owned_by(&PROGRAM));
    assert!(!account.is_owned_by(&WALLET));
}

#[test]
fn a_derived_address_is_compared_with_the_claimed_one() {
    let failure = ProgramError::Custom(9);
    assert_eq!(match_derived_address(Some(WALLET), &WALLET, failure), Ok(()));
    assert_eq!(match_derived_address(Some(WALLET), &ASSET, failure), Err(failure));
    assert_eq!(match_derived_address(None, &WALLET, failure), Err(ProgramError::InvalidSeeds));
    let mut near = WALLET;
    near[31] ^= 1;
    assert_eq!(match_derived_address(Some(near), &WALLET, failure), Err(failure));
    assert_eq!(
        match_derived_address(Some(ASSET), &WALLET, ProgramError::InvalidAccountData),
        Err(ProgramError::InvalidAccountData)
    );

    assert_eq!(match_found_address(Some((WALLET, 250)), &WALLET, failure), Ok(250));
    assert_eq!(match_found_address(Some((WALLET, 0)), &WALLET, failure), Ok(0));
    assert_eq!(match_found_address(Some((WALLET, 250)), &ASSET, failure), Err(failure));
    assert_eq!(match_found_address(Some((near, 250)), &WALLET, failure), Err(failure));
    assert_eq!(match_found_address(None, &WALLET, failure), Err(ProgramError::InvalidSeeds));
}

#[test]
fn the_pools_addresses_are_checked_by_deriving_them_again() {
    let program = Address::new_from_array(PROGRAM);
    let (pool, salt) = Address::find_program_address(&[b"config"], &program);
    let pool = pool.to_bytes();
    assert_eq!(check_pool_address(salt, &PROGRAM, &pool), Ok(()));
    assert_eq!(check_pool_address(salt, &PROGRAM, &WALLET), Err(ProgramError::Custom(9)));
    assert_eq!(check_pool_address(salt, &[8u8; 32], &pool), Err(ProgramError::Custom(9)));

    let (asset, bump) = Address::find_program_address(&[b"lp_mint", &pool], &program);
    let asset = asset.to_bytes();
    let failure = ProgramError::Custom(10);
    assert_eq!(check_share_asset(&pool, &PROGRAM, &asset, failure), Ok(bump));
    assert_eq!(check_share_asset(&pool, &PROGRAM, &WALLET, failure), Err(failure));
    assert_eq!(check_share_asset(&WALLET, &PROGRAM, &asset, failure), Err(failure));
}
