//! Deposit: pay both assets into the pool and receive shares.

use vstd::prelude::*;
use crate::bytes::{Pubkey, le_u64, pubkey_eq, read_u64_le};
use crate::error::{CurveError, PinocchioError, ProgramError, curve_failure, pool_failure};
use crate::instructions::helper::{
    AccountCheck, AssociatedTokenAccount, AssociatedTokenAccountCheck,
    AssociatedTokenAccountInit, MintInterface, SignerAccount, both, check_pool_address,
    check_share_asset, lies_at_derived_address, pool_address_checked, share_asset_checked,
};
use crate::ledger::{
    AccountInfo, Authority, Effect, Seeds, TokenBalance, mint_supply, read_mint_supply,
    read_token_balance, token_amount, token_mint, token_owner,
};
use crate::state::curve::{
    XYAmounts, deposit_amount, deposit_amounts_defined, floor_sqrt, initial_share_supply,
    is_floor_sqrt, lemma_floor_sqrt_exists, lemma_floor_sqrt_reaches, lemma_grown_reserve_covers,
    pool_is_inconsistent, proportional_mint_amount, proportional_shares,
};
use crate::state::{Config, decode_config};

verus! {

/// The decimal digits with which the handlers carry the share ratio.
pub const PRECISION: u32 = 6;

/// The accounts of a Deposit, in the order in which they are named here;
/// they are given in the order user, mint_x, mint_y, lp_mint, config,
/// vault_x, vault_y, user_lp_ata, user_x_ata, user_y_ata, vault_lp, and the
/// three programs. `vault_lp` keeps its place in the list and is not read:
/// the shares that exist are counted by the share asset's own record.
pub struct DepositAccounts<'a> {
    pub user: &'a AccountInfo,
    pub mint_x: &'a AccountInfo,
    pub mint_y: &'a AccountInfo,
    pub lp_mint: &'a AccountInfo,
    pub config: &'a AccountInfo,
    pub vault_x: &'a AccountInfo,
    pub vault_y: &'a AccountInfo,
    pub vault_lp: &'a AccountInfo,
    pub user_x_ata: &'a AccountInfo,
    pub user_y_ata: &'a AccountInfo,
    pub user_lp_ata: &'a AccountInfo,
    pub token_program: &'a AccountInfo,
    pub system_program: &'a AccountInfo,
    pub associated_token_program: &'a AccountInfo,
}

impl<'a> DepositAccounts<'a> {
    /// The first check that fails on the account list, if any. There are 14
    /// accounts; the user signed; both assets are asset-type records; the
    /// user's two asset accounts and the two vaults are token-holding
    /// records at the addresses derived from their holder and asset; the
    /// user's share account lies at its derived address, whether it exists
    /// or not; the share asset lies at the address derived from the pool's;
    /// the two assets differ.
    pub open spec fn checked(program_id: &Pubkey, accounts: Seq<AccountInfo>) -> Result<
        (),
        ProgramError,
    > {
        if accounts.len() != 14 {
            Err(ProgramError::InvalidAccountData)
        } else {
            let user = &accounts[0];
            let mint_x = &accounts[1];
            let mint_y = &accounts[2];
            let lp_mint = &accounts[3];
            let config = &accounts[4];
            let vault_x = &accounts[5];
            let vault_y = &accounts[6];
            let user_lp_ata = &accounts[7];
            let user_x_ata = &accounts[8];
            let user_y_ata = &accounts[9];
            let shapes = both(
                SignerAccount::checked(user),
                both(MintInterface::checked(mint_x), MintInterface::checked(mint_y)),
            );
            let of_the_user = both(
                AssociatedTokenAccount::checked(user_x_ata, user, mint_x),
                both(
                    AssociatedTokenAccount::checked(user_y_ata, user, mint_y),
                    AssociatedTokenAccount::address_checked(user_lp_ata, user, lp_mint),
                ),
            );
            let of_the_pool = both(
                AssociatedTokenAccount::checked(vault_x, config, mint_x),
                AssociatedTokenAccount::checked(vault_y, config, mint_y),
            );
            let assets = both(
                share_asset_checked(
                    config.key@,
                    program_id@,
                    lp_mint.key@,
                    ProgramError::InvalidAccountData,
                ),
                if mint_x.key@ == mint_y.key@ {
                    Err(pool_failure(PinocchioError::IdenticalTokenMints))
                } else {
                    Ok(())
                },
            );
            both(shapes, both(of_the_user, both(of_the_pool, assets)))
        }
    }

    /// Whether the fields are the 14 accounts of the list.
    pub open spec fn taken_from(self, accounts: Seq<AccountInfo>) -> bool {
        &&& accounts.len() == 14
        &&& *self.user == accounts[0]
        &&& *self.mint_x == accounts[1]
        &&& *self.mint_y == accounts[2]
        &&& *self.lp_mint == accounts[3]
        &&& *self.config == accounts[4]
        &&& *self.vault_x == accounts[5]
        &&& *self.vault_y == accounts[6]
        &&& *self.user_lp_ata == accounts[7]
        &&& *self.user_x_ata == accounts[8]
        &&& *self.user_y_ata == accounts[9]
        &&& *self.vault_lp == accounts[10]
        &&& *self.token_program == accounts[11]
        &&& *self.system_program == accounts[12]
        &&& *self.associated_token_program == accounts[13]
    }

    /// Checks the account list and names its members.
    pub fn try_from(program_id: &Pubkey, accounts: &'a [AccountInfo]) -> (outcome: Result<
        Self,
        ProgramError,
    >)
        ensures
            match outcome {
                Ok(named) => Self::checked(program_id, accounts@) is Ok && named.taken_from(
                    accounts@,
                ),
                Err(e) => Self::checked(program_id, accounts@) == Err::<(), ProgramError>(e),
            },
    {
        if accounts.len() != 14 {
            return Err(ProgramError::InvalidAccountData);
        }
        let user = &accounts[0];
        let mint_x = &accounts[1];
        let mint_y = &accounts[2];
        let lp_mint = &accounts[3];
        let config = &accounts[4];
        let vault_x = &accounts[5];
        let vault_y = &accounts[6];
        let user_lp_ata = &accounts[7];
        let user_x_ata = &accounts[8];
        let user_y_ata = &accounts[9];
        let vault_lp = &accounts[10];
        let token_program = &accounts[11];
        let system_program = &accounts[12];
        let associated_token_program = &accounts[13];

        SignerAccount::check(user)?;
        MintInterface::check(mint_x)?;
        MintInterface::check(mint_y)?;

        AssociatedTokenAccount::check(user_x_ata, user, mint_x)?;
        AssociatedTokenAccount::check(user_y_ata, user, mint_y)?;
        AssociatedTokenAccount::check_address(user_lp_ata, user, lp_mint)?;
        AssociatedTokenAccount::check(vault_x, config, mint_x)?;
        AssociatedTokenAccount::check(vault_y, config, mint_y)?;

        check_share_asset(
            config.key(),
            program_id,
            lp_mint.key(),
            ProgramError::InvalidAccountData,
        )?;

        if pubkey_eq(mint_x.key(), mint_y.key()) {
            return Err(ProgramError::from(PinocchioError::IdenticalTokenMints));
        }
        Ok(
            Self {
                user,
                mint_x,
                mint_y,
                lp_mint,
                config,
                vault_x,
                vault_y,
                vault_lp,
                user_x_ata,
                user_y_ata,
                user_lp_ata,
                token_program,
                system_program,
                associated_token_program,
            },
        )
    }
}

/// The parameters of a Deposit: three numbers, whose meaning depends on the
/// calling convention. With [`Deposit::process`] they are the most of each
/// asset that the user will pay and the shares wanted; with
/// [`Deposit::process_raw_amounts`] they are the amount of each asset paid
/// and the fewest shares that the user accepts.
#[derive(Debug, Clone, Copy, PartialEq, Eq, Structural)]
pub struct DepositInstructions {
    pub max_x: u64,
    pub max_y: u64,
    pub amount: u64,
}

impl DepositInstructions {
    /// What the instruction bytes say: three 64-bit numbers, low byte first.
    /// Another length than 24 is refused with `InvalidInstructionData`, and
    /// a first or second number of zero with `InvalidMintAmount`.
    pub open spec fn parsed(data: Seq<u8>) -> Result<DepositInstructions, ProgramError> {
        if data.len() != 24 {
            Err(ProgramError::InvalidInstructionData)
        } else if le_u64(data.subrange(0, 8)) == 0 || le_u64(data.subrange(8, 16)) == 0 {
            Err(pool_failure(PinocchioError::InvalidMintAmount))
        } else {
            Ok(
                DepositInstructions {
                    max_x: le_u64(data.subrange(0, 8)) as u64,
                    max_y: le_u64(data.subrange(8, 16)) as u64,
                    amount: le_u64(data.subrange(16, 24)) as u64,
                },
            )
        }
    }

    /// Reads the parameters from the instruction bytes.
    pub fn try_from(data: &[u8]) -> (outcome: Result<Self, ProgramError>)
        ensures
            outcome == Self::parsed(data@),
    {
        if data.len() != 24 {
            return Err(ProgramError::InvalidInstructionData);
        }
        let max_x: u64 = read_u64_le(data, 0);
        let max_y: u64 = read_u64_le(data, 8);
        let amount: u64 = read_u64_le(data, 16);
        if max_x == 0 || max_y == 0 {
            return Err(ProgramError::from(PinocchioError::InvalidMintAmount));
        }
        Ok(Self { max_x, max_y, amount })
    }
}

/// What a deposit comes to: the amount of each asset that the user pays,
/// and the shares minted for them.
#[derive(Debug, Clone, Copy, PartialEq, Eq, Structural)]
pub struct DepositOutcome {
    pub x: u64,
    pub y: u64,
    pub shares: u64,
}

/// What a deposit for a wanted number of shares comes to.
///
/// On a pool with reserves or shares the user pays what `amount` shares
/// cost at the pool's ratio, carried with [`PRECISION`] digits; where those
/// amounts do not exist the deposit fails with `MathOverflow`. It fails
/// with `SlippageExceeded` where an amount is over its maximum, and with
/// `InvalidAmount` where no share is wanted.
///
/// Into an empty pool (no reserve, no share) the user pays `max_x` and
/// `max_y`, and the shares are not the user's to name: they are the square
/// root of the product of the two, rounded down. The deposit fails with
/// `InvalidMintSupply` where that is under a thousand, and with
/// `SlippageExceeded` where it is fewer than the shares wanted.
pub open spec fn share_deposit_decided(
    reserve_x: u64,
    reserve_y: u64,
    share_supply: u64,
    max_x: u64,
    max_y: u64,
    amount: u64,
) -> Result<DepositOutcome, ProgramError> {
    if reserve_x == 0 && reserve_y == 0 && share_supply == 0 {
        if max_x * max_y < 1_000_000 {
            Err(pool_failure(PinocchioError::InvalidMintSupply))
        } else if floor_sqrt((max_x * max_y) as nat) < amount {
            Err(curve_failure(CurveError::SlippageExceeded))
        } else {
            Ok(
                DepositOutcome {
                    x: max_x,
                    y: max_y,
                    shares: floor_sqrt((max_x * max_y) as nat) as u64,
                },
            )
        }
    } else {
        let x = deposit_amount(
            reserve_x as nat,
            share_supply as nat,
            amount as nat,
            PRECISION as nat,
        );
        let y = deposit_amount(
            reserve_y as nat,
            share_supply as nat,
            amount as nat,
            PRECISION as nat,
        );
        if !deposit_amounts_defined(
            reserve_x as nat,
            reserve_y as nat,
            share_supply as nat,
            amount as nat,
            PRECISION as nat,
        ) {
            Err(curve_failure(CurveError::MathOverflow))
        } else if x > max_x || y > max_y {
            Err(curve_failure(CurveError::SlippageExceeded))
        } else if amount == 0 {
            Err(pool_failure(PinocchioError::InvalidAmount))
        } else {
            Ok(DepositOutcome { x: x as u64, y: y as u64, shares: amount })
        }
    }
}

/// Decides a deposit for a wanted number of shares.
pub fn decide_share_deposit(
    reserve_x: u64,
    reserve_y: u64,
    share_supply: u64,
    max_x: u64,
    max_y: u64,
    amount: u64,
) -> (outcome: Result<DepositOutcome, ProgramError>)
    ensures
        outcome == share_deposit_decided(reserve_x, reserve_y, share_supply, max_x, max_y, amount),
{
    if reserve_x == 0 && reserve_y == 0 && share_supply == 0 {
        let shares: u64 = match initial_share_supply(max_x, max_y) {
            Ok(shares) => shares,
            Err(e) => {
                return Err(ProgramError::from(e));
            },
        };
        if shares < amount {
            return Err(ProgramError::from(CurveError::SlippageExceeded));
        }
        return Ok(DepositOutcome { x: max_x, y: max_y, shares });
    }
    let amounts: XYAmounts = match XYAmounts::xy_deposit_amounts_from_l(
        reserve_x,
        reserve_y,
        share_supply,
        amount,
        PRECISION,
    ) {
        Ok(amounts) => amounts,
        Err(_) => {
            return Err(ProgramError::from(CurveError::MathOverflow));
        },
    };
    if amounts.x > max_x || amounts.y > max_y {
        return Err(ProgramError::from(CurveError::SlippageExceeded));
    }
    if amount == 0 {
        return Err(ProgramError::from(PinocchioError::InvalidAmount));
    }
    Ok(DepositOutcome { x: amounts.x, y: amounts.y, shares: amount })
}

/// The shares that paying `amount_x` and `amount_y` earns: the square root
/// of their product in an empty pool, else the smaller of the two
/// proportional contributions.
pub open spec fn raw_deposit_shares(
    reserve_x: u64,
    reserve_y: u64,
    share_supply: u64,
    amount_x: u64,
    amount_y: u64,
) -> Result<nat, ProgramError> {
    if reserve_x == 0 && reserve_y == 0 && share_supply == 0 {
        if amount_x * amount_y < 1_000_000 {
            Err(pool_failure(PinocchioError::InvalidMintSupply))
        } else {
            Ok(floor_sqrt((amount_x * amount_y) as nat))
        }
    } else if pool_is_inconsistent(reserve_x as nat, reserve_y as nat, share_supply as nat) {
        Err(pool_failure(PinocchioError::InvalidMintSupply))
    } else if reserve_x == 0 || proportional_shares(
        reserve_x as nat,
        reserve_y as nat,
        share_supply as nat,
        amount_x as nat,
        amount_y as nat,
    ) > u64::MAX {
        Err(pool_failure(PinocchioError::MathOverflow))
    } else {
        Ok(
            proportional_shares(
                reserve_x as nat,
                reserve_y as nat,
                share_supply as nat,
                amount_x as nat,
                amount_y as nat,
            ),
        )
    }
}

/// What a deposit of given amounts comes to.
///
/// The user pays `amount_x` and `amount_y` and receives the shares of
/// [`raw_deposit_shares`]. The deposit fails with `InvalidAmount` where
/// that is no share at all, and with `SlipageExceeded` where it is fewer
/// than `min_lp_amount`.
pub open spec fn raw_deposit_decided(
    reserve_x: u64,
    reserve_y: u64,
    share_supply: u64,
    amount_x: u64,
    amount_y: u64,
    min_lp_amount: u64,
) -> Result<DepositOutcome, ProgramError> {
    match raw_deposit_shares(reserve_x, reserve_y, share_supply, amount_x, amount_y) {
        Err(e) => Err(e),
        Ok(shares) => if shares == 0 {
            Err(pool_failure(PinocchioError::InvalidAmount))
        } else if shares < min_lp_amount {
            Err(pool_failure(PinocchioError::SlipageExceeded))
        } else {
            Ok(DepositOutcome { x: amount_x, y: amount_y, shares: shares as u64 })
        },
    }
}

/// Decides a deposit of given amounts.
pub fn decide_raw_deposit(
    reserve_x: u64,
    reserve_y: u64,
    share_supply: u64,
    amount_x: u64,
    amount_y: u64,
    min_lp_amount: u64,
) -> (outcome: Result<DepositOutcome, ProgramError>)
    ensures
        outcome == raw_deposit_decided(
            reserve_x,
            reserve_y,
            share_supply,
            amount_x,
            amount_y,
            min_lp_amount,
        ),
{
    let minted: Result<u64, PinocchioError> = if reserve_x == 0 && reserve_y == 0 && share_supply
        == 0 {
        initial_share_supply(amount_x, amount_y)
    } else {
        proportional_mint_amount(reserve_x, reserve_y, share_supply, amount_x, amount_y)
    };
    let shares: u64 = match minted {
        Ok(shares) => shares,
        Err(e) => {
            return Err(ProgramError::from(e));
        },
    };
    if shares == 0 {
        return Err(ProgramError::from(PinocchioError::InvalidAmount));
    }
    if shares < min_lp_amount {
        return Err(ProgramError::from(PinocchioError::SlipageExceeded));
    }
    Ok(DepositOutcome { x: amount_x, y: amount_y, shares })
}

/// A Deposit whose accounts and parameters have passed their checks.
pub struct Deposit<'a> {
    pub accounts: DepositAccounts<'a>,
    pub instructions: DepositInstructions,
}

impl<'a> Deposit<'a> {
    /// The byte that selects this operation.
    pub const DISCRIMINATOR: u8 = 1;

    /// Checks the accounts, then the parameters, and asks for the user's
    /// share account where it does not exist yet.
    ///
    /// Fails with the first failure of the account list, else with that of
    /// the instruction bytes.
    pub fn try_from(program_id: &Pubkey, accounts: &'a [AccountInfo], data: &[u8]) -> (outcome:
        Result<(Self, Option<Effect>), ProgramError>)
        ensures
            match outcome {
                Ok((deposit, effect)) => {
                    &&& DepositAccounts::checked(program_id, accounts@) is Ok
                    &&& deposit.accounts.taken_from(accounts@)
                    &&& DepositInstructions::parsed(data@) == Ok::<
                        DepositInstructions,
                        ProgramError,
                    >(deposit.instructions)
                    &&& effect == AssociatedTokenAccount::needed(
                        &accounts@[7],
                        &accounts@[3],
                        &accounts@[0],
                        &accounts@[0],
                    )
                },
                Err(e) => if DepositAccounts::checked(program_id, accounts@) is Err {
                    DepositAccounts::checked(program_id, accounts@) == Err::<(), ProgramError>(e)
                } else {
                    DepositInstructions::parsed(data@) == Err::<DepositInstructions, ProgramError>(
                        e,
                    )
                },
            },
    {
        let accounts = DepositAccounts::try_from(program_id, accounts)?;
        let instructions = DepositInstructions::try_from(data)?;

        let effect: Option<Effect> = AssociatedTokenAccount::init_if_needed(
            accounts.user_lp_ata,
            accounts.lp_mint,
            accounts.user,
            accounts.user,
            accounts.system_program,
            accounts.token_program,
        );
        Ok((Self { accounts, instructions }, effect))
    }

    /// The first check that fails on the pool, if any: the pool's record
    /// loads and is valid; the pool lies at the address that its salt makes, else
    /// `InvalidConfig`; the share asset lies at the address derived from the
    /// pool's, else `InvalidLpMint`.
    pub open spec fn pool_checked(self, program_id: &Pubkey) -> Result<(), ProgramError> {
        both(
            Config::usable(self.accounts.config, program_id),
            both(
                pool_address_checked(
                    decode_config(self.accounts.config.data@).config_bump,
                    program_id@,
                    self.accounts.config.key@,
                ),
                share_asset_checked(
                    self.accounts.config.key@,
                    program_id@,
                    self.accounts.lp_mint.key@,
                    pool_failure(PinocchioError::InvalidLpMint),
                ),
            ),
        )
    }

    /// The first check that fails on the balances, if any: the two vaults
    /// are token-holding records and the share asset is an asset-type
    /// record; the pool holds both vaults, else `InvalidOwner`; each vault
    /// holds its asset, else `InvalidAccountData`.
    pub open spec fn vaults_checked(self) -> Result<(), ProgramError> {
        if self.accounts.vault_x.data@.len() != 165 || self.accounts.vault_y.data@.len() != 165
            || self.accounts.lp_mint.data@.len() != 82 {
            Err(ProgramError::InvalidAccountData)
        } else if token_owner(self.accounts.vault_x.data@) != self.accounts.config.key@
            || token_owner(self.accounts.vault_y.data@) != self.accounts.config.key@ {
            Err(pool_failure(PinocchioError::InvalidOwner))
        } else if token_mint(self.accounts.vault_x.data@) != self.accounts.mint_x.key@
            || token_mint(self.accounts.vault_y.data@) != self.accounts.mint_y.key@ {
            Err(ProgramError::InvalidAccountData)
        } else {
            Ok(())
        }
    }

    /// The balance of the X vault.
    pub open spec fn reserve_x(self) -> u64 {
        token_amount(self.accounts.vault_x.data@) as u64
    }

    /// The balance of the Y vault.
    pub open spec fn reserve_y(self) -> u64 {
        token_amount(self.accounts.vault_y.data@) as u64
    }

    /// The shares that exist: the supply that the share asset's record
    /// counts.
    pub open spec fn share_supply(self) -> u64 {
        mint_supply(self.accounts.lp_mint.data@) as u64
    }

    /// The requests that carry a deposit out: the user pays both assets
    /// into the vaults, and the pool mints the shares to the user.
    pub open spec fn requests(self, result: DepositOutcome) -> Seq<Effect> {
        seq![
            Effect::Transfer {
                from: self.accounts.user_x_ata.key,
                to: self.accounts.vault_x.key,
                amount: result.x,
                authority: Authority::Signer { key: self.accounts.user.key },
            },
            Effect::Transfer {
                from: self.accounts.user_y_ata.key,
                to: self.accounts.vault_y.key,
                amount: result.y,
                authority: Authority::Signer { key: self.accounts.user.key },
            },
            Effect::MintTo {
                mint: self.accounts.lp_mint.key,
                account: self.accounts.user_lp_ata.key,
                amount: result.shares,
                authority: Authority::Derived {
                    key: self.accounts.config.key,
                    seeds: Seeds::Config {
                        bump: decode_config(self.accounts.config.data@).config_bump,
                    },
                },
            },
        ]
    }

    /// What a handler answers once the deposit is decided: the first failure
    /// of the pool or of the vaults, else that of the decision, else the
    /// requests.
    pub open spec fn answered(
        self,
        program_id: &Pubkey,
        decided: Result<DepositOutcome, ProgramError>,
    ) -> Result<Seq<Effect>, ProgramError> {
        match both(self.pool_checked(program_id), self.vaults_checked()) {
            Err(e) => Err(e),
            Ok(()) => match decided {
                Err(e) => Err(e),
                Ok(result) => Ok(self.requests(result)),
            },
        }
    }

    /// What [`Deposit::process`] answers.
    pub open spec fn processed(self, program_id: &Pubkey) -> Result<Seq<Effect>, ProgramError> {
        self.answered(
            program_id,
            share_deposit_decided(
                self.reserve_x(),
                self.reserve_y(),
                self.share_supply(),
                self.instructions.max_x,
                self.instructions.max_y,
                self.instructions.amount,
            ),
        )
    }

    /// What [`Deposit::process_raw_amounts`] answers.
    pub open spec fn processed_raw_amounts(self, program_id: &Pubkey) -> Result<
        Seq<Effect>,
        ProgramError,
    > {
        self.answered(
            program_id,
            raw_deposit_decided(
                self.reserve_x(),
                self.reserve_y(),
                self.share_supply(),
                self.instructions.max_x,
                self.instructions.max_y,
                self.instructions.amount,
            ),
        )
    }

    /// Checks the pool and the vaults and reads the three balances.
    fn balances(&self, program_id: &Pubkey) -> (outcome: Result<(u64, u64, u64, u8), ProgramError>)
        ensures
            match outcome {
                Ok((reserve_x, reserve_y, share_supply, bump)) => {
                    &&& both(self.pool_checked(program_id), self.vaults_checked()) is Ok
                    &&& reserve_x == self.reserve_x()
                    &&& reserve_y == self.reserve_y()
                    &&& share_supply == self.share_supply()
                    &&& bump == decode_config(self.accounts.config.data@).config_bump
                },
                Err(e) => both(self.pool_checked(program_id), self.vaults_checked()) == Err::<
                    (),
                    ProgramError,
                >(e),
            },
    {
        let config = Config::load_initialized(self.accounts.config, program_id)?;
        let config_bump: u8 = config.config_bump();

        check_pool_address(config_bump, program_id, self.accounts.config.key())?;
        check_share_asset(
            self.accounts.config.key(),
            program_id,
            self.accounts.lp_mint.key(),
            ProgramError::from(PinocchioError::InvalidLpMint),
        )?;

        let vault_x: TokenBalance = read_token_balance(self.accounts.vault_x)?;
        let vault_y: TokenBalance = read_token_balance(self.accounts.vault_y)?;
        let share_supply: u64 = read_mint_supply(self.accounts.lp_mint)?;

        if !pubkey_eq(&vault_x.owner, self.accounts.config.key()) || !pubkey_eq(
            &vault_y.owner,
            self.accounts.config.key(),
        ) {
            return Err(ProgramError::from(PinocchioError::InvalidOwner));
        }
        if !pubkey_eq(&vault_x.mint, self.accounts.mint_x.key()) || !pubkey_eq(
            &vault_y.mint,
            self.accounts.mint_y.key(),
        ) {
            return Err(ProgramError::InvalidAccountData);
        }
        Ok((vault_x.amount, vault_y.amount, share_supply, config_bump))
    }

    /// The requests for a decided deposit.
    fn effects(&self, result: DepositOutcome, config_bump: u8) -> (effects: Vec<Effect>)
        requires
            config_bump == decode_config(self.accounts.config.data@).config_bump,
        ensures
            effects@ == self.requests(result),
    {
        let mut effects: Vec<Effect> = Vec::new();
        effects.push(
            Effect::Transfer {
                from: self.accounts.user_x_ata.key,
                to: self.accounts.vault_x.key,
                amount: result.x,
                authority: Authority::Signer { key: self.accounts.user.key },
            },
        );
        effects.push(
            Effect::Transfer {
                from: self.accounts.user_y_ata.key,
                to: self.accounts.vault_y.key,
                amount: result.y,
                authority: Authority::Signer { key: self.accounts.user.key },
            },
        );
        effects.push(
            Effect::MintTo {
                mint: self.accounts.lp_mint.key,
                account: self.accounts.user_lp_ata.key,
                amount: result.shares,
                authority: Authority::Derived {
                    key: self.accounts.config.key,
                    seeds: Seeds::Config { bump: config_bump },
                },
            },
        );
        assert(effects@ =~= self.requests(result));
        effects
    }

    /// Carries out a deposit for a wanted number of shares: the parameters
    /// are the most of each asset that the user pays, and the shares
    /// wanted. Into an empty pool the user pays both maxima for the shares
    /// that they earn, as in [`Deposit::process_raw_amounts`].
    ///
    /// The pool's address and the share asset's are derived again and
    /// compared, the vaults are read, and the deposit is decided as
    /// [`share_deposit_decided`] says. On a failure nothing is requested.
    pub fn process(&self, program_id: &Pubkey) -> (outcome: Result<Vec<Effect>, ProgramError>)
        ensures
            match outcome {
                Ok(effects) => self.processed(program_id) == Ok::<Seq<Effect>, ProgramError>(
                    effects@,
                ),
                Err(e) => self.processed(program_id) == Err::<Seq<Effect>, ProgramError>(e),
            },
    {
        let (reserve_x, reserve_y, share_supply, config_bump) = self.balances(program_id)?;
        let result: DepositOutcome = decide_share_deposit(
            reserve_x,
            reserve_y,
            share_supply,
            self.instructions.max_x,
            self.instructions.max_y,
            self.instructions.amount,
        )?;
        Ok(self.effects(result, config_bump))
    }

    /// Carries out a deposit of given amounts: the parameters are the
    /// amount of each asset that the user pays, and the fewest shares that
    /// the user accepts.
    ///
    /// The checks are those of [`Deposit::process`], and the deposit is
    /// decided as [`raw_deposit_decided`] says. On a failure nothing is
    /// requested.
    pub fn process_raw_amounts(&self, program_id: &Pubkey) -> (outcome: Result<
        Vec<Effect>,
        ProgramError,
    >)
        ensures
            match outcome {
                Ok(effects) => self.processed_raw_amounts(program_id) == Ok::<
                    Seq<Effect>,
                    ProgramError,
                >(effects@),
                Err(e) => self.processed_raw_amounts(program_id) == Err::<Seq<Effect>, ProgramError>(
                    e,
                ),
            },
    {
        let (reserve_x, reserve_y, share_supply, config_bump) = self.balances(program_id)?;
        let result: DepositOutcome = decide_raw_deposit(
            reserve_x,
            reserve_y,
            share_supply,
            self.instructions.max_x,
            self.instructions.max_y,
            self.instructions.amount,
        )?;
        Ok(self.effects(result, config_bump))
    }
}

/// Address forgery is refused. A Deposit whose X vault or Y vault does not
/// lie at the address derived from the pool and the vault's asset fails the
/// check of its accounts, whatever else it holds: no [`Deposit`] comes of
/// it, and nothing is computed.
pub proof fn lemma_deposit_refuses_forged_vault(program_id: Pubkey, accounts: Seq<AccountInfo>)
    requires
        !lies_at_derived_address(&accounts[5], &accounts[4], &accounts[1])
            || !lies_at_derived_address(&accounts[6], &accounts[4], &accounts[2]),
    ensures
        DepositAccounts::checked(&program_id, accounts) is Err,
{
}

/// What a deposit asks for is signed for: where a handler answers with
/// requests, the seeds that the pool presents for the mint make the pool's
/// address.
pub proof fn lemma_deposit_is_signed_by_the_pool(
    deposit: Deposit,
    program_id: Pubkey,
    decided: Result<DepositOutcome, ProgramError>,
)
    requires
        deposit.answered(&program_id, decided) is Ok,
    ensures
        forall|i: int|
            0 <= i < deposit.answered(&program_id, decided)->Ok_0.len() ==> (
            #[trigger] deposit.answered(&program_id, decided)->Ok_0[i]).signed_under(program_id@),
{
}

/// First-deposit determinism. Into an empty pool, a deposit of given
/// amounts mints the square root of their product, rounded down, and so
/// does a deposit for a wanted number of shares that pays the same
/// amounts. Both are refused with `InvalidMintSupply` exactly where that
/// root is under a thousand, and with a slippage failure where it is fewer
/// than the user asked for.
pub proof fn lemma_first_deposit_mints_the_root(amount_x: u64, amount_y: u64, least: u64)
    ensures
        is_floor_sqrt(floor_sqrt((amount_x * amount_y) as nat), (amount_x * amount_y) as nat),
        floor_sqrt((amount_x * amount_y) as nat) < 1000 <==> amount_x * amount_y < 1_000_000,
        floor_sqrt((amount_x * amount_y) as nat) < 1000 ==> {
            &&& raw_deposit_decided(0, 0, 0, amount_x, amount_y, least) == Err::<
                DepositOutcome,
                ProgramError,
            >(pool_failure(PinocchioError::InvalidMintSupply))
            &&& share_deposit_decided(0, 0, 0, amount_x, amount_y, least) == Err::<
                DepositOutcome,
                ProgramError,
            >(pool_failure(PinocchioError::InvalidMintSupply))
        },
        1000 <= floor_sqrt((amount_x * amount_y) as nat) < least ==> {
            &&& raw_deposit_decided(0, 0, 0, amount_x, amount_y, least) == Err::<
                DepositOutcome,
                ProgramError,
            >(pool_failure(PinocchioError::SlipageExceeded))
            &&& share_deposit_decided(0, 0, 0, amount_x, amount_y, least) == Err::<
                DepositOutcome,
                ProgramError,
            >(curve_failure(CurveError::SlippageExceeded))
        },
        floor_sqrt((amount_x * amount_y) as nat) >= 1000 && floor_sqrt(
            (amount_x * amount_y) as nat,
        ) >= least ==> {
            &&& raw_deposit_decided(0, 0, 0, amount_x, amount_y, least) == Ok::<
                DepositOutcome,
                ProgramError,
            >(
                DepositOutcome {
                    x: amount_x,
                    y: amount_y,
                    shares: floor_sqrt((amount_x * amount_y) as nat) as u64,
                },
            )
            &&& share_deposit_decided(0, 0, 0, amount_x, amount_y, least) == raw_deposit_decided(
                0,
                0,
                0,
                amount_x,
                amount_y,
                least,
            )
            &&& floor_sqrt((amount_x * amount_y) as nat) <= u64::MAX
        },
{
    let n = (amount_x * amount_y) as nat;
    lemma_floor_sqrt_exists(n);
    lemma_floor_sqrt_reaches(n, 1000);
    let r = floor_sqrt(n);
    assert(amount_x * amount_y < 0x1_0000_0000_0000_0000 * 0x1_0000_0000_0000_0000)
        by (nonlinear_arith)
        requires
            amount_x <= u64::MAX,
            amount_y <= u64::MAX,
    ;
    if r > u64::MAX {
        assert(r * r >= 0x1_0000_0000_0000_0000 * 0x1_0000_0000_0000_0000) by (nonlinear_arith)
            requires
                r >= 0x1_0000_0000_0000_0000,
        ;
    }
}

/// Proportionality. On a pool with reserves and shares, a deposit of given
/// amounts mints the smaller of the two proportional contributions,
/// `deposit * share_supply / reserve` of each asset rounded down, and pays
/// the amounts given.
pub proof fn lemma_deposit_of_amounts_is_proportional(
    reserve_x: u64,
    reserve_y: u64,
    share_supply: u64,
    deposit_x: u64,
    deposit_y: u64,
    least: u64,
    paid: DepositOutcome,
)
    requires
        reserve_x > 0 || reserve_y > 0 || share_supply > 0,
        raw_deposit_decided(reserve_x, reserve_y, share_supply, deposit_x, deposit_y, least) == Ok::<
            DepositOutcome,
            ProgramError,
        >(paid),
    ensures
        reserve_x > 0 && reserve_y > 0 && share_supply > 0,
        paid.x == deposit_x,
        paid.y == deposit_y,
        paid.shares <= deposit_x * share_supply / (reserve_x as int),
        paid.shares <= deposit_y * share_supply / (reserve_y as int),
        paid.shares == deposit_x * share_supply / (reserve_x as int) || paid.shares == deposit_y
            * share_supply / (reserve_y as int),
{
}

/// Slippage enforcement. Whatever a deposit answers with requests for
/// keeps to the user's bounds: a deposit of given amounts mints at least
/// the fewest shares accepted, and never none; a deposit for a wanted
/// number of shares takes of neither asset more than its maximum, and
/// mints at least the shares wanted. Where a bound would be broken, the
/// answer is a failure, and a failure asks for nothing.
pub proof fn lemma_deposit_keeps_to_the_bounds(
    reserve_x: u64,
    reserve_y: u64,
    share_supply: u64,
    first: u64,
    second: u64,
    third: u64,
)
    ensures
        raw_deposit_decided(reserve_x, reserve_y, share_supply, first, second, third) matches Ok(
            paid,
        ) ==> paid.shares >= third && paid.shares > 0 && paid.x == first && paid.y == second,
        share_deposit_decided(reserve_x, reserve_y, share_supply, first, second, third) matches Ok(
            paid,
        ) ==> paid.x <= first && paid.y <= second && paid.shares >= third && paid.shares > 0,
{
    let n = (first * second) as nat;
    lemma_floor_sqrt_exists(n);
    lemma_floor_sqrt_reaches(n, 1000);
    assert(first * second < 0x1_0000_0000_0000_0000 * 0x1_0000_0000_0000_0000) by (nonlinear_arith)
        requires
            first <= u64::MAX,
            second <= u64::MAX,
    ;
    if floor_sqrt(n) > u64::MAX {
        assert(floor_sqrt(n) * floor_sqrt(n) >= 0x1_0000_0000_0000_0000 * 0x1_0000_0000_0000_0000)
            by (nonlinear_arith)
            requires
                floor_sqrt(n) >= 0x1_0000_0000_0000_0000,
        ;
    }
    if share_supply > 0 {
        let p = PRECISION as nat;
        lemma_grown_reserve_covers(reserve_x as nat, share_supply as nat, third as nat, p);
        lemma_grown_reserve_covers(reserve_y as nat, share_supply as nat, third as nat, p);
    }
}

} // verus!
