//! Withdraw: burn shares and receive both assets.

use vstd::prelude::*;
use crate::bytes::{Pubkey, le_u64, pubkey_eq, read_u64_le};
use crate::error::{CurveError, PinocchioError, ProgramError, curve_failure, pool_failure};
use crate::instructions::deposit::{DepositOutcome, PRECISION, share_deposit_decided};
use crate::instructions::helper::{
    AccountCheck, AssociatedTokenAccount, AssociatedTokenAccountCheck,
    AssociatedTokenAccountInit, SignerAccount, both, check_pool_address, check_share_asset,
    lies_at_derived_address, pool_address_checked, share_asset_checked,
};
use crate::ledger::{
    AccountInfo, Authority, Effect, Seeds, TokenBalance, mint_supply, read_mint_supply,
    read_token_balance, token_amount, token_mint, token_owner,
};
use crate::state::curve::{
    XYAmounts, lemma_deposit_then_withdraw_conserves, lemma_kept_reserve_within,
    withdraw_amount, withdraw_amounts_defined,
};
use crate::state::{Config, decode_config};

verus! {

/// The accounts of a Withdraw, in the order in which they are named here;
/// they are given in the order user, mint_lp, vault_x, vault_y, mint_x,
/// mint_y, user_x_ata, user_y_ata, user_lp_ata, config, the token program,
/// the system program, and one account that is not read.
pub struct WithdrawAccounts<'a> {
    pub user: &'a AccountInfo,
    pub mint_x: &'a AccountInfo,
    pub mint_y: &'a AccountInfo,
    pub mint_lp: &'a AccountInfo,
    pub vault_x: &'a AccountInfo,
    pub vault_y: &'a AccountInfo,
    pub user_x_ata: &'a AccountInfo,
    pub user_y_ata: &'a AccountInfo,
    pub user_lp_ata: &'a AccountInfo,
    pub config: &'a AccountInfo,
    pub token_program: &'a AccountInfo,
    pub system_program: &'a AccountInfo,
}

impl<'a> WithdrawAccounts<'a> {
    /// The first check that fails on the account list, if any. There are 13
    /// accounts; the user signed; the two vaults and the user's share
    /// account are token-holding records at the addresses derived from
    /// their holder and asset; the user's two asset accounts lie at their
    /// derived addresses, whether they exist or not.
    pub open spec fn checked(accounts: Seq<AccountInfo>) -> Result<(), ProgramError> {
        if accounts.len() != 13 {
            Err(ProgramError::InvalidAccountData)
        } else {
            let user = &accounts[0];
            let mint_lp = &accounts[1];
            let vault_x = &accounts[2];
            let vault_y = &accounts[3];
            let mint_x = &accounts[4];
            let mint_y = &accounts[5];
            let user_x_ata = &accounts[6];
            let user_y_ata = &accounts[7];
            let user_lp_ata = &accounts[8];
            let config = &accounts[9];
            let of_the_pool = both(
                AssociatedTokenAccount::checked(vault_x, config, mint_x),
                AssociatedTokenAccount::checked(vault_y, config, mint_y),
            );
            let of_the_user = both(
                AssociatedTokenAccount::address_checked(user_x_ata, user, mint_x),
                both(
                    AssociatedTokenAccount::address_checked(user_y_ata, user, mint_y),
                    AssociatedTokenAccount::checked(user_lp_ata, user, mint_lp),
                ),
            );
            both(SignerAccount::checked(user), both(of_the_pool, of_the_user))
        }
    }

    /// Whether the fields are the first twelve accounts of the list.
    pub open spec fn taken_from(self, accounts: Seq<AccountInfo>) -> bool {
        &&& accounts.len() == 13
        &&& *self.user == accounts[0]
        &&& *self.mint_lp == accounts[1]
        &&& *self.vault_x == accounts[2]
        &&& *self.vault_y == accounts[3]
        &&& *self.mint_x == accounts[4]
        &&& *self.mint_y == accounts[5]
        &&& *self.user_x_ata == accounts[6]
        &&& *self.user_y_ata == accounts[7]
        &&& *self.user_lp_ata == accounts[8]
        &&& *self.config == accounts[9]
        &&& *self.token_program == accounts[10]
        &&& *self.system_program == accounts[11]
    }

    /// Checks the account list and names its members.
    pub fn try_from(accounts: &'a [AccountInfo]) -> (outcome: Result<Self, ProgramError>)
        ensures
            match outcome {
                Ok(named) => Self::checked(accounts@) is Ok && named.taken_from(accounts@),
                Err(e) => Self::checked(accounts@) == Err::<(), ProgramError>(e),
            },
    {
        if accounts.len() != 13 {
            return Err(ProgramError::InvalidAccountData);
        }
        let user = &accounts[0];
        let mint_lp = &accounts[1];
        let vault_x = &accounts[2];
        let vault_y = &accounts[3];
        let mint_x = &accounts[4];
        let mint_y = &accounts[5];
        let user_x_ata = &accounts[6];
        let user_y_ata = &accounts[7];
        let user_lp_ata = &accounts[8];
        let config = &accounts[9];
        let token_program = &accounts[10];
        let system_program = &accounts[11];

        SignerAccount::check(user)?;

        AssociatedTokenAccount::check(vault_x, config, mint_x)?;
        AssociatedTokenAccount::check(vault_y, config, mint_y)?;

        AssociatedTokenAccount::check_address(user_x_ata, user, mint_x)?;
        AssociatedTokenAccount::check_address(user_y_ata, user, mint_y)?;
        AssociatedTokenAccount::check(user_lp_ata, user, mint_lp)?;

        Ok(
            Self {
                user,
                mint_x,
                mint_y,
                mint_lp,
                vault_x,
                vault_y,
                user_x_ata,
                user_y_ata,
                user_lp_ata,
                config,
                token_program,
                system_program,
            },
        )
    }
}

/// The ledger's clock as an unsigned number of seconds: the time itself
/// from 1970 on, and for a time before it the same 64 bits read as
/// unsigned.
pub open spec fn clock_seconds(unix_timestamp: i64) -> u64 {
    if unix_timestamp >= 0 {
        unix_timestamp as u64
    } else {
        (unix_timestamp + 0x1_0000_0000_0000_0000) as u64
    }
}

/// The parameters of a Withdraw: the shares to burn, the least of each
/// asset that the user accepts, and the deadline.
#[derive(Debug, Clone, Copy, PartialEq, Eq, Structural)]
pub struct WithdrawInstructions {
    pub amount: u64,
    pub min_x: u64,
    pub min_y: u64,
    pub expiration: u64,
}

impl WithdrawInstructions {
    /// What the instruction bytes say at the time `unix_timestamp`: four
    /// 64-bit numbers, low byte first. Another length than 32 is refused
    /// with `InvalidInstructionData`, a zero among the first three with
    /// `LessThanMinimum`, and a deadline that lies after the ledger's time
    /// with `Expired`.
    pub open spec fn parsed(data: Seq<u8>, unix_timestamp: i64) -> Result<
        WithdrawInstructions,
        ProgramError,
    > {
        if data.len() != 32 {
            Err(ProgramError::InvalidInstructionData)
        } else if le_u64(data.subrange(0, 8)) == 0 || le_u64(data.subrange(8, 16)) == 0 || le_u64(
            data.subrange(16, 24),
        ) == 0 {
            Err(pool_failure(PinocchioError::LessThanMinimum))
        } else if le_u64(data.subrange(24, 32)) > clock_seconds(unix_timestamp) {
            Err(pool_failure(PinocchioError::Expired))
        } else {
            Ok(
                WithdrawInstructions {
                    amount: le_u64(data.subrange(0, 8)) as u64,
                    min_x: le_u64(data.subrange(8, 16)) as u64,
                    min_y: le_u64(data.subrange(16, 24)) as u64,
                    expiration: le_u64(data.subrange(24, 32)) as u64,
                },
            )
        }
    }

    /// Reads the parameters from the instruction bytes, at the ledger's
    /// time `unix_timestamp`.
    pub fn try_from(data: &[u8], unix_timestamp: i64) -> (outcome: Result<Self, ProgramError>)
        ensures
            outcome == Self::parsed(data@, unix_timestamp),
    {
        if data.len() != 32 {
            return Err(ProgramError::InvalidInstructionData);
        }
        let amount: u64 = read_u64_le(data, 0);
        let min_x: u64 = read_u64_le(data, 8);
        let min_y: u64 = read_u64_le(data, 16);
        let expiration: u64 = read_u64_le(data, 24);

        if amount == 0 || min_x == 0 || min_y == 0 {
            return Err(ProgramError::from(PinocchioError::LessThanMinimum));
        }
        let now: u64 = if unix_timestamp >= 0 {
            unix_timestamp as u64
        } else {
            u64::MAX - ((-(unix_timestamp + 1)) as u64)
        };
        if expiration > now {
            return Err(ProgramError::from(PinocchioError::Expired));
        }
        Ok(Self { amount, min_x, min_y, expiration })
    }
}

/// What a withdrawal of `amount` shares comes to: the amounts that the
/// shares redeem at the pool's ratio, carried with [`PRECISION`] digits.
///
/// It fails with `MathOverflow` where those amounts do not exist, and with
/// `SlippageExceeded` where one of them is under its minimum.
pub open spec fn withdraw_decided(
    reserve_x: u64,
    reserve_y: u64,
    share_supply: u64,
    amount: u64,
    min_x: u64,
    min_y: u64,
) -> Result<XYAmounts, ProgramError> {
    let x = withdraw_amount(reserve_x as nat, share_supply as nat, amount as nat, PRECISION as nat);
    let y = withdraw_amount(reserve_y as nat, share_supply as nat, amount as nat, PRECISION as nat);
    if !withdraw_amounts_defined(
        reserve_x as nat,
        reserve_y as nat,
        share_supply as nat,
        amount as nat,
        PRECISION as nat,
    ) {
        Err(curve_failure(CurveError::MathOverflow))
    } else if x < min_x || y < min_y {
        Err(curve_failure(CurveError::SlippageExceeded))
    } else {
        Ok(XYAmounts { x: x as u64, y: y as u64 })
    }
}

/// Decides a withdrawal.
pub fn decide_withdraw(
    reserve_x: u64,
    reserve_y: u64,
    share_supply: u64,
    amount: u64,
    min_x: u64,
    min_y: u64,
) -> (outcome: Result<XYAmounts, ProgramError>)
    ensures
        outcome == withdraw_decided(reserve_x, reserve_y, share_supply, amount, min_x, min_y),
{
    let amounts: XYAmounts = match XYAmounts::xy_withdraw_amounts_from_l(
        reserve_x,
        reserve_y,
        share_supply,
        amount,
        PRECISION,
    ) {
        Ok(amounts) => amounts,
        Err(_) => {
            return Err(ProgramError::from(CurveError::MathOverflow));
        },
    };
    if amounts.x < min_x || amounts.y < min_y {
        return Err(ProgramError::from(CurveError::SlippageExceeded));
    }
    Ok(amounts)
}

/// A request or none, as a list.
pub open spec fn listed(effect: Option<Effect>) -> Seq<Effect> {
    match effect {
        Some(e) => seq![e],
        None => Seq::empty(),
    }
}

/// A Withdraw whose accounts and parameters have passed their checks.
pub struct Withdraw<'a> {
    pub accounts: WithdrawAccounts<'a>,
    pub instructions: WithdrawInstructions,
}

impl<'a> Withdraw<'a> {
    /// The accounts that have to exist before the withdrawal pays out: the
    /// user's account for each asset, where it does not exist yet.
    pub open spec fn creations(accounts: Seq<AccountInfo>) -> Seq<Effect> {
        listed(
            AssociatedTokenAccount::needed(&accounts[6], &accounts[4], &accounts[0], &accounts[0]),
        ) + listed(
            AssociatedTokenAccount::needed(&accounts[7], &accounts[5], &accounts[0], &accounts[0]),
        )
    }

    /// Checks the accounts, then the parameters at the ledger's time
    /// `unix_timestamp`, and asks for the user's asset accounts where they
    /// do not exist yet.
    ///
    /// Fails with the first failure of the account list, else with that of
    /// the instruction bytes.
    pub fn try_from(accounts: &'a [AccountInfo], data: &[u8], unix_timestamp: i64) -> (outcome:
        Result<(Self, Vec<Effect>), ProgramError>)
        ensures
            match outcome {
                Ok((withdraw, effects)) => {
                    &&& WithdrawAccounts::checked(accounts@) is Ok
                    &&& withdraw.accounts.taken_from(accounts@)
                    &&& WithdrawInstructions::parsed(data@, unix_timestamp) == Ok::<
                        WithdrawInstructions,
                        ProgramError,
                    >(withdraw.instructions)
                    &&& effects@ == Self::creations(accounts@)
                },
                Err(e) => if WithdrawAccounts::checked(accounts@) is Err {
                    WithdrawAccounts::checked(accounts@) == Err::<(), ProgramError>(e)
                } else {
                    WithdrawInstructions::parsed(data@, unix_timestamp) == Err::<
                        WithdrawInstructions,
                        ProgramError,
                    >(e)
                },
            },
    {
        let accounts = WithdrawAccounts::try_from(accounts)?;
        let instructions = WithdrawInstructions::try_from(data, unix_timestamp)?;

        let mut effects: Vec<Effect> = Vec::new();
        match AssociatedTokenAccount::init_if_needed(
            accounts.user_x_ata,
            accounts.mint_x,
            accounts.user,
            accounts.user,
            accounts.system_program,
            accounts.token_program,
        ) {
            Some(effect) => {
                effects.push(effect);
            },
            None => {},
        }
        let ghost first = effects@;
        match AssociatedTokenAccount::init_if_needed(
            accounts.user_y_ata,
            accounts.mint_y,
            accounts.user,
            accounts.user,
            accounts.system_program,
            accounts.token_program,
        ) {
            Some(effect) => {
                effects.push(effect);
            },
            None => {},
        }
        assert(effects@ =~= first + listed(
            AssociatedTokenAccount::needed(
                accounts.user_y_ata,
                accounts.mint_y,
                accounts.user,
                accounts.user,
            ),
        ));
        Ok((Self { accounts, instructions }, effects))
    }

    /// The first check that fails on the pool, if any: the pool's record
    /// loads and is valid; the pool lies at the address that its salt makes, else
    /// `InvalidConfig`; the share asset lies at the address derived from the
    /// pool's, else `InvalidLpMint`.
    pub open spec fn pool_checked(self, program_id: &Pubkey) -> Result<(), ProgramError> {
        both(
            Config::usable(self.accounts.config, program_id),
            both(
                pool_address_checked(
                    decode_config(self.accounts.config.data@).config_bump,
                    program_id@,
                    self.accounts.config.key@,
                ),
                share_asset_checked(
                    self.accounts.config.key@,
                    program_id@,
                    self.accounts.mint_lp.key@,
                    pool_failure(PinocchioError::InvalidLpMint),
                ),
            ),
        )
    }

    /// The first check that fails on the balances, if any: the two vaults
    /// are token-holding records and the share asset is an asset-type
    /// record; the pool holds both vaults, else `InvalidOwner`; each vault
    /// holds its asset, else `InvalidAccountData`.
    pub open spec fn vaults_checked(self) -> Result<(), ProgramError> {
        if self.accounts.vault_x.data@.len() != 165 || self.accounts.vault_y.data@.len() != 165
            || self.accounts.mint_lp.data@.len() != 82 {
            Err(ProgramError::InvalidAccountData)
        } else if token_owner(self.accounts.vault_x.data@) != self.accounts.config.key@
            || token_owner(self.accounts.vault_y.data@) != self.accounts.config.key@ {
            Err(pool_failure(PinocchioError::InvalidOwner))
        } else if token_mint(self.accounts.vault_x.data@) != self.accounts.mint_x.key@
            || token_mint(self.accounts.vault_y.data@) != self.accounts.mint_y.key@ {
            Err(ProgramError::InvalidAccountData)
        } else {
            Ok(())
        }
    }

    /// The requests that carry a withdrawal out: the user burns the shares,
    /// and the pool pays both assets out of the vaults.
    pub open spec fn requests(self, amounts: XYAmounts) -> Seq<Effect> {
        let pool = Authority::Derived {
            key: self.accounts.config.key,
            seeds: Seeds::Config { bump: decode_config(self.accounts.config.data@).config_bump },
        };
        seq![
            Effect::Burn {
                mint: self.accounts.mint_lp.key,
                account: self.accounts.user_lp_ata.key,
                amount: self.instructions.amount,
                authority: Authority::Signer { key: self.accounts.user.key },
            },
            Effect::Transfer {
                from: self.accounts.vault_x.key,
                to: self.accounts.user_x_ata.key,
                amount: amounts.x,
                authority: pool,
            },
            Effect::Transfer {
                from: self.accounts.vault_y.key,
                to: self.accounts.user_y_ata.key,
                amount: amounts.y,
                authority: pool,
            },
        ]
    }

    /// What [`Withdraw::process`] answers: the first failure of the pool or
    /// of the balances, else that of the decision, else the requests. The
    /// reserves are the balances of the two vaults, and the share supply is
    /// that of the share asset's record.
    pub open spec fn processed(self, program_id: &Pubkey) -> Result<Seq<Effect>, ProgramError> {
        match both(self.pool_checked(program_id), self.vaults_checked()) {
            Err(e) => Err(e),
            Ok(()) => match withdraw_decided(
                token_amount(self.accounts.vault_x.data@) as u64,
                token_amount(self.accounts.vault_y.data@) as u64,
                mint_supply(self.accounts.mint_lp.data@) as u64,
                self.instructions.amount,
                self.instructions.min_x,
                self.instructions.min_y,
            ) {
                Err(e) => Err(e),
                Ok(amounts) => Ok(self.requests(amounts)),
            },
        }
    }

    /// Carries out a withdrawal.
    ///
    /// The pool's address and the share asset's are derived again and
    /// compared, the balances are read, and the withdrawal is decided as
    /// [`withdraw_decided`] says. On a failure nothing is requested.
    pub fn process(&self, program_id: &Pubkey) -> (outcome: Result<Vec<Effect>, ProgramError>)
        ensures
            match outcome {
                Ok(effects) => self.processed(program_id) == Ok::<Seq<Effect>, ProgramError>(
                    effects@,
                ),
                Err(e) => self.processed(program_id) == Err::<Seq<Effect>, ProgramError>(e),
            },
    {
        let config = Config::load_initialized(self.accounts.config, program_id)?;
        let config_bump: u8 = config.config_bump();

        check_pool_address(config_bump, program_id, self.accounts.config.key())?;
        check_share_asset(
            self.accounts.config.key(),
            program_id,
            self.accounts.mint_lp.key(),
            ProgramError::from(PinocchioError::InvalidLpMint),
        )?;

        let vault_x: TokenBalance = read_token_balance(self.accounts.vault_x)?;
        let vault_y: TokenBalance = read_token_balance(self.accounts.vault_y)?;
        let share_supply: u64 = read_mint_supply(self.accounts.mint_lp)?;

        if !pubkey_eq(&vault_x.owner, self.accounts.config.key()) || !pubkey_eq(
            &vault_y.owner,
            self.accounts.config.key(),
        ) {
            return Err(ProgramError::from(PinocchioError::InvalidOwner));
        }
        if !pubkey_eq(&vault_x.mint, self.accounts.mint_x.key()) || !pubkey_eq(
            &vault_y.mint,
            self.accounts.mint_y.key(),
        ) {
            return Err(ProgramError::InvalidAccountData);
        }
        let amounts: XYAmounts = decide_withdraw(
            vault_x.amount,
            vault_y.amount,
            share_supply,
            self.instructions.amount,
            self.instructions.min_x,
            self.instructions.min_y,
        )?;

        let pool = Authority::Derived {
            key: self.accounts.config.key,
            seeds: Seeds::Config { bump: config_bump },
        };
        let mut effects: Vec<Effect> = Vec::new();
        effects.push(
            Effect::Burn {
                mint: self.accounts.mint_lp.key,
                account: self.accounts.user_lp_ata.key,
                amount: self.instructions.amount,
                authority: Authority::Signer { key: self.accounts.user.key },
            },
        );
        effects.push(
            Effect::Transfer {
                from: self.accounts.vault_x.key,
                to: self.accounts.user_x_ata.key,
                amount: amounts.x,
                authority: pool,
            },
        );
        effects.push(
            Effect::Transfer {
                from: self.accounts.vault_y.key,
                to: self.accounts.user_y_ata.key,
                amount: amounts.y,
                authority: pool,
            },
        );
        assert(effects@ =~= self.requests(amounts));
        Ok(effects)
    }
}

/// Address forgery is refused. A Withdraw whose X vault or Y vault does not
/// lie at the address derived from the pool and the vault's asset fails the
/// check of its accounts, whatever else it holds: no [`Withdraw`] comes of
/// it, and nothing is computed.
pub proof fn lemma_withdraw_refuses_forged_vault(accounts: Seq<AccountInfo>)
    requires
        !lies_at_derived_address(&accounts[2], &accounts[9], &accounts[4])
            || !lies_at_derived_address(&accounts[3], &accounts[9], &accounts[5]),
    ensures
        WithdrawAccounts::checked(accounts) is Err,
{
}

/// Conservation. Let a deposit succeed on a pool and cost `paid` for the
/// shares it mints, and let the withdrawal of those shares from the pool as
/// the deposit leaves it succeed and return `back`. The withdrawal returns
/// of each asset no more than the deposit cost: it returns exactly that.
pub proof fn lemma_deposit_then_withdraw_returns_no_more(
    reserve_x: u64,
    reserve_y: u64,
    share_supply: u64,
    max_x: u64,
    max_y: u64,
    shares: u64,
    min_x: u64,
    min_y: u64,
    paid: DepositOutcome,
    back: XYAmounts,
)
    requires
        share_deposit_decided(reserve_x, reserve_y, share_supply, max_x, max_y, shares) == Ok::<
            DepositOutcome,
            ProgramError,
        >(paid),
        reserve_x + paid.x <= u64::MAX,
        reserve_y + paid.y <= u64::MAX,
        share_supply + paid.shares <= u64::MAX,
        withdraw_decided(
            (reserve_x + paid.x) as u64,
            (reserve_y + paid.y) as u64,
            (share_supply + paid.shares) as u64,
            paid.shares,
            min_x,
            min_y,
        ) == Ok::<XYAmounts, ProgramError>(back),
    ensures
        back.x <= paid.x,
        back.y <= paid.y,
        back.x == paid.x,
        back.y == paid.y,
{
    let p = PRECISION as nat;
    if share_supply > 0 {
        let supply = (share_supply + shares) as nat;
        lemma_kept_reserve_within((reserve_x + paid.x) as nat, supply, shares as nat, p);
        lemma_kept_reserve_within((reserve_y + paid.y) as nat, supply, shares as nat, p);
        lemma_deposit_then_withdraw_conserves(
            reserve_x as nat,
            reserve_y as nat,
            share_supply as nat,
            shares as nat,
            p,
        );
    }
}

/// What a withdrawal asks for is signed for: where [`Withdraw::process`]
/// answers with requests, the seeds that the pool presents make the pool's
/// address.
pub proof fn lemma_withdraw_is_signed_by_the_pool(withdraw: Withdraw, program_id: Pubkey)
    requires
        withdraw.processed(&program_id) is Ok,
    ensures
        forall|i: int|
            0 <= i < withdraw.processed(&program_id)->Ok_0.len() ==> (
            #[trigger] withdraw.processed(&program_id)->Ok_0[i]).signed_under(program_id@),
{
}

/// Slippage enforcement. Whatever a withdrawal answers with pays at least
/// the user's minimum of each asset, and no more of an asset than its vault
/// holds.
pub proof fn lemma_withdraw_keeps_to_the_bounds(
    reserve_x: u64,
    reserve_y: u64,
    share_supply: u64,
    amount: u64,
    min_x: u64,
    min_y: u64,
)
    ensures
        withdraw_decided(reserve_x, reserve_y, share_supply, amount, min_x, min_y) matches Ok(
            back,
        ) ==> min_x <= back.x <= reserve_x && min_y <= back.y <= reserve_y,
{
    if share_supply > 0 && amount <= share_supply {
        let p = PRECISION as nat;
        lemma_kept_reserve_within(reserve_x as nat, share_supply as nat, amount as nat, p);
        lemma_kept_reserve_within(reserve_y as nat, share_supply as nat, amount as nat, p);
    }
}

} // verus!
