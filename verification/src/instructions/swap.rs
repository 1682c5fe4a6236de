//! Swap: pay one asset into the pool and receive the other.

use vstd::prelude::*;
use crate::bytes::{Pubkey, le_u64, pubkey_eq, read_u64_le};
use crate::error::{CurveError, PinocchioError, ProgramError, curve_failure, pool_failure};
use crate::instructions::helper::{
    AccountCheck, AssociatedTokenAccount, AssociatedTokenAccountCheck, SignerAccount, both,
    check_pool_address, lies_at_derived_address, pool_address_checked,
};
use crate::ledger::{
    AccountInfo, Authority, Effect, Seeds, TokenBalance, read_token_balance, token_amount,
    token_mint, token_owner,
};
use crate::state::curve::{swap_defined, swap_output, swap_with_minimum};
use crate::state::{Config, decode_config};

verus! {

/// The accounts of a Swap, in the order in which they are given.
pub struct SwapAccounts<'a> {
    pub user: &'a AccountInfo,
    pub mint_x: &'a AccountInfo,
    pub mint_y: &'a AccountInfo,
    pub vault_x: &'a AccountInfo,
    pub vault_y: &'a AccountInfo,
    pub user_x_ata: &'a AccountInfo,
    pub user_y_ata: &'a AccountInfo,
    pub config: &'a AccountInfo,
    pub token_program: &'a AccountInfo,
}

impl<'a> SwapAccounts<'a> {
    /// The first check that fails on the account list, if any. There are
    /// nine accounts; the user signed; the two vaults and the user's two
    /// asset accounts are token-holding records at the addresses derived
    /// from their holder and asset.
    pub open spec fn checked(accounts: Seq<AccountInfo>) -> Result<(), ProgramError> {
        if accounts.len() != 9 {
            Err(ProgramError::InvalidAccountData)
        } else {
            let user = &accounts[0];
            let mint_x = &accounts[1];
            let mint_y = &accounts[2];
            let vault_x = &accounts[3];
            let vault_y = &accounts[4];
            let user_x_ata = &accounts[5];
            let user_y_ata = &accounts[6];
            let config = &accounts[7];
            let of_the_pool = both(
                AssociatedTokenAccount::checked(vault_x, config, mint_x),
                AssociatedTokenAccount::checked(vault_y, config, mint_y),
            );
            let of_the_user = both(
                AssociatedTokenAccount::checked(user_x_ata, user, mint_x),
                AssociatedTokenAccount::checked(user_y_ata, user, mint_y),
            );
            both(SignerAccount::checked(user), both(of_the_pool, of_the_user))
        }
    }

    /// Whether the fields are the nine accounts of the list, in order.
    pub open spec fn taken_from(self, accounts: Seq<AccountInfo>) -> bool {
        &&& accounts.len() == 9
        &&& *self.user == accounts[0]
        &&& *self.mint_x == accounts[1]
        &&& *self.mint_y == accounts[2]
        &&& *self.vault_x == accounts[3]
        &&& *self.vault_y == accounts[4]
        &&& *self.user_x_ata == accounts[5]
        &&& *self.user_y_ata == accounts[6]
        &&& *self.config == accounts[7]
        &&& *self.token_program == accounts[8]
    }

    /// Checks the account list and names its members.
    pub fn try_from(accounts: &'a [AccountInfo]) -> (outcome: Result<Self, ProgramError>)
        ensures
            match outcome {
                Ok(named) => Self::checked(accounts@) is Ok && named.taken_from(accounts@),
                Err(e) => Self::checked(accounts@) == Err::<(), ProgramError>(e),
            },
    {
        if accounts.len() != 9 {
            return Err(ProgramError::InvalidAccountData);
        }
        let user = &accounts[0];
        let mint_x = &accounts[1];
        let mint_y = &accounts[2];
        let vault_x = &accounts[3];
        let vault_y = &accounts[4];
        let user_x_ata = &accounts[5];
        let user_y_ata = &accounts[6];
        let config = &accounts[7];
        let token_program = &accounts[8];

        SignerAccount::check(user)?;

        AssociatedTokenAccount::check(vault_x, config, mint_x)?;
        AssociatedTokenAccount::check(vault_y, config, mint_y)?;

        AssociatedTokenAccount::check(user_x_ata, user, mint_x)?;
        AssociatedTokenAccount::check(user_y_ata, user, mint_y)?;

        Ok(
            Self {
                user,
                mint_x,
                mint_y,
                vault_x,
                vault_y,
                user_x_ata,
                user_y_ata,
                config,
                token_program,
            },
        )
    }
}

/// The parameters of a Swap: which asset is paid in, how much of it, and
/// the least of the other asset that the user accepts.
#[derive(Debug, Clone, Copy, PartialEq, Eq, Structural)]
pub struct SwapInstructions {
    /// Whether X is paid in and Y paid out; else the other way round.
    pub is_x: bool,
    pub amount: u64,
    pub min: u64,
}

impl SwapInstructions {
    /// What the instruction bytes say: one byte for the direction, 1 where
    /// X is paid in and 0 where Y is, and two 64-bit numbers, low byte
    /// first. Another length than 17, and another direction byte, are
    /// refused with `InvalidInstructionData`.
    pub open spec fn parsed(data: Seq<u8>) -> Result<SwapInstructions, ProgramError> {
        if data.len() != 17 || data[0] > 1 {
            Err(ProgramError::InvalidInstructionData)
        } else {
            Ok(
                SwapInstructions {
                    is_x: data[0] == 1,
                    amount: le_u64(data.subrange(1, 9)) as u64,
                    min: le_u64(data.subrange(9, 17)) as u64,
                },
            )
        }
    }

    /// Reads the parameters from the instruction bytes.
    pub fn try_from(data: &[u8]) -> (outcome: Result<Self, ProgramError>)
        ensures
            outcome == Self::parsed(data@),
    {
        if data.len() != 17 {
            return Err(ProgramError::InvalidInstructionData);
        }
        let direction: u8 = data[0];
        if direction > 1 {
            return Err(ProgramError::InvalidInstructionData);
        }
        let amount: u64 = read_u64_le(data, 1);
        let min: u64 = read_u64_le(data, 9);
        Ok(Self { is_x: direction == 1, amount, min })
    }
}

/// What a swap pays out: the output along the constant product, net of the
/// fee.
///
/// It fails with `MathOverflow` where that output does not exist, and with
/// `SlippageExceeded` where it is under the minimum.
pub open spec fn swap_decided(
    reserve_in: u64,
    reserve_out: u64,
    amount_in: u64,
    fee_bps: u16,
    min_out: u64,
) -> Result<u64, ProgramError> {
    let out = swap_output(
        reserve_in as nat,
        reserve_out as nat,
        amount_in as nat,
        fee_bps as nat,
    );
    if !swap_defined(reserve_in as nat, amount_in as nat, fee_bps as nat) {
        Err(curve_failure(CurveError::MathOverflow))
    } else if out < min_out {
        Err(curve_failure(CurveError::SlippageExceeded))
    } else {
        Ok(out as u64)
    }
}

/// Decides a swap. What it pays out leaves the product of the reserves no
/// smaller than it was.
pub fn decide_swap(
    reserve_in: u64,
    reserve_out: u64,
    amount_in: u64,
    fee_bps: u16,
    min_out: u64,
) -> (outcome: Result<u64, ProgramError>)
    ensures
        outcome == swap_decided(reserve_in, reserve_out, amount_in, fee_bps, min_out),
        outcome matches Ok(out) ==> out <= reserve_out && (reserve_in + amount_in) * (reserve_out
            - out) >= reserve_in * reserve_out,
{
    match swap_with_minimum(reserve_in, reserve_out, amount_in, fee_bps, min_out) {
        Ok(out) => Ok(out),
        Err(CurveError::SlippageExceeded) => Err(
            ProgramError::from(CurveError::SlippageExceeded),
        ),
        Err(_) => Err(ProgramError::from(CurveError::MathOverflow)),
    }
}

/// A Swap whose accounts and parameters have passed their checks.
pub struct Swap<'a> {
    pub accounts: SwapAccounts<'a>,
    pub instructions: SwapInstructions,
}

impl<'a> Swap<'a> {
    /// Checks the accounts, then the parameters.
    ///
    /// Fails with the first failure of the account list, else with that of
    /// the instruction bytes.
    pub fn try_from(accounts: &'a [AccountInfo], data: &[u8]) -> (outcome: Result<
        Self,
        ProgramError,
    >)
        ensures
            match outcome {
                Ok(swap) => {
                    &&& SwapAccounts::checked(accounts@) is Ok
                    &&& swap.accounts.taken_from(accounts@)
                    &&& SwapInstructions::parsed(data@) == Ok::<SwapInstructions, ProgramError>(
                        swap.instructions,
                    )
                },
                Err(e) => if SwapAccounts::checked(accounts@) is Err {
                    SwapAccounts::checked(accounts@) == Err::<(), ProgramError>(e)
                } else {
                    SwapInstructions::parsed(data@) == Err::<SwapInstructions, ProgramError>(e)
                },
            },
    {
        let accounts = SwapAccounts::try_from(accounts)?;
        let instructions = SwapInstructions::try_from(data)?;
        Ok(Self { accounts, instructions })
    }

    /// The first check that fails on the pool, if any: the pool's record
    /// loads and is valid; the pool lies at the address that its salt makes, else
    /// `InvalidConfig`.
    pub open spec fn pool_checked(self, program_id: &Pubkey) -> Result<(), ProgramError> {
        both(
            Config::usable(self.accounts.config, program_id),
            pool_address_checked(
                decode_config(self.accounts.config.data@).config_bump,
                program_id@,
                self.accounts.config.key@,
            ),
        )
    }

    /// The first check that fails on the vaults, if any: both are
    /// token-holding records; the pool holds both, else `InvalidOwner`; each
    /// holds its asset, else `InvalidAccountData`.
    pub open spec fn vaults_checked(self) -> Result<(), ProgramError> {
        if self.accounts.vault_x.data@.len() != 165 || self.accounts.vault_y.data@.len() != 165 {
            Err(ProgramError::InvalidAccountData)
        } else if token_owner(self.accounts.vault_x.data@) != self.accounts.config.key@
            || token_owner(self.accounts.vault_y.data@) != self.accounts.config.key@ {
            Err(pool_failure(PinocchioError::InvalidOwner))
        } else if token_mint(self.accounts.vault_x.data@) != self.accounts.mint_x.key@
            || token_mint(self.accounts.vault_y.data@) != self.accounts.mint_y.key@ {
            Err(ProgramError::InvalidAccountData)
        } else {
            Ok(())
        }
    }

    /// The reserve of the asset that is paid in.
    pub open spec fn reserve_in(self) -> u64 {
        if self.instructions.is_x {
            token_amount(self.accounts.vault_x.data@) as u64
        } else {
            token_amount(self.accounts.vault_y.data@) as u64
        }
    }

    /// The reserve of the asset that is paid out.
    pub open spec fn reserve_out(self) -> u64 {
        if self.instructions.is_x {
            token_amount(self.accounts.vault_y.data@) as u64
        } else {
            token_amount(self.accounts.vault_x.data@) as u64
        }
    }

    /// The requests that carry a swap out: the user pays the whole input
    /// into its vault, and the pool pays `out` from the other vault.
    pub open spec fn requests(self, out: u64) -> Seq<Effect> {
        let pool = Authority::Derived {
            key: self.accounts.config.key,
            seeds: Seeds::Config { bump: decode_config(self.accounts.config.data@).config_bump },
        };
        let user = Authority::Signer { key: self.accounts.user.key };
        if self.instructions.is_x {
            seq![
                Effect::Transfer {
                    from: self.accounts.user_x_ata.key,
                    to: self.accounts.vault_x.key,
                    amount: self.instructions.amount,
                    authority: user,
                },
                Effect::Transfer {
                    from: self.accounts.vault_y.key,
                    to: self.accounts.user_y_ata.key,
                    amount: out,
                    authority: pool,
                },
            ]
        } else {
            seq![
                Effect::Transfer {
                    from: self.accounts.user_y_ata.key,
                    to: self.accounts.vault_y.key,
                    amount: self.instructions.amount,
                    authority: user,
                },
                Effect::Transfer {
                    from: self.accounts.vault_x.key,
                    to: self.accounts.user_x_ata.key,
                    amount: out,
                    authority: pool,
                },
            ]
        }
    }

    /// What [`Swap::process`] answers: the first failure of the pool or of
    /// the vaults, else that of the decision, else the requests. The fee is
    /// the one that the pool's record names.
    pub open spec fn processed(self, program_id: &Pubkey) -> Result<Seq<Effect>, ProgramError> {
        match both(self.pool_checked(program_id), self.vaults_checked()) {
            Err(e) => Err(e),
            Ok(()) => match swap_decided(
                self.reserve_in(),
                self.reserve_out(),
                self.instructions.amount,
                decode_config(self.accounts.config.data@).fee,
                self.instructions.min,
            ) {
                Err(e) => Err(e),
                Ok(out) => Ok(self.requests(out)),
            },
        }
    }

    /// Carries out a swap.
    ///
    /// The pool's address is derived again and compared, the vaults are
    /// read, and the swap is decided as [`swap_decided`] says. On a failure
    /// nothing is requested.
    pub fn process(&self, program_id: &Pubkey) -> (outcome: Result<Vec<Effect>, ProgramError>)
        ensures
            match outcome {
                Ok(effects) => self.processed(program_id) == Ok::<Seq<Effect>, ProgramError>(
                    effects@,
                ),
                Err(e) => self.processed(program_id) == Err::<Seq<Effect>, ProgramError>(e),
            },
    {
        let config = Config::load_initialized(self.accounts.config, program_id)?;
        let config_bump: u8 = config.config_bump();
        check_pool_address(config_bump, program_id, self.accounts.config.key())?;

        let vault_x: TokenBalance = read_token_balance(self.accounts.vault_x)?;
        let vault_y: TokenBalance = read_token_balance(self.accounts.vault_y)?;

        if !pubkey_eq(&vault_x.owner, self.accounts.config.key()) || !pubkey_eq(
            &vault_y.owner,
            self.accounts.config.key(),
        ) {
            return Err(ProgramError::from(PinocchioError::InvalidOwner));
        }
        if !pubkey_eq(&vault_x.mint, self.accounts.mint_x.key()) || !pubkey_eq(
            &vault_y.mint,
            self.accounts.mint_y.key(),
        ) {
            return Err(ProgramError::InvalidAccountData);
        }
        let (reserve_in, reserve_out): (u64, u64) = if self.instructions.is_x {
            (vault_x.amount, vault_y.amount)
        } else {
            (vault_y.amount, vault_x.amount)
        };
        let out: u64 = decide_swap(
            reserve_in,
            reserve_out,
            self.instructions.amount,
            config.fee(),
            self.instructions.min,
        )?;

        let pool = Authority::Derived {
            key: self.accounts.config.key,
            seeds: Seeds::Config { bump: config_bump },
        };
        let user = Authority::Signer { key: self.accounts.user.key };
        let (paid_from, paid_to, out_from, out_to): (Pubkey, Pubkey, Pubkey, Pubkey) =
            if self.instructions.is_x {
            (
                self.accounts.user_x_ata.key,
                self.accounts.vault_x.key,
                self.accounts.vault_y.key,
                self.accounts.user_y_ata.key,
            )
        } else {
            (
                self.accounts.user_y_ata.key,
                self.accounts.vault_y.key,
                self.accounts.vault_x.key,
                self.accounts.user_x_ata.key,
            )
        };
        let mut effects: Vec<Effect> = Vec::new();
        effects.push(
            Effect::Transfer {
                from: paid_from,
                to: paid_to,
                amount: self.instructions.amount,
                authority: user,
            },
        );
        effects.push(Effect::Transfer { from: out_from, to: out_to, amount: out, authority: pool });
        assert(effects@ =~= self.requests(out));
        Ok(effects)
    }
}

/// Address forgery is refused. A Swap whose X vault or Y vault does not lie
/// at the address derived from the pool and the vault's asset fails the
/// check of its accounts, whatever else it holds: no [`Swap`] comes of it,
/// and nothing is computed.
pub proof fn lemma_swap_refuses_forged_vault(accounts: Seq<AccountInfo>)
    requires
        !lies_at_derived_address(&accounts[3], &accounts[7], &accounts[1])
            || !lies_at_derived_address(&accounts[4], &accounts[7], &accounts[2]),
    ensures
        SwapAccounts::checked(accounts) is Err,
{
}

/// What a swap asks for is signed for: where [`Swap::process`] answers with
/// requests, the seeds that the pool presents make the pool's address.
pub proof fn lemma_swap_is_signed_by_the_pool(swap: Swap, program_id: Pubkey)
    requires
        swap.processed(&program_id) is Ok,
    ensures
        forall|i: int|
            0 <= i < swap.processed(&program_id)->Ok_0.len() ==> (
            #[trigger] swap.processed(&program_id)->Ok_0[i]).signed_under(program_id@),
{
}

} // verus!
