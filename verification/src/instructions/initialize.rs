//! Initialize: create a pool's accounts and write its record.

use vstd::prelude::*;
use crate::bytes::{Pubkey, le_u16, pubkey_eq, read_u16_le};
use crate::error::{PinocchioError, ProgramError, pool_failure};
use crate::instructions::helper::{
    AccountCheck, AssociatedTokenAccount, AssociatedTokenAccountInit, MintInterface,
    ProgramAccount, ProgramAccountInit, SignerAccount, both, check_pool_address,
    check_share_asset, pool_address_checked, share_asset_checked,
};
use crate::ledger::{
    AccountInfo, Effect, Seeds, expected_share_asset, mint_record_len, token_program_address,
    token_program_id,
};
use crate::state::{AmmState, Config, ConfigView, MAX_FEE_BPS, decode_config, pool_state};

verus! {

/// The accounts of an Initialize, in the order in which they are given.
pub struct InitializeConfigAccounts<'a> {
    pub authority: &'a AccountInfo,
    pub config: &'a AccountInfo,
    pub mint_x: &'a AccountInfo,
    pub mint_y: &'a AccountInfo,
    pub vault_x: &'a AccountInfo,
    pub vault_y: &'a AccountInfo,
    pub lp_mint: &'a AccountInfo,
    pub token_program: &'a AccountInfo,
    pub system_program: &'a AccountInfo,
    pub associated_token_program: &'a AccountInfo,
}

impl<'a> InitializeConfigAccounts<'a> {
    /// The first check that fails on the account list, if any: there are
    /// ten accounts; the authority signed; both assets are asset-type
    /// records; the two assets differ.
    pub open spec fn checked(accounts: Seq<AccountInfo>) -> Result<(), ProgramError> {
        if accounts.len() != 10 {
            Err(ProgramError::InvalidAccountData)
        } else if SignerAccount::checked(&accounts[0]) is Err {
            SignerAccount::checked(&accounts[0])
        } else if MintInterface::checked(&accounts[2]) is Err {
            MintInterface::checked(&accounts[2])
        } else if MintInterface::checked(&accounts[3]) is Err {
            MintInterface::checked(&accounts[3])
        } else if accounts[2].key@ == accounts[3].key@ {
            Err(ProgramError::InvalidAccountData)
        } else {
            Ok(())
        }
    }

    /// Whether the fields are the ten accounts of the list, in order.
    pub open spec fn taken_from(self, accounts: Seq<AccountInfo>) -> bool {
        &&& accounts.len() == 10
        &&& *self.authority == accounts[0]
        &&& *self.config == accounts[1]
        &&& *self.mint_x == accounts[2]
        &&& *self.mint_y == accounts[3]
        &&& *self.vault_x == accounts[4]
        &&& *self.vault_y == accounts[5]
        &&& *self.lp_mint == accounts[6]
        &&& *self.token_program == accounts[7]
        &&& *self.system_program == accounts[8]
        &&& *self.associated_token_program == accounts[9]
    }

    /// Checks the account list and names its members.
    pub fn try_from(accounts: &'a [AccountInfo]) -> (outcome: Result<Self, ProgramError>)
        ensures
            match outcome {
                Ok(named) => Self::checked(accounts@) is Ok && named.taken_from(accounts@),
                Err(e) => Self::checked(accounts@) == Err::<(), ProgramError>(e),
            },
    {
        if accounts.len() != 10 {
            return Err(ProgramError::InvalidAccountData);
        }
        let authority = &accounts[0];
        let config = &accounts[1];
        let mint_x = &accounts[2];
        let mint_y = &accounts[3];
        let vault_x = &accounts[4];
        let vault_y = &accounts[5];
        let lp_mint = &accounts[6];
        let token_program = &accounts[7];
        let system_program = &accounts[8];
        let associated_token_program = &accounts[9];

        SignerAccount::check(authority)?;
        MintInterface::check(mint_x)?;
        MintInterface::check(mint_y)?;

        if pubkey_eq(mint_x.key(), mint_y.key()) {
            return Err(ProgramError::InvalidAccountData);
        }
        Ok(
            Self {
                authority,
                config,
                mint_x,
                mint_y,
                vault_x,
                vault_y,
                lp_mint,
                token_program,
                system_program,
                associated_token_program,
            },
        )
    }
}

/// The parameters of an Initialize.
#[derive(Debug, Clone, Copy, PartialEq, Eq, Structural)]
pub struct InitializeConfigInstruction {
    pub fee: u16,
    pub config_bump: u8,
}

impl InitializeConfigInstruction {
    /// What the instruction bytes say: the fee in the first two bytes, low
    /// byte first, and the salt in the third. Fewer than three bytes, or a
    /// fee over [`MAX_FEE_BPS`], are refused with `InvalidAccountData`.
    pub open spec fn parsed(data: Seq<u8>) -> Result<InitializeConfigInstruction, ProgramError> {
        if data.len() < 3 {
            Err(ProgramError::InvalidAccountData)
        } else if le_u16(data.subrange(0, 2)) > MAX_FEE_BPS {
            Err(ProgramError::InvalidAccountData)
        } else {
            Ok(
                InitializeConfigInstruction {
                    fee: le_u16(data.subrange(0, 2)) as u16,
                    config_bump: data[2],
                },
            )
        }
    }

    /// Reads the parameters from the instruction bytes.
    pub fn try_from(data: &[u8]) -> (outcome: Result<Self, ProgramError>)
        ensures
            outcome == Self::parsed(data@),
    {
        if data.len() < 3 {
            return Err(ProgramError::InvalidAccountData);
        }
        let fee: u16 = read_u16_le(data, 0);
        let config_bump: u8 = data[2];
        if fee > MAX_FEE_BPS {
            return Err(ProgramError::InvalidAccountData);
        }
        Ok(Self { fee, config_bump })
    }
}

/// An Initialize whose accounts and parameters have passed their checks.
pub struct InitializeConfig<'a> {
    pub accounts: InitializeConfigAccounts<'a>,
    pub instruction: InitializeConfigInstruction,
}

impl<'a> InitializeConfig<'a> {
    /// The byte that selects this operation.
    pub const DISCRIMINATOR: u8 = 0;

    /// The first check that fails on the pool's two own addresses, if any:
    /// the storage lies at the address that the salt makes, else
    /// `InvalidConfig`; the share asset lies at the address derived from the
    /// storage's, else `InvalidLpMint`.
    pub open spec fn addresses_checked(self, program_id: &Pubkey) -> Result<(), ProgramError> {
        both(
            pool_address_checked(
                self.instruction.config_bump,
                program_id@,
                self.accounts.config.key@,
            ),
            share_asset_checked(
                self.accounts.config.key@,
                program_id@,
                self.accounts.lp_mint.key@,
                pool_failure(PinocchioError::InvalidLpMint),
            ),
        )
    }

    /// The accounts that have to exist before the record is written, as
    /// requests in the order in which the ledger is to create them: the
    /// pool's storage, owned by the program; the share asset, owned by the
    /// token program; and the two vaults. The authority pays for all. Each
    /// of the first two is signed for with the seeds that make its address.
    pub open spec fn requests(self, program_id: &Pubkey) -> Seq<Effect> {
        seq![
            Effect::CreateAccount {
                payer: self.accounts.authority.key,
                account: self.accounts.config.key,
                space: Config::LEN as u64,
                owner: *program_id,
                seeds: Seeds::Config { bump: self.instruction.config_bump },
            },
            Effect::CreateAccount {
                payer: self.accounts.authority.key,
                account: self.accounts.lp_mint.key,
                space: 82,
                owner: token_program_address(),
                seeds: Seeds::LpMint {
                    config: self.accounts.config.key,
                    bump: expected_share_asset(self.accounts.config.key@, program_id@)->Some_0.1,
                },
            },
            Effect::CreateAssociatedAccount {
                funder: self.accounts.authority.key,
                account: self.accounts.vault_x.key,
                wallet: self.accounts.config.key,
                mint: self.accounts.mint_x.key,
            },
            Effect::CreateAssociatedAccount {
                funder: self.accounts.authority.key,
                account: self.accounts.vault_y.key,
                wallet: self.accounts.config.key,
                mint: self.accounts.mint_y.key,
            },
        ]
    }

    /// The record that this Initialize writes.
    pub open spec fn record(self) -> ConfigView {
        ConfigView {
            authority: self.accounts.authority.key@,
            mint_x: self.accounts.mint_x.key@,
            mint_y: self.accounts.mint_y.key@,
            mint_x_vault: self.accounts.vault_x.key@,
            mint_y_vault: self.accounts.vault_y.key@,
            lp_mint: self.accounts.lp_mint.key@,
            fee: self.instruction.fee,
            config_bump: self.instruction.config_bump,
        }
    }

    /// Checks the accounts, the parameters and the pool's two own
    /// addresses, and asks for the pool's accounts to be created.
    ///
    /// Fails with the first failure of the account list, else with that of
    /// the instruction bytes, else with that of the addresses. On success
    /// the requests are [`InitializeConfig::requests`], and the seeds that
    /// go with each account to create make that account's address.
    pub fn try_from(program_id: &Pubkey, accounts: &'a [AccountInfo], data: &[u8]) -> (outcome:
        Result<(Self, Vec<Effect>), ProgramError>)
        ensures
            match outcome {
                Ok((init, effects)) => {
                    &&& InitializeConfigAccounts::checked(accounts@) is Ok
                    &&& init.accounts.taken_from(accounts@)
                    &&& InitializeConfigInstruction::parsed(data@) == Ok::<
                        InitializeConfigInstruction,
                        ProgramError,
                    >(init.instruction)
                    &&& init.addresses_checked(program_id) is Ok
                    &&& effects@ == init.requests(program_id)
                    &&& forall|i: int|
                        0 <= i < effects@.len() ==> (#[trigger] effects@[i]).signed_under(
                            program_id@,
                        )
                },
                Err(e) => if InitializeConfigAccounts::checked(accounts@) is Err {
                    InitializeConfigAccounts::checked(accounts@) == Err::<(), ProgramError>(e)
                } else if InitializeConfigInstruction::parsed(data@) is Err {
                    InitializeConfigInstruction::parsed(data@) == Err::<
                        InitializeConfigInstruction,
                        ProgramError,
                    >(e)
                } else {
                    both(
                        pool_address_checked(data@[2], program_id@, accounts@[1].key@),
                        share_asset_checked(
                            accounts@[1].key@,
                            program_id@,
                            accounts@[6].key@,
                            pool_failure(PinocchioError::InvalidLpMint),
                        ),
                    ) == Err::<(), ProgramError>(e)
                },
            },
    {
        let accounts = InitializeConfigAccounts::try_from(accounts)?;
        let instruction = InitializeConfigInstruction::try_from(data)?;

        check_pool_address(instruction.config_bump, program_id, accounts.config.key())?;
        let share_bump: u8 = check_share_asset(
            accounts.config.key(),
            program_id,
            accounts.lp_mint.key(),
            ProgramError::from(PinocchioError::InvalidLpMint),
        )?;
        let token_program: Pubkey = token_program_id();

        let mut effects: Vec<Effect> = Vec::new();
        effects.push(
            ProgramAccount::init::<Config>(
                accounts.authority,
                accounts.config,
                Seeds::Config { bump: instruction.config_bump },
                Config::LEN,
                program_id,
            ),
        );
        effects.push(
            ProgramAccount::init::<MintInterface>(
                accounts.authority,
                accounts.lp_mint,
                Seeds::LpMint { config: accounts.config.key, bump: share_bump },
                mint_record_len(),
                &token_program,
            ),
        );
        effects.push(
            AssociatedTokenAccount::init(
                accounts.vault_x,
                accounts.mint_x,
                accounts.authority,
                accounts.config,
                accounts.system_program,
                accounts.token_program,
            ),
        );
        effects.push(
            AssociatedTokenAccount::init(
                accounts.vault_y,
                accounts.mint_y,
                accounts.authority,
                accounts.config,
                accounts.system_program,
                accounts.token_program,
            ),
        );
        let init = Self { accounts, instruction };
        assert(effects@ =~= init.requests(program_id));
        Ok((init, effects))
    }

    /// What [`InitializeConfig::process`] answers for the storage `config`:
    /// `InvalidConfig` where it is not the account that was checked as the
    /// pool's storage; else the failure of [`Config::loadable`]; else
    /// `AccountAlreadyInitialized`
    /// where a valid record is stored already; else `InvalidAccountData`
    /// where the record to write would not be valid.
    pub open spec fn processed(self, config: &AccountInfo, program_id: &Pubkey) -> Result<
        (),
        ProgramError,
    > {
        if config.key@ != self.accounts.config.key@ {
            Err(pool_failure(PinocchioError::InvalidConfig))
        } else if Config::loadable(config, program_id) is Err {
            Config::loadable(config, program_id)
        } else if decode_config(config.data@).is_valid() {
            Err(ProgramError::AccountAlreadyInitialized)
        } else if !self.record().is_valid() {
            Err(ProgramError::InvalidAccountData)
        } else {
            Ok(())
        }
    }

    /// Writes the pool's record into `config`, the pool's storage as the
    /// ledger holds it once the requests of [`InitializeConfig::try_from`]
    /// are applied. The pool goes from `Uninitialized` to `Initialized`.
    ///
    /// Fails as [`InitializeConfig::processed`] says. On a failure `config`
    /// keeps its data, and the pool its stage.
    pub fn process(&self, config: &mut AccountInfo, program_id: &Pubkey) -> (outcome: Result<
        (),
        ProgramError,
    >)
        ensures
            outcome == self.processed(old(config), program_id),
            final(config).key == old(config).key,
            final(config).owner == old(config).owner,
            final(config).is_signer == old(config).is_signer,
            match outcome {
                Ok(()) => {
                    &&& pool_state(old(config), program_id) == AmmState::Uninitialized
                    &&& pool_state(final(config), program_id) == AmmState::Initialized
                    &&& final(config).data@.len() == Config::LEN
                    &&& decode_config(final(config).data@) == self.record()
                    &&& final(config).data@[195] == old(config).data@[195]
                },
                Err(e) => final(config).data@ == old(config).data@,
            },
    {
        if !pubkey_eq(config.key(), self.accounts.config.key()) {
            return Err(ProgramError::from(PinocchioError::InvalidConfig));
        }
        let mut config_data = Config::load_mut(config, program_id)?;
        if config_data.is_valid() {
            return Err(ProgramError::AccountAlreadyInitialized);
        }
        config_data.set_inner(
            self.accounts.authority.key,
            self.accounts.mint_x.key,
            self.accounts.mint_y.key,
            self.accounts.vault_x.key,
            self.accounts.vault_y.key,
            self.accounts.lp_mint.key,
            self.instruction.fee,
            self.instruction.config_bump,
        )?;
        config_data.store(config, program_id)
    }
}

} // verus!
