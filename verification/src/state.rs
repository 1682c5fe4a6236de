//! The pool's state: its stored record and the curve arithmetic.

use vstd::prelude::*;
use crate::bytes::{
    Pubkey, le_u16, pubkey_eq, pubkey_is_zero, read_pubkey, read_u16_le, write_pubkey,
    write_u16_le, zero_key,
};
use crate::error::ProgramError;
use crate::ledger::AccountInfo;

pub mod curve;

pub use curve::XYAmounts;

verus! {

/// The highest fee a pool may charge, in basis points.
pub const MAX_FEE_BPS: u16 = 1000;

/// The stage of a pool's life.
#[derive(Debug, Clone, Copy, PartialEq, Eq, Structural)]
pub enum AmmState {
    Uninitialized,
    Initialized,
    Disabled,
    WithdrawOnly,
}

impl AmmState {
    /// The byte that stands for the stage.
    pub open spec fn spec_code(self) -> u8 {
        match self {
            AmmState::Uninitialized => 0,
            AmmState::Initialized => 1,
            AmmState::Disabled => 2,
            AmmState::WithdrawOnly => 3,
        }
    }

    /// The byte that stands for the stage.
    pub fn code(&self) -> (code: u8)
        ensures
            code == self.spec_code(),
    {
        match self {
            AmmState::Uninitialized => 0,
            AmmState::Initialized => 1,
            AmmState::Disabled => 2,
            AmmState::WithdrawOnly => 3,
        }
    }
}

/// What a pool record holds, as values.
pub struct ConfigView {
    pub authority: Seq<u8>,
    pub mint_x: Seq<u8>,
    pub mint_y: Seq<u8>,
    pub mint_x_vault: Seq<u8>,
    pub mint_y_vault: Seq<u8>,
    pub lp_mint: Seq<u8>,
    pub fee: u16,
    pub config_bump: u8,
}

impl ConfigView {
    /// What has to hold of every record that is stored: the two assets
    /// differ, and the fee is at most [`MAX_FEE_BPS`].
    pub open spec fn is_valid(self) -> bool {
        &&& self.mint_x != self.mint_y
        &&& self.fee <= MAX_FEE_BPS
    }
}

/// The record that `bytes` hold: six addresses, the fee as two bytes with
/// the low one first, and the derivation salt. The record's last byte is
/// unused.
pub open spec fn decode_config(bytes: Seq<u8>) -> ConfigView {
    ConfigView {
        authority: bytes.subrange(0, 32),
        mint_x: bytes.subrange(32, 64),
        mint_y: bytes.subrange(64, 96),
        mint_x_vault: bytes.subrange(96, 128),
        mint_y_vault: bytes.subrange(128, 160),
        lp_mint: bytes.subrange(160, 192),
        fee: le_u16(bytes.subrange(192, 194)) as u16,
        config_bump: bytes[194],
    }
}

/// The record of one pool.
#[derive(Debug, Clone, Copy)]
pub struct Config {
    authority: Pubkey,
    mint_x: Pubkey,
    mint_y: Pubkey,
    mint_x_vault: Pubkey,
    mint_y_vault: Pubkey,
    lp_mint: Pubkey,
    fee: u16,
    config_bump: u8,
}

impl View for Config {
    type V = ConfigView;

    closed spec fn view(&self) -> ConfigView {
        ConfigView {
            authority: self.authority@,
            mint_x: self.mint_x@,
            mint_y: self.mint_y@,
            mint_x_vault: self.mint_x_vault@,
            mint_y_vault: self.mint_y_vault@,
            lp_mint: self.lp_mint@,
            fee: self.fee,
            config_bump: self.config_bump,
        }
    }
}

impl Config {
    /// The size of a stored record in bytes.
    pub const LEN: usize = 196;

    /// Whether `account_info` can hold a record of `program_id`: its data has
    /// the record's size, and the program owns it.
    pub open spec fn loadable(account_info: &AccountInfo, program_id: &Pubkey) -> Result<
        (),
        ProgramError,
    > {
        if account_info.data@.len() != Config::LEN {
            Err(ProgramError::InvalidAccountData)
        } else if account_info.owner@ != program_id@ {
            Err(ProgramError::InvalidAccountOwner)
        } else {
            Ok(())
        }
    }

    /// Whether `account_info` holds the record of a pool that is in use:
    /// the failure of [`Config::loadable`], else `UninitializedAccount` where
    /// the record is not valid, as storage is before a record is written.
    pub open spec fn usable(account_info: &AccountInfo, program_id: &Pubkey) -> Result<
        (),
        ProgramError,
    > {
        if Config::loadable(account_info, program_id) is Err {
            Config::loadable(account_info, program_id)
        } else if !decode_config(account_info.data@).is_valid() {
            Err(ProgramError::UninitializedAccount)
        } else {
            Ok(())
        }
    }

    /// What [`Config::load`] returns: the failure of [`Config::loadable`], or
    /// the record that the data hold.
    pub open spec fn loaded(
        account_info: &AccountInfo,
        program_id: &Pubkey,
        outcome: Result<Config, ProgramError>,
    ) -> bool {
        match outcome {
            Ok(record) => Config::loadable(account_info, program_id) is Ok && record@
                == decode_config(account_info.data@),
            Err(e) => Config::loadable(account_info, program_id) == Err::<(), ProgramError>(e),
        }
    }

    fn check(account_info: &AccountInfo, program_id: &Pubkey) -> (outcome: Result<
        (),
        ProgramError,
    >)
        ensures
            outcome == Config::loadable(account_info, program_id),
    {
        if account_info.data_len() != Config::LEN {
            return Err(ProgramError::InvalidAccountData);
        }
        if !account_info.is_owned_by(program_id) {
            return Err(ProgramError::InvalidAccountOwner);
        }
        Ok(())
    }

    /// Reads the pool record out of `account_info`.
    ///
    /// Fails with `InvalidAccountData` when the data have not the record's
    /// size, else with `InvalidAccountOwner` when `program_id` does not own
    /// the account.
    pub fn load(account_info: &AccountInfo, program_id: &Pubkey) -> (outcome: Result<
        Config,
        ProgramError,
    >)
        ensures
            Config::loaded(account_info, program_id, outcome),
    {
        match Config::check(account_info, program_id) {
            Ok(()) => Ok(Config::from_bytes_unchecked(account_info.data.as_slice())),
            Err(e) => Err(e),
        }
    }

    /// Reads the record of a pool that is in use: as [`Config::load`], and
    /// fails with `UninitializedAccount` where the record is not valid.
    pub fn load_initialized(account_info: &AccountInfo, program_id: &Pubkey) -> (outcome: Result<
        Config,
        ProgramError,
    >)
        ensures
            match outcome {
                Ok(record) => Config::usable(account_info, program_id) is Ok && record@
                    == decode_config(account_info.data@),
                Err(e) => Config::usable(account_info, program_id) == Err::<(), ProgramError>(e),
            },
    {
        let record = Config::load(account_info, program_id)?;
        if !record.is_valid() {
            return Err(ProgramError::UninitializedAccount);
        }
        Ok(record)
    }

    /// Whether the record is valid: its two assets differ, and its fee is at
    /// most [`MAX_FEE_BPS`].
    pub fn is_valid(&self) -> (valid: bool)
        ensures
            valid == self@.is_valid(),
    {
        !pubkey_eq(&self.mint_x, &self.mint_y) && self.fee <= MAX_FEE_BPS
    }

    /// As [`Config::load`]. A snapshot is never lent out for writing, so the
    /// two check the same.
    pub fn load_unchecked(account_info: &AccountInfo, program_id: &Pubkey) -> (outcome: Result<
        Config,
        ProgramError,
    >)
        ensures
            Config::loaded(account_info, program_id, outcome),
    {
        Config::load(account_info, program_id)
    }

    /// Reads the pool record for a change: as [`Config::load`], on an
    /// account that the caller holds exclusively. The changed record goes
    /// back with [`Config::store`].
    pub fn load_mut(account_info: &mut AccountInfo, program_id: &Pubkey) -> (outcome: Result<
        Config,
        ProgramError,
    >)
        ensures
            *final(account_info) == *old(account_info),
            Config::loaded(old(account_info), program_id, outcome),
    {
        Config::load(account_info, program_id)
    }

    /// The record that the first [`Config::LEN`] bytes hold, without a check
    /// of their owner.
    pub fn from_bytes_unchecked(bytes: &[u8]) -> (record: Config)
        requires
            bytes@.len() >= Config::LEN,
        ensures
            record@ == decode_config(bytes@),
    {
        Config {
            authority: read_pubkey(bytes, 0),
            mint_x: read_pubkey(bytes, 32),
            mint_y: read_pubkey(bytes, 64),
            mint_x_vault: read_pubkey(bytes, 96),
            mint_y_vault: read_pubkey(bytes, 128),
            lp_mint: read_pubkey(bytes, 160),
            fee: read_u16_le(bytes, 192),
            config_bump: bytes[194],
        }
    }

    /// Writes the record into `account_info`, whose last byte it leaves as
    /// it is. The account is checked as [`Config::load`] checks it, and on a
    /// failure nothing is written.
    pub fn store(&self, account_info: &mut AccountInfo, program_id: &Pubkey) -> (outcome: Result<
        (),
        ProgramError,
    >)
        ensures
            outcome == Config::loadable(old(account_info), program_id),
            final(account_info).key == old(account_info).key,
            final(account_info).owner == old(account_info).owner,
            final(account_info).is_signer == old(account_info).is_signer,
            outcome is Err ==> final(account_info).data@ == old(account_info).data@,
            outcome is Ok ==> {
                &&& final(account_info).data@.len() == Config::LEN
                &&& decode_config(final(account_info).data@) == self@
                &&& final(account_info).data@[195] == old(account_info).data@[195]
            },
    {
        match Config::check(account_info, program_id) {
            Ok(()) => {},
            Err(e) => {
                return Err(e);
            },
        }
        write_pubkey(&mut account_info.data, 0, &self.authority);
        write_pubkey(&mut account_info.data, 32, &self.mint_x);
        write_pubkey(&mut account_info.data, 64, &self.mint_y);
        write_pubkey(&mut account_info.data, 96, &self.mint_x_vault);
        write_pubkey(&mut account_info.data, 128, &self.mint_y_vault);
        write_pubkey(&mut account_info.data, 160, &self.lp_mint);
        write_u16_le(&mut account_info.data, 192, self.fee);
        account_info.data[194] = self.config_bump;
        proof {
            let d = account_info.data@;
            assert(d.subrange(0, 32) =~= self.authority@);
            assert(d.subrange(32, 64) =~= self.mint_x@);
            assert(d.subrange(64, 96) =~= self.mint_y@);
            assert(d.subrange(96, 128) =~= self.mint_x_vault@);
            assert(d.subrange(128, 160) =~= self.mint_y_vault@);
            assert(d.subrange(160, 192) =~= self.lp_mint@);
        }
        Ok(())
    }

    /// The authority that may configure the pool.
    pub fn authority(&self) -> (key: Pubkey)
        ensures
            key@ == self@.authority,
    {
        self.authority
    }

    /// The first pooled asset.
    pub fn mint_x(&self) -> (key: Pubkey)
        ensures
            key@ == self@.mint_x,
    {
        self.mint_x
    }

    /// The second pooled asset.
    pub fn mint_y(&self) -> (key: Pubkey)
        ensures
            key@ == self@.mint_y,
    {
        self.mint_y
    }

    /// The vault of the first asset.
    pub fn mint_x_vault(&self) -> (key: Pubkey)
        ensures
            key@ == self@.mint_x_vault,
    {
        self.mint_x_vault
    }

    /// The vault of the second asset.
    pub fn mint_y_vault(&self) -> (key: Pubkey)
        ensures
            key@ == self@.mint_y_vault,
    {
        self.mint_y_vault
    }

    /// The share asset.
    pub fn lp_mint(&self) -> (key: Pubkey)
        ensures
            key@ == self@.lp_mint,
    {
        self.lp_mint
    }

    /// The trading fee in basis points.
    pub fn fee(&self) -> (fee: u16)
        ensures
            fee == self@.fee,
    {
        self.fee
    }

    /// The salt with which the pool's own address is derived.
    pub fn config_bump(&self) -> (bump: u8)
        ensures
            bump == self@.config_bump,
    {
        self.config_bump
    }

    /// Sets every field of the record.
    ///
    /// Fails with `InvalidAccountData`, and changes nothing, when the two
    /// assets are the same or the fee is over [`MAX_FEE_BPS`]: such a record
    /// is never stored.
    pub fn set_inner(
        &mut self,
        authority: Pubkey,
        mint_x: Pubkey,
        mint_y: Pubkey,
        mint_x_vault: Pubkey,
        mint_y_vault: Pubkey,
        lp_mint: Pubkey,
        fee: u16,
        config_bump: u8,
    ) -> (outcome: Result<(), ProgramError>)
        ensures
            match outcome {
                Ok(()) => {
                    &&& final(self)@ == (ConfigView {
                        authority: authority@,
                        mint_x: mint_x@,
                        mint_y: mint_y@,
                        mint_x_vault: mint_x_vault@,
                        mint_y_vault: mint_y_vault@,
                        lp_mint: lp_mint@,
                        fee,
                        config_bump,
                    })
                    &&& final(self)@.is_valid()
                },
                Err(e) => {
                    &&& e == ProgramError::InvalidAccountData
                    &&& mint_x@ == mint_y@ || fee > MAX_FEE_BPS
                    &&& *final(self) == *old(self)
                },
            },
    {
        if pubkey_eq(&mint_x, &mint_y) || fee > MAX_FEE_BPS {
            return Err(ProgramError::InvalidAccountData);
        }
        self.authority = authority;
        self.mint_x = mint_x;
        self.mint_y = mint_y;
        self.mint_x_vault = mint_x_vault;
        self.mint_y_vault = mint_y_vault;
        self.lp_mint = lp_mint;
        self.fee = fee;
        self.config_bump = config_bump;
        Ok(())
    }

    /// The pool's authority, or `None` where the record names none (the
    /// address of all zero bytes).
    pub fn has_authority(&self) -> (authority: Option<Pubkey>)
        ensures
            match authority {
                Some(key) => key@ == self@.authority && self@.authority != zero_key(),
                None => self@.authority == zero_key(),
            },
    {
        if !pubkey_is_zero(&self.authority) {
            Some(self.authority)
        } else {
            None
        }
    }
}

/// The stage of the pool whose storage `account_info` is: `Initialized`
/// once a valid record of `program_id` is stored in it, `Uninitialized`
/// before.
pub open spec fn pool_state(account_info: &AccountInfo, program_id: &Pubkey) -> AmmState {
    if Config::usable(account_info, program_id) is Ok {
        AmmState::Initialized
    } else {
        AmmState::Uninitialized
    }
}

impl AmmState {
    /// The stage of the pool whose storage `account_info` is.
    pub fn of(account_info: &AccountInfo, program_id: &Pubkey) -> (state: AmmState)
        ensures
            state == pool_state(account_info, program_id),
    {
        match Config::load_initialized(account_info, program_id) {
            Ok(_) => AmmState::Initialized,
            Err(_) => AmmState::Uninitialized,
        }
    }
}

} // verus!
