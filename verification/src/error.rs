//! Error values: the pool's own failure codes, the curve engine's failures,
//! and the failure a handler hands back to the ledger.

use vstd::prelude::*;
use vstd::std_specs::convert::FromSpec;

verus! {

/// The failure with which an operation is rejected as a whole.
///
/// `Custom` carries a code of [`PinocchioError`] or of [`CurveError`]; the
/// other variants are the ledger's own input-shape and validation failures.
#[derive(Debug, Clone, Copy, PartialEq, Eq, Structural)]
pub enum ProgramError {
    /// A failure code of this program.
    Custom(u32),
    /// The instruction bytes have the wrong shape.
    InvalidInstructionData,
    /// An account's data, or the account list, has the wrong shape.
    InvalidAccountData,
    /// An account that has to sign did not.
    MissingRequiredSignature,
    /// A record that is to be created exists already.
    AccountAlreadyInitialized,
    /// A record that is to be read was never written.
    UninitializedAccount,
    /// An account is owned by a program that may not own it.
    IllegalOwner,
    /// A record is not owned by the program that reads it.
    InvalidAccountOwner,
    /// No address can be derived from the seeds.
    InvalidSeeds,
}

/// The pool's failure codes.
#[derive(Debug, Clone, Copy, PartialEq, Eq, Structural)]
pub enum PinocchioError {
    IdenticalTokenMints,
    InvalidMintAmount,
    InvalidOwner,
    MathOverflow,
    InvalidMintSupply,
    InvalidAmount,
    SlipageExceeded,
    LessThanMinimum,
    Expired,
    InvalidConfig,
    InvalidLpMint,
    InvalidMint,
}

impl PinocchioError {
    /// The number under which the ledger reports this failure.
    pub open spec fn spec_code(self) -> u32 {
        match self {
            PinocchioError::IdenticalTokenMints => 0,
            PinocchioError::InvalidMintAmount => 1,
            PinocchioError::InvalidOwner => 2,
            PinocchioError::MathOverflow => 3,
            PinocchioError::InvalidMintSupply => 4,
            PinocchioError::InvalidAmount => 5,
            PinocchioError::SlipageExceeded => 6,
            PinocchioError::LessThanMinimum => 7,
            PinocchioError::Expired => 8,
            PinocchioError::InvalidConfig => 9,
            PinocchioError::InvalidLpMint => 10,
            PinocchioError::InvalidMint => 11,
        }
    }

    /// The text that [`PinocchioError::description`] returns.
    pub open spec fn spec_description(self) -> Seq<char> {
        match self {
            PinocchioError::IdenticalTokenMints => "Cannot create a pool with identical token mints"@,
            PinocchioError::InvalidMintAmount => "Invalid Mint Amount"@,
            PinocchioError::InvalidOwner => "Invalid Owner"@,
            PinocchioError::MathOverflow => "Math Overflow"@,
            PinocchioError::InvalidMintSupply => "Invalid Mint Supply"@,
            PinocchioError::InvalidAmount => "Invalid Amount"@,
            PinocchioError::SlipageExceeded => "Slippage Exceeded"@,
            PinocchioError::LessThanMinimum => "Amount is less than minimum"@,
            PinocchioError::Expired => "Withdrawal expired"@,
            PinocchioError::InvalidConfig => "Invalid Config Account"@,
            PinocchioError::InvalidLpMint => "Invalid LP Mint"@,
            PinocchioError::InvalidMint => "Ata Account mint does not match"@,
        }
    }

    /// The number under which the ledger reports this failure.
    pub fn code(&self) -> (code: u32)
        ensures
            code == self.spec_code(),
            code <= 11,
    {
        match self {
            PinocchioError::IdenticalTokenMints => 0,
            PinocchioError::InvalidMintAmount => 1,
            PinocchioError::InvalidOwner => 2,
            PinocchioError::MathOverflow => 3,
            PinocchioError::InvalidMintSupply => 4,
            PinocchioError::InvalidAmount => 5,
            PinocchioError::SlipageExceeded => 6,
            PinocchioError::LessThanMinimum => 7,
            PinocchioError::Expired => 8,
            PinocchioError::InvalidConfig => 9,
            PinocchioError::InvalidLpMint => 10,
            PinocchioError::InvalidMint => 11,
        }
    }

    /// A short text for a person to read.
    pub fn description(&self) -> (text: &'static str)
        ensures
            text@ == self.spec_description(),
    {
        match self {
            PinocchioError::IdenticalTokenMints => "Cannot create a pool with identical token mints",
            PinocchioError::InvalidMintAmount => "Invalid Mint Amount",
            PinocchioError::InvalidOwner => "Invalid Owner",
            PinocchioError::MathOverflow => "Math Overflow",
            PinocchioError::InvalidMintSupply => "Invalid Mint Supply",
            PinocchioError::InvalidAmount => "Invalid Amount",
            PinocchioError::SlipageExceeded => "Slippage Exceeded",
            PinocchioError::LessThanMinimum => "Amount is less than minimum",
            PinocchioError::Expired => "Withdrawal expired",
            PinocchioError::InvalidConfig => "Invalid Config Account",
            PinocchioError::InvalidLpMint => "Invalid LP Mint",
            PinocchioError::InvalidMint => "Ata Account mint does not match",
        }
    }
}

/// The first code of the curve engine's failures. The pool's own codes lie
/// under it, so that the ledger's caller can tell a request that the
/// arithmetic refused from one that failed a check.
pub const CURVE_CODE_BASE: u32 = 0x100;

/// The curve engine's failures.
#[derive(Debug, Clone, Copy, PartialEq, Eq, Structural)]
pub enum CurveError {
    Overflow,
    SlippageExceeded,
    MathOverflow,
}

impl CurveError {
    /// The number under which the ledger reports this failure: the
    /// failures count from [`CURVE_CODE_BASE`].
    pub open spec fn spec_code(self) -> u32 {
        match self {
            CurveError::Overflow => 0x100,
            CurveError::SlippageExceeded => 0x101,
            CurveError::MathOverflow => 0x102,
        }
    }

    /// The text that [`CurveError::to_string`] returns.
    pub open spec fn spec_text(self) -> Seq<char> {
        match self {
            CurveError::Overflow => "Overflow"@,
            CurveError::SlippageExceeded => "Slippage Exceeded"@,
            CurveError::MathOverflow => "Math Overflow"@,
        }
    }

    /// The number under which the ledger reports this failure.
    pub fn code(&self) -> (code: u32)
        ensures
            code == self.spec_code(),
            CURVE_CODE_BASE <= code <= CURVE_CODE_BASE + 2,
    {
        match self {
            CurveError::Overflow => CURVE_CODE_BASE,
            CurveError::SlippageExceeded => CURVE_CODE_BASE + 1,
            CurveError::MathOverflow => CURVE_CODE_BASE + 2,
        }
    }

    /// A short text for a person to read.
    pub fn to_string(&self) -> (text: &'static str)
        ensures
            text@ == self.spec_text(),
    {
        match self {
            CurveError::Overflow => "Overflow",
            CurveError::SlippageExceeded => "Slippage Exceeded",
            CurveError::MathOverflow => "Math Overflow",
        }
    }
}

impl From<PinocchioError> for ProgramError {
    fn from(e: PinocchioError) -> (failure: ProgramError) {
        ProgramError::Custom(e.code())
    }
}

impl vstd::std_specs::convert::FromSpecImpl<PinocchioError> for ProgramError {
    open spec fn obeys_from_spec() -> bool {
        true
    }

    open spec fn from_spec(e: PinocchioError) -> ProgramError {
        ProgramError::Custom(e.spec_code())
    }
}

impl From<CurveError> for ProgramError {
    fn from(e: CurveError) -> (failure: ProgramError) {
        ProgramError::Custom(e.code())
    }
}

impl vstd::std_specs::convert::FromSpecImpl<CurveError> for ProgramError {
    open spec fn obeys_from_spec() -> bool {
        true
    }

    open spec fn from_spec(e: CurveError) -> ProgramError {
        ProgramError::Custom(e.spec_code())
    }
}

/// The failure that the ledger sees for a failure code of the pool.
pub open spec fn pool_failure(e: PinocchioError) -> ProgramError {
    ProgramError::Custom(e.spec_code())
}

/// The failure that the ledger sees for a failure of the curve engine.
pub open spec fn curve_failure(e: CurveError) -> ProgramError {
    ProgramError::Custom(e.spec_code())
}

/// The two families of failure codes are disjoint: no failure of the curve
/// engine reaches the ledger under the code of a failure of the pool, and
/// within each family no two failures share a code.
pub proof fn lemma_failure_codes_are_distinct(c: CurveError, d: CurveError, p: PinocchioError, q: PinocchioError)
    ensures
        curve_failure(c) != pool_failure(p),
        ProgramError::from_spec(c) != ProgramError::from_spec(p),
        curve_failure(c) == curve_failure(d) ==> c == d,
        pool_failure(p) == pool_failure(q) ==> p == q,
        pool_failure(p) == ProgramError::from_spec(p),
        curve_failure(c) == ProgramError::from_spec(c),
{
}

} // verus!
