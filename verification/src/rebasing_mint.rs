//! The rebasing configuration of a mint: which account's quantity its
//! amounts are scaled against, and the conversions between raw amounts and
//! the amounts that are shown.

use crate::account::{AccountInfo, AccountState};
use crate::amount::{
    amount_to_scaled_display, display_amount, parse_amount, parse_u64, scaled, scaled_display,
    shown_to_amount,
};
use crate::error::RebaseError;
use crate::pubkey::OptionalNonZeroPubkey;
use crate::stake::{decoded_stake_amount, decoded_stake_state, read_stake};
use vstd::prelude::*;

pub mod instruction;
pub mod processor;

verus! {

/// The kind of account that a mint's amounts are scaled against.
#[derive(Clone, Copy, Debug, PartialEq, Eq, Structural)]
pub enum RebaseType {
    /// Flags the rescale account as being a staking account
    Staking,
    /// Flags the rescale account as being a mint account
    Mint,
}

impl RebaseType {
    /// The kind that the byte `val` stands for: 1 for a staking account, 2
    /// for a mint, and no other byte for anything.
    pub open spec fn from_byte(val: u8) -> Option<RebaseType> {
        if val == 1 {
            Some(RebaseType::Staking)
        } else if val == 2 {
            Some(RebaseType::Mint)
        } else {
            None
        }
    }

    /// The byte that stands for the kind.
    pub open spec fn byte(self) -> u8 {
        match self {
            RebaseType::Staking => 1,
            RebaseType::Mint => 2,
        }
    }

    /// Ensures that the byte is either 1 or 2, the two kinds of rescale
    /// account.
    pub fn validate(val: u8) -> (checked: Result<(), RebaseError>)
        ensures
            checked is Ok <==> val == 1 || val == 2,
            checked is Err ==> checked == Err::<(), RebaseError>(RebaseError::InvalidRebaseType),
    {
        match val {
            1 | 2 => Ok(()),
            _ => Err(RebaseError::InvalidRebaseType),
        }
    }

    /// Decodes the byte of a kind.
    pub fn try_from_u8(val: u8) -> (kind: Result<RebaseType, RebaseError>)
        ensures
            kind == match Self::from_byte(val) {
                Some(k) => Ok::<RebaseType, RebaseError>(k),
                None => Err::<RebaseType, RebaseError>(RebaseError::InvalidRebaseType),
            },
    {
        match val {
            1 => Ok(RebaseType::Staking),
            2 => Ok(RebaseType::Mint),
            _ => Err(RebaseError::InvalidRebaseType),
        }
    }

    /// The byte that stands for the kind.
    pub fn to_u8(self) -> (val: u8)
        ensures
            val == self.byte(),
            Self::from_byte(val) == Some(self),
    {
        match self {
            RebaseType::Staking => 1,
            RebaseType::Mint => 2,
        }
    }
}

/// The quantity that an account of the given kind contributes to scaling:
/// the delegated amount of a staking account, the supply of a mint. An
/// account that does not hold a delegated stake, or a mint, as the kind
/// requires, is an invalid reference.
pub open spec fn reference_quantity_of(kind: RebaseType, rebase_info: AccountInfo) -> Result<
    u64,
    RebaseError,
> {
    match kind {
        RebaseType::Staking => decoded_stake_amount(decoded_stake_state(rebase_info.data@)),
        RebaseType::Mint => match rebase_info.state {
            AccountState::Mint(mint) => Ok(mint.supply),
            _ => Err(RebaseError::InvalidReferenceAccountState),
        },
    }
}

/// Reads the quantity that the reference account contributes to scaling.
/// Nothing is kept between calls: the account is read and checked each time.
pub fn reference_quantity(kind: RebaseType, rebase_info: &AccountInfo) -> (quantity: Result<
    u64,
    RebaseError,
>)
    ensures
        quantity == reference_quantity_of(kind, *rebase_info),
{
    match kind {
        RebaseType::Staking => read_stake(rebase_info.data.as_slice()),
        RebaseType::Mint => match rebase_info.state {
            AccountState::Mint(mint) => Ok(mint.supply),
            _ => Err(RebaseError::InvalidReferenceAccountState),
        },
    }
}

/// Rebasing Token Mint state
#[derive(Clone, Copy, Debug, PartialEq)]
pub struct RebasingMintConfig {
    /// The account whose quantity determines the rescaling.
    pub rescale_authority: OptionalNonZeroPubkey,
    /// The kind of that account: 1 for a staking account, 2 for a mint.
    pub rescale_type: u8,
}

impl Default for RebasingMintConfig {
    /// The configuration of a slot that nothing was written to: no reference
    /// account, and the kind byte 0, which is no kind.
    fn default() -> (config: RebasingMintConfig)
        ensures
            config == (RebasingMintConfig {
                rescale_authority: OptionalNonZeroPubkey::stored(None),
                rescale_type: 0,
            }),
            config.rescale_authority.key() is None,
    {
        RebasingMintConfig { rescale_authority: OptionalNonZeroPubkey::default(), rescale_type: 0 }
    }
}

impl RebasingMintConfig {
    /// Whether the configuration is sound: its kind is one of the two kinds
    /// of reference account. A configuration that `Initialize` stored is.
    pub open spec fn valid(self) -> bool {
        RebaseType::from_byte(self.rescale_type) is Some
    }

    /// The quantity that `rebase_info` contributes under this configuration.
    pub open spec fn quantity(self, rebase_info: AccountInfo) -> Result<u64, RebaseError> {
        match RebaseType::from_byte(self.rescale_type) {
            None => Err(RebaseError::InvalidRebaseType),
            Some(kind) => reference_quantity_of(kind, rebase_info),
        }
    }

    /// What `try_amount_to_ui_amount` returns.
    pub open spec fn ui_amount(
        self,
        amount: u64,
        decimals: u8,
        total_supply: u64,
        rebase_info: AccountInfo,
    ) -> Result<Seq<char>, RebaseError> {
        match self.quantity(rebase_info) {
            Err(e) => Err(e),
            Ok(quantity) => scaled_display(amount, decimals, total_supply, quantity),
        }
    }

    /// What `try_ui_amount_into_amount` returns.
    pub open spec fn amount_of_ui(
        self,
        ui_amount: Seq<char>,
        total_supply: u64,
        rebase_info: AccountInfo,
    ) -> Result<u64, RebaseError> {
        if parse_u64(ui_amount) is None {
            Err(RebaseError::InvalidArgument)
        } else {
            match self.quantity(rebase_info) {
                Err(e) => Err(e),
                Ok(quantity) => display_amount(ui_amount, total_supply, quantity),
            }
        }
    }

    /// Checks that the rebase account is the one that the configuration
    /// names. Succeeds exactly where an account is named and `rebase_info`
    /// has its identifier, byte for byte.
    pub fn check_rebase_account(&self, rebase_info: &AccountInfo) -> (checked: Result<
        (),
        RebaseError,
    >)
        ensures
            checked is Ok <==> self.rescale_authority.key() == Some(rebase_info.key),
            checked is Ok ==> self.rescale_authority.0@ == rebase_info.key@,
            checked is Err ==> checked == Err::<(), RebaseError>(
                RebaseError::RebaseAccountMismatch,
            ),
    {
        let acc_match = match self.rescale_authority.to_option() {
            Some(bound) => bound.equals(&rebase_info.key),
            None => false,
        };
        if !acc_match {
            return Err(RebaseError::RebaseAccountMismatch);
        }
        Ok(())
    }

    /// Reads the reference quantity as the configuration's kind says.
    pub fn rebase_quantity(&self, rebase_info: &AccountInfo) -> (quantity: Result<
        u64,
        RebaseError,
    >)
        ensures
            quantity == self.quantity(*rebase_info),
    {
        match RebaseType::try_from_u8(self.rescale_type) {
            Err(e) => Err(e),
            Ok(kind) => reference_quantity(kind, rebase_info),
        }
    }

    /// Convert a raw amount to its UI representation using the given
    /// decimals field. Excess zeroes or unneeded decimal point are trimmed.
    /// The amount is scaled by the reference account's quantity over
    /// `total_supply`.
    pub fn try_amount_to_ui_amount(
        &self,
        amount: u64,
        decimals: u8,
        total_supply: u64,
        rebase_info: &AccountInfo,
    ) -> (result: Result<String, RebaseError>)
        ensures
            match self.ui_amount(amount, decimals, total_supply, *rebase_info) {
                Ok(shown) => result is Ok && result->Ok_0@ == shown,
                Err(e) => result == Err::<String, RebaseError>(e),
            },
    {
        match self.rebase_quantity(rebase_info) {
            Err(e) => Err(e),
            Ok(rescale) => self._try_amount_to_ui_amount(amount, decimals, total_supply, rescale),
        }
    }

    /// Scales `amount` by `rebase_supply / total_supply` and shows it with
    /// `decimals` fractional digits.
    pub fn _try_amount_to_ui_amount(
        &self,
        amount: u64,
        decimals: u8,
        total_supply: u64,
        rebase_supply: u64,
    ) -> (result: Result<String, RebaseError>)
        ensures
            match scaled_display(amount, decimals, total_supply, rebase_supply) {
                Ok(shown) => result is Ok && result->Ok_0@ == shown,
                Err(e) => result == Err::<String, RebaseError>(e),
            },
    {
        amount_to_scaled_display(amount, decimals, total_supply, rebase_supply)
    }

    /// Try to convert a UI representation of a token amount to its raw
    /// amount. The text is read as a whole number and scaled by
    /// `total_supply` over the reference account's quantity.
    pub fn try_ui_amount_into_amount(
        &self,
        ui_amount: &str,
        decimals: u8,
        total_supply: u64,
        rebase_info: &AccountInfo,
    ) -> (result: Result<u64, RebaseError>)
        ensures
            result == self.amount_of_ui(ui_amount@, total_supply, *rebase_info),
    {
        let rescaled_amount = match parse_amount(ui_amount) {
            Some(v) => v,
            None => {
                return Err(RebaseError::InvalidArgument);
            },
        };
        match self.rebase_quantity(rebase_info) {
            Err(e) => Err(e),
            Ok(rescale) => self._try_ui_amount_into_amount(
                rescaled_amount,
                decimals,
                total_supply,
                rescale,
            ),
        }
    }

    /// Scales the shown amount `ui_amount` by `total_supply / rebase_supply`,
    /// and checks that the raw amount is shown and read back as itself.
    pub fn _try_ui_amount_into_amount(
        &self,
        ui_amount: u64,
        decimals: u8,
        total_supply: u64,
        rebase_supply: u64,
    ) -> (result: Result<u64, RebaseError>)
        ensures
            result == match scaled(ui_amount, total_supply, rebase_supply) {
                Some(amount) => Ok::<u64, RebaseError>(amount),
                None => Err::<u64, RebaseError>(RebaseError::ArithmeticOverflow),
            },
    {
        shown_to_amount(ui_amount, decimals, total_supply, rebase_supply)
    }
}

} // verus!
