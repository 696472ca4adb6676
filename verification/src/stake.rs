//! The state of a staking account, as far as rebasing reads it.

use crate::error::RebaseError;
use solana_program::stake::state::StakeStateV2;
use vstd::prelude::*;

verus! {

/// The state of a staking account. Only a delegated stake has an amount.
#[derive(Clone, Copy, Debug, PartialEq, Eq, Structural)]
pub enum StakeState {
    /// The account holds no stake state yet.
    Uninitialized,
    /// The account is set up but its stake is not delegated.
    Initialized,
    /// The stake is delegated; `stake` is the delegated amount.
    Stake { stake: u64 },
    /// The account is a rewards pool.
    RewardsPool,
}

/// The stake state that the bytes of a staking account decode to, or `None`
/// where they do not decode.
pub uninterp spec fn decoded_stake_state(data: Seq<u8>) -> Option<StakeState>;

/// Calls `solana_program::borsh1::try_from_slice_unchecked::<StakeStateV2>`
/// on the bytes of a staking account and keeps of the outcome the variant
/// and, for a delegated stake, the delegation's amount. The contract only
/// gives that outcome its name: the decoding depends on the bytes alone.
#[verifier::external_body]
fn decode_stake_state(data: &[u8]) -> (state: Option<StakeState>)
    ensures
        state == decoded_stake_state(data@),
{
    match solana_program::borsh1::try_from_slice_unchecked::<StakeStateV2>(data) {
        Err(_) => None,
        Ok(StakeStateV2::Uninitialized) => Some(StakeState::Uninitialized),
        Ok(StakeStateV2::Initialized(_)) => Some(StakeState::Initialized),
        Ok(StakeStateV2::Stake(_, stake, _)) => Some(
            StakeState::Stake { stake: stake.delegation.stake },
        ),
        Ok(StakeStateV2::RewardsPool) => Some(StakeState::RewardsPool),
    }
}

/// The amount staked, which only a delegated stake has.
pub open spec fn stake_amount(state: StakeState) -> Result<u64, RebaseError> {
    match state {
        StakeState::Stake { stake } => Ok(stake),
        _ => Err(RebaseError::InvalidReferenceAccountState),
    }
}

/// The amount staked according to a decoding of a staking account: that of
/// a delegated stake. Bytes that did not decode, and any other state, are an
/// invalid reference.
pub open spec fn decoded_stake_amount(decoded: Option<StakeState>) -> Result<u64, RebaseError> {
    match decoded {
        Some(state) => stake_amount(state),
        None => Err(RebaseError::InvalidReferenceAccountState),
    }
}

/// Gets the amount staked from a stake account's state. Fails with
/// `InvalidReferenceAccountState` unless the stake is delegated.
pub fn get_stake(stake_state: &StakeState) -> (amount: Result<u64, RebaseError>)
    ensures
        amount == stake_amount(*stake_state),
{
    match stake_state {
        StakeState::Uninitialized => Err(RebaseError::InvalidReferenceAccountState),
        StakeState::Initialized => Err(RebaseError::InvalidReferenceAccountState),
        StakeState::Stake { stake } => Ok(*stake),
        StakeState::RewardsPool => Err(RebaseError::InvalidReferenceAccountState),
    }
}

/// The amount staked according to a decoding of a staking account.
pub fn get_decoded_stake(decoded: Option<StakeState>) -> (amount: Result<u64, RebaseError>)
    ensures
        amount == decoded_stake_amount(decoded),
{
    match decoded {
        Some(state) => get_stake(&state),
        None => Err(RebaseError::InvalidReferenceAccountState),
    }
}

/// Decodes the bytes of a staking account and gets the amount staked.
pub fn read_stake(data: &[u8]) -> (amount: Result<u64, RebaseError>)
    ensures
        amount == decoded_stake_amount(decoded_stake_state(data@)),
{
    get_decoded_stake(decode_stake_state(data))
}

} // verus!
