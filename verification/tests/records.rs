use rebasing::account::{AccountInfo, AccountState, MintState, TokenAccountState};
use rebasing::error::RebaseError;
use rebasing::pubkey::{OptionalNonZeroPubkey, Pubkey};
use rebasing::rebasing_mint::{reference_quantity, RebaseType, RebasingMintConfig};
use rebasing::rebasing_token::{RebasingTokenAccount, RebasingTokenMint};
use rebasing::stake::{get_decoded_stake, get_stake, read_stake, StakeState};
use solana_program::stake::stake_flags::StakeFlags;
use solana_program::stake::state::{Delegation, Meta, Stake, StakeStateV2};

fn key(fill: u8) -> Pubkey {
    Pubkey::new_from_array([fill; 32])
}

fn stake_bytes(tag: u32, stake: u64) -> Vec<u8> {
    let mut data = vec![0u8; 200];
    data[0..4].copy_from_slice(&tag.to_le_bytes());
    data[156..164].copy_from_slice(&stake.to_le_bytes());
    data
}

fn plain_account(fill: u8, data: Vec<u8>, state: AccountState) -> AccountInfo {
    AccountInfo { key: key(fill), owner: key(200), data, state }
}

fn mint_state(supply: u64) -> AccountState {
    AccountState::Mint(MintState { supply, rebasing_mint: None, rebasing_token: None })
}

#[test]
fn rebase_type_bytes() {
    assert_eq!(RebaseType::validate(1), Ok(()));
    assert_eq!(RebaseType::validate(2), Ok(()));
    assert_eq!(RebaseType::validate(0), Err(RebaseError::InvalidRebaseType));
    assert_eq!(RebaseType::validate(3), Err(RebaseError::InvalidRebaseType));
    assert_eq!(RebaseType::validate(255), Err(RebaseError::InvalidRebaseType));
    assert_eq!(RebaseType::try_from_u8(1), Ok(RebaseType::Staking));
    assert_eq!(RebaseType::try_from_u8(2), Ok(RebaseType::Mint));
    assert_eq!(RebaseType::try_from_u8(0), Err(RebaseError::InvalidRebaseType));
    assert_eq!(RebaseType::Staking.to_u8(), 1);
    assert_eq!(RebaseType::Mint.to_u8(), 2);
}

#[test]
fn stake_amount_of_delegated_stake_only() {
    assert_eq!(get_stake(&StakeState::Stake { stake: 42 }), Ok(42));
    assert_eq!(
        get_stake(&StakeState::Uninitialized),
        Err(RebaseError::InvalidReferenceAccountState)
    );
    assert_eq!(
        get_stake(&StakeState::Initialized),
        Err(RebaseError::InvalidReferenceAccountState)
    );
    assert_eq!(
        get_stake(&StakeState::RewardsPool),
        Err(RebaseError::InvalidReferenceAccountState)
    );
    assert_eq!(get_decoded_stake(None), Err(RebaseError::InvalidReferenceAccountState));
    assert_eq!(get_decoded_stake(Some(StakeState::Stake { stake: 7 })), Ok(7));
}

#[test]
fn stake_is_read_from_account_bytes() {
    assert_eq!(read_stake(&stake_bytes(2, 1406623726)), Ok(1406623726));
    assert_eq!(read_stake(&stake_bytes(2, u64::MAX)), Ok(u64::MAX));
    assert_eq!(read_stake(&stake_bytes(0, 5)), Err(RebaseError::InvalidReferenceAccountState));
    assert_eq!(read_stake(&stake_bytes(1, 5)), Err(RebaseError::InvalidReferenceAccountState));
    assert_eq!(read_stake(&stake_bytes(3, 5)), Err(RebaseError::InvalidReferenceAccountState));
    assert_eq!(read_stake(&stake_bytes(4, 5)), Err(RebaseError::InvalidReferenceAccountState));
    assert_eq!(read_stake(&[]), Err(RebaseError::InvalidReferenceAccountState));
    assert_eq!(read_stake(&[2, 0, 0, 0, 1, 2, 3]), Err(RebaseError::InvalidReferenceAccountState));
}

#[test]
fn stake_bytes_agree_with_the_stake_program_types() {
    let delegation = Delegation { stake: 987654321, ..Delegation::default() };
    let state = StakeStateV2::Stake(
        Meta::default(),
        Stake { delegation, credits_observed: 3 },
        StakeFlags::empty(),
    );
    let mut data = vec![0u8; StakeStateV2::size_of()];
    let mut bytes = Vec::new();
    bytes.extend_from_slice(&2u32.to_le_bytes());
    bytes.extend_from_slice(&[0u8; 120]);
    bytes.extend_from_slice(&[0u8; 32]);
    bytes.extend_from_slice(&987654321u64.to_le_bytes());
    data[..bytes.len()].copy_from_slice(&bytes);
    data[164..172].copy_from_slice(&0u64.to_le_bytes());
    data[172..180].copy_from_slice(&u64::MAX.to_le_bytes());
    let decoded: StakeStateV2 = solana_program::borsh1::try_from_slice_unchecked(&data).unwrap();
    match (decoded, state) {
        (StakeStateV2::Stake(_, found, _), StakeStateV2::Stake(_, made, _)) => {
            assert_eq!(found.delegation.stake, made.delegation.stake);
        }
        _ => panic!("not a delegated stake"),
    }
    assert_eq!(read_stake(&data), Ok(987654321));
}

#[test]
fn reference_quantity_by_kind() {
    let staking = plain_account(1, stake_bytes(2, 500), AccountState::Unknown);
    assert_eq!(reference_quantity(RebaseType::Staking, &staking), Ok(500));
    assert_eq!(
        reference_quantity(RebaseType::Mint, &staking),
        Err(RebaseError::InvalidReferenceAccountState)
    );
    let mint = plain_account(2, vec![0u8; 82], mint_state(900));
    assert_eq!(reference_quantity(RebaseType::Mint, &mint), Ok(900));
    assert_eq!(
        reference_quantity(RebaseType::Staking, &mint),
        Err(RebaseError::InvalidReferenceAccountState)
    );
    let token = plain_account(
        3,
        vec![],
        AccountState::Token(TokenAccountState { rebasing_token: None }),
    );
    assert_eq!(
        reference_quantity(RebaseType::Mint, &token),
        Err(RebaseError::InvalidReferenceAccountState)
    );
}

#[test]
fn check_rebase_account_accepts_the_bound_account_only() {
    let config = RebasingMintConfig {
        rescale_authority: OptionalNonZeroPubkey(key(9)),
        rescale_type: 1,
    };
    let bound = plain_account(9, vec![], AccountState::Unknown);
    assert_eq!(config.check_rebase_account(&bound), Ok(()));
    let other = plain_account(8, vec![], AccountState::Unknown);
    assert_eq!(config.check_rebase_account(&other), Err(RebaseError::RebaseAccountMismatch));
    let mut bytes = [9u8; 32];
    bytes[31] = 8;
    let near = AccountInfo {
        key: Pubkey::new_from_array(bytes),
        owner: key(200),
        data: vec![],
        state: AccountState::Unknown,
    };
    assert_eq!(config.check_rebase_account(&near), Err(RebaseError::RebaseAccountMismatch));
    let mut bytes = [9u8; 32];
    bytes[0] = 137;
    let near = AccountInfo {
        key: Pubkey::new_from_array(bytes),
        owner: key(200),
        data: vec![],
        state: AccountState::Unknown,
    };
    assert_eq!(config.check_rebase_account(&near), Err(RebaseError::RebaseAccountMismatch));
}

#[test]
fn check_rebase_account_with_no_account_bound() {
    let config = RebasingMintConfig {
        rescale_authority: OptionalNonZeroPubkey(key(0)),
        rescale_type: 1,
    };
    let zero = plain_account(0, vec![], AccountState::Unknown);
    assert_eq!(config.check_rebase_account(&zero), Err(RebaseError::RebaseAccountMismatch));
    let other = plain_account(1, vec![], AccountState::Unknown);
    assert_eq!(config.check_rebase_account(&other), Err(RebaseError::RebaseAccountMismatch));
}

#[test]
fn amount_to_ui_amount_reads_the_reference() {
    let config = RebasingMintConfig {
        rescale_authority: OptionalNonZeroPubkey(key(9)),
        rescale_type: 1,
    };
    let staking = plain_account(9, stake_bytes(2, 500000), AccountState::Unknown);
    assert_eq!(config.try_amount_to_ui_amount(10000, 0, 1000000, &staking).unwrap(), "5000");
    assert_eq!(config.try_amount_to_ui_amount(10000, 3, 1000000, &staking).unwrap(), "5");
    assert_eq!(config.try_amount_to_ui_amount(10001, 3, 1000000, &staking).unwrap(), "5");
    assert_eq!(config.try_amount_to_ui_amount(10002, 3, 1000000, &staking).unwrap(), "5.001");
    assert_eq!(config.try_ui_amount_into_amount("5000", 0, 1000000, &staking), Ok(10000));
    let idle = plain_account(9, stake_bytes(1, 500000), AccountState::Unknown);
    assert_eq!(
        config.try_amount_to_ui_amount(10000, 0, 1000000, &idle),
        Err(RebaseError::InvalidReferenceAccountState)
    );
    assert_eq!(
        config.try_ui_amount_into_amount("5000", 0, 1000000, &idle),
        Err(RebaseError::InvalidReferenceAccountState)
    );
    assert_eq!(
        config.try_ui_amount_into_amount("5000.0", 0, 1000000, &idle),
        Err(RebaseError::InvalidArgument)
    );
}

#[test]
fn amount_to_ui_amount_against_a_mint() {
    let config = RebasingMintConfig {
        rescale_authority: OptionalNonZeroPubkey(key(9)),
        rescale_type: 2,
    };
    let mint = plain_account(9, vec![], mint_state(1406623726));
    assert_eq!(
        config.try_amount_to_ui_amount(20489552, 0, 6829850799, &mint).unwrap(),
        "4219871"
    );
    assert_eq!(
        config.try_ui_amount_into_amount("4219871", 0, 6829850799, &mint),
        Ok(20489551)
    );
    let unknown = plain_account(9, stake_bytes(2, 5), AccountState::Unknown);
    assert_eq!(
        config.try_amount_to_ui_amount(1, 0, 1, &unknown),
        Err(RebaseError::InvalidReferenceAccountState)
    );
    assert_eq!(
        config.try_amount_to_ui_amount(1, 0, 0, &mint),
        Err(RebaseError::ArithmeticOverflow)
    );
    let empty = plain_account(9, vec![], mint_state(0));
    assert_eq!(
        config.try_ui_amount_into_amount("1", 0, 5, &empty),
        Err(RebaseError::ArithmeticOverflow)
    );
}

#[test]
fn corrupt_rescale_type_is_reported() {
    let config = RebasingMintConfig {
        rescale_authority: OptionalNonZeroPubkey(key(9)),
        rescale_type: 7,
    };
    let mint = plain_account(9, vec![], mint_state(10));
    assert_eq!(
        config.try_amount_to_ui_amount(1, 0, 1, &mint),
        Err(RebaseError::InvalidRebaseType)
    );
    assert_eq!(config.rebase_quantity(&mint), Err(RebaseError::InvalidRebaseType));
    assert_eq!(
        config.try_ui_amount_into_amount("1", 0, 1, &mint),
        Err(RebaseError::InvalidRebaseType)
    );
    assert_eq!(
        config.try_ui_amount_into_amount("one", 0, 1, &mint),
        Err(RebaseError::InvalidArgument)
    );
}

#[test]
fn optional_key_stored_form() {
    let none = OptionalNonZeroPubkey::try_from_option(None).unwrap();
    assert_eq!(none.0.to_bytes(), [0u8; 32]);
    assert_eq!(none.to_option(), None);
    let some = OptionalNonZeroPubkey::try_from_option(Some(key(3))).unwrap();
    assert_eq!(some.0.to_bytes(), [3u8; 32]);
    assert_eq!(some.to_option(), Some(key(3)));
    assert_eq!(
        OptionalNonZeroPubkey::try_from_option(Some(key(0))),
        Err(RebaseError::InvalidArgument)
    );
    let mut bytes = [0u8; 32];
    bytes[17] = 1;
    let sparse = OptionalNonZeroPubkey::try_from_option(Some(Pubkey::new_from_array(bytes)));
    assert_eq!(sparse.unwrap().to_option(), Some(Pubkey::new_from_array(bytes)));
}

#[test]
fn optional_key_agrees_with_the_pod_type() {
    let host = spl_pod::optional_keys::OptionalNonZeroPubkey::try_from(Some(solana_program::pubkey::Pubkey::new_from_array([5u8; 32]))).unwrap();
    let ours = OptionalNonZeroPubkey::try_from_option(Some(key(5))).unwrap();
    assert_eq!(host.0.to_bytes(), ours.0.to_bytes());
    let host = spl_pod::optional_keys::OptionalNonZeroPubkey::try_from(None::<solana_program::pubkey::Pubkey>).unwrap();
    let ours = OptionalNonZeroPubkey::try_from_option(None).unwrap();
    assert_eq!(host.0.to_bytes(), ours.0.to_bytes());
}

#[test]
fn pubkey_equality() {
    assert!(key(4).equals(&key(4)));
    assert!(!key(4).equals(&key(5)));
    let mut bytes = [4u8; 32];
    bytes[31] = 0;
    assert!(!key(4).equals(&Pubkey::new_from_array(bytes)));
    assert_eq!(key(4), key(4));
}

#[test]
fn error_messages() {
    assert_eq!(RebaseError::InvalidRebaseType.message(), "rebase type must be either 1 or 2");
    assert_eq!(RebaseError::InsufficientShares.message(), "insufficient shares");
    assert_eq!(RebaseError::ArithmeticOverflow.message(), "arithmetic overflow");
}

#[test]
fn share_records_hold_their_fields() {
    let account = RebasingTokenAccount::default();
    assert_eq!(account.shares, 0);
    let mint = RebasingTokenMint { share_authority: OptionalNonZeroPubkey(key(1)), supply: 12 };
    assert_eq!(mint.supply, 12);
    assert_eq!(mint.share_authority.to_option(), Some(key(1)));
}

#[test]
fn default_records_are_empty() {
    let config = RebasingMintConfig::default();
    assert_eq!(config.rescale_type, 0);
    assert_eq!(config.rescale_authority.to_option(), None);
    assert_eq!(config.rescale_authority.0.to_bytes(), [0u8; 32]);
    assert_eq!(RebaseType::validate(config.rescale_type), Err(RebaseError::InvalidRebaseType));
    let mint = RebasingTokenMint::default();
    assert_eq!(mint.supply, 0);
    assert_eq!(mint.share_authority.to_option(), None);
    assert_eq!(Pubkey::default().to_bytes(), [0u8; 32]);
    assert_eq!(
        OptionalNonZeroPubkey::default(),
        OptionalNonZeroPubkey::try_from_option(None).unwrap()
    );
    assert_eq!(
        spl_pod::optional_keys::OptionalNonZeroPubkey::default().0.to_bytes(),
        OptionalNonZeroPubkey::default().0.to_bytes()
    );
}
