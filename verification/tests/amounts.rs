use rebasing::amount::{
    amount_to_scaled_display, amount_to_ui_amount_string_trimmed, checked_scale,
    display_to_amount, parse_amount, push_decimal,
};
use rebasing::error::RebaseError;
use rebasing::pubkey::{OptionalNonZeroPubkey, Pubkey};
use rebasing::rebasing_mint::RebasingMintConfig;

fn mint_config() -> RebasingMintConfig {
    RebasingMintConfig {
        rescale_authority: OptionalNonZeroPubkey(Pubkey::new_from_array([0u8; 32])),
        rescale_type: 2,
    }
}

#[test]
fn specific_amount_to_ui_amount() -> Result<(), RebaseError> {
    let config = mint_config();

    let ui_amount = config._try_amount_to_ui_amount(10000, 0, 1000000, 500000)?;
    assert_eq!(ui_amount, "5000");
    let ui_amount = config._try_amount_to_ui_amount(20489552, 0, 6829850799, 1406623726)?;
    assert_eq!(ui_amount, "4219871");
    let ui_amount = config._try_amount_to_ui_amount(75029540, 0, 9872307908, 3494106051)?;
    assert_eq!(ui_amount, "26555205");
    let ui_amount = config._try_amount_to_ui_amount(42739323, 0, 9713482589, 9363004432)?;
    assert_eq!(ui_amount, "41197219");
    let ui_amount = config._try_amount_to_ui_amount(3786730, 0, 9466825946, 6164962985)?;
    assert_eq!(ui_amount, "2465984");
    let ui_amount = config._try_amount_to_ui_amount(13125741, 0, 9375529681, 597054347)?;
    assert_eq!(ui_amount, "835876");
    let ui_amount = config._try_amount_to_ui_amount(23561988, 0, 3318589989, 4289267781)?;
    assert_eq!(ui_amount, "30453800");
    let ui_amount = config._try_amount_to_ui_amount(59388358, 0, 7814257711, 366902980)?;
    assert_eq!(ui_amount, "2788462");
    let ui_amount = config._try_amount_to_ui_amount(66880085, 0, 7687366139, 7801353630)?;
    assert_eq!(ui_amount, "67871776");
    let ui_amount = config._try_amount_to_ui_amount(10973742, 0, 4389497196, 9830771087)?;
    assert_eq!(ui_amount, "24576925");
    let ui_amount = config._try_amount_to_ui_amount(35649, 0, 118830159, 295365455)?;
    assert_eq!(ui_amount, "88609");
    let ui_amount = config._try_amount_to_ui_amount(19443795, 0, 4226912171, 6953104185)?;
    assert_eq!(ui_amount, "31984277");
    let ui_amount = config._try_amount_to_ui_amount(851433, 0, 946037185, 2606963479)?;
    assert_eq!(ui_amount, "2346265");
    let ui_amount = config._try_amount_to_ui_amount(13416217, 0, 4192567826, 4266339254)?;
    assert_eq!(ui_amount, "13652285");
    let ui_amount = config._try_amount_to_ui_amount(30960754, 0, 6450157188, 5525341320)?;
    assert_eq!(ui_amount, "26521637");
    let ui_amount = config._try_amount_to_ui_amount(21974491, 0, 2712900214, 4089512207)?;
    assert_eq!(ui_amount, "33125047");
    let ui_amount = config._try_amount_to_ui_amount(503232, 0, 1258081029, 4898826356)?;
    assert_eq!(ui_amount, "1959528");

    Ok(())
}

#[test]
fn specific_ui_amount_to_amount() -> Result<(), RebaseError> {
    let config = mint_config();

    let ui_amount = config._try_ui_amount_into_amount(5000, 0, 1_000_000, 500_000)?;
    assert_eq!(ui_amount, 10000);
    let ui_amount = config._try_ui_amount_into_amount(4219871, 0, 6829850799, 1406623726)?;
    assert_eq!(ui_amount, 20489551);
    let ui_amount = config._try_ui_amount_into_amount(26555205, 0, 9872307908, 3494106051)?;
    assert_eq!(ui_amount, 75029537);
    let ui_amount = config._try_ui_amount_into_amount(41197219, 0, 9713482589, 9363004432)?;
    assert_eq!(ui_amount, 42739322);
    let ui_amount = config._try_ui_amount_into_amount(2465984, 0, 9466825946, 6164962985)?;
    assert_eq!(ui_amount, 3786728);
    let ui_amount = config._try_ui_amount_into_amount(835876, 0, 9375529681, 597054347)?;
    assert_eq!(ui_amount, 13125740);
    let ui_amount = config._try_ui_amount_into_amount(30453800, 0, 3318589989, 4289267781)?;
    assert_eq!(ui_amount, 23561987);
    let ui_amount = config._try_ui_amount_into_amount(2788462, 0, 7814257711, 366902980)?;
    assert_eq!(ui_amount, 59388344);
    let ui_amount = config._try_ui_amount_into_amount(67871776, 0, 7687366139, 7801353630)?;
    assert_eq!(ui_amount, 66880084);
    let ui_amount = config._try_ui_amount_into_amount(24576925, 0, 4389497196, 9830771087)?;
    assert_eq!(ui_amount, 10973741);
    let ui_amount = config._try_ui_amount_into_amount(88609, 0, 118830159, 295365455)?;
    assert_eq!(ui_amount, 35648);
    let ui_amount = config._try_ui_amount_into_amount(31984277, 0, 4226912171, 6953104185)?;
    assert_eq!(ui_amount, 19443794);
    let ui_amount = config._try_ui_amount_into_amount(2346265, 0, 946037185, 2606963479)?;
    assert_eq!(ui_amount, 851432);
    let ui_amount = config._try_ui_amount_into_amount(13652285, 0, 4192567826, 4266339254)?;
    assert_eq!(ui_amount, 13416216);
    let ui_amount = config._try_ui_amount_into_amount(26521637, 0, 6450157188, 5525341320)?;
    assert_eq!(ui_amount, 30960752);
    let ui_amount = config._try_ui_amount_into_amount(33125047, 0, 2712900214, 4089512207)?;
    assert_eq!(ui_amount, 21974490);
    let ui_amount = config._try_ui_amount_into_amount(1959528, 0, 1258081029, 4898826356)?;
    assert_eq!(ui_amount, 503231);

    Ok(())
}

#[test]
fn scaled_display_vectors() {
    assert_eq!(amount_to_scaled_display(10000, 0, 1000000, 500000).unwrap(), "5000");
    assert_eq!(
        amount_to_scaled_display(20489552, 0, 6829850799, 1406623726).unwrap(),
        "4219871"
    );
}

#[test]
fn display_to_amount_vectors() {
    assert_eq!(display_to_amount("5000", 0, 1000000, 500000), Ok(10000));
    assert_eq!(display_to_amount("4219871", 0, 6829850799, 1406623726), Ok(20489551));
}

#[test]
fn scaled_display_rounds_down() {
    assert_eq!(amount_to_scaled_display(7, 0, 2, 1).unwrap(), "3");
    assert_eq!(amount_to_scaled_display(1, 0, 3, 2).unwrap(), "0");
    assert_eq!(amount_to_scaled_display(5, 0, 3, 2).unwrap(), "3");
}

#[test]
fn scaled_display_with_decimals() {
    assert_eq!(amount_to_scaled_display(2500, 2, 2, 1).unwrap(), "12.5");
    assert_eq!(amount_to_scaled_display(2400, 2, 2, 1).unwrap(), "12");
    assert_eq!(amount_to_scaled_display(10, 2, 2, 1).unwrap(), "0.05");
    assert_eq!(amount_to_scaled_display(0, 2, 2, 1).unwrap(), "0");
}

#[test]
fn zero_total_supply_is_an_arithmetic_error() {
    assert_eq!(amount_to_scaled_display(5, 0, 0, 7), Err(RebaseError::ArithmeticOverflow));
    assert_eq!(amount_to_scaled_display(0, 3, 0, 0), Err(RebaseError::ArithmeticOverflow));
    assert_eq!(checked_scale(5, 7, 0), Err(RebaseError::ArithmeticOverflow));
}

#[test]
fn zero_reference_quantity_is_an_arithmetic_error() {
    assert_eq!(display_to_amount("5", 0, 7, 0), Err(RebaseError::ArithmeticOverflow));
    assert_eq!(display_to_amount("0", 0, 0, 0), Err(RebaseError::ArithmeticOverflow));
}

#[test]
fn zero_reference_quantity_shows_zero() {
    assert_eq!(amount_to_scaled_display(5, 0, 7, 0).unwrap(), "0");
}

#[test]
fn product_overflow_is_an_arithmetic_error() {
    assert_eq!(
        amount_to_scaled_display(u64::MAX, 0, 1, 2),
        Err(RebaseError::ArithmeticOverflow)
    );
    assert_eq!(
        display_to_amount("18446744073709551615", 0, 2, 1),
        Err(RebaseError::ArithmeticOverflow)
    );
    assert_eq!(checked_scale(1 << 32, 1 << 32, 1), Err(RebaseError::ArithmeticOverflow));
    assert_eq!(checked_scale(1 << 32, (1 << 32) - 1, 1), Ok(18446744069414584320));
    assert_eq!(checked_scale(u64::MAX, 1, 1), Ok(u64::MAX));
}

#[test]
fn display_that_is_no_number_is_refused() {
    for text in ["", "1.5", "+5", "-5", " 5", "5 ", "5a", "0x10", "٣", "1_000", "."] {
        assert_eq!(display_to_amount(text, 0, 1, 1), Err(RebaseError::InvalidArgument));
    }
    assert_eq!(
        display_to_amount("18446744073709551616", 0, 1, 1),
        Err(RebaseError::InvalidArgument)
    );
    assert_eq!(display_to_amount("x", 0, 1, 0), Err(RebaseError::InvalidArgument));
}

#[test]
fn parse_amount_reads_digits() {
    assert_eq!(parse_amount("0"), Some(0));
    assert_eq!(parse_amount("007"), Some(7));
    assert_eq!(parse_amount("18446744073709551615"), Some(u64::MAX));
    assert_eq!(parse_amount("00018446744073709551615"), Some(u64::MAX));
    assert_eq!(parse_amount("18446744073709551616"), None);
    assert_eq!(parse_amount("99999999999999999999"), None);
    assert_eq!(parse_amount(""), None);
    assert_eq!(parse_amount("12é"), None);
}

#[test]
fn display_ignores_decimals_when_read() {
    assert_eq!(display_to_amount("12", 0, 3, 2), Ok(18));
    assert_eq!(display_to_amount("12", 6, 3, 2), Ok(18));
}

#[test]
fn round_trip_loses_at_most_the_truncation() {
    let cases: [(u64, u64, u64); 5] = [
        (10000, 1000000, 500000),
        (20489552, 6829850799, 1406623726),
        (7, 3, 2),
        (1, 1000, 1),
        (123456789, 1, 1000),
    ];
    for (amount, total_supply, reference) in cases {
        let shown = amount_to_scaled_display(amount, 0, total_supply, reference).unwrap();
        let back = display_to_amount(&shown, 0, total_supply, reference).unwrap();
        assert!(back <= amount);
        let lost = (amount - back) as u128 * reference as u128;
        assert!(lost < total_supply as u128 + reference as u128);
    }
    let shown = amount_to_scaled_display(20489552, 0, 6829850799, 1406623726).unwrap();
    assert_eq!(display_to_amount(&shown, 0, 6829850799, 1406623726), Ok(20489551));
}

#[test]
fn trimmed_string_drops_trailing_zeros() {
    assert_eq!(amount_to_ui_amount_string_trimmed(0, 0), "0");
    assert_eq!(amount_to_ui_amount_string_trimmed(5000, 0), "5000");
    assert_eq!(amount_to_ui_amount_string_trimmed(1, 9), "0.000000001");
    assert_eq!(amount_to_ui_amount_string_trimmed(1_000_000_000, 9), "1");
    assert_eq!(amount_to_ui_amount_string_trimmed(1_100_000_000, 9), "1.1");
    assert_eq!(amount_to_ui_amount_string_trimmed(1_000_000_100, 9), "1.0000001");
    assert_eq!(amount_to_ui_amount_string_trimmed(1000, 2), "10");
    assert_eq!(amount_to_ui_amount_string_trimmed(1005, 2), "10.05");
    assert_eq!(amount_to_ui_amount_string_trimmed(1050, 2), "10.5");
    assert_eq!(
        amount_to_ui_amount_string_trimmed(u64::MAX, 0),
        "18446744073709551615"
    );
    assert_eq!(
        amount_to_ui_amount_string_trimmed(u64::MAX, 19),
        "1.8446744073709551615"
    );
    assert_eq!(
        amount_to_ui_amount_string_trimmed(u64::MAX, 20),
        "0.18446744073709551615"
    );
    assert_eq!(
        amount_to_ui_amount_string_trimmed(u64::MAX, 22),
        "0.0018446744073709551615"
    );
    assert_eq!(
        amount_to_ui_amount_string_trimmed(10_000_000_000_000_000_000, 20),
        "0.1"
    );
    let long = amount_to_ui_amount_string_trimmed(1, 255);
    assert_eq!(long.len(), 257);
    assert!(long.starts_with("0.000"));
    assert!(long.ends_with("01"));
}

#[test]
fn push_decimal_appends() {
    let mut out = String::from("n=");
    push_decimal(&mut out, 0);
    push_decimal(&mut out, 1203);
    push_decimal(&mut out, u64::MAX);
    assert_eq!(out, "n=0120318446744073709551615");
}
