use rebasing::amount::{amount_to_ui_amount_string_trimmed, shown_to_amount};
use rebasing::error::RebaseError;
use rebasing::ui_amount::{try_ui_amount_into_amount, ui_amount_round_trip};

#[test]
fn ui_amounts_are_read_with_their_decimals() {
    assert_eq!(try_ui_amount_into_amount("0.11", 2), Ok(11));
    assert_eq!(try_ui_amount_into_amount("1.1", 2), Ok(110));
    assert_eq!(try_ui_amount_into_amount("1", 2), Ok(100));
    assert_eq!(try_ui_amount_into_amount("1.", 2), Ok(100));
    assert_eq!(try_ui_amount_into_amount(".1", 2), Ok(10));
    assert_eq!(try_ui_amount_into_amount("0", 0), Ok(0));
    assert_eq!(try_ui_amount_into_amount("0.000", 2), Ok(0));
    assert_eq!(try_ui_amount_into_amount("1.000", 0), Ok(1));
    assert_eq!(try_ui_amount_into_amount("1.10", 1), Ok(11));
    assert_eq!(try_ui_amount_into_amount("007.5", 1), Ok(75));
    assert_eq!(try_ui_amount_into_amount("12.345", 9), Ok(12_345_000_000));
    assert_eq!(try_ui_amount_into_amount("0.000000001", 9), Ok(1));
}

#[test]
fn ui_amounts_that_write_nothing_are_refused() {
    let refused = [
        ("", 2),
        (".", 2),
        (".000", 2),
        ("0.111", 2),
        ("0.0011", 0),
        ("0.t", 2),
        ("1.2.3", 2),
        ("1..2", 2),
        ("+1", 2),
        ("-1", 2),
        ("1 ", 2),
        ("1,5", 2),
        ("1.5e3", 4),
        ("١", 0),
        ("1.½", 2),
    ];
    for (text, decimals) in refused {
        assert_eq!(try_ui_amount_into_amount(text, decimals), Err(RebaseError::InvalidArgument));
    }
}

#[test]
fn ui_amounts_at_the_edge_of_64_bits() {
    assert_eq!(try_ui_amount_into_amount("18446744073709551615", 0), Ok(u64::MAX));
    assert_eq!(
        try_ui_amount_into_amount("18446744073709551616", 0),
        Err(RebaseError::InvalidArgument)
    );
    assert_eq!(try_ui_amount_into_amount("184467440737095516.15", 2), Ok(u64::MAX));
    assert_eq!(
        try_ui_amount_into_amount("184467440737095516.16", 2),
        Err(RebaseError::InvalidArgument)
    );
    assert_eq!(
        try_ui_amount_into_amount("184467440737095517", 2),
        Err(RebaseError::InvalidArgument)
    );
    assert_eq!(try_ui_amount_into_amount("0.18446744073709551615", 20), Ok(u64::MAX));
    assert_eq!(try_ui_amount_into_amount("1", 19), Ok(10_000_000_000_000_000_000));
    assert_eq!(try_ui_amount_into_amount("1", 20), Err(RebaseError::InvalidArgument));
    assert_eq!(try_ui_amount_into_amount("0", 255), Ok(0));
    assert_eq!(try_ui_amount_into_amount("0.1", 255), Err(RebaseError::InvalidArgument));
    assert_eq!(
        try_ui_amount_into_amount("99999999999999999999999.5", 1),
        Err(RebaseError::InvalidArgument)
    );
    assert_eq!(
        try_ui_amount_into_amount("0.99999999999999999999999", 30),
        Err(RebaseError::InvalidArgument)
    );
}

#[test]
fn shown_amounts_are_read_back_as_themselves() {
    let amounts = [0u64, 1, 9, 10, 99, 100, 1005, 1050, 123456789, u64::MAX - 1, u64::MAX];
    let decimals = [0u8, 1, 2, 9, 18, 19, 20, 21, 100, 255];
    for amount in amounts {
        for places in decimals {
            assert_eq!(ui_amount_round_trip(amount, places), Ok(amount));
            let shown = amount_to_ui_amount_string_trimmed(amount, places);
            assert_eq!(try_ui_amount_into_amount(&shown, places), Ok(amount));
        }
    }
}

#[test]
fn shown_to_amount_scales_up() {
    assert_eq!(shown_to_amount(5000, 0, 1000000, 500000), Ok(10000));
    assert_eq!(shown_to_amount(5000, 9, 1000000, 500000), Ok(10000));
    assert_eq!(shown_to_amount(4219871, 255, 6829850799, 1406623726), Ok(20489551));
    assert_eq!(shown_to_amount(1, 0, 1, 0), Err(RebaseError::ArithmeticOverflow));
    assert_eq!(shown_to_amount(u64::MAX, 0, 2, 1), Err(RebaseError::ArithmeticOverflow));
}
