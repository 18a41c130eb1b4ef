use s_jup_interface::fees::{
    calc_quote_fees, calc_swap_protocol_fees, fee_pct_from_quotient, ten_to_the,
    CalcSwapProtocolFeesArgs, FeePct,
};
use s_jup_interface::types::Error;

#[test]
fn protocol_fee_is_the_share_of_the_spread_in_output_units() {
    // spread 100, 10% of it is 10 reference units, at 2 output units per
    // reference unit
    let fee = calc_swap_protocol_fees(CalcSwapProtocolFeesArgs {
        in_sol_value: 1_000,
        out_sol_value: 900,
        dst_lst_out: 1_800,
        trading_protocol_fee_bps: 1_000,
    });
    assert_eq!(fee, Ok(20));
}

#[test]
fn protocol_fee_rounds_the_share_up_and_the_conversion_down() {
    // spread 3 at 50%: 1.5 rounds up to 2; 2 * 5 / 7 rounds down to 1
    let fee = calc_swap_protocol_fees(CalcSwapProtocolFeesArgs {
        in_sol_value: 10,
        out_sol_value: 7,
        dst_lst_out: 5,
        trading_protocol_fee_bps: 5_000,
    });
    assert_eq!(fee, Ok(1));
}

#[test]
fn protocol_fee_without_spread_is_zero() {
    let fee = calc_swap_protocol_fees(CalcSwapProtocolFeesArgs {
        in_sol_value: 100,
        out_sol_value: 100,
        dst_lst_out: 50,
        trading_protocol_fee_bps: 10_000,
    });
    assert_eq!(fee, Ok(0));
}

#[test]
fn protocol_fee_refuses_bad_inputs() {
    let loss = CalcSwapProtocolFeesArgs {
        in_sol_value: 1,
        out_sol_value: 2,
        dst_lst_out: 1,
        trading_protocol_fee_bps: 0,
    };
    assert_eq!(calc_swap_protocol_fees(loss), Err(Error::Overflow));
    let rate = CalcSwapProtocolFeesArgs {
        in_sol_value: 2,
        out_sol_value: 1,
        dst_lst_out: 1,
        trading_protocol_fee_bps: 10_001,
    };
    assert_eq!(calc_swap_protocol_fees(rate), Err(Error::Overflow));
    let huge = CalcSwapProtocolFeesArgs {
        in_sol_value: u64::MAX,
        out_sol_value: 1,
        dst_lst_out: u64::MAX,
        trading_protocol_fee_bps: 10_000,
    };
    assert_eq!(calc_swap_protocol_fees(huge), Err(Error::Overflow));
}

#[test]
fn quote_fee_is_the_spread_over_the_input() {
    assert_eq!(calc_quote_fees(100, 75), Ok((25, FeePct { mantissa: 25, scale: 2 })));
    assert_eq!(calc_quote_fees(100, 100), Ok((0, FeePct { mantissa: 0, scale: 0 })));
    assert_eq!(calc_quote_fees(8, 0), Ok((8, FeePct { mantissa: 1, scale: 0 })));
}

#[test]
fn quote_fee_rate_of_a_third_stays_below_one() {
    let (fee, pct) = calc_quote_fees(3, 2).unwrap();
    assert_eq!(fee, 1);
    assert!(pct.scale <= 28);
    assert!(pct.mantissa > 0);
    assert!(pct.mantissa < ten_to_the(pct.scale));
    assert_eq!(pct.mantissa / ten_to_the(pct.scale - 4), 3333);
}

#[test]
fn quote_fee_needs_an_input_value_and_no_loss() {
    assert_eq!(calc_quote_fees(0, 0), Err(Error::Overflow));
    assert_eq!(calc_quote_fees(5, 6), Err(Error::Overflow));
}

#[test]
fn only_a_fraction_of_one_is_a_fee_rate() {
    assert_eq!(fee_pct_from_quotient(None), Err(Error::Overflow));
    assert_eq!(fee_pct_from_quotient(Some((-1, 0))), Err(Error::Overflow));
    assert_eq!(fee_pct_from_quotient(Some((11, 1))), Err(Error::Overflow));
    assert_eq!(fee_pct_from_quotient(Some((1, 29))), Err(Error::Overflow));
    assert_eq!(fee_pct_from_quotient(Some((10, 1))), Ok(FeePct { mantissa: 10, scale: 1 }));
    assert_eq!(fee_pct_from_quotient(Some((0, 28))), Ok(FeePct { mantissa: 0, scale: 28 }));
}

#[test]
fn powers_of_ten() {
    assert_eq!(ten_to_the(0), 1);
    assert_eq!(ten_to_the(3), 1_000);
    assert_eq!(ten_to_the(28), 10_000_000_000_000_000_000_000_000_000);
}
