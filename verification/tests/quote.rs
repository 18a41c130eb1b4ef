use s_jup_interface::fees::FeePct;
use s_jup_interface::mirror::SPoolJup;
use s_jup_interface::quote::{
    apply_sync_sol_value, sync_sol_value_with_retval, Quote, QuoteAction, QuoteEvent, QuoteParams,
    QuoteSession, QuoteStage, QuoteStep, SwapMode,
};
use s_jup_interface::trade::QuoteAnswers;
use s_jup_interface::types::{
    CalcFamily, Error, LstData, LstState, Missing, PoolState, PricingProg, Pubkey, SolValCalc,
    U64ValueRange,
};

const A: u128 = 1;
const B: u128 = 2;

fn key(n: u128) -> Pubkey {
    Pubkey { hi: 7, lo: n }
}

fn calc(mint: u128) -> SolValCalc {
    SolValCalc { family: CalcFamily::Wsol, lst_mint: key(mint), program_id: key(100 + mint) }
}

fn state(mint: u128, sol_value: u64) -> LstState {
    LstState {
        mint: key(mint),
        sol_value_calculator: key(100 + mint),
        sol_value,
        pool_reserves_bump: 255,
        protocol_fee_accumulator_bump: 255,
        is_input_disabled: false,
    }
}

fn data(mint: u128, balance: Option<u64>) -> Option<LstData> {
    Some(LstData { sol_val_calc: calc(mint), reserves_balance: balance, token_program: key(500) })
}

fn pool_state(fee_bps: u16) -> PoolState {
    PoolState {
        admin: key(300),
        lp_token_mint: key(301),
        pricing_program: key(302),
        trading_protocol_fee_bps: fee_bps,
        lp_protocol_fee_bps: 0,
        total_sol_value: 2_000_000,
    }
}

/// Asset A: 1_000_000 in reserve, one unit worth one reference unit.
/// Asset B: 500_000 in reserve, one unit worth two reference units.
fn pool(fee_bps: u16) -> SPoolJup {
    SPoolJup {
        program_id: key(400),
        lst_state_list_addr: key(401),
        pool_state_addr: key(402),
        lp_mint_supply: None,
        pool_state_account: Some(pool_state(fee_bps)),
        lst_state_list_account: vec![state(A, 1_000_000), state(B, 1_000_000)],
        pricing_prog: Some(PricingProg { program_id: key(302) }),
        lst_data_list: vec![data(A, Some(1_000_000)), data(B, Some(500_000))],
    }
}

fn params(amount: u64) -> QuoteParams {
    QuoteParams { amount, input_mint: key(A), output_mint: key(B), swap_mode: SwapMode::ExactIn }
}

fn exact(v: u64) -> QuoteEvent {
    QuoteEvent::Valued(U64ValueRange { min: v, max: v })
}

fn next(step: QuoteStep) -> QuoteSession {
    match step {
        QuoteStep::Next(s) => s,
        other => panic!("the session ended: {:?}", other),
    }
}

/// Runs a session with the two calculators of the pool above and a pricing
/// policy that gives `priced` for the input's value.
fn run(pool: &SPoolJup, amount: u64, priced: u64) -> QuoteStep {
    let mut session = pool.quote_swap_exact_in(&params(amount)).unwrap();
    loop {
        let event = match session.action() {
            QuoteAction::LstToSol { calc: c, amount } => {
                if c.lst_mint == key(A) {
                    exact(amount)
                } else {
                    exact(amount * 2)
                }
            }
            QuoteAction::SolToLst { calc: c, sol_value } => {
                if c.lst_mint == key(A) {
                    exact(sol_value)
                } else {
                    QuoteEvent::Valued(U64ValueRange { min: sol_value / 2, max: (sol_value + 1) / 2 })
                }
            }
            QuoteAction::PriceExactIn { .. } => QuoteEvent::Priced(priced),
        };
        match session.step(event) {
            QuoteStep::Next(s) => session = s,
            end => return end,
        }
    }
}

#[test]
fn swap_without_spread_quotes_half_the_units() {
    let quote = run(&pool(1_000), 100, 100);
    assert_eq!(
        quote,
        QuoteStep::Done(Quote {
            not_enough_liquidity: false,
            min_in_amount: None,
            min_out_amount: None,
            in_amount: 100,
            out_amount: 50,
            fee_mint: key(B),
            fee_amount: 0,
            fee_pct: FeePct { mantissa: 0, scale: 0 },
        })
    );
}

#[test]
fn price_above_the_input_value_is_a_value_loss() {
    assert_eq!(run(&pool(1_000), 100, 101), QuoteStep::Failed(Error::ValueLoss));
}

#[test]
fn input_worth_nothing_is_a_zero_value() {
    assert_eq!(run(&pool(1_000), 0, 0), QuoteStep::Failed(Error::ZeroValue));
}

#[test]
fn output_of_nothing_is_a_zero_value() {
    // one reference unit buys half a unit of B, which rounds down to none
    assert_eq!(run(&pool(1_000), 1, 1), QuoteStep::Failed(Error::ZeroValue));
}

#[test]
fn spread_is_reported_as_fee() {
    let quote = run(&pool(1_000), 1_000, 900);
    assert_eq!(
        quote,
        QuoteStep::Done(Quote {
            not_enough_liquidity: false,
            min_in_amount: None,
            min_out_amount: None,
            in_amount: 1_000,
            out_amount: 450,
            fee_mint: key(B),
            fee_amount: 50,
            fee_pct: FeePct { mantissa: 10, scale: 2 },
        })
    );
}

#[test]
fn output_beyond_the_reserves_is_flagged_not_refused() {
    // 1_000_000 reference units buy 500_000 of B, all of the reserves
    match run(&pool(0), 1_000_000, 1_000_000) {
        QuoteStep::Done(q) => {
            assert_eq!(q.out_amount, 500_000);
            assert!(!q.not_enough_liquidity);
        }
        other => panic!("no quote: {:?}", other),
    }
    match run(&pool(0), 1_000_002, 1_000_002) {
        QuoteStep::Done(q) => {
            assert_eq!(q.out_amount, 500_001);
            assert!(q.not_enough_liquidity);
        }
        other => panic!("no quote: {:?}", other),
    }
    // the protocol fee counts towards what is drawn: 999_000 / 2 plus the
    // fee of 1_000 * 499_500 / 999_000 = 500
    match run(&pool(10_000), 1_000_000, 999_000) {
        QuoteStep::Done(q) => {
            assert_eq!(q.out_amount, 499_500);
            assert!(!q.not_enough_liquidity);
        }
        other => panic!("no quote: {:?}", other),
    }
    // with a spread of 1_002 the fee is 501, one unit too many
    match run(&pool(10_000), 1_000_002, 999_000) {
        QuoteStep::Done(q) => {
            assert_eq!(q.out_amount, 499_500);
            assert!(q.not_enough_liquidity);
        }
        other => panic!("no quote: {:?}", other),
    }
}

#[test]
fn session_asks_in_order() {
    let session = pool(0).quote_swap_exact_in(&params(100)).unwrap();
    assert_eq!(session.stage, QuoteStage::SyncInput);
    assert_eq!(session.action(), QuoteAction::LstToSol { calc: calc(A), amount: 1_000_000 });
    let session = next(session.step(exact(1_000_000)));
    assert_eq!(session.action(), QuoteAction::LstToSol { calc: calc(B), amount: 500_000 });
    let session = next(session.step(exact(1_000_000)));
    assert_eq!(session.action(), QuoteAction::LstToSol { calc: calc(A), amount: 100 });
    let session = next(session.step(QuoteEvent::Valued(U64ValueRange { min: 99, max: 100 })));
    assert_eq!(session.in_sol_value, 99);
    assert_eq!(
        session.action(),
        QuoteAction::PriceExactIn {
            input_lst_mint: key(A),
            output_lst_mint: key(B),
            amount: 100,
            sol_value: 99
        }
    );
    let session = next(session.step(QuoteEvent::Priced(90)));
    assert_eq!(session.action(), QuoteAction::SolToLst { calc: calc(B), sol_value: 90 });
    let session = next(session.step(exact(45)));
    assert_eq!(session.stage, QuoteStage::ValueFee);
    assert_eq!(session.action(), QuoteAction::SolToLst { calc: calc(B), sol_value: 9 });
}

#[test]
fn failure_of_a_calculator_ends_the_session() {
    let session = pool(0).quote_swap_exact_in(&params(100)).unwrap();
    assert_eq!(
        session.step(QuoteEvent::Failed(Error::MalformedState)),
        QuoteStep::Failed(Error::MalformedState)
    );
    assert_eq!(
        session.step(QuoteEvent::Priced(1)),
        QuoteStep::Failed(Error::NotReady(Missing::Answer))
    );
}

#[test]
fn quote_needs_fetched_state() {
    let mut p = pool(0);
    p.pool_state_account = None;
    assert_eq!(p.quote_swap_exact_in(&params(1)), Err(Error::NotReady(Missing::PoolState)));
    let mut p = pool(0);
    p.pricing_prog = None;
    assert_eq!(p.quote_swap_exact_in(&params(1)), Err(Error::NotReady(Missing::PricingProg)));
    let mut p = pool(0);
    p.lst_data_list[1] = data(B, None);
    assert_eq!(
        p.quote_swap_exact_in(&params(1)),
        Err(Error::NotReady(Missing::ReservesBalance(key(B))))
    );
    let mut p = pool(0);
    p.lst_data_list[0] = None;
    assert_eq!(p.quote_swap_exact_in(&params(1)), Err(Error::Unsupported(key(A))));
    let p = pool(0);
    let unknown = QuoteParams { output_mint: key(9), ..params(1) };
    assert_eq!(p.quote_swap_exact_in(&unknown), Err(Error::NotFound(key(9))));
}

#[test]
fn sync_moves_the_total_by_the_difference() {
    let (p, l) = sync_sol_value_with_retval(pool_state(0), state(A, 1_000_000), 1_200_000).unwrap();
    assert_eq!(p.total_sol_value, 2_200_000);
    assert_eq!(l.sol_value, 1_200_000);
    assert_eq!(
        sync_sol_value_with_retval(pool_state(0), state(A, 2_000_001), 0),
        Err(Error::Overflow)
    );
    assert_eq!(
        sync_sol_value_with_retval(pool_state(0), state(A, 0), u64::MAX),
        Err(Error::Overflow)
    );
}

#[test]
fn sync_uses_the_lower_bound_and_needs_a_balance() {
    let bound = data(A, Some(77)).unwrap();
    let r = apply_sync_sol_value(
        pool_state(0),
        state(A, 1_000_000),
        &bound,
        U64ValueRange { min: 10, max: 20 },
    );
    let (p, l, balance) = r.unwrap();
    assert_eq!(p.total_sol_value, 1_000_010);
    assert_eq!(l.sol_value, 10);
    assert_eq!(balance, 77);
    let unbound = data(A, None).unwrap();
    assert_eq!(
        apply_sync_sol_value(pool_state(0), state(A, 0), &unbound, U64ValueRange { min: 1, max: 1 }),
        Err(Error::NotReady(Missing::ReservesBalance(key(A))))
    );
}

fn answers(input_value: u64, price: u64, output_amount: u64, fee_amount: u64) -> QuoteAnswers {
    QuoteAnswers {
        input_reserves: exact(1_000_000),
        output_reserves: exact(1_000_000),
        input_value: exact(input_value),
        price: QuoteEvent::Priced(price),
        output_amount: exact(output_amount),
        fee_amount: exact(fee_amount),
    }
}

#[test]
fn quote_on_given_answers() {
    let quote = pool(1_000).quote_with_answers(&params(100), &answers(100, 80, 40, 10)).unwrap();
    assert_eq!(
        quote,
        Quote {
            not_enough_liquidity: false,
            min_in_amount: None,
            min_out_amount: None,
            in_amount: 100,
            out_amount: 40,
            fee_mint: key(B),
            fee_amount: 10,
            fee_pct: FeePct { mantissa: 20, scale: 2 },
        }
    );
}

#[test]
fn quote_on_given_answers_fails_as_the_session_does() {
    let p = pool(1_000);
    assert_eq!(p.quote_with_answers(&params(100), &answers(0, 0, 1, 0)), Err(Error::ZeroValue));
    assert_eq!(p.quote_with_answers(&params(100), &answers(10, 11, 1, 0)), Err(Error::ValueLoss));
    assert_eq!(p.quote_with_answers(&params(100), &answers(10, 10, 0, 0)), Err(Error::ZeroValue));
    let failed = QuoteAnswers { output_reserves: QuoteEvent::Failed(Error::Overflow), ..answers(1, 1, 1, 0) };
    assert_eq!(p.quote_with_answers(&params(100), &failed), Err(Error::Overflow));
    let mixed = QuoteAnswers { price: exact(5), ..answers(10, 5, 1, 0) };
    assert_eq!(
        p.quote_with_answers(&params(100), &mixed),
        Err(Error::NotReady(Missing::Answer))
    );
    let mut stale = p.clone();
    stale.lst_state_list_account[0].sol_value = 3_000_000;
    assert_eq!(stale.quote_with_answers(&params(100), &answers(1, 1, 1, 0)), Err(Error::Overflow));
    let unknown = QuoteParams { input_mint: key(9), ..params(1) };
    assert_eq!(
        p.quote_with_answers(&unknown, &answers(1, 1, 1, 0)),
        Err(Error::NotFound(key(9)))
    );
}
